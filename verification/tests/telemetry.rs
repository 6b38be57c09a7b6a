use gpu_telemetry::collector::collect_pass;
use gpu_telemetry::collector::lookup;
use gpu_telemetry::collector::LookupError;
use gpu_telemetry::snapshot::bytes_to_mib;
use gpu_telemetry::snapshot::milliwatts_to_watts;
use gpu_telemetry::snapshot::normalize;
use gpu_telemetry::snapshot::GlobalMetadata;
use gpu_telemetry::snapshot::RawDeviceReading;
use gpu_telemetry::stream::replay;
use gpu_telemetry::stream::StreamSession;

fn meta() -> GlobalMetadata {
    GlobalMetadata {
        driver_version: String::from("550.54.14"),
        cuda_version: 12040,
        nvml_version: String::from("12.550.54.14"),
    }
}

fn raw(name: &str) -> RawDeviceReading {
    RawDeviceReading {
        name: String::from(name),
        memory_total_bytes: 8589934592,
        memory_used_bytes: 1073741824,
        utilization_gpu: 42,
        utilization_memory: 17,
        power_milliwatts: 125000,
    }
}

#[test]
fn bytes_to_mib_truncates_at_boundaries() {
    assert_eq!(bytes_to_mib(0), 0);
    assert_eq!(bytes_to_mib(1048575), 0);
    assert_eq!(bytes_to_mib(1048576), 1);
    assert_eq!(bytes_to_mib(1048577), 1);
    assert_eq!(bytes_to_mib(2097151), 1);
    assert_eq!(bytes_to_mib(2097152), 2);
    assert_eq!(bytes_to_mib(u64::MAX), u64::MAX / 1048576);
}

#[test]
fn milliwatts_to_watts_truncates() {
    assert_eq!(milliwatts_to_watts(0), 0);
    assert_eq!(milliwatts_to_watts(999), 0);
    assert_eq!(milliwatts_to_watts(1000), 1);
    assert_eq!(milliwatts_to_watts(125000), 125);
    assert_eq!(milliwatts_to_watts(125999), 125);
}

#[test]
fn normalize_applies_unit_conversions() {
    let s = normalize(0, &raw("GPU A"), &meta());
    assert_eq!(s.id, 0);
    assert_eq!(s.memory_total_mib, 8192);
    assert_eq!(s.memory_used_mib, 1024);
    assert_eq!(s.power_usage, 125);
    assert_eq!(s.utilization_gpu, 42);
    assert_eq!(s.memory_util, 17);
    assert_eq!(s.name, "GPU A");
    assert_eq!(s.driver_version, "550.54.14");
    assert_eq!(s.cuda_version, 12040);
    assert_eq!(s.nvml_version, "12.550.54.14");
}

#[test]
fn normalize_passes_utilization_through_unclamped() {
    let mut r = raw("GPU A");
    r.utilization_gpu = 250;
    r.utilization_memory = 101;
    let s = normalize(3, &r, &meta());
    assert_eq!(s.utilization_gpu, 250);
    assert_eq!(s.memory_util, 101);
}

#[test]
fn collect_pass_of_no_devices_is_empty() {
    let pass = collect_pass(&meta(), &Vec::new());
    assert!(pass.is_empty());
}

#[test]
fn collect_pass_skips_failed_devices() {
    let raws = vec![Some(raw("GPU 0")), None, Some(raw("GPU 2"))];
    let pass = collect_pass(&meta(), &raws);
    assert_eq!(pass.len(), 2);
    assert_eq!(pass[0].id, 0);
    assert_eq!(pass[0].name, "GPU 0");
    assert_eq!(pass[1].id, 2);
    assert_eq!(pass[1].name, "GPU 2");
}

#[test]
fn collect_pass_keeps_every_healthy_device_in_order() {
    let raws = vec![
        Some(raw("GPU 0")),
        Some(raw("GPU 1")),
        Some(raw("GPU 2")),
        Some(raw("GPU 3")),
    ];
    let pass = collect_pass(&meta(), &raws);
    assert_eq!(pass.len(), 4);
    for (i, s) in pass.iter().enumerate() {
        assert_eq!(s.id as usize, i);
    }
}

#[test]
fn collect_pass_is_never_longer_than_the_enumeration() {
    let raws = vec![None, Some(raw("GPU 1")), None];
    let pass = collect_pass(&meta(), &raws);
    assert!(pass.len() <= raws.len());
    assert_eq!(pass.len(), 1);
    assert_eq!(pass[0].id, 1);
}

#[test]
fn lookup_in_range_returns_snapshot_with_that_id() {
    let r = lookup(1, 3, &meta(), Some(raw("GPU 1")));
    match r {
        Ok(s) => {
            assert_eq!(s.id, 1);
            assert_eq!(s.name, "GPU 1");
        }
        Err(_) => panic!("in-range lookup with a healthy device must succeed"),
    }
}

#[test]
fn lookup_in_range_failure_is_internal_not_not_found() {
    let r = lookup(1, 3, &meta(), None);
    assert_eq!(r.err(), Some(LookupError::Internal));
}

#[test]
fn lookup_beyond_count_is_not_found() {
    let r = lookup(4, 3, &meta(), None);
    assert_eq!(r.err(), Some(LookupError::NotFound));
    let r = lookup(u32::MAX, 3, &meta(), None);
    assert_eq!(r.err(), Some(LookupError::NotFound));
}

#[test]
fn lookup_at_count_boundary_is_internal() {
    // The count check admits id == count as in-range; the device fetch for
    // that ordinal then fails, so the boundary surfaces as Internal rather
    // than NotFound. This pins the preserved policy.
    let r = lookup(3, 3, &meta(), None);
    assert_eq!(r.err(), Some(LookupError::Internal));
}

#[test]
fn lookup_with_zero_devices() {
    // With no devices enumerable, ordinal 0 sits exactly on the boundary:
    // the count check admits it, the device fetch fails, and the outcome
    // is Internal. Every larger ordinal is NotFound.
    let r = lookup(0, 0, &meta(), None);
    assert_eq!(r.err(), Some(LookupError::Internal));
    let r = lookup(1, 0, &meta(), None);
    assert_eq!(r.err(), Some(LookupError::NotFound));
}

#[test]
fn session_stays_open_while_pushes_deliver() {
    let mut session = StreamSession::new();
    assert!(session.should_push());
    for _ in 0..5 {
        session.record_push(true);
        assert!(session.should_push());
    }
}

#[test]
fn session_closes_on_first_failed_push_and_never_reopens() {
    let mut session = StreamSession::new();
    for _ in 0..3 {
        session.record_push(true);
    }
    assert!(session.should_push());
    session.record_push(false);
    assert!(!session.should_push());
    session.record_push(true);
    assert!(!session.should_push());
}

#[test]
fn session_loop_issues_no_push_after_disconnect() {
    // Outcomes the transport would report for each attempted push: three
    // deliveries, then a disconnect; anything after must never be reached.
    let outcomes = [true, true, true, false, true, true];
    let mut session = StreamSession::new();
    let mut pushes_attempted: usize = 0;
    while session.should_push() {
        let delivered = outcomes[pushes_attempted];
        pushes_attempted += 1;
        session.record_push(delivered);
    }
    assert_eq!(pushes_attempted, 4);
}

#[test]
fn replay_matches_the_event_history() {
    assert!(replay(&Vec::new()).should_push());
    assert!(replay(&vec![true, true, true]).should_push());
    assert!(!replay(&vec![true, false]).should_push());
    assert!(!replay(&vec![true, false, true, true]).should_push());
    assert!(!replay(&vec![false]).should_push());
}
