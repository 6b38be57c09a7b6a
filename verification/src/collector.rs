//! Telemetry collector: one full sampling pass over every enumerable
//! device, and the single-device lookup. The pass is best-effort — a
//! device that fails to yield a reading is silently skipped — while a
//! targeted lookup surfaces the failure instead of hiding it.

use vstd::prelude::*;
use crate::provider::Provider;
use crate::provider::ProviderError;
use crate::snapshot::GlobalMetadata;
use crate::snapshot::GpuSnapshot;
use crate::snapshot::RawDeviceReading;
use crate::snapshot::is_normalized;
use crate::snapshot::normalize;

verus! {

/// How a single-device lookup can fail: the id is beyond the device count,
/// the device is present but could not be queried, or the provider itself
/// failed before the device was reached (count or metadata query).
#[derive(Clone, Copy, Debug, PartialEq, Eq, Structural)]
pub enum LookupError {
    NotFound,
    Internal,
    Provider,
}

/// Snapshot ids within one pass are strictly ascending (hence unique).
pub open spec fn ids_ascending(pass: Seq<GpuSnapshot>) -> bool {
    forall|j1: int, j2: int|
        0 <= j1 < j2 < pass.len() ==> pass[j1].id < pass[j2].id
}

/// Every snapshot of the pass is the normalization of the raw reading at
/// its own ordinal, and that ordinal did yield a reading.
pub open spec fn pass_sound(
    pass: Seq<GpuSnapshot>,
    raws: Seq<Option<RawDeviceReading>>,
    meta: GlobalMetadata,
) -> bool {
    forall|j: int|
        0 <= j < pass.len() ==> {
            &&& #[trigger] pass[j].id < raws.len()
            &&& raws[pass[j].id as int] is Some
            &&& is_normalized(pass[j], pass[j].id, raws[pass[j].id as int]->0, meta)
        }
}

/// Every ordinal that yielded a reading appears in the pass.
pub open spec fn pass_complete(pass: Seq<GpuSnapshot>, raws: Seq<Option<RawDeviceReading>>) -> bool {
    forall|i: int|
        0 <= i < raws.len() && raws[i] is Some ==> exists|j: int|
            0 <= j < pass.len() && #[trigger] pass[j].id == i
}

/// Builds one sampling pass from the raw readings of a full enumeration:
/// `raws[i]` holds device `i`'s reading, or `None` if device `i` failed to
/// yield one and is to be skipped. The result holds exactly the devices
/// that yielded readings, normalized, in ascending ordinal order.
pub fn collect_pass(meta: &GlobalMetadata, raws: &Vec<Option<RawDeviceReading>>) -> (pass: Vec<
    GpuSnapshot,
>)
    requires
        raws@.len() <= u32::MAX,
    ensures
        pass@.len() <= raws@.len(),
        ids_ascending(pass@),
        pass_sound(pass@, raws@, *meta),
        pass_complete(pass@, raws@),
{
    let mut pass: Vec<GpuSnapshot> = Vec::new();
    let mut i: usize = 0;
    while i < raws.len()
        invariant
            i <= raws@.len(),
            raws@.len() <= u32::MAX,
            pass@.len() <= i,
            ids_ascending(pass@),
            forall|j: int|
                0 <= j < pass@.len() ==> {
                    &&& #[trigger] pass@[j].id < i
                    &&& raws@[pass@[j].id as int] is Some
                    &&& is_normalized(pass@[j], pass@[j].id, raws@[pass@[j].id as int]->0, *meta)
                },
            forall|k: int|
                0 <= k < i && raws@[k] is Some ==> exists|j: int|
                    0 <= j < pass@.len() && #[trigger] pass@[j].id == k,
        decreases raws@.len() - i,
    {
        match &raws[i] {
            Some(raw) => {
                let snapshot = normalize(i as u32, raw, meta);
                let ghost pass_before: Seq<GpuSnapshot> = pass@;
                pass.push(snapshot);
                proof {
                    assert forall|k: int| 0 <= k <= i && raws@[k] is Some implies exists|j: int|
                        0 <= j < pass@.len() && #[trigger] pass@[j].id == k by {
                        if k == i as int {
                            assert(pass@[pass@.len() - 1].id == k);
                        } else {
                            let j0 = choose|j: int|
                                0 <= j < pass_before.len() && #[trigger] pass_before[j].id == k;
                            assert(pass@[j0].id == k);
                        }
                    }
                }
            },
            None => {},
        }
        i = i + 1;
    }
    pass
}

/// The exact outcome of a single-device lookup, given the device count,
/// the pass-wide metadata, and the device's raw reading (`None` when the
/// device failed to yield one). The count check admits `id == count` as
/// in-range, so that boundary ordinal surfaces the failed device fetch as
/// `Internal` rather than `NotFound` — preserved observable behavior.
pub open spec fn lookup_post(
    r: Result<GpuSnapshot, LookupError>,
    id: u32,
    count: u32,
    meta: GlobalMetadata,
    raw: Option<RawDeviceReading>,
) -> bool {
    &&& (id > count ==> r == Err::<GpuSnapshot, LookupError>(LookupError::NotFound))
    &&& (id <= count && raw is Some ==> r is Ok && is_normalized(r->Ok_0, id, raw->0, meta))
    &&& (id <= count && raw is None ==> r == Err::<GpuSnapshot, LookupError>(LookupError::Internal))
}

/// Resolves a single-device lookup from plain values: the requested id,
/// the device count, the metadata, and the device's raw reading if it
/// yielded one.
pub fn lookup(id: u32, count: u32, meta: &GlobalMetadata, raw: Option<RawDeviceReading>) -> (r:
    Result<GpuSnapshot, LookupError>)
    ensures
        lookup_post(r, id, count, *meta, raw),
{
    if id > count {
        Err(LookupError::NotFound)
    } else {
        match raw {
            Some(raw) => Ok(normalize(id, &raw, meta)),
            None => Err(LookupError::Internal),
        }
    }
}

/// A lookup with a valid ordinal (`id < count`) never reports `NotFound`:
/// it returns either a snapshot carrying that ordinal or `Internal`.
pub proof fn lemma_in_range_lookup_never_not_found(
    r: Result<GpuSnapshot, LookupError>,
    id: u32,
    count: u32,
    meta: GlobalMetadata,
    raw: Option<RawDeviceReading>,
)
    requires
        id < count,
        lookup_post(r, id, count, meta, raw),
    ensures
        r != Err::<GpuSnapshot, LookupError>(LookupError::NotFound),
        r is Ok ==> r->Ok_0.id == id,
        r is Err ==> r->Err_0 == LookupError::Internal,
{
}

/// The boundary ordinal `id == count` passes the count check, so with no
/// reading to show it surfaces as `Internal`, not `NotFound`.
pub proof fn lemma_boundary_lookup_is_internal(
    r: Result<GpuSnapshot, LookupError>,
    count: u32,
    meta: GlobalMetadata,
)
    requires
        lookup_post(r, count, count, meta, None::<RawDeviceReading>),
    ensures
        r == Err::<GpuSnapshot, LookupError>(LookupError::Internal),
{
}

/// Ascending ids are unique: no two positions of one pass share an id.
pub proof fn lemma_pass_ids_unique(pass: Seq<GpuSnapshot>)
    requires
        ids_ascending(pass),
    ensures
        forall|j1: int, j2: int|
            0 <= j1 < pass.len() && 0 <= j2 < pass.len() && j1 != j2 ==> pass[j1].id != pass[
                j2
            ].id,
{
}

impl Provider {
    /// One full best-effort sampling pass: enumerate, fetch metadata once,
    /// then query each device in ascending ordinal order, skipping any
    /// device that fails to yield a reading. Fails only when the count or
    /// metadata query itself fails.
    pub fn collect_all(&self) -> (r: Result<Vec<GpuSnapshot>, ProviderError>)
        ensures
            r is Ok ==> ids_ascending(r->Ok_0@),
            r is Err ==> r->Err_0 == ProviderError::Query,
    {
        let count = match self.device_count() {
            Ok(c) => c,
            Err(e) => return Err(e),
        };
        let meta = match self.global_metadata() {
            Ok(m) => m,
            Err(e) => return Err(e),
        };
        let mut raws: Vec<Option<RawDeviceReading>> = Vec::new();
        let mut i: u32 = 0;
        while i < count
            invariant
                i <= count,
                raws@.len() == i,
            decreases count - i,
        {
            match self.device_snapshot_raw(i) {
                Ok(raw) => raws.push(Some(raw)),
                Err(_) => raws.push(None),
            }
            i = i + 1;
        }
        Ok(collect_pass(&meta, &raws))
    }

    /// Single-device lookup: enumerate, apply the count check (ids beyond
    /// the count are `NotFound`), fetch metadata, then query the device
    /// and surface a failed device query as `Internal`. A snapshot that
    /// comes back always carries the requested ordinal.
    pub fn collect_one(&self, id: u32) -> (r: Result<GpuSnapshot, LookupError>)
        ensures
            r is Ok ==> r->Ok_0.id == id,
    {
        let count = match self.device_count() {
            Ok(c) => c,
            Err(_) => return Err(LookupError::Provider),
        };
        if id > count {
            return Err(LookupError::NotFound);
        }
        let meta = match self.global_metadata() {
            Ok(m) => m,
            Err(_) => return Err(LookupError::Provider),
        };
        let raw = match self.device_snapshot_raw(id) {
            Ok(raw) => Some(raw),
            Err(_) => None,
        };
        lookup(id, count, &meta, raw)
    }
}

} // verus!
