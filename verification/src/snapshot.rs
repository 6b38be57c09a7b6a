//! Raw device readings, global driver metadata, and their normalization
//! into the canonical snapshot record.

use vstd::prelude::*;

verus! {

/// Bytes per mebibyte, used for the memory unit conversion.
pub const BYTES_PER_MIB: u64 = 1048576;

/// Milliwatts per watt, used for the power unit conversion.
pub const MILLIWATTS_PER_WATT: u32 = 1000;

/// One device's raw counters as the hardware library reports them:
/// memory in bytes, power in milliwatts, utilizations in raw percent.
pub struct RawDeviceReading {
    pub name: String,
    pub memory_total_bytes: u64,
    pub memory_used_bytes: u64,
    pub utilization_gpu: u32,
    pub utilization_memory: u32,
    pub power_milliwatts: u32,
}

/// Driver-wide metadata, identical for every device in one sampling pass.
pub struct GlobalMetadata {
    pub driver_version: String,
    pub cuda_version: i32,
    pub nvml_version: String,
}

/// One device at one instant, in the external schema: memory in MiB
/// (truncating division), power in watts (truncating division),
/// utilizations passed through unclamped.
pub struct GpuSnapshot {
    pub memory_total_mib: u64,
    pub memory_used_mib: u64,
    pub memory_util: u32,
    pub power_usage: u32,
    pub id: u32,
    pub utilization_gpu: u32,
    pub cuda_version: i32,
    pub name: String,
    pub driver_version: String,
    pub nvml_version: String,
}

/// Converts a byte count to whole mebibytes, truncating.
pub fn bytes_to_mib(bytes: u64) -> (mib: u64)
    ensures
        mib == bytes / BYTES_PER_MIB,
{
    proof {
        vstd::arithmetic::div_mod::lemma_div_denominator(bytes as int, 1024, 1024);
    }
    bytes / 1024 / 1024
}

/// Converts a milliwatt count to whole watts, truncating.
pub fn milliwatts_to_watts(milliwatts: u32) -> (watts: u32)
    ensures
        watts == milliwatts / MILLIWATTS_PER_WATT,
{
    milliwatts / 1000
}

/// The normalization relation: `snapshot` is exactly what `raw` and `meta`
/// yield for device ordinal `id` under the unit conversions above.
pub open spec fn is_normalized(
    snapshot: GpuSnapshot,
    id: u32,
    raw: RawDeviceReading,
    meta: GlobalMetadata,
) -> bool {
    &&& snapshot.id == id
    &&& snapshot.memory_total_mib == raw.memory_total_bytes / BYTES_PER_MIB
    &&& snapshot.memory_used_mib == raw.memory_used_bytes / BYTES_PER_MIB
    &&& snapshot.memory_util == raw.utilization_memory
    &&& snapshot.utilization_gpu == raw.utilization_gpu
    &&& snapshot.power_usage == raw.power_milliwatts / MILLIWATTS_PER_WATT
    &&& snapshot.name@ == raw.name@
    &&& snapshot.cuda_version == meta.cuda_version
    &&& snapshot.driver_version@ == meta.driver_version@
    &&& snapshot.nvml_version@ == meta.nvml_version@
}

/// Builds the canonical snapshot for device ordinal `id` from one raw
/// reading and the pass-wide metadata. Pure: no error path, no clamping.
pub fn normalize(id: u32, raw: &RawDeviceReading, meta: &GlobalMetadata) -> (snapshot: GpuSnapshot)
    ensures
        is_normalized(snapshot, id, *raw, *meta),
{
    GpuSnapshot {
        memory_total_mib: bytes_to_mib(raw.memory_total_bytes),
        memory_used_mib: bytes_to_mib(raw.memory_used_bytes),
        memory_util: raw.utilization_memory,
        power_usage: milliwatts_to_watts(raw.power_milliwatts),
        id,
        utilization_gpu: raw.utilization_gpu,
        cuda_version: meta.cuda_version,
        name: raw.name.clone(),
        driver_version: meta.driver_version.clone(),
        nvml_version: meta.nvml_version.clone(),
    }
}

} // verus!
