//! Device query adapter: owns the handle to the NVML hardware-management
//! library and exposes device enumeration, global driver metadata, and
//! per-device raw readings. The library's calls stand behind trusted
//! wrappers; every reading depends on the hardware at the instant of the
//! call, so the wrappers promise nothing about the values that come back,
//! and all logic over those values is verified for every possible outcome.

use vstd::prelude::*;
use crate::snapshot::GlobalMetadata;
use crate::snapshot::RawDeviceReading;

verus! {

#[verifier::external_type_specification]
#[verifier::external_body]
pub struct ExNvml(nvml_wrapper::Nvml);

#[verifier::external_type_specification]
#[verifier::external_body]
pub struct ExDevice<'nvml>(nvml_wrapper::Device<'nvml>);

#[verifier::external_type_specification]
#[verifier::external_body]
pub struct ExNvmlError(nvml_wrapper::error::NvmlError);

/// A provider failure as this library reports it: the connection to the
/// hardware-management library could not be established, or a query on an
/// established connection returned an error.
#[derive(Clone, Copy, Debug, PartialEq, Eq, Structural)]
pub enum ProviderError {
    Init,
    Query,
}

/// Relies on nvml_wrapper::Nvml::init: loads the NVML library and
/// establishes the process-wide connection, or reports why it could not.
#[verifier::external_body]
fn nvml_init() -> (r: Result<nvml_wrapper::Nvml, nvml_wrapper::error::NvmlError>) {
    nvml_wrapper::Nvml::init()
}

/// Relies on nvml_wrapper::Nvml::device_count: the number of devices the
/// driver can enumerate at this instant; nothing is promised of the value.
#[verifier::external_body]
fn nvml_device_count(nvml: &nvml_wrapper::Nvml) -> (r: Result<
    u32,
    nvml_wrapper::error::NvmlError,
>) {
    nvml.device_count()
}

/// Relies on nvml_wrapper::Nvml::sys_driver_version: the driver's version
/// string as the driver reports it at this instant.
#[verifier::external_body]
fn nvml_sys_driver_version(nvml: &nvml_wrapper::Nvml) -> (r: Result<
    String,
    nvml_wrapper::error::NvmlError,
>) {
    nvml.sys_driver_version()
}

/// Relies on nvml_wrapper::Nvml::sys_cuda_driver_version: the CUDA driver
/// version as an integer encoding, as the driver reports it.
#[verifier::external_body]
fn nvml_sys_cuda_driver_version(nvml: &nvml_wrapper::Nvml) -> (r: Result<
    i32,
    nvml_wrapper::error::NvmlError,
>) {
    nvml.sys_cuda_driver_version()
}

/// Relies on nvml_wrapper::Nvml::sys_nvml_version: the NVML library's own
/// version string.
#[verifier::external_body]
fn nvml_sys_nvml_version(nvml: &nvml_wrapper::Nvml) -> (r: Result<
    String,
    nvml_wrapper::error::NvmlError,
>) {
    nvml.sys_nvml_version()
}

/// Relies on nvml_wrapper::Nvml::device_by_index: a handle to the device
/// with the given ordinal index, or an error if the index is out of range
/// or the device cannot currently be reached.
#[verifier::external_body]
fn nvml_device_by_index<'nvml>(nvml: &'nvml nvml_wrapper::Nvml, index: u32) -> (r: Result<
    nvml_wrapper::Device<'nvml>,
    nvml_wrapper::error::NvmlError,
>) {
    nvml.device_by_index(index)
}

/// Relies on nvml_wrapper::Device::name: the device's display name.
#[verifier::external_body]
fn nvml_device_name(device: &nvml_wrapper::Device<'_>) -> (r: Result<
    String,
    nvml_wrapper::error::NvmlError,
>) {
    device.name()
}

/// Relies on nvml_wrapper::Device::memory_info: the device's total and
/// used framebuffer memory in bytes, returned here as (total, used).
#[verifier::external_body]
fn nvml_device_memory_info(device: &nvml_wrapper::Device<'_>) -> (r: Result<
    (u64, u64),
    nvml_wrapper::error::NvmlError,
>) {
    device.memory_info().map(|m| (m.total, m.used))
}

/// Relies on nvml_wrapper::Device::utilization_rates: the device's GPU and
/// memory utilization sample in raw percent, returned here as (gpu, memory).
#[verifier::external_body]
fn nvml_device_utilization_rates(device: &nvml_wrapper::Device<'_>) -> (r: Result<
    (u32, u32),
    nvml_wrapper::error::NvmlError,
>) {
    device.utilization_rates().map(|u| (u.gpu, u.memory))
}

/// Relies on nvml_wrapper::Device::power_usage: the device's power draw in
/// milliwatts.
#[verifier::external_body]
fn nvml_device_power_usage(device: &nvml_wrapper::Device<'_>) -> (r: Result<
    u32,
    nvml_wrapper::error::NvmlError,
>) {
    device.power_usage()
}

/// The device query adapter. It owns the single connection to the
/// hardware-management library; one instance is constructed at startup and
/// handed to every consumer, so initialization happens exactly once.
/// All its queries are read-only with respect to the hardware.
pub struct Provider {
    nvml: nvml_wrapper::Nvml,
}

impl Provider {
    /// Establishes the connection to the telemetry provider. Failure here
    /// is fatal for telemetry: a process that cannot connect serves nothing.
    pub fn new() -> (r: Result<Provider, ProviderError>)
        ensures
            r is Err ==> r->Err_0 == ProviderError::Init,
    {
        match nvml_init() {
            Ok(nvml) => Ok(Provider { nvml }),
            Err(_) => Err(ProviderError::Init),
        }
    }

    /// The number of devices the driver can enumerate right now.
    pub fn device_count(&self) -> (r: Result<u32, ProviderError>)
        ensures
            r is Err ==> r->Err_0 == ProviderError::Query,
    {
        match nvml_device_count(&self.nvml) {
            Ok(count) => Ok(count),
            Err(_) => Err(ProviderError::Query),
        }
    }

    /// Driver-wide metadata, queried fresh on every call so a pass never
    /// serves stale versions.
    pub fn global_metadata(&self) -> (r: Result<GlobalMetadata, ProviderError>)
        ensures
            r is Err ==> r->Err_0 == ProviderError::Query,
    {
        let driver_version = match nvml_sys_driver_version(&self.nvml) {
            Ok(v) => v,
            Err(_) => return Err(ProviderError::Query),
        };
        let cuda_version = match nvml_sys_cuda_driver_version(&self.nvml) {
            Ok(v) => v,
            Err(_) => return Err(ProviderError::Query),
        };
        let nvml_version = match nvml_sys_nvml_version(&self.nvml) {
            Ok(v) => v,
            Err(_) => return Err(ProviderError::Query),
        };
        Ok(GlobalMetadata { driver_version, cuda_version, nvml_version })
    }

    /// One device's raw counters by ordinal index. Any failure along the
    /// way — index out of range, or a device that is present but cannot
    /// currently be queried — is reported as a query error; the caller
    /// decides whether to skip the device or surface the failure.
    pub fn device_snapshot_raw(&self, index: u32) -> (r: Result<RawDeviceReading, ProviderError>)
        ensures
            r is Err ==> r->Err_0 == ProviderError::Query,
    {
        let device = match nvml_device_by_index(&self.nvml, index) {
            Ok(d) => d,
            Err(_) => return Err(ProviderError::Query),
        };
        let name = match nvml_device_name(&device) {
            Ok(n) => n,
            Err(_) => return Err(ProviderError::Query),
        };
        let (memory_total_bytes, memory_used_bytes) = match nvml_device_memory_info(&device) {
            Ok(m) => m,
            Err(_) => return Err(ProviderError::Query),
        };
        let (utilization_gpu, utilization_memory) = match nvml_device_utilization_rates(&device) {
            Ok(u) => u,
            Err(_) => return Err(ProviderError::Query),
        };
        let power_milliwatts = match nvml_device_power_usage(&device) {
            Ok(p) => p,
            Err(_) => return Err(ProviderError::Query),
        };
        Ok(
            RawDeviceReading {
                name,
                memory_total_bytes,
                memory_used_bytes,
                utilization_gpu,
                utilization_memory,
                power_milliwatts,
            },
        )
    }
}

} // verus!
