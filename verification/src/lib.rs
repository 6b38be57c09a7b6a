//! Live GPU telemetry sampling: device readings are queried from the NVML
//! hardware-management library, normalized into a stable snapshot record,
//! and collected into ordered sampling passes for one-shot lookups and
//! periodic streaming sessions.

pub mod collector;
pub mod provider;
pub mod snapshot;
pub mod stream;
