//! Facts about the machine.

use vstd::prelude::*;

verus! {

/// The processor, the system and the architecture of this machine.
#[derive(Clone, Debug, Default, PartialEq, Eq)]
pub struct DeviceSnapshot {
    /// The processor's model or chip name.
    pub chip: String,
    /// For example "macOS 15.1".
    pub os_version: String,
    /// For example "arm64".
    pub architecture: String,
    pub core_count: i32,
    pub performance_cores: i32,
    pub efficiency_cores: i32,
}

} // verus!
