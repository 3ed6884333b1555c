//! What the user has set.
use vstd::prelude::*;

verus! {

/// The settings that bear on the readings.
#[derive(Debug)]
pub struct SysInfoConfig {
    /// Whether swap space counts as memory.
    pub include_swap_in_ram: bool,
    /// The only interfaces to count, if set.
    pub include_interfaces: Option<Vec<String>>,
    /// Interfaces not to count, if set.
    pub exclude_interfaces: Option<Vec<String>>,
}

} // verus!
