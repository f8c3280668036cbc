//! The console assembly: the verified core wired to the console bus.

use vstd::prelude::*;

use crate::bus::Bus;
use crate::cpu::CPU;

verus! {

/// The console a host constructs and drives by calling `step` on its core.
pub struct NES {
    pub cpu: CPU<Bus>,
}

} // verus!
