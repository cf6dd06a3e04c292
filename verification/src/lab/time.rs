//! Virtual time.

use vstd::prelude::*;

verus! {

/// A point in a guest's time: retired instructions, at a nominal number of
/// instructions per second.
#[derive(Clone, Copy, PartialEq, Eq, Debug, Structural)]
pub struct VirtTime {
    /// Retired instructions: the emulated TSC.
    pub instructions: u64,
    /// Instructions per second.
    pub frequency: u64,
}

impl VirtTime {
    /// The time at which the emulated TSC, running at `frequency`, is
    /// `instructions`.
    pub fn from_instructions(instructions: u64, frequency: u64) -> (r: Self)
        ensures
            r == (VirtTime { instructions, frequency }),
    {
        VirtTime { instructions, frequency }
    }
}

} // verus!
