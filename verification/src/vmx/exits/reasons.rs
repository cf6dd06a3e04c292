//! VM exit reasons.

use vstd::prelude::*;

verus! {

/// The exit reasons that handlers hand to userspace.
#[derive(Clone, Copy, PartialEq, Eq, Debug, Structural)]
pub enum ExitReason {
    /// Exception or non-maskable interrupt.
    ExceptionNmi,
    /// RDMSR.
    MsrRead,
    /// WRMSR.
    MsrWrite,
    /// EPT violation.
    EptViolation,
    /// XSETBV.
    Xsetbv,
}

} // verus!
