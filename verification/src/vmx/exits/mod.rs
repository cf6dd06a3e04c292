//! VM exit handlers.

pub mod apic;
pub mod cpuid;
pub mod helpers;
pub mod interrupts;
pub mod laws;
pub mod misc;
pub mod msr;
pub mod qualifications;
pub mod reasons;
