//! Emulated device state.

pub mod apic;
pub mod ioapic;
pub mod mtrr;
pub mod rtc;
pub mod vectors;
