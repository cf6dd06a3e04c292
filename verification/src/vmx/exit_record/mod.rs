//! Exit-record structure for non-determinism diagnosis.
//!
//! `ExitRecord` is the payload of an `Exit` event: a snapshot of a VM exit
//! capturing the TSC, exit reason and qualification, guest registers,
//! per-device state hashes (APIC, serial, IOAPIC, RTC, MTRR, RDRAND) and a full
//! guest-memory hash.

pub mod hash;
pub mod record;
