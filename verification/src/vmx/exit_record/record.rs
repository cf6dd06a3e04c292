//! The fixed-size exit record.

use vstd::prelude::*;

verus! {

/// Size of one exit record in bytes.
pub const EXIT_RECORD_SIZE: usize = 512;

/// Set on records that are reproducible from run to run.
pub const EXIT_RECORD_FLAG_DETERMINISTIC: u32 = 1;

/// One VM exit.
#[derive(Clone, Copy, Debug)]
pub struct ExitRecord {
    /// Emulated TSC at the exit.
    pub tsc: u64,
    /// Exit qualification.
    pub exit_qualification: u64,
    /// Exit reason.
    pub exit_reason: u32,
    /// Record flags.
    pub flags: u32,
    /// General-purpose registers, in encoding order.
    pub gprs: [u64; 16],
    /// Guest RIP.
    pub rip: u64,
    /// Guest RFLAGS.
    pub rflags: u64,
    /// Local APIC state hash.
    pub apic_hash: u64,
    /// Serial port state hash.
    pub serial_hash: u64,
    /// I/O APIC state hash.
    pub ioapic_hash: u64,
    /// RTC state hash.
    pub rtc_hash: u64,
    /// MTRR state hash.
    pub mtrr_hash: u64,
    /// RDRAND state hash.
    pub rdrand_hash: u64,
    /// Guest memory hash, filled in when the record is finalized.
    pub memory_hash: u64,
    /// Number of copied pages, filled in when the record is finalized.
    pub cow_page_count: u32,
    /// Padding.
    pub pad: u32,
    /// Room for later fields.
    pub reserved: [u64; 35],
}

} // verus!
