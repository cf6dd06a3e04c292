//! I/O APIC (Advanced Programmable Interrupt Controller) emulation.
//!
//! The I/O APIC routes external interrupts (like IRQ4 from serial) to the
//! local APIC. It's accessed via MMIO at 0xFEC00000.

use vstd::prelude::*;

use crate::vmx::exit_record::hash::{StateHash, Xxh64Hasher};

verus! {

/// Number of I/O APIC redirection table entries.
pub const IOAPIC_NUM_PINS: usize = 24;

/// I/O APIC state for interrupt routing.
#[derive(Clone, Copy, Debug)]
pub struct IoApicState {
    /// I/O Register Select - selects which register to access via IOWIN
    pub ioregsel: u32,
    /// I/O APIC ID register (index 0x00)
    pub id: u32,
    /// Redirection table entries (indices 0x10-0x3F, 24 entries x 64 bits)
    /// Each entry specifies how an IRQ pin is routed to the local APIC.
    pub redtbl: [u64; IOAPIC_NUM_PINS],
}

impl IoApicState {
    /// Power-on state: no register selected and every pin masked (bit 16).
    pub open spec fn is_reset(&self) -> bool {
        &&& self.ioregsel == 0
        &&& self.id == 0
        &&& forall|i: int| 0 <= i < IOAPIC_NUM_PINS ==> #[trigger] self.redtbl@[i] == 0x1_0000u64
    }
}

impl Default for IoApicState {
    fn default() -> (r: Self)
        ensures
            r.is_reset(),
    {
        IoApicState { ioregsel: 0, id: 0, redtbl: [0x1_0000u64;IOAPIC_NUM_PINS] }
    }
}

impl StateHash for IoApicState {
    open spec fn fed(&self, stream: Seq<u8>) -> Seq<u8> {
        let s = crate::vmx::exit_record::hash::fed_u32(stream, self.ioregsel);
        let s = crate::vmx::exit_record::hash::fed_u32(s, self.id);
        crate::vmx::exit_record::hash::fed_u64s(s, self.redtbl@)
    }

    fn feed(&self, hasher: &mut Xxh64Hasher) {
        hasher.write_u32(self.ioregsel);
        hasher.write_u32(self.id);
        hasher.write_u64s(self.redtbl.as_slice());
    }
}

/// Two I/O APICs with the same stream are the same.
pub proof fn hashed_stream_tells_ioapics_apart(
    a: IoApicState,
    b: IoApicState,
    s: Seq<u8>,
    t: Seq<u8>,
)
    requires
        a.fed(s) == b.fed(t),
    ensures
        s == t,
        a.ioregsel == b.ioregsel,
        a.id == b.id,
        a.redtbl@ == b.redtbl@,
{
    let a0 = crate::vmx::exit_record::hash::fed_u32(s, a.ioregsel);
    let b0 = crate::vmx::exit_record::hash::fed_u32(t, b.ioregsel);
    let a1 = crate::vmx::exit_record::hash::fed_u32(a0, a.id);
    let b1 = crate::vmx::exit_record::hash::fed_u32(b0, b.id);
    crate::vmx::exit_record::hash::last_words64_can_be_told(a1, b1, a.redtbl@, b.redtbl@);
    crate::vmx::exit_record::hash::last_value_can_be_told(a0, b0);
    assert(a0 == b0 && a.id == b.id);
    crate::vmx::exit_record::hash::last_value_can_be_told(s, t);
    assert(s == t && a.ioregsel == b.ioregsel);
}

/// After reset no pin is routed: every redirection entry is masked.
pub proof fn reset_ioapic_routes_nothing(ioapic: IoApicState, pin: int)
    requires
        ioapic.is_reset(),
        0 <= pin < 24,
    ensures
        ioapic.redtbl@[pin] == 0x1_0000,
        ioapic.ioregsel == 0 && ioapic.id == 0,
{
}

} // verus!
