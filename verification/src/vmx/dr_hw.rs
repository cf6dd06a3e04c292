//! Hardware debug-register (DR0-DR3, DR6, DR7) access for the data-breakpoint
//! race detector.
//!
//! VMX does not save/restore DR0-3 or DR6 across VM entry/exit (only guest DR7
//! lives in the VMCS), so the run loop must swap them by hand: save the host
//! values, program the guest breakpoints, run, then restore the host values.
//!
//! Debug registers are reached only at ring 0. The swap is decided here on the
//! registers' values; whoever runs at ring 0 moves them. Elsewhere the registers
//! are all zero and stay so, and the detector is inert: every classified `#DB` is
//! `NotOurs`.

use vstd::prelude::*;

verus! {

/// The debug registers of one processor.
#[derive(Clone, Copy, PartialEq, Eq, Debug, Structural)]
pub struct DebugRegisters {
    pub dr0: u64,
    pub dr1: u64,
    pub dr2: u64,
    pub dr3: u64,
    pub dr6: u64,
    pub dr7: u64,
}

/// One debug register.
#[derive(Clone, Copy, PartialEq, Eq, Debug, Structural)]
pub enum DebugRegister {
    Dr0,
    Dr1,
    Dr2,
    Dr3,
    Dr6,
    Dr7,
}

/// A move to a debug register.
#[derive(Clone, Copy, PartialEq, Eq, Debug, Structural)]
pub struct RegisterWrite {
    pub register: DebugRegister,
    pub value: u64,
}

impl DebugRegisters {
    /// The registers after one move.
    pub open spec fn written(self, write: RegisterWrite) -> DebugRegisters {
        match write.register {
            DebugRegister::Dr0 => DebugRegisters { dr0: write.value, ..self },
            DebugRegister::Dr1 => DebugRegisters { dr1: write.value, ..self },
            DebugRegister::Dr2 => DebugRegisters { dr2: write.value, ..self },
            DebugRegister::Dr3 => DebugRegisters { dr3: write.value, ..self },
            DebugRegister::Dr6 => DebugRegisters { dr6: write.value, ..self },
            DebugRegister::Dr7 => DebugRegisters { dr7: write.value, ..self },
        }
    }

    /// The registers after moves, made in order.
    pub open spec fn all_written(self, writes: Seq<RegisterWrite>) -> DebugRegisters
        decreases writes.len(),
    {
        if writes.len() == 0 {
            self
        } else {
            self.all_written(writes.drop_last()).written(writes.last())
        }
    }

    /// The moves that bring a processor to these registers, in order. DR7 comes
    /// last, so a breakpoint is only enabled once DR0-3 hold their addresses.
    pub open spec fn moves(self) -> Seq<RegisterWrite> {
        seq![
            RegisterWrite { register: DebugRegister::Dr0, value: self.dr0 },
            RegisterWrite { register: DebugRegister::Dr1, value: self.dr1 },
            RegisterWrite { register: DebugRegister::Dr2, value: self.dr2 },
            RegisterWrite { register: DebugRegister::Dr3, value: self.dr3 },
            RegisterWrite { register: DebugRegister::Dr6, value: self.dr6 },
            RegisterWrite { register: DebugRegister::Dr7, value: self.dr7 },
        ]
    }
}

/// Saved host DR state to restore after VM exit. The run loop only holds it and
/// hands it back to `restore_host_drs`.
#[derive(Clone, Copy, PartialEq, Eq, Debug, Structural)]
pub struct HostDrState {
    pub dr0: u64,
    pub dr1: u64,
    pub dr2: u64,
    pub dr3: u64,
    pub dr6: u64,
    pub dr7: u64,
}

impl HostDrState {
    /// What is saved of a processor's registers: all of them.
    pub open spec fn saved(regs: DebugRegisters) -> HostDrState {
        HostDrState {
            dr0: regs.dr0,
            dr1: regs.dr1,
            dr2: regs.dr2,
            dr3: regs.dr3,
            dr6: regs.dr6,
            dr7: regs.dr7,
        }
    }

    /// The registers that were saved.
    pub open spec fn registers(self) -> DebugRegisters {
        DebugRegisters {
            dr0: self.dr0,
            dr1: self.dr1,
            dr2: self.dr2,
            dr3: self.dr3,
            dr6: self.dr6,
            dr7: self.dr7,
        }
    }
}

/// What an address register holds for the guest: the slot's address, or what it
/// held before where the slot has none.
pub open spec fn programmed(addr: u64, before: u64) -> u64 {
    if addr == 0 {
        before
    } else {
        addr
    }
}

fn programmed_address(addr: u64, before: u64) -> (r: u64)
    ensures
        r == programmed(addr, before),
{
    if addr == 0 {
        before
    } else {
        addr
    }
}

/// Save the host DR0-3/DR6/DR7, program DR0-3 from `addrs` (0 = leave a slot's
/// address as-is; it is disabled via DR7 anyway), and clear DR6 so a stale B-bit
/// from a previous run cannot masquerade as this run's hit. Returns the host
/// state for `restore_host_drs`. DR7 stays: the guest's is reloaded from the VMCS
/// on entry.
pub fn program_guest_drs(regs: &mut DebugRegisters, addrs: &[u64; 4]) -> (r: HostDrState)
    ensures
        r == HostDrState::saved(*old(regs)),
        *final(regs) == (DebugRegisters {
            dr0: programmed(addrs@[0], old(regs).dr0),
            dr1: programmed(addrs@[1], old(regs).dr1),
            dr2: programmed(addrs@[2], old(regs).dr2),
            dr3: programmed(addrs@[3], old(regs).dr3),
            dr6: 0,
            dr7: old(regs).dr7,
        }),
        addrs@[0] != 0 ==> final(regs).dr0 == addrs@[0],
        addrs@[1] != 0 ==> final(regs).dr1 == addrs@[1],
        addrs@[2] != 0 ==> final(regs).dr2 == addrs@[2],
        addrs@[3] != 0 ==> final(regs).dr3 == addrs@[3],
        addrs@[0] == 0 ==> final(regs).dr0 == old(regs).dr0,
        addrs@[1] == 0 ==> final(regs).dr1 == old(regs).dr1,
        addrs@[2] == 0 ==> final(regs).dr2 == old(regs).dr2,
        addrs@[3] == 0 ==> final(regs).dr3 == old(regs).dr3,
        r.dr0 == old(regs).dr0 && r.dr1 == old(regs).dr1 && r.dr2 == old(regs).dr2,
        r.dr3 == old(regs).dr3 && r.dr6 == old(regs).dr6 && r.dr7 == old(regs).dr7,
{
    let saved = HostDrState {
        dr0: regs.dr0,
        dr1: regs.dr1,
        dr2: regs.dr2,
        dr3: regs.dr3,
        dr6: regs.dr6,
        dr7: regs.dr7,
    };
    regs.dr0 = programmed_address(addrs[0], regs.dr0);
    regs.dr1 = programmed_address(addrs[1], regs.dr1);
    regs.dr2 = programmed_address(addrs[2], regs.dr2);
    regs.dr3 = programmed_address(addrs[3], regs.dr3);
    regs.dr6 = 0;
    saved
}

/// Read DR6 after VM exit: bits 0-3 (`B0-B3`) say which breakpoints fired during
/// guest execution.
pub fn read_guest_dr6(regs: &DebugRegisters) -> (r: u64)
    ensures
        r == regs.dr6,
{
    regs.dr6
}

/// Restore the host DR state saved by `program_guest_drs`, whatever the guest
/// made of the registers.
pub fn restore_host_drs(regs: &mut DebugRegisters, s: &HostDrState)
    ensures
        *final(regs) == s.registers(),
        final(regs).dr0 == s.dr0 && final(regs).dr1 == s.dr1 && final(regs).dr2 == s.dr2,
        final(regs).dr3 == s.dr3 && final(regs).dr6 == s.dr6 && final(regs).dr7 == s.dr7,
{
    regs.dr0 = s.dr0;
    regs.dr1 = s.dr1;
    regs.dr2 = s.dr2;
    regs.dr3 = s.dr3;
    regs.dr6 = s.dr6;
    regs.dr7 = s.dr7;
}

/// The moves that bring a processor to these registers, in order.
pub fn register_writes(regs: &DebugRegisters) -> (r: Vec<RegisterWrite>)
    ensures
        r@ == regs.moves(),
        r@.last() == (RegisterWrite { register: DebugRegister::Dr7, value: regs.dr7 }),
        forall|i: int|
            0 <= i < r@.len() - 1 ==> (#[trigger] r@[i]).register != DebugRegister::Dr7,
{
    let mut writes: Vec<RegisterWrite> = Vec::new();
    writes.push(RegisterWrite { register: DebugRegister::Dr0, value: regs.dr0 });
    writes.push(RegisterWrite { register: DebugRegister::Dr1, value: regs.dr1 });
    writes.push(RegisterWrite { register: DebugRegister::Dr2, value: regs.dr2 });
    writes.push(RegisterWrite { register: DebugRegister::Dr3, value: regs.dr3 });
    writes.push(RegisterWrite { register: DebugRegister::Dr6, value: regs.dr6 });
    writes.push(RegisterWrite { register: DebugRegister::Dr7, value: regs.dr7 });
    assert(writes@ =~= regs.moves());
    writes
}

proof fn lemma_dr7_kept(regs: DebugRegisters, writes: Seq<RegisterWrite>)
    requires
        forall|i: int|
            0 <= i < writes.len() ==> (#[trigger] writes[i]).register != DebugRegister::Dr7,
    ensures
        regs.all_written(writes).dr7 == regs.dr7,
    decreases writes.len(),
{
    if writes.len() > 0 {
        let rest = writes.drop_last();
        assert forall|i: int| 0 <= i < rest.len() implies (#[trigger] rest[i]).register
            != DebugRegister::Dr7 by {
            assert(rest[i] == writes[i]);
        }
        lemma_dr7_kept(regs, rest);
    }
}

/// Whatever the guest left in the registers, moving the saved state back in order
/// gives the host exactly what it had, and DR7 is the last register moved: until
/// then it is what the guest left.
pub proof fn host_registers_come_back(host: DebugRegisters, left: DebugRegisters)
    ensures
        HostDrState::saved(host).registers() == host,
        left.all_written(HostDrState::saved(host).registers().moves()) == host,
        host.moves().last().register == DebugRegister::Dr7,
        forall|k: int|
            0 <= k < host.moves().len() ==> (#[trigger] left.all_written(
                host.moves().take(k),
            )).dr7 == left.dr7,
{
    let moves = host.moves();
    let m5 = moves.drop_last();
    let m4 = m5.drop_last();
    let m3 = m4.drop_last();
    let m2 = m3.drop_last();
    let m1 = m2.drop_last();
    assert(m1.drop_last().len() == 0);
    assert(left.all_written(m1.drop_last()) == left);
    assert(left.all_written(m1) == (DebugRegisters { dr0: host.dr0, ..left }));
    assert(left.all_written(m2).dr1 == host.dr1);
    assert(left.all_written(m3).dr2 == host.dr2);
    assert(left.all_written(m4).dr3 == host.dr3);
    assert(left.all_written(m5).dr6 == host.dr6);
    assert forall|k: int| 0 <= k < moves.len() implies (#[trigger] left.all_written(
        moves.take(k),
    )).dr7 == left.dr7 by {
        lemma_dr7_kept(left, moves.take(k));
    }
}

/// While DR6 reads 0, as after programming the guest's breakpoints and wherever
/// there are no debug registers, no `#DB` is taken for one of the detector's.
pub proof fn clear_status_claims_nothing(
    slots: Seq<Option<super::dr_watch::DrSlot>>,
    tid: u64,
    cpl: u8,
)
    requires
        slots.len() == 4,
    ensures
        super::dr_watch::db_outcome(slots, 0, tid, cpl) == super::dr_watch::DbOutcome::NotOurs,
{
    assert(0u64 & (1u64 << 0usize) == 0 && 0u64 & (1u64 << 1usize) == 0 && 0u64 & (1u64 << 2usize)
        == 0 && 0u64 & (1u64 << 3usize) == 0) by (bit_vector);
}

} // verus!
