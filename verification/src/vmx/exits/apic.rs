//! Local APIC and I/O APIC MMIO emulation.

use vstd::prelude::*;

use super::helpers::{ExitError, ExitHandlerResult};
use super::qualifications::EptViolationQualification;
use super::reasons::ExitReason;
use crate::vmx::devices::apic::{apic_timer_divisor, ApicState};
use crate::vmx::devices::ioapic::IoApicState;
use crate::vmx::devices::vectors::{clear_vector, highest_vector};
use crate::vmx::memory::GuestPhysAddr;
use crate::vmx::registers::{get_gpr_value, set_gpr_value};
use crate::vmx::state::{DeviceStates, VmState};
use crate::vmx::traits::context::VmContext;
use crate::vmx::vmcs::{VmcsError, VmcsFieldNatural};

verus! {

/// APIC base address (Local APIC MMIO region).
pub const APIC_BASE: u64 = 0xFEE0_0000;

/// Size of APIC MMIO region.
pub const APIC_SIZE: u64 = 0x1000;

/// I/O APIC base address.
pub const IOAPIC_BASE: u64 = 0xFEC0_0000;

/// Size of I/O APIC MMIO region.
pub const IOAPIC_SIZE: u64 = 0x1000;

/// What came of fetching the instruction at guest RIP: translating the address,
/// reading the bytes and decoding them.
#[derive(Clone, Copy, PartialEq, Eq, Debug, Structural)]
pub enum InstructionFetch {
    /// RIP has no guest-physical address.
    TranslateFailed,
    /// The bytes there could not be read.
    ReadFailed,
    /// The bytes are no instruction that is emulated.
    DecodeFailed,
    /// A move between memory and a register.
    Decoded {
        /// Encoding of the register.
        register: u8,
        /// Length of the instruction in bytes.
        length: u8,
    },
}

/// Longest instruction there is, in bytes.
pub const MAX_INSTRUCTION_LENGTH: usize = 15;

/// Fetch the bytes of the instruction at `instr_gpa`, which is where guest RIP
/// lies in guest-physical memory, if it lies anywhere.
pub fn fetch_instruction<C: VmContext>(ctx: &C, instr_gpa: Option<GuestPhysAddr>) -> (r: Result<
    [u8; 15],
    InstructionFetch,
>)
    requires
        ctx.wf(),
    ensures
        match instr_gpa {
            None => r == Err::<[u8; 15], InstructionFetch>(InstructionFetch::TranslateFailed),
            Some(gpa) => if crate::vmx::traits::context::within(
                ctx.memory().dom(),
                gpa.addr as int,
                15,
            ) {
                &&& r is Ok
                &&& forall|i: int|
                    0 <= i < 15 ==> #[trigger] r->Ok_0@[i] == ctx.memory()[gpa.addr + i]
            } else {
                r == Err::<[u8; 15], InstructionFetch>(InstructionFetch::ReadFailed)
            },
        },
{
    let gpa = match instr_gpa {
        Some(gpa) => gpa,
        None => return Err(InstructionFetch::TranslateFailed),
    };
    let mut instr_bytes = [0u8;MAX_INSTRUCTION_LENGTH];
    let ghost before = instr_bytes@;
    if ctx.read_guest_memory(gpa, &mut instr_bytes).is_err() {
        return Err(InstructionFetch::ReadFailed);
    }
    proof {
        assert forall|i: int| 0 <= i < 15 implies #[trigger] instr_bytes@[i] == ctx.memory()[gpa.addr
            + i] by {
            crate::vmx::traits::context::successful_read_is_exact(
                ctx.memory(),
                gpa.addr as int,
                before,
                i,
            );
        }
    }
    Ok(instr_bytes)
}

/// What a local APIC register reads as (Intel SDM Vol 3A, Table 12-1).
pub open spec fn apic_register(apic: ApicState, offset: u32) -> u32 {
    if offset == 0x020 {
        apic.id << 24
    } else if offset == 0x030 {
        apic.version
    } else if offset == 0x080 {
        apic.tpr
    } else if offset == 0x0A0 {
        apic.tpr & 0xF0
    } else if offset == 0x0D0 {
        apic.ldr
    } else if offset == 0x0E0 {
        apic.dfr
    } else if offset == 0x0F0 {
        apic.svr
    } else if 0x100 <= offset <= 0x170 {
        apic.isr@[(offset - 0x100) / 16]
    } else if 0x180 <= offset <= 0x1F0 {
        apic.tmr@[(offset - 0x180) / 16]
    } else if 0x200 <= offset <= 0x270 {
        apic.irr@[(offset - 0x200) / 16]
    } else if offset == 0x280 {
        apic.esr
    } else if offset == 0x300 {
        apic.icr_lo
    } else if offset == 0x310 {
        apic.icr_hi
    } else if offset == 0x320 {
        apic.lvt_timer
    } else if offset == 0x330 {
        apic.lvt_thermal
    } else if offset == 0x340 {
        apic.lvt_perf
    } else if offset == 0x350 {
        apic.lvt_lint0
    } else if offset == 0x360 {
        apic.lvt_lint1
    } else if offset == 0x370 {
        apic.lvt_error
    } else if offset == 0x380 {
        apic.timer_initial
    } else if offset == 0x3E0 {
        apic.timer_divide
    } else {
        0
    }
}

/// Read from an emulated APIC register.
///
/// Intel SDM Vol 3A, Table 12-1 defines the register map.
pub fn read_apic_register(apic: &ApicState, offset: u32) -> (r: u32)
    ensures
        r == apic_register(*apic, offset),
{
    match offset {
        // APIC ID (bits 31:24 contain the ID)
        0x020 => apic.id << 24,
        // APIC Version
        0x030 => apic.version,
        // Task Priority Register
        0x080 => apic.tpr,
        // Arbitration Priority Register (always 0 for single vCPU)
        0x090 => 0,
        // Processor Priority Register (derived from TPR for single vCPU)
        0x0A0 => apic.tpr & 0xF0,
        // EOI Register (write-only, reads return 0)
        0x0B0 => 0,
        // Remote Read Register (not implemented)
        0x0C0 => 0,
        // Logical Destination Register
        0x0D0 => apic.ldr,
        // Destination Format Register
        0x0E0 => apic.dfr,
        // Spurious Interrupt Vector Register
        0x0F0 => apic.svr,
        // In-Service Register (8 x 32-bit, offsets 0x100-0x170, stride 0x10)
        0x100..=0x170 => apic.isr[((offset - 0x100) / 16) as usize],
        // Trigger Mode Register (8 x 32-bit, offsets 0x180-0x1F0, stride 0x10)
        0x180..=0x1F0 => apic.tmr[((offset - 0x180) / 16) as usize],
        // Interrupt Request Register (8 x 32-bit, offsets 0x200-0x270, stride 0x10)
        0x200..=0x270 => apic.irr[((offset - 0x200) / 16) as usize],
        // Error Status Register
        0x280 => apic.esr,
        // Interrupt Command Register (low)
        0x300 => apic.icr_lo,
        // Interrupt Command Register (high)
        0x310 => apic.icr_hi,
        // LVT Timer
        0x320 => apic.lvt_timer,
        // LVT Thermal Sensor
        0x330 => apic.lvt_thermal,
        // LVT Performance Monitoring
        0x340 => apic.lvt_perf,
        // LVT LINT0
        0x350 => apic.lvt_lint0,
        // LVT LINT1
        0x360 => apic.lvt_lint1,
        // LVT Error
        0x370 => apic.lvt_error,
        // Timer Initial Count
        0x380 => apic.timer_initial,
        // Timer Current Count is not modeled; reads return 0.
        0x390 => 0,
        // Timer Divide Configuration
        0x3E0 => apic.timer_divide,
        // Reserved/unknown registers return 0
        _ => 0,
    }
}

/// The APIC after an end-of-interrupt: the highest-priority interrupt in
/// service is done.
pub open spec fn interrupt_ended(apic: ApicState) -> ApicState {
    match crate::vmx::devices::vectors::highest(apic.isr@) {
        Some(vector) => ApicState {
            isr: crate::vmx::devices::vectors::lowered(apic.isr, vector),
            ..apic
        },
        None => apic,
    }
}

/// When a timer started with `initial` at `tsc` fires.
pub open spec fn timer_expiry(apic: ApicState, initial: u32, tsc: u64) -> int {
    tsc + initial * crate::vmx::devices::apic::timer_divisor(apic.timer_divide)
}

/// The APIC after `value` was written to a register at time `tsc`. Writes to
/// read-only and unknown registers are ignored.
pub open spec fn apic_written(apic: ApicState, offset: u32, value: u32, tsc: u64) -> ApicState {
    if offset == 0x020 {
        ApicState { id: (value >> 24) & 0xFF, ..apic }
    } else if offset == 0x080 {
        ApicState { tpr: value & 0xFF, ..apic }
    } else if offset == 0x0B0 {
        interrupt_ended(apic)
    } else if offset == 0x0D0 {
        ApicState { ldr: value, ..apic }
    } else if offset == 0x0E0 {
        ApicState { dfr: value | 0x0FFF_FFFF, ..apic }
    } else if offset == 0x0F0 {
        ApicState { svr: value, ..apic }
    } else if offset == 0x280 {
        ApicState { esr: 0, ..apic }
    } else if offset == 0x300 {
        ApicState { icr_lo: value, ..apic }
    } else if offset == 0x310 {
        ApicState { icr_hi: value, ..apic }
    } else if offset == 0x320 {
        ApicState { lvt_timer: value, ..apic }
    } else if offset == 0x330 {
        ApicState { lvt_thermal: value, ..apic }
    } else if offset == 0x340 {
        ApicState { lvt_perf: value, ..apic }
    } else if offset == 0x350 {
        ApicState { lvt_lint0: value, ..apic }
    } else if offset == 0x360 {
        ApicState { lvt_lint1: value, ..apic }
    } else if offset == 0x370 {
        ApicState { lvt_error: value, ..apic }
    } else if offset == 0x380 {
        ApicState {
            timer_initial: value,
            timer_deadline: if value == 0 {
                0
            } else {
                timer_expiry(apic, value, tsc) as u64
            },
            ..apic
        }
    } else if offset == 0x3E0 {
        ApicState { timer_divide: value, ..apic }
    } else {
        apic
    }
}

/// Write to an emulated APIC register.
///
/// Intel SDM Vol 3A, Table 12-1 defines the register map.
/// `current_tsc` is the emulated TSC value, used for timer deadline calculation.
pub fn write_apic_register(apic: &mut ApicState, offset: u32, value: u32, current_tsc: u64)
    requires
        offset == 0x380 ==> timer_expiry(*old(apic), value, current_tsc) <= u64::MAX,
    ensures
        *final(apic) == apic_written(*old(apic), offset, value, current_tsc),
{
    match offset {
        // APIC ID (bits 31:24 are writable in some modes)
        0x020 => apic.id = (value >> 24) & 0xFF,
        // Task Priority Register (bits 7:0 are writable)
        0x080 => apic.tpr = value & 0xFF,
        // EOI Register - clear highest priority ISR bit
        0x0B0 => {
            if let Some(vector) = highest_vector(&apic.isr) {
                clear_vector(&mut apic.isr, vector);
            }
        },
        // Logical Destination Register
        0x0D0 => apic.ldr = value,
        // Destination Format Register (bits 31:28 are writable, rest reserved as 1)
        0x0E0 => apic.dfr = value | 0x0FFF_FFFF,
        // Spurious Interrupt Vector Register
        0x0F0 => apic.svr = value,
        // Error Status Register - write clears it
        0x280 => apic.esr = 0,
        // Interrupt Command Register (low) - could trigger IPI; with a single
        // vCPU there is nobody to send one to
        0x300 => apic.icr_lo = value,
        // Interrupt Command Register (high)
        0x310 => apic.icr_hi = value,
        // LVT Timer
        0x320 => apic.lvt_timer = value,
        // LVT Thermal Sensor
        0x330 => apic.lvt_thermal = value,
        // LVT Performance Monitoring
        0x340 => apic.lvt_perf = value,
        // LVT LINT0
        0x350 => apic.lvt_lint0 = value,
        // LVT LINT1
        0x360 => apic.lvt_lint1 = value,
        // LVT Error
        0x370 => apic.lvt_error = value,
        // Timer Initial Count - starts the timer
        0x380 => {
            apic.timer_initial = value;
            if value != 0 {
                // Calculate deadline based on divide configuration
                let divisor: u32 = apic_timer_divisor(apic.timer_divide);
                assert(value * divisor <= 0xFFFF_FFFF * 128) by (nonlinear_arith)
                    requires
                        value <= 0xFFFF_FFFF,
                        divisor <= 128,
                ;
                let ticks: u64 = value as u64 * divisor as u64;
                // Set deadline using emulated TSC for determinism
                apic.timer_deadline = current_tsc + ticks;
            } else {
                // Timer stopped
                apic.timer_deadline = 0;
            }
        },
        // Timer Divide Configuration
        0x3E0 => apic.timer_divide = value,
        // Read-only or reserved registers - ignore writes
        _ => {},
    }
}

/// The state after a memory access by the guest was emulated: `loaded` is what
/// a load puts into the register, `stored` what a store leaves. RIP is past the
/// instruction, if it can be written.
pub open spec fn access_emulated(
    s: VmState,
    qual: EptViolationQualification,
    register: u8,
    length: u8,
    loaded: u32,
    stored: DeviceStates,
) -> VmState {
    let rip = s.vmcs.get_natural_or_zero(VmcsFieldNatural::GuestRip);
    let done = if qual.read {
        VmState { gprs: s.gprs.with_value(register, loaded as u64), ..s }
    } else if qual.write {
        VmState { devices: stored, ..s }
    } else {
        s
    };
    match s.vmcs.write_error_natural(VmcsFieldNatural::GuestRip) {
        Some(_) => done,
        None => VmState {
            vmcs: s.vmcs.set_natural(VmcsFieldNatural::GuestRip, (rip + length) as u64),
            ..done
        },
    }
}

/// What emulating a memory access returns: the error `stuck` where RIP cannot be
/// moved past the instruction.
pub open spec fn access_result(s: VmState, stuck: &'static str) -> ExitHandlerResult {
    match s.vmcs.write_error_natural(VmcsFieldNatural::GuestRip) {
        Some(_) => ExitHandlerResult::Error(ExitError::Fatal(stuck)),
        None => ExitHandlerResult::Continue,
    }
}

/// The state after an access to the local APIC's registers.
pub open spec fn apic_access(
    s: VmState,
    gpa: u64,
    qual: EptViolationQualification,
    fetch: InstructionFetch,
) -> (VmState, ExitHandlerResult) {
    let offset = (gpa - APIC_BASE) as u32;
    if s.vmcs.get_natural(VmcsFieldNatural::GuestRip) is None {
        (s, ExitHandlerResult::Error(ExitError::VmcsReadError(VmcsError::UnsupportedField)))
    } else {
        match fetch {
            InstructionFetch::Decoded { register, length } => (
                access_emulated(
                    s,
                    qual,
                    register,
                    length,
                    apic_register(s.devices.apic, offset),
                    DeviceStates {
                        apic: apic_written(
                            s.devices.apic,
                            offset,
                            s.gprs.value(register) as u32,
                            s.emulated_tsc,
                        ),
                        ..s.devices
                    },
                ),
                access_result(s, "Failed to advance RIP for APIC access"),
            ),
            _ => (s, ExitHandlerResult::ExitToUserspace(ExitReason::EptViolation)),
        }
    }
}

/// RIP past the instruction is an address.
pub open spec fn rip_fits(s: VmState, fetch: InstructionFetch) -> bool {
    fetch matches InstructionFetch::Decoded { length, .. } ==> s.vmcs.get_natural_or_zero(
        VmcsFieldNatural::GuestRip,
    ) + length <= u64::MAX
}

/// A timer that the access starts fires at a time that the TSC can reach.
pub open spec fn timer_fits(
    s: VmState,
    gpa: u64,
    qual: EptViolationQualification,
    fetch: InstructionFetch,
) -> bool {
    fetch matches InstructionFetch::Decoded { register, .. } ==> !qual.read && qual.write && (gpa
        - APIC_BASE) as u32 == 0x380 ==> timer_expiry(
        s.devices.apic,
        s.gprs.value(register) as u32,
        s.emulated_tsc,
    ) <= u64::MAX
}

/// Handle APIC MMIO access.
///
/// This emulates reads/writes to the Local APIC registers by:
/// 1. Taking the instruction fetched and decoded at guest RIP
/// 2. For reads: reading from ApicState and writing to guest register
/// 3. For writes: reading from guest register and writing to ApicState
/// 4. Advancing RIP past the instruction
pub fn handle_apic_access<C: VmContext>(
    ctx: &mut C,
    gpa: u64,
    qual: EptViolationQualification,
    fetch: InstructionFetch,
) -> (r: ExitHandlerResult)
    requires
        gpa >= APIC_BASE,
        rip_fits(old(ctx).vm(), fetch),
        timer_fits(old(ctx).vm(), gpa, qual, fetch),
    ensures
        final(ctx).vm() == apic_access(old(ctx).vm(), gpa, qual, fetch).0,
        r == apic_access(old(ctx).vm(), gpa, qual, fetch).1,
        final(ctx).frame() == old(ctx).frame(),
{
    let offset: u32 = (gpa - APIC_BASE) as u32;
    let state = ctx.state_mut();

    // Get guest RIP
    let rip: u64 = match state.vmcs.read_natural(VmcsFieldNatural::GuestRip) {
        Ok(v) => v,
        Err(e) => return ExitHandlerResult::Error(ExitError::VmcsReadError(e)),
    };

    let (register, length) = match fetch {
        InstructionFetch::Decoded { register, length } => (register, length),
        _ => return ExitHandlerResult::ExitToUserspace(ExitReason::EptViolation),
    };

    // Handle the access based on direction
    if qual.read {
        // APIC read - get value from emulated APIC and write to destination
        // register (zero-extended, APIC registers are 32-bit)
        let value: u32 = read_apic_register(&state.devices.apic, offset);
        set_gpr_value(&mut state.gprs, register, value as u64);
    } else if qual.write {
        // APIC write - get value from source register and write to emulated APIC
        let value: u32 = get_gpr_value(&state.gprs, register) as u32;
        let current_tsc: u64 = state.emulated_tsc;
        write_apic_register(&mut state.devices.apic, offset, value, current_tsc);
    }
    // Advance RIP past the instruction

    let new_rip: u64 = rip + length as u64;
    if state.vmcs.write_natural(VmcsFieldNatural::GuestRip, new_rip).is_err() {
        return ExitHandlerResult::Error(ExitError::Fatal("Failed to advance RIP for APIC access"));
    }
    ExitHandlerResult::Continue
}

// =============================================================================
// I/O APIC Emulation
// =============================================================================

/// Whether a register index is half of a redirection table entry.
pub open spec fn is_redirection(reg: u32) -> bool {
    0x10 <= reg < 0x40
}

/// What the selected I/O APIC register reads as.
pub open spec fn ioapic_register(ioapic: IoApicState) -> u32 {
    let reg = ioapic.ioregsel;
    if reg == 0 || reg == 2 {
        // ID, and arbitration ID, which is the same
        ioapic.id
    } else if reg == 1 {
        // Version: bits 7:0 = version (0x20), bits 23:16 = max redir entry (23)
        0x0017_0020
    } else if is_redirection(reg) {
        let entry = ioapic.redtbl@[(reg - 0x10) / 2];
        if reg % 2 == 1 {
            (entry >> 32) as u32
        } else {
            entry as u32
        }
    } else {
        0
    }
}

/// The I/O APIC after `value` was written to the selected register.
pub open spec fn ioapic_written(ioapic: IoApicState, value: u32) -> IoApicState {
    let reg = ioapic.ioregsel;
    if reg == 0 {
        // Only bits 27:24 are writable
        IoApicState { id: value & 0x0F00_0000, ..ioapic }
    } else if is_redirection(reg) {
        let i = (reg - 0x10) / 2;
        let entry = ioapic.redtbl@[i];
        IoApicState {
            redtbl: vstd::array::spec_array_update(
                ioapic.redtbl,
                i,
                if reg % 2 == 1 {
                    (entry & 0x0000_0000_FFFF_FFFF) | ((value as u64) << 32)
                } else {
                    (entry & 0xFFFF_FFFF_0000_0000) | (value as u64)
                },
            ),
            ..ioapic
        }
    } else {
        ioapic
    }
}

/// What a load from the I/O APIC's window at `offset` gives.
pub open spec fn ioapic_load(ioapic: IoApicState, offset: u32) -> u32 {
    if offset == 0x00 {
        ioapic.ioregsel
    } else if offset == 0x10 {
        ioapic_register(ioapic)
    } else {
        0
    }
}

/// What a store to the I/O APIC's window at `offset` leaves.
pub open spec fn ioapic_store(ioapic: IoApicState, offset: u32, value: u32) -> IoApicState {
    if offset == 0x00 {
        IoApicState { ioregsel: value, ..ioapic }
    } else if offset == 0x10 {
        ioapic_written(ioapic, value)
    } else {
        ioapic
    }
}

/// The state after an access to the I/O APIC's window.
pub open spec fn ioapic_access(
    s: VmState,
    gpa: u64,
    qual: EptViolationQualification,
    fetch: InstructionFetch,
) -> (VmState, ExitHandlerResult) {
    let offset = (gpa - IOAPIC_BASE) as u32;
    if s.vmcs.get_natural(VmcsFieldNatural::GuestRip) is None {
        (s, ExitHandlerResult::Error(ExitError::VmcsReadError(VmcsError::UnsupportedField)))
    } else {
        match fetch {
            InstructionFetch::TranslateFailed => (
                s,
                ExitHandlerResult::Error(
                    ExitError::Fatal("Failed to translate I/O APIC instruction address"),
                ),
            ),
            InstructionFetch::ReadFailed => (
                s,
                ExitHandlerResult::Error(ExitError::Fatal("Failed to read I/O APIC instruction")),
            ),
            InstructionFetch::DecodeFailed => (
                s,
                ExitHandlerResult::Error(
                    ExitError::Fatal("Failed to decode I/O APIC instruction"),
                ),
            ),
            InstructionFetch::Decoded { register, length } => (
                access_emulated(
                    s,
                    qual,
                    register,
                    length,
                    ioapic_load(s.devices.ioapic, offset),
                    DeviceStates {
                        ioapic: ioapic_store(
                            s.devices.ioapic,
                            offset,
                            s.gprs.value(register) as u32,
                        ),
                        ..s.devices
                    },
                ),
                access_result(s, "Failed to advance RIP for I/O APIC access"),
            ),
        }
    }
}

/// Handle I/O APIC MMIO access.
///
/// The I/O APIC uses indirect register access:
/// - IOREGSEL (offset 0x00): Selects which register to access
/// - IOWIN (offset 0x10): Read/write window for the selected register
pub fn handle_ioapic_access<C: VmContext>(
    ctx: &mut C,
    gpa: u64,
    qual: EptViolationQualification,
    fetch: InstructionFetch,
) -> (r: ExitHandlerResult)
    requires
        gpa >= IOAPIC_BASE,
        rip_fits(old(ctx).vm(), fetch),
    ensures
        final(ctx).vm() == ioapic_access(old(ctx).vm(), gpa, qual, fetch).0,
        r == ioapic_access(old(ctx).vm(), gpa, qual, fetch).1,
        final(ctx).frame() == old(ctx).frame(),
{
    let offset: u32 = (gpa - IOAPIC_BASE) as u32;
    let state = ctx.state_mut();

    let rip: u64 = match state.vmcs.read_natural(VmcsFieldNatural::GuestRip) {
        Ok(v) => v,
        Err(e) => return ExitHandlerResult::Error(ExitError::VmcsReadError(e)),
    };

    let (register, length) = match fetch {
        InstructionFetch::TranslateFailed => {
            return ExitHandlerResult::Error(
                ExitError::Fatal("Failed to translate I/O APIC instruction address"),
            );
        },
        InstructionFetch::ReadFailed => {
            return ExitHandlerResult::Error(
                ExitError::Fatal("Failed to read I/O APIC instruction"),
            );
        },
        InstructionFetch::DecodeFailed => {
            return ExitHandlerResult::Error(
                ExitError::Fatal("Failed to decode I/O APIC instruction"),
            );
        },
        InstructionFetch::Decoded { register, length } => (register, length),
    };

    if qual.read {
        // I/O APIC read
        let value: u32 = match offset {
            // IOREGSEL - return current register select value
            0x00 => state.devices.ioapic.ioregsel,
            // IOWIN - read from selected register
            0x10 => read_ioapic_register(&state.devices.ioapic),
            _ => 0,
        };
        set_gpr_value(&mut state.gprs, register, value as u64);
    } else if qual.write {
        // I/O APIC write - get value from source register
        let value: u32 = get_gpr_value(&state.gprs, register) as u32;
        match offset {
            // IOREGSEL - set register select
            0x00 => state.devices.ioapic.ioregsel = value,
            // IOWIN - write to selected register
            0x10 => write_ioapic_register(&mut state.devices.ioapic, value),
            _ => {},
        }
    }
    // Advance RIP past the instruction

    let new_rip: u64 = rip + length as u64;
    if state.vmcs.write_natural(VmcsFieldNatural::GuestRip, new_rip).is_err() {
        return ExitHandlerResult::Error(
            ExitError::Fatal("Failed to advance RIP for I/O APIC access"),
        );
    }
    ExitHandlerResult::Continue
}

/// Read from an I/O APIC register via the IOWIN window.
pub fn read_ioapic_register(ioapic: &IoApicState) -> (r: u32)
    ensures
        r == ioapic_register(*ioapic),
{
    let reg: u32 = ioapic.ioregsel;
    match reg {
        0x00 => ioapic.id,
        0x01 => 0x0017_0020,
        0x02 => ioapic.id,
        0x10..=0x3F => {
            // Redirection table entry (24 entries, 2 registers each)
            let entry: u64 = ioapic.redtbl[((reg - 0x10) / 2) as usize];
            if reg % 2 == 1 {
                (entry >> 32) as u32
            } else {
                entry as u32
            }
        },
        _ => 0,
    }
}

/// Write to an I/O APIC register via the IOWIN window.
pub fn write_ioapic_register(ioapic: &mut IoApicState, value: u32)
    ensures
        *final(ioapic) == ioapic_written(*old(ioapic), value),
{
    let reg: u32 = ioapic.ioregsel;
    match reg {
        // Only bits 27:24 are writable
        0x00 => ioapic.id = value & 0x0F00_0000,
        0x10..=0x3F => {
            let index: usize = ((reg - 0x10) / 2) as usize;
            let entry: u64 = ioapic.redtbl[index];
            if reg % 2 == 1 {
                // High 32 bits: destination field
                ioapic.redtbl[index] = (entry & 0x0000_0000_FFFF_FFFF) | ((value as u64) << 32);
            } else {
                // Low 32 bits: vector, delivery mode, mask, etc.
                ioapic.redtbl[index] = (entry & 0xFFFF_FFFF_0000_0000) | (value as u64);
            }
        },
        // Version and arbitration ID are read-only, the rest is unknown
        _ => {},
    }
}

/// The registers that hold whatever is written to them.
pub open spec fn is_plain_register(offset: u32) -> bool {
    offset == 0x0D0 || offset == 0x0F0 || offset == 0x300 || offset == 0x310 || offset == 0x320
        || offset == 0x330 || offset == 0x340 || offset == 0x350 || offset == 0x360 || offset
        == 0x370 || offset == 0x380 || offset == 0x3E0
}

/// A plain register reads back what was written to it; the ID, priority and
/// destination format registers read back their writable bits; the error status
/// register reads 0 after any write.
pub proof fn apic_register_reads_back(apic: ApicState, offset: u32, value: u32, tsc: u64)
    ensures
        is_plain_register(offset) ==> apic_register(
            apic_written(apic, offset, value, tsc),
            offset,
        ) == value,
        offset == 0x020 ==> apic_register(apic_written(apic, offset, value, tsc), offset) == value
            & 0xFF00_0000,
        offset == 0x080 ==> apic_register(apic_written(apic, offset, value, tsc), offset) == value
            & 0xFF,
        offset == 0x0E0 ==> apic_register(apic_written(apic, offset, value, tsc), offset) == value
            | 0x0FFF_FFFF,
        offset == 0x280 ==> apic_register(apic_written(apic, offset, value, tsc), offset) == 0,
{
    assert(((value >> 24) & 0xFF) << 24 == value & 0xFF00_0000) by (bit_vector);
}

/// Writing one register changes no other register's reading, but for the
/// processor priority, which follows the task priority, and the in-service
/// register, which an end-of-interrupt changes.
pub proof fn apic_registers_are_independent(
    apic: ApicState,
    offset: u32,
    value: u32,
    tsc: u64,
    other: u32,
)
    requires
        other != offset,
        !(offset == 0x080 && other == 0x0A0),
        !(offset == 0x0B0 && 0x100 <= other <= 0x170),
    ensures
        apic_register(apic_written(apic, offset, value, tsc), other) == apic_register(apic, other),
{
}

/// Ending an interrupt undoes its going into service, if none of higher
/// priority is in service and it was not in service already.
pub proof fn end_of_interrupt_undoes_service(apic: ApicState, vector: u8)
    requires
        !crate::vmx::devices::vectors::has_vector(apic.isr@, vector),
        forall|w: u8|
            w > vector ==> !#[trigger] crate::vmx::devices::vectors::has_vector(apic.isr@, w),
    ensures
        interrupt_ended(super::interrupts::in_service(apic, vector)).isr@ == apic.isr@,
        interrupt_ended(super::interrupts::in_service(apic, vector)).irr
            == super::interrupts::in_service(apic, vector).irr,
{
    let serving = super::interrupts::in_service(apic, vector);
    crate::vmx::devices::vectors::vector_bits_are_undone(apic.isr@, vector);
    crate::vmx::devices::vectors::vector_bits_are_independent(apic.isr@, vector, vector);
    assert forall|w: u8| vector < w implies !#[trigger] crate::vmx::devices::vectors::has_vector(
        serving.isr@,
        w,
    ) by {
        crate::vmx::devices::vectors::vector_bits_are_independent(apic.isr@, vector, w);
    }
    crate::vmx::devices::vectors::lemma_highest_is(serving.isr@, vector, 256);
}

/// An end-of-interrupt with nothing in service does nothing.
pub proof fn spurious_end_of_interrupt_is_ignored(apic: ApicState)
    requires
        forall|w: u8| !#[trigger] crate::vmx::devices::vectors::has_vector(apic.isr@, w),
    ensures
        interrupt_ended(apic) == apic,
{
    crate::vmx::devices::vectors::lemma_none_below(apic.isr@, 256);
}

/// Either half of a redirection table entry reads back what was written to it,
/// and the other half keeps what it had.
pub proof fn redirection_entry_reads_back(ioapic: IoApicState, value: u32, other: u32)
    requires
        is_redirection(ioapic.ioregsel),
        is_redirection(other),
    ensures
        ioapic_register(ioapic_written(ioapic, value)) == value,
        other != ioapic.ioregsel ==> ioapic_register(
            IoApicState { ioregsel: other, ..ioapic_written(ioapic, value) },
        ) == ioapic_register(IoApicState { ioregsel: other, ..ioapic }),
{
    let entry = ioapic.redtbl@[(ioapic.ioregsel - 0x10) / 2];
    lemma_halves(entry, value);
}

/// What register `reg` reads as right after `value` was written to it, in an I/O
/// APIC whose ID was `id`.
pub open spec fn read_after_write(reg: u32, value: u32, id: u32) -> u32 {
    if is_redirection(reg) {
        value
    } else if reg == 0 {
        value & 0x0F00_0000
    } else if reg == 1 {
        0x0017_0020
    } else if reg == 2 {
        id
    } else {
        0
    }
}

/// The I/O APIC `after` differs from `before` in register `reg` alone, which holds
/// what a write of `value` leaves there. A register that is read-only or not
/// there leaves everything.
pub open spec fn only_register_changed(
    before: IoApicState,
    after: IoApicState,
    reg: u32,
    value: u32,
) -> bool {
    let i = (reg - 0x10) / 2;
    &&& after.ioregsel == before.ioregsel
    &&& after.id == (if reg == 0 {
        value & 0x0F00_0000
    } else {
        before.id
    })
    &&& forall|j: int|
        0 <= j < 24 && !(is_redirection(reg) && j == i) ==> #[trigger] after.redtbl@[j]
            == before.redtbl@[j]
    &&& is_redirection(reg) && reg % 2 == 1 ==> (after.redtbl@[i] >> 32) as u32 == value
        && after.redtbl@[i] as u32 == before.redtbl@[i] as u32
    &&& is_redirection(reg) && reg % 2 == 0 ==> after.redtbl@[i] as u32 == value && (
    after.redtbl@[i] >> 32) as u32 == (before.redtbl@[i] >> 32) as u32
}

/// A guest selects a register (a store to the index window), writes it (a store to
/// the data window) and reads it (a load from the data window), and each access is
/// carried out. The load gives the value written to either half of a redirection
/// table entry, the writable bits of the ID, and for the other registers what they
/// always read as; the write changed that register alone. Between the accesses the
/// guest may do anything that leaves the I/O APIC alone: `t` and `u` are the states
/// that the second and the third access find.
pub proof fn selected_register_reads_back(
    s: VmState,
    t: VmState,
    u: VmState,
    store: EptViolationQualification,
    load: EptViolationQualification,
    selecting: InstructionFetch,
    writing: InstructionFetch,
    reading: InstructionFetch,
)
    requires
        !store.read && store.write,
        load.read,
        ({
            let data = (IOAPIC_BASE + 0x10) as u64;
            let selected = ioapic_access(s, IOAPIC_BASE, store, selecting);
            let written = ioapic_access(t, data, store, writing);
            &&& selected.1 == ExitHandlerResult::Continue
            &&& t.devices.ioapic == selected.0.devices.ioapic
            &&& written.1 == ExitHandlerResult::Continue
            &&& u.devices.ioapic == written.0.devices.ioapic
            &&& ioapic_access(u, data, load, reading).1 == ExitHandlerResult::Continue
        }),
        reading->register < 16,
    ensures
        ({
            let reg = s.gprs.value(selecting->register) as u32;
            let value = t.gprs.value(writing->register) as u32;
            let data = (IOAPIC_BASE + 0x10) as u64;
            let selected = ioapic_access(s, IOAPIC_BASE, store, selecting);
            let written = ioapic_access(t, data, store, writing);
            let read = ioapic_access(u, data, load, reading);
            &&& selected.0.devices.ioapic == (IoApicState { ioregsel: reg, ..s.devices.ioapic })
            &&& only_register_changed(t.devices.ioapic, written.0.devices.ioapic, reg, value)
            &&& read.0.devices == u.devices
            &&& read.0.gprs.value(reading->register) == read_after_write(
                reg,
                value,
                s.devices.ioapic.id,
            )
        }),
{
    let reg = s.gprs.value(selecting->register) as u32;
    let value = t.gprs.value(writing->register) as u32;
    if is_redirection(reg) {
        lemma_halves(s.devices.ioapic.redtbl@[(reg - 0x10) / 2], value);
    }
}

/// The same of three accesses in a row, with nothing between them: what the first
/// leaves is what the second finds, and so on.
pub proof fn register_written_in_a_row_reads_back(
    s: VmState,
    store: EptViolationQualification,
    load: EptViolationQualification,
    selecting: InstructionFetch,
    writing: InstructionFetch,
    reading: InstructionFetch,
)
    requires
        !store.read && store.write,
        load.read,
        selecting is Decoded,
        writing is Decoded,
        reading is Decoded,
        reading->register < 16,
        s.vmcs.write_error_natural(VmcsFieldNatural::GuestRip) is None,
    ensures
        ({
            let reg = s.gprs.value(selecting->register) as u32;
            let value = s.gprs.value(writing->register) as u32;
            let data = (IOAPIC_BASE + 0x10) as u64;
            let selected = ioapic_access(s, IOAPIC_BASE, store, selecting);
            let written = ioapic_access(selected.0, data, store, writing);
            let read = ioapic_access(written.0, data, load, reading);
            &&& selected.1 == ExitHandlerResult::Continue
            &&& written.1 == ExitHandlerResult::Continue
            &&& read.1 == ExitHandlerResult::Continue
            &&& only_register_changed(
                selected.0.devices.ioapic,
                written.0.devices.ioapic,
                reg,
                value,
            )
            &&& read.0.gprs.value(reading->register) == read_after_write(
                reg,
                value,
                s.devices.ioapic.id,
            )
        }),
{
    let data = (IOAPIC_BASE + 0x10) as u64;
    let t = ioapic_access(s, IOAPIC_BASE, store, selecting).0;
    let u = ioapic_access(t, data, store, writing).0;
    selected_register_reads_back(s, t, u, store, load, selecting, writing, reading);
}

proof fn lemma_halves(entry: u64, value: u32)
    by (bit_vector)
    ensures
        (((entry & 0x0000_0000_FFFF_FFFF) | ((value as u64) << 32)) >> 32) as u32 == value,
        ((entry & 0x0000_0000_FFFF_FFFF) | ((value as u64) << 32)) as u32 == entry as u32,
        ((entry & 0xFFFF_FFFF_0000_0000) | (value as u64)) as u32 == value,
        (((entry & 0xFFFF_FFFF_0000_0000) | (value as u64)) >> 32) as u32 == (entry >> 32) as u32,
{
}

} // verus!
