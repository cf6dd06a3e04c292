//! Miscellaneous exit handlers: exceptions, XSETBV, triple fault debugging.

use vstd::prelude::*;

use super::helpers::{finish_instruction, inject_exception, ExitError, ExitHandlerResult};
use super::interrupts::raise_preempt_vector;
use super::qualifications::{InterruptionInfo, InterruptionType};
use super::reasons::ExitReason;
use crate::vmx::dr_watch::DbOutcome;
use crate::vmx::state::{AllExitStats, HostRequests, VmState, VmxContext};
use crate::vmx::traits::context::VmContext;
use crate::vmx::vmcs::{
    Vmcs, VmcsError, VmcsField16, VmcsField32, VmcsField64, VmcsFieldNatural,
};

verus! {

/// What a `#DB` exit means: its breakpoints come in the exit qualification, its
/// privilege level in CS and its thread in FS_BASE.
pub open spec fn breakpoint_outcome(s: VmState) -> DbOutcome {
    crate::vmx::dr_watch::db_outcome(
        s.debug_watch.slots@,
        s.vmcs.get_natural_or_zero(VmcsFieldNatural::ExitQualification),
        s.vmcs.get_natural_or_zero(VmcsFieldNatural::GuestFsBase),
        (s.vmcs.get16_or_zero(VmcsField16::GuestCsSelector) & 3) as u8,
    )
}

/// A `#DB` to hand back to the guest. It has no error code.
pub open spec fn debug_event() -> InterruptionInfo {
    InterruptionInfo {
        vector: 1,
        interruption_type: InterruptionType::HardwareException,
        error_code_valid: false,
        nmi_unblocking: false,
        valid: true,
    }
}

/// The state after a `#DB` exit while the detector is on, and what handling it
/// returns. One of our breakpoints is classified and counted, and a conflict
/// nudges the guest's scheduler. Any other `#DB` is handed back to the guest.
pub open spec fn breakpoint_taken(s: VmState) -> (VmState, ExitHandlerResult) {
    let after = VmState {
        debug_watch: s.debug_watch.after_db(
            s.vmcs.get_natural_or_zero(VmcsFieldNatural::ExitQualification),
            s.vmcs.get_natural_or_zero(VmcsFieldNatural::GuestFsBase),
            (s.vmcs.get16_or_zero(VmcsField16::GuestCsSelector) & 3) as u8,
            s.devices.apic.watchpoint_dr_oneshot,
        ),
        ..s
    };
    match breakpoint_outcome(s) {
        DbOutcome::Conflict { .. } => (
            VmState {
                exit_stats: AllExitStats {
                    wp_dr_conflicts: (s.exit_stats.wp_dr_conflicts + 1) as u64,
                    ..s.exit_stats
                },
                ..after.with_apic(super::interrupts::preempt_raised(s.devices.apic))
            },
            ExitHandlerResult::Continue,
        ),
        DbOutcome::OwnerReaccess { .. } => (
            VmState {
                exit_stats: AllExitStats {
                    wp_dr_self: (s.exit_stats.wp_dr_self + 1) as u64,
                    ..s.exit_stats
                },
                ..after
            },
            ExitHandlerResult::Continue,
        ),
        DbOutcome::NotOurs => {
            let (vmcs, r) = super::helpers::event_injected(s.vmcs, debug_event(), None);
            (
                VmState { vmcs, ..s },
                match r {
                    Ok(()) => ExitHandlerResult::Continue,
                    Err(e) => ExitHandlerResult::Error(e),
                },
            )
        },
    }
}

/// A page fault to hand back to the guest.
pub open spec fn page_fault_event() -> InterruptionInfo {
    InterruptionInfo {
        vector: 14,
        interruption_type: InterruptionType::HardwareException,
        error_code_valid: true,
        nmi_unblocking: false,
        valid: true,
    }
}

/// The state after an intercepted page fault was handed back to the guest, and
/// what that returns.
pub open spec fn page_fault_reflected(s: VmState) -> (VmState, ExitHandlerResult) {
    let (vmcs, r) = super::helpers::event_injected(
        s.vmcs,
        page_fault_event(),
        Some(s.vmcs.get32_or_zero(VmcsField32::VmExitInterruptionErrorCode)),
    );
    (
        VmState {
            vmcs,
            vmx_ctx: VmxContext {
                guest_cr2: s.vmcs.get_natural_or_zero(VmcsFieldNatural::ExitQualification),
            },
            ..s
        },
        match r {
            Ok(()) => ExitHandlerResult::Continue,
            Err(e) => ExitHandlerResult::Error(e),
        },
    )
}

/// The state after an exception or NMI exit, and what handling it returns.
pub open spec fn exception_handled(s: VmState) -> (VmState, ExitHandlerResult) {
    match s.vmcs.get32(VmcsField32::VmExitInterruptionInfo) {
        None => (
            s,
            ExitHandlerResult::Error(ExitError::VmcsReadError(VmcsError::UnsupportedField)),
        ),
        Some(raw) => {
            let info = InterruptionInfo::of(raw);
            if info.interruption_type == InterruptionType::Nmi {
                (
                    VmState { requests: HostRequests { service_nmi: true, ..s.requests }, ..s },
                    ExitHandlerResult::Continue,
                )
            } else if info.vector == 1 && s.devices.apic.watchpoint_dr {
                breakpoint_taken(s)
            } else if info.vector == 14 && s.intercept_pf {
                page_fault_reflected(s)
            } else {
                (s, ExitHandlerResult::ExitToUserspace(ExitReason::ExceptionNmi))
            }
        },
    }
}

/// Handle exception/NMI exit.
pub fn handle_exception_nmi<C: VmContext>(ctx: &mut C) -> (r: ExitHandlerResult)
    requires
        old(ctx).vm().exit_stats.wp_dr_conflicts < u64::MAX,
        old(ctx).vm().exit_stats.wp_dr_self < u64::MAX,
    ensures
        final(ctx).vm() == exception_handled(old(ctx).vm()).0,
        r == exception_handled(old(ctx).vm()).1,
        old(ctx).vm().wf() ==> final(ctx).vm().wf(),
        final(ctx).frame() == old(ctx).frame(),
{
    let state = ctx.state_mut();
    // Read interruption info to get exception details
    let info_raw: u32 = match state.vmcs.read32(VmcsField32::VmExitInterruptionInfo) {
        Ok(v) => v,
        Err(e) => return ExitHandlerResult::Error(ExitError::VmcsReadError(e)),
    };
    let info = InterruptionInfo::decode(info_raw);

    // Check if this is a host NMI that arrived during guest execution.
    // NMIs are for the host, not the guest - the host's NMI handler must be
    // invoked, or watchdog timeouts and system instability follow. The run loop
    // does that (INT 2) before it resumes the guest.
    if info.interruption_type == InterruptionType::Nmi {
        state.requests.service_nmi = true;
        return ExitHandlerResult::Continue;
    }
    // Hardware data-breakpoint race detector (DataCollider-style): a #DB from a
    // breakpoint *we* armed on a confirmed-shared address. A hit from a thread
    // other than the slot's owner is a realized data race; the owner re-touching
    // its own location is not. Such a #DB is ours and is NEVER reflected to the
    // guest. A data breakpoint is a trap (the access already completed), so we
    // simply resume.

    if info.vector == 1 && state.devices.apic.watchpoint_dr {
        // For a #DB that causes a VM exit, the CPU does NOT update DR6 -- the
        // matched breakpoint conditions (B0-B3) are reported in the VM-exit
        // qualification instead (Intel SDM Vol 3C 27.2.1 / 28.2.1). Reading DR6
        // would give the stale (pre-entry, cleared) value; the qualification's
        // bits 3:0 carry the same B0-B3 layout on_db expects.
        let fired: u64 = state.vmcs.read_natural_or_zero(VmcsFieldNatural::ExitQualification);
        let cpl: u8 = (state.vmcs.read16_or_zero(VmcsField16::GuestCsSelector) & 3) as u8;
        let tid: u64 = state.vmcs.read_natural_or_zero(VmcsFieldNatural::GuestFsBase);
        let oneshot = state.devices.apic.watchpoint_dr_oneshot;
        match state.debug_watch.on_db(fired, tid, cpl, oneshot) {
            DbOutcome::Conflict { .. } => {
                state.exit_stats.wp_dr_conflicts += 1;
                // Nudge the scheduler at the conflict point to keep interleaving.
                let _ = raise_preempt_vector(&mut state.devices.apic);
            },
            DbOutcome::OwnerReaccess { .. } => {
                state.exit_stats.wp_dr_self += 1;
            },
            // The qualification matched no slot we own: the guest's own breakpoint
            // or single step. It belongs to the guest.
            DbOutcome::NotOurs => {
                let reflect_info = InterruptionInfo {
                    vector: 1,
                    interruption_type: InterruptionType::HardwareException,
                    error_code_valid: false,
                    nmi_unblocking: false,
                    valid: true,
                };
                if let Err(e) = inject_exception(state, reflect_info, None) {
                    return ExitHandlerResult::Error(e);
                }
            },
        }
        return ExitHandlerResult::Continue;
    }
    // Intercept guest #PF: reinject so the guest handles it normally.
    // #PF is a fault - RIP already points to the faulting instruction (no advance needed).

    if info.vector == 14 && state.intercept_pf {
        let error_code: u32 = state.vmcs.read32_or_zero(VmcsField32::VmExitInterruptionErrorCode);

        // The faulting linear address is in exit qualification (SDM Vol 3C, Section 29.2.1).
        // The CPU may not update the physical CR2 register before a VM exit caused by the
        // exception bitmap - the SDM only guarantees exit qualification. Explicitly copy it
        // to guest_cr2 so that the correct value is restored on VM entry.
        let fault_addr: u64 = state.vmcs.read_natural_or_zero(VmcsFieldNatural::ExitQualification);
        state.vmx_ctx.guest_cr2 = fault_addr;

        let reinject_info = InterruptionInfo {
            vector: 14,
            interruption_type: InterruptionType::HardwareException,
            error_code_valid: true,
            nmi_unblocking: false,
            valid: true,
        };
        if let Err(e) = inject_exception(state, reinject_info, Some(error_code)) {
            return ExitHandlerResult::Error(e);
        }
        return ExitHandlerResult::Continue;
    }
    // All other exceptions go to userspace

    ExitHandlerResult::ExitToUserspace(ExitReason::ExceptionNmi)
}

/// The name of an exception vector.
pub open spec fn name_of_exception(vector: u8) -> &'static str {
    if vector == 0 {
        "DE (Divide Error)"
    } else if vector == 1 {
        "DB (Debug)"
    } else if vector == 2 {
        "NMI"
    } else if vector == 3 {
        "BP (Breakpoint)"
    } else if vector == 4 {
        "OF (Overflow)"
    } else if vector == 5 {
        "BR (Bound Range)"
    } else if vector == 6 {
        "UD (Invalid Opcode)"
    } else if vector == 7 {
        "NM (Device Not Available)"
    } else if vector == 8 {
        "DF (Double Fault)"
    } else if vector == 10 {
        "TS (Invalid TSS)"
    } else if vector == 11 {
        "NP (Segment Not Present)"
    } else if vector == 12 {
        "SS (Stack Fault)"
    } else if vector == 13 {
        "GP (General Protection)"
    } else if vector == 14 {
        "PF (Page Fault)"
    } else if vector == 16 {
        "MF (x87 FPU Error)"
    } else if vector == 17 {
        "AC (Alignment Check)"
    } else if vector == 18 {
        "MC (Machine Check)"
    } else if vector == 19 {
        "XM (SIMD Exception)"
    } else if vector == 20 {
        "VE (Virtualization)"
    } else if vector == 21 {
        "CP (Control Protection)"
    } else {
        "Unknown"
    }
}

/// Get a human-readable name for an exception vector.
pub fn exception_name(vector: u8) -> (r: &'static str)
    ensures
        r == name_of_exception(vector),
{
    match vector {
        0 => "DE (Divide Error)",
        1 => "DB (Debug)",
        2 => "NMI",
        3 => "BP (Breakpoint)",
        4 => "OF (Overflow)",
        5 => "BR (Bound Range)",
        6 => "UD (Invalid Opcode)",
        7 => "NM (Device Not Available)",
        8 => "DF (Double Fault)",
        10 => "TS (Invalid TSS)",
        11 => "NP (Segment Not Present)",
        12 => "SS (Stack Fault)",
        13 => "GP (General Protection)",
        14 => "PF (Page Fault)",
        16 => "MF (x87 FPU Error)",
        17 => "AC (Alignment Check)",
        18 => "MC (Machine Check)",
        19 => "XM (SIMD Exception)",
        20 => "VE (Virtualization)",
        21 => "CP (Control Protection)",
        _ => "Unknown",
    }
}

// =============================================================================
// Triple Fault Debugging
// =============================================================================

/// One line of a triple fault report.
#[derive(Clone, Copy, PartialEq, Eq, Debug)]
pub enum DumpLine {
    /// First line.
    Begin,
    Rip(u64),
    Rsp(u64),
    Rflags(u64),
    Cr0(u64),
    Cr3(u64),
    Cr4(u64),
    Cs(u16),
    Ss(u16),
    /// The event that was being delivered.
    IdtVectoring { vector: u32, int_type: u32, error_valid: bool },
    /// The exception that caused the triple fault.
    Exception { vector: u32, name: &'static str },
    /// Its error code.
    ErrorCode(u32),
    /// No event was being delivered.
    NoIdtVectoring,
    ExitQualification(u64),
    LinearAddress(u64),
    PhysicalAddress(u64),
    Gdtr { base: u64, limit: u32 },
    Idtr { base: u64, limit: u32 },
    ActivityState(u32),
    InterruptibilityState(u32),
    /// Last line.
    End,
}

/// A report with a line added, if there is one.
pub open spec fn with_line(lines: Seq<DumpLine>, line: Option<DumpLine>) -> Seq<DumpLine> {
    match line {
        Some(l) => lines.push(l),
        None => lines,
    }
}

/// The line of a natural-width field, if the processor has it and it is part of
/// a report.
pub open spec fn natural_report(vmcs: Vmcs, field: VmcsFieldNatural) -> Option<DumpLine> {
    match vmcs.get_natural(field) {
        None => None,
        Some(v) => match field {
            VmcsFieldNatural::GuestRip => Some(DumpLine::Rip(v)),
            VmcsFieldNatural::GuestRsp => Some(DumpLine::Rsp(v)),
            VmcsFieldNatural::GuestRflags => Some(DumpLine::Rflags(v)),
            VmcsFieldNatural::GuestCr0 => Some(DumpLine::Cr0(v)),
            VmcsFieldNatural::GuestCr3 => Some(DumpLine::Cr3(v)),
            VmcsFieldNatural::GuestCr4 => Some(DumpLine::Cr4(v)),
            VmcsFieldNatural::ExitQualification => Some(DumpLine::ExitQualification(v)),
            VmcsFieldNatural::GuestLinearAddr => Some(DumpLine::LinearAddress(v)),
            _ => None,
        },
    }
}

/// The line of a selector, if the processor has it.
pub open spec fn selector_report(vmcs: Vmcs, field: VmcsField16) -> Option<DumpLine> {
    match vmcs.get16(field) {
        None => None,
        Some(v) => match field {
            VmcsField16::GuestCsSelector => Some(DumpLine::Cs(v)),
            VmcsField16::GuestSsSelector => Some(DumpLine::Ss(v)),
        },
    }
}

/// The line of the faulting guest-physical address, if the processor has it.
pub open spec fn physical_report(vmcs: Vmcs) -> Option<DumpLine> {
    match vmcs.guest_physical_addr {
        None => None,
        Some(v) => Some(DumpLine::PhysicalAddress(v)),
    }
}

/// The line of the GDTR, if the processor has both halves.
pub open spec fn gdtr_report(vmcs: Vmcs) -> Option<DumpLine> {
    if vmcs.guest_gdtr_base is Some && vmcs.guest_gdtr_limit is Some {
        Some(DumpLine::Gdtr { base: vmcs.guest_gdtr_base->0, limit: vmcs.guest_gdtr_limit->0 })
    } else {
        None
    }
}

/// The line of the IDTR, if the processor has both halves.
pub open spec fn idtr_report(vmcs: Vmcs) -> Option<DumpLine> {
    if vmcs.guest_idtr_base is Some && vmcs.guest_idtr_limit is Some {
        Some(DumpLine::Idtr { base: vmcs.guest_idtr_base->0, limit: vmcs.guest_idtr_limit->0 })
    } else {
        None
    }
}

/// The line of a guest state field, if the processor has it and it is part of a
/// report.
pub open spec fn state_report(vmcs: Vmcs, field: VmcsField32) -> Option<DumpLine> {
    match vmcs.get32(field) {
        None => None,
        Some(v) => match field {
            VmcsField32::GuestActivityState => Some(DumpLine::ActivityState(v)),
            VmcsField32::GuestInterruptibilityState => Some(DumpLine::InterruptibilityState(v)),
            _ => None,
        },
    }
}

/// A report with the lines on the event that was being delivered.
pub open spec fn with_vectoring(lines: Seq<DumpLine>, vmcs: Vmcs) -> Seq<DumpLine> {
    match vmcs.idt_vectoring_info {
        None => lines,
        Some(info) => if info & (1u32 << 31) == 0 {
            lines.push(DumpLine::NoIdtVectoring)
        } else {
            let has_error = (info >> 11) & 1 != 0;
            let named = lines.push(
                DumpLine::IdtVectoring {
                    vector: info & 0xFF,
                    int_type: (info >> 8) & 0x7,
                    error_valid: has_error,
                },
            ).push(
                DumpLine::Exception {
                    vector: info & 0xFF,
                    name: name_of_exception((info & 0xFF) as u8),
                },
            );
            if has_error && vmcs.idt_vectoring_error_code is Some {
                named.push(DumpLine::ErrorCode(vmcs.idt_vectoring_error_code->0))
            } else {
                named
            }
        },
    }
}

/// The report: every field that the processor has, in this order.
pub open spec fn triple_fault_report(vmcs: Vmcs) -> Seq<DumpLine> {
    let l = Seq::<DumpLine>::empty().push(DumpLine::Begin);
    let l = with_line(l, natural_report(vmcs, VmcsFieldNatural::GuestRip));
    let l = with_line(l, natural_report(vmcs, VmcsFieldNatural::GuestRsp));
    let l = with_line(l, natural_report(vmcs, VmcsFieldNatural::GuestRflags));
    let l = with_line(l, natural_report(vmcs, VmcsFieldNatural::GuestCr0));
    let l = with_line(l, natural_report(vmcs, VmcsFieldNatural::GuestCr3));
    let l = with_line(l, natural_report(vmcs, VmcsFieldNatural::GuestCr4));
    let l = with_line(l, selector_report(vmcs, VmcsField16::GuestCsSelector));
    let l = with_line(l, selector_report(vmcs, VmcsField16::GuestSsSelector));
    let l = with_vectoring(l, vmcs);
    let l = with_line(l, natural_report(vmcs, VmcsFieldNatural::ExitQualification));
    let l = with_line(l, natural_report(vmcs, VmcsFieldNatural::GuestLinearAddr));
    let l = with_line(l, physical_report(vmcs));
    let l = with_line(l, gdtr_report(vmcs));
    let l = with_line(l, idtr_report(vmcs));
    let l = with_line(l, state_report(vmcs, VmcsField32::GuestActivityState));
    let l = with_line(l, state_report(vmcs, VmcsField32::GuestInterruptibilityState));
    l.push(DumpLine::End)
}

/// Dump detailed VMCS state when a triple fault occurs.
///
/// This helps diagnose what exception is causing the triple fault. The lines are
/// returned for whoever keeps the log to write out.
pub fn dump_triple_fault_state<C: VmContext>(ctx: &C) -> (r: Vec<DumpLine>)
    ensures
        r@ == triple_fault_report(ctx.vm().vmcs),
{
    let vmcs = ctx.state().vmcs;
    let mut out: Vec<DumpLine> = Vec::new();
    out.push(DumpLine::Begin);

    // Guest RIP and RSP
    push_line(&mut out, natural_line(&vmcs, VmcsFieldNatural::GuestRip));
    push_line(&mut out, natural_line(&vmcs, VmcsFieldNatural::GuestRsp));
    push_line(&mut out, natural_line(&vmcs, VmcsFieldNatural::GuestRflags));

    // Control registers
    push_line(&mut out, natural_line(&vmcs, VmcsFieldNatural::GuestCr0));
    push_line(&mut out, natural_line(&vmcs, VmcsFieldNatural::GuestCr3));
    push_line(&mut out, natural_line(&vmcs, VmcsFieldNatural::GuestCr4));

    // Segment selectors
    push_line(&mut out, selector_line(&vmcs, VmcsField16::GuestCsSelector));
    push_line(&mut out, selector_line(&vmcs, VmcsField16::GuestSsSelector));

    // IDT vectoring info - shows what exception was being delivered when triple fault occurred
    dump_idt_vectoring(&mut out, &vmcs);

    // Exit qualification, and the addresses of memory-related faults and EPT
    // violations
    push_line(&mut out, natural_line(&vmcs, VmcsFieldNatural::ExitQualification));
    push_line(&mut out, natural_line(&vmcs, VmcsFieldNatural::GuestLinearAddr));
    push_line(&mut out, physical_line(&vmcs));

    // GDTR and IDTR
    push_line(&mut out, gdtr_line(&vmcs));
    push_line(&mut out, idtr_line(&vmcs));

    // Guest activity and interruptibility state
    push_line(&mut out, state_line(&vmcs, VmcsField32::GuestActivityState));
    push_line(&mut out, state_line(&vmcs, VmcsField32::GuestInterruptibilityState));
    out.push(DumpLine::End);
    out
}

/// Add a line, if there is one.
fn push_line(out: &mut Vec<DumpLine>, line: Option<DumpLine>)
    ensures
        final(out)@ == with_line(old(out)@, line),
{
    if let Some(l) = line {
        out.push(l);
    }
}

fn natural_line(vmcs: &Vmcs, field: VmcsFieldNatural) -> (r: Option<DumpLine>)
    ensures
        r == natural_report(*vmcs, field),
{
    match vmcs.read_natural(field) {
        Err(_) => None,
        Ok(v) => match field {
            VmcsFieldNatural::GuestRip => Some(DumpLine::Rip(v)),
            VmcsFieldNatural::GuestRsp => Some(DumpLine::Rsp(v)),
            VmcsFieldNatural::GuestRflags => Some(DumpLine::Rflags(v)),
            VmcsFieldNatural::GuestCr0 => Some(DumpLine::Cr0(v)),
            VmcsFieldNatural::GuestCr3 => Some(DumpLine::Cr3(v)),
            VmcsFieldNatural::GuestCr4 => Some(DumpLine::Cr4(v)),
            VmcsFieldNatural::ExitQualification => Some(DumpLine::ExitQualification(v)),
            VmcsFieldNatural::GuestLinearAddr => Some(DumpLine::LinearAddress(v)),
            _ => None,
        },
    }
}

fn selector_line(vmcs: &Vmcs, field: VmcsField16) -> (r: Option<DumpLine>)
    ensures
        r == selector_report(*vmcs, field),
{
    match vmcs.read16(field) {
        Err(_) => None,
        Ok(v) => match field {
            VmcsField16::GuestCsSelector => Some(DumpLine::Cs(v)),
            VmcsField16::GuestSsSelector => Some(DumpLine::Ss(v)),
        },
    }
}

fn physical_line(vmcs: &Vmcs) -> (r: Option<DumpLine>)
    ensures
        r == physical_report(*vmcs),
{
    match vmcs.read64(VmcsField64::GuestPhysicalAddr) {
        Ok(v) => Some(DumpLine::PhysicalAddress(v)),
        Err(_) => None,
    }
}

fn gdtr_line(vmcs: &Vmcs) -> (r: Option<DumpLine>)
    ensures
        r == gdtr_report(*vmcs),
{
    if let Ok(base) = vmcs.read_natural(VmcsFieldNatural::GuestGdtrBase) {
        if let Ok(limit) = vmcs.read32(VmcsField32::GuestGdtrLimit) {
            return Some(DumpLine::Gdtr { base, limit });
        }
    }
    None
}

fn idtr_line(vmcs: &Vmcs) -> (r: Option<DumpLine>)
    ensures
        r == idtr_report(*vmcs),
{
    if let Ok(base) = vmcs.read_natural(VmcsFieldNatural::GuestIdtrBase) {
        if let Ok(limit) = vmcs.read32(VmcsField32::GuestIdtrLimit) {
            return Some(DumpLine::Idtr { base, limit });
        }
    }
    None
}

fn state_line(vmcs: &Vmcs, field: VmcsField32) -> (r: Option<DumpLine>)
    ensures
        r == state_report(*vmcs, field),
{
    match vmcs.read32(field) {
        Err(_) => None,
        Ok(v) => match field {
            VmcsField32::GuestActivityState => Some(DumpLine::ActivityState(v)),
            VmcsField32::GuestInterruptibilityState => Some(DumpLine::InterruptibilityState(v)),
            _ => None,
        },
    }
}

/// The lines on the event that was being delivered.
fn dump_idt_vectoring(out: &mut Vec<DumpLine>, vmcs: &Vmcs)
    ensures
        final(out)@ == with_vectoring(old(out)@, *vmcs),
{
    if let Ok(idt_info) = vmcs.read32(VmcsField32::IdtVectoringInfo) {
        if idt_info & (1u32 << 31) != 0 {
            // Valid bit is set - an exception was being delivered
            let vector: u32 = idt_info & 0xFF;
            let int_type: u32 = (idt_info >> 8) & 0x7;
            let has_error = (idt_info >> 11) & 1 != 0;
            out.push(DumpLine::IdtVectoring { vector, int_type, error_valid: has_error });
            out.push(DumpLine::Exception { vector, name: exception_name(vector as u8) });
            if has_error {
                if let Ok(error_code) = vmcs.read32(VmcsField32::IdtVectoringErrorCode) {
                    out.push(DumpLine::ErrorCode(error_code));
                }
            }
        } else {
            out.push(DumpLine::NoIdtVectoring);
        }
    }
}

// =============================================================================
// XSETBV Handler
// =============================================================================

/// Whether a value can be XCR0: x87 state (bit 0) on, and SSE state (bit 1)
/// where AVX state (bit 2) is.
pub open spec fn is_valid_xcr0(value: u64) -> bool {
    value & 1 != 0 && (value & 4 != 0 ==> value & 2 != 0)
}

/// The value that XSETBV sets: EDX:EAX.
pub open spec fn xsetbv_value(s: VmState) -> u64 {
    (s.gprs.rdx << 32) | (s.gprs.rax & 0xFFFF_FFFF)
}

/// The state after an XSETBV exit, and what handling it returns.
pub open spec fn xsetbv_handled(s: VmState) -> (VmState, ExitHandlerResult) {
    if s.gprs.rcx as u32 == 0 && is_valid_xcr0(xsetbv_value(s)) {
        (
            super::helpers::advanced(VmState { xcr0_mask: xsetbv_value(s), ..s }),
            super::helpers::advanced_result(s, ExitHandlerResult::Continue),
        )
    } else {
        (s, ExitHandlerResult::ExitToUserspace(ExitReason::Xsetbv))
    }
}

/// Handle XSETBV exit.
///
/// XSETBV sets the extended control register XCR0 which controls which
/// XSAVE-supported processor state components are enabled.
///
/// Intel SDM Vol 2B, XSETBV instruction.
pub fn handle_xsetbv<C: VmContext>(ctx: &mut C) -> (r: ExitHandlerResult)
    ensures
        if old(ctx).vm().gprs.rcx as u32 == 0 && is_valid_xcr0(xsetbv_value(old(ctx).vm())) {
            final(ctx).vm() == super::helpers::advanced(
                VmState { xcr0_mask: xsetbv_value(old(ctx).vm()), ..old(ctx).vm() },
            ) && r == super::helpers::advanced_result(
                old(ctx).vm(),
                ExitHandlerResult::Continue,
            )
        } else {
            final(ctx).vm() == old(ctx).vm() && r == ExitHandlerResult::ExitToUserspace(
                ExitReason::Xsetbv,
            )
        },
        final(ctx).vm() == xsetbv_handled(old(ctx).vm()).0,
        r == xsetbv_handled(old(ctx).vm()).1,
        final(ctx).frame() == old(ctx).frame(),
{
    let state = ctx.state_mut();
    let xcr_num: u32 = state.gprs.rcx as u32;
    let value: u64 = (state.gprs.rdx << 32) | (state.gprs.rax & 0xFFFF_FFFF);

    // Only XCR0 is currently defined
    if xcr_num != 0 {
        return ExitHandlerResult::ExitToUserspace(ExitReason::Xsetbv);
    }
    // Validate XCR0 value:
    // - Bit 0 (x87 FPU) must be 1
    // - If AVX (bit 2) is set, SSE (bit 1) must also be set

    if value & 1 == 0 {
        return ExitHandlerResult::ExitToUserspace(ExitReason::Xsetbv);
    }
    if value & 4 != 0 && value & 2 == 0 {
        return ExitHandlerResult::ExitToUserspace(ExitReason::Xsetbv);
    }
    // Update the xcr0_mask used for XSAVE/XRSTOR
    // This ensures the correct state components are saved/restored

    state.xcr0_mask = value;
    finish_instruction(state, ExitHandlerResult::Continue)
}

/// A `#DB` of a breakpoint that the hypervisor armed is never handed to the
/// guest or to userspace while the detector is on.
pub proof fn own_breakpoints_stay_hidden(s: VmState, raw: u32)
    requires
        s.vmcs.get32(VmcsField32::VmExitInterruptionInfo) == Some(raw),
        InterruptionInfo::of(raw).vector == 1,
        s.devices.apic.watchpoint_dr,
        breakpoint_outcome(s) !is NotOurs,
    ensures
        exception_handled(s).1 == ExitHandlerResult::Continue,
        exception_handled(s).0.vmcs == s.vmcs,
{
}

/// A `#DB` that hit none of the hypervisor's breakpoints goes to the guest: the
/// next entry injects it, and neither the watch table nor a counter changes.
/// Where the field to inject it through cannot be written, that is the error.
pub proof fn foreign_breakpoints_reach_the_guest(s: VmState, raw: u32)
    requires
        s.vmcs.get32(VmcsField32::VmExitInterruptionInfo) == Some(raw),
        InterruptionInfo::of(raw).interruption_type != InterruptionType::Nmi,
        InterruptionInfo::of(raw).vector == 1,
        s.devices.apic.watchpoint_dr,
        breakpoint_outcome(s) is NotOurs,
    ensures
        exception_handled(s).0 == (VmState { vmcs: exception_handled(s).0.vmcs, ..s }),
        match s.vmcs.write_error32(VmcsField32::VmEntryInterruptionInfo) {
            None => {
                &&& exception_handled(s).1 == ExitHandlerResult::Continue
                &&& exception_handled(s).0.vmcs == s.vmcs.set32(
                    VmcsField32::VmEntryInterruptionInfo,
                    debug_event().bits(),
                )
            },
            Some(e) => {
                &&& exception_handled(s).1 == ExitHandlerResult::Error(
                    ExitError::VmcsWriteError(e),
                )
                &&& exception_handled(s).0.vmcs == s.vmcs
            },
        },
{
}

/// A host NMI leaves the guest untouched.
pub proof fn host_nmi_leaves_the_guest_alone(s: VmState, raw: u32)
    requires
        s.vmcs.get32(VmcsField32::VmExitInterruptionInfo) == Some(raw),
        InterruptionInfo::of(raw).interruption_type == InterruptionType::Nmi,
    ensures
        exception_handled(s).1 == ExitHandlerResult::Continue,
        exception_handled(s).0 == (VmState {
            requests: HostRequests { service_nmi: true, ..s.requests },
            ..s
        }),
{
}

} // verus!
