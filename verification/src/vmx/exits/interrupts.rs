//! Interrupt injection and APIC timer handling.

use vstd::prelude::*;

use super::helpers::{inject_exception, ExitError};
use super::qualifications::InterruptionInfo;
use crate::vmx::devices::apic::{apic_timer_divisor, ApicState};
use crate::vmx::devices::ioapic::IOAPIC_NUM_PINS;
use crate::vmx::devices::vectors::{clear_vector, highest_vector, set_vector};
use crate::vmx::state::{DeviceStates, HostRequests, IoChannelState, VmState};
use crate::vmx::traits::context::VmContext;
use crate::vmx::vmcs::{Vmcs, VmcsError, VmcsField32, VmcsFieldNatural};

verus! {

/// IOAPIC pin used for the deterministic hypervisor-guest I/O channel.
///
/// The MP table advertises this pin as a routable ISA interrupt so the guest's
/// kernel module can request it through the normal IRQ subsystem (the kernel
/// then programs the IOAPIC redirection-table entry with a chosen vector). The
/// hypervisor injects via [`ioapic_deliver_irq`].
///
/// Pin 9 is not used by the emulated platform's other devices (PIT is on pin 0,
/// serial COM1 on pin 4, RTC would be on pin 8) and corresponds to ISA IRQ 9,
/// which is conventionally reserved for ACPI on real hardware; since guests are
/// ACPI-less, it is free to claim.
pub const IO_CHANNEL_IRQ: u8 = 9;

/// Interrupt-window exiting (bit 2 of the primary processor-based controls).
pub const INTR_WINDOW_EXITING: u32 = 0x4;

impl VmState {
    /// This state with another local APIC.
    pub open spec fn with_apic(self, apic: ApicState) -> VmState {
        VmState { devices: DeviceStates { apic, ..self.devices }, ..self }
    }
}

/// The vector that the LVT timer delivers.
pub open spec fn timer_vector(apic: ApicState) -> u8 {
    (apic.lvt_timer & 0xFF) as u8
}

/// Whether the APIC timer interrupt is due and enabled.
pub open spec fn timer_due(apic: ApicState, tsc: u64) -> bool {
    &&& apic.timer_deadline != 0
    &&& tsc >= apic.timer_deadline
    &&& apic.svr & (1u32 << 8) != 0
    &&& apic.lvt_timer & (1u32 << 16) == 0
}

/// The state after the APIC timer was checked: a due timer raises its vector,
/// counts a late delivery, and is reloaded (periodic) or stopped (one-shot).
pub open spec fn timer_checked(s: VmState) -> VmState {
    let apic = s.devices.apic;
    if timer_due(apic, s.emulated_tsc) {
        let late = if s.emulated_tsc > apic.timer_deadline {
            1int
        } else {
            0
        };
        let deadline = if apic.lvt_timer & (1u32 << 17) != 0 {
            ((s.emulated_tsc + apic.timer_initial
                * crate::vmx::devices::apic::timer_divisor(apic.timer_divide))
                % 0x1_0000_0000_0000_0000) as u64
        } else {
            0
        };
        VmState {
            exit_stats: crate::vmx::state::AllExitStats {
                apic_timer_late_inject: (s.exit_stats.apic_timer_late_inject + late) as u64,
                ..s.exit_stats
            },
            ..s.with_apic(
                ApicState {
                    irr: crate::vmx::devices::vectors::raised(apic.irr, timer_vector(apic)),
                    timer_deadline: deadline,
                    ..apic
                },
            )
        }
    } else {
        s
    }
}

/// Check if APIC timer has expired and set IRR bit if so.
/// Uses emulated TSC for determinism.
#[verifier::rlimit(40)]
pub fn check_apic_timer<C: VmContext>(ctx: &mut C)
    requires
        old(ctx).vm().exit_stats.apic_timer_late_inject < u64::MAX,
    ensures
        final(ctx).vm() == timer_checked(old(ctx).vm()),
        final(ctx).frame() == old(ctx).frame(),
{
    let state = ctx.state_mut();
    let current_tsc: u64 = state.emulated_tsc;
    let deadline: u64 = state.devices.apic.timer_deadline;

    if deadline == 0 {
        return ;
    }
    if current_tsc < deadline {
        return ;
    }
    if state.devices.apic.svr & (1u32 << 8) == 0 {
        return ;
    }
    if state.devices.apic.lvt_timer & (1u32 << 16) != 0 {
        return ;
    }
    // Diagnostic: count timer firings that arrive past the deadline. The
    // precise PEBS+MTF boundary lands `current_tsc == timer_deadline`;
    // anything strictly greater means PEBS didn't fire at the
    // `target - PEBS_MARGIN` point and the timer is being delivered late
    // on whatever deterministic exit happened past the deadline.

    if current_tsc > deadline {
        state.exit_stats.apic_timer_late_inject += 1;
    }
    // Get vector from LVT timer (bits 7:0) and set its bit in IRR

    let vector: u8 = (state.devices.apic.lvt_timer & 0xFF) as u8;
    set_vector(&mut state.devices.apic.irr, vector);

    // Handle periodic vs one-shot mode (bit 17 of lvt_timer)
    if state.devices.apic.lvt_timer & (1u32 << 17) != 0 {
        // Periodic: reset deadline for next period
        let divisor: u32 = apic_timer_divisor(state.devices.apic.timer_divide);
        let initial: u32 = state.devices.apic.timer_initial;
        assert(initial * divisor <= 0xFFFF_FFFF * 128) by (nonlinear_arith)
            requires
                initial <= 0xFFFF_FFFF,
                divisor <= 128,
        ;
        let ticks: u64 = initial as u64 * divisor as u64;
        state.devices.apic.timer_deadline = current_tsc.wrapping_add(ticks);
    } else {
        // One-shot: stop timer
        state.devices.apic.timer_deadline = 0;
    }
}

/// Whether the LVT timer can deliver: APIC enabled, timer unmasked, and a
/// vector outside the reserved ones.
pub open spec fn vector_usable(apic: ApicState) -> bool {
    &&& apic.svr & (1u32 << 8) != 0
    &&& apic.lvt_timer & (1u32 << 16) == 0
    &&& timer_vector(apic) >= 16
}

/// The APIC after a preemption was forced: the timer vector raised where it
/// can be delivered, unchanged where it cannot.
pub open spec fn preempt_raised(apic: ApicState) -> ApicState {
    if vector_usable(apic) {
        ApicState {
            irr: crate::vmx::devices::vectors::raised(apic.irr, timer_vector(apic)),
            ..apic
        }
    } else {
        apic
    }
}

/// Force a preemption by raising the LVT timer vector in IRR. Returns whether
/// the guest has a deliverable timer vector; nothing is raised otherwise.
pub fn raise_preempt_vector(apic: &mut ApicState) -> (r: bool)
    ensures
        r == vector_usable(*old(apic)),
        *final(apic) == preempt_raised(*old(apic)),
{
    if apic.svr & (1u32 << 8) == 0 || apic.lvt_timer & (1u32 << 16) != 0 {
        return false;
    }
    let vector: u8 = (apic.lvt_timer & 0xFF) as u8;
    if vector < 16 {
        return false;
    }
    set_vector(&mut apic.irr, vector);
    true
}

/// The APIC after forced preemption was checked at `tsc`. Nothing happens while
/// the feature is off or the guest has no deliverable timer vector; the first
/// pass arms a deadline; a pass at or past the deadline raises the vector and
/// schedules the next one.
pub open spec fn preempt_checked(apic: ApicState, tsc: u64) -> ApicState {
    if apic.preempt_period == 0 || !vector_usable(apic) {
        apic
    } else if apic.preempt_deadline != 0 && tsc < apic.preempt_deadline {
        apic
    } else {
        let next = if tsc + apic.next_interval() > u64::MAX {
            u64::MAX
        } else {
            (tsc + apic.next_interval()) as u64
        };
        ApicState {
            preempt_seed: crate::vmx::devices::apic::xorshift64(apic.preempt_seed),
            preempt_deadline: next,
            ..if apic.preempt_deadline == 0 {
                apic
            } else {
                preempt_raised(apic)
            }
        }
    }
}

/// Deterministic instruction-granular preemption: inject the LVT timer vector
/// on the first pass at or past the preemption deadline, and schedule the next
/// one. The first deadline is armed lazily, without injecting.
pub fn check_preempt<C: VmContext>(ctx: &mut C)
    requires
        old(ctx).vm().devices.apic.preempt_period != 0 ==> old(
            ctx,
        ).vm().devices.apic.next_interval() <= u64::MAX,
    ensures
        final(ctx).vm() == old(ctx).vm().with_apic(
            preempt_checked(old(ctx).vm().devices.apic, old(ctx).vm().emulated_tsc),
        ),
        final(ctx).frame() == old(ctx).frame(),
{
    let state = ctx.state_mut();
    let tsc: u64 = state.emulated_tsc;
    let apic = &mut state.devices.apic;
    if apic.preempt_period == 0 {
        return ;
    }
    if apic.svr & (1u32 << 8) == 0 || apic.lvt_timer & (1u32 << 16) != 0 || ((apic.lvt_timer & 0xFF)
        as u8) < 16 {
        return ;
    }
    if apic.preempt_deadline != 0 {
        if tsc < apic.preempt_deadline {
            return ;
        }
        let _ = raise_preempt_vector(apic);
    }
    let interval: u64 = apic.next_preempt_interval();
    apic.preempt_deadline = tsc.saturating_add(interval);
}

/// Whether let-through watchpoints are to be protected again at `tsc`: the feature
/// is on, a deadline is armed, and it has come.
pub open spec fn wp_rearm_due(apic: ApicState, tsc: u64) -> bool {
    &&& apic.watchpoint_pct != 0
    &&& apic.wp_rearm_interval != 0
    &&& apic.wp_rearm_deadline != 0
    &&& tsc >= apic.wp_rearm_deadline
}

/// The APIC after the re-arm of watchpoints was checked at `tsc`. Nothing happens
/// while the feature is off or the deadline has not come; the first pass arms a
/// deadline one interval from now, and so does a pass that is due.
pub open spec fn wp_rearm_checked(apic: ApicState, tsc: u64) -> ApicState {
    if apic.watchpoint_pct == 0 || apic.wp_rearm_interval == 0 {
        apic
    } else if apic.wp_rearm_deadline != 0 && tsc < apic.wp_rearm_deadline {
        apic
    } else {
        ApicState {
            wp_rearm_deadline: if tsc + apic.wp_rearm_interval > u64::MAX {
                u64::MAX
            } else {
                (tsc + apic.wp_rearm_interval) as u64
            },
            ..apic
        }
    }
}

/// Sampling re-arm of watchpoints: says whether the pages that were let through
/// are to be batch re-protected now (`VmContext::rearm_watchpoints`). The first
/// deadline is armed lazily, without a re-arm; each later one is set from the
/// current TSC once the one before has fired. It is called at deterministic exits,
/// like `check_preempt`.
pub fn check_wp_rearm<C: VmContext>(ctx: &mut C) -> (r: bool)
    ensures
        r == wp_rearm_due(old(ctx).vm().devices.apic, old(ctx).vm().emulated_tsc),
        final(ctx).vm() == old(ctx).vm().with_apic(
            wp_rearm_checked(old(ctx).vm().devices.apic, old(ctx).vm().emulated_tsc),
        ),
        final(ctx).frame() == old(ctx).frame(),
{
    let state = ctx.state_mut();
    let tsc: u64 = state.emulated_tsc;
    let apic = &mut state.devices.apic;
    if apic.watchpoint_pct == 0 || apic.wp_rearm_interval == 0 {
        return false;
    }
    let armed = apic.wp_rearm_deadline != 0;
    if armed && tsc < apic.wp_rearm_deadline {
        return false;
    }
    apic.wp_rearm_deadline = tsc.saturating_add(apic.wp_rearm_interval);
    armed
}

/// The APIC after pin `irq` of the I/O APIC was raised: the entry's vector is
/// requested unless the entry is masked or its vector is reserved.
pub open spec fn irq_delivered(s: VmState, irq: u8) -> VmState {
    if irq < 24 && irq_routed(s, irq) {
        s.with_apic(
            ApicState {
                irr: crate::vmx::devices::vectors::raised(
                    s.devices.apic.irr,
                    (s.devices.ioapic.redtbl@[irq as int] & 0xFF) as u8,
                ),
                ..s.devices.apic
            },
        )
    } else {
        s
    }
}

/// Whether the redirection-table entry of `irq` is unmasked with a vector that
/// is not reserved.
pub open spec fn irq_routed(s: VmState, irq: u8) -> bool {
    let entry = s.devices.ioapic.redtbl@[irq as int];
    (entry >> 16) & 1 == 0 && entry & 0xFF >= 16
}

/// Deliver an interrupt through the I/O APIC to the local APIC.
///
/// This looks up the redirection table entry for the given IRQ pin,
/// and if not masked, sets the corresponding bit in the local APIC's IRR.
pub fn ioapic_deliver_irq<C: VmContext>(ctx: &mut C, irq: u8)
    ensures
        final(ctx).vm() == irq_delivered(old(ctx).vm(), irq),
        final(ctx).frame() == old(ctx).frame(),
{
    let state = ctx.state_mut();
    if irq as usize >= IOAPIC_NUM_PINS {
        return ;
    }
    let entry: u64 = state.devices.ioapic.redtbl[irq as usize];

    // Check if masked (bit 16)
    if (entry >> 16) & 1 != 0 {
        return ;
    }
    let low: u64 = entry & 0xFF;
    if low < 16 {
        // Vectors 0-15 are reserved
        return ;
    }
    // Set the bit in local APIC's IRR

    set_vector(&mut state.devices.apic.irr, low as u8);
}

/// Whether a queued I/O channel request can be delivered now.
pub open spec fn io_request_due(s: VmState) -> bool {
    &&& s.io_channel.page_gpa != 0
    &&& s.io_channel.request_len != 0
    &&& !s.io_channel.request_delivered
    &&& s.io_channel.request_target_tsc == 0 || s.emulated_tsc >= s.io_channel.request_target_tsc
    &&& irq_routed(s, 9)
}

/// The state after the I/O channel was checked.
pub open spec fn io_channel_checked(s: VmState) -> VmState {
    if io_request_due(s) {
        VmState {
            io_channel: IoChannelState { request_delivered: true, ..s.io_channel },
            ..irq_delivered(s, 9)
        }
    } else {
        s
    }
}

/// Check whether an I/O channel request is queued and not yet delivered to
/// the guest, and if so, raise the I/O channel IRQ via the emulated IOAPIC.
///
/// The guest module is responsible for two prerequisites before we can fire:
///   1. It registered the shared page (sets `io_channel.page_gpa != 0`).
///   2. It requested the channel IRQ, which causes the guest kernel to write an
///      unmasked, valid-vector entry into `ioapic.redtbl[IO_CHANNEL_IRQ]`.
///
/// Until both are true the request just sits in `VmState`; once they're both
/// true `ioapic_deliver_irq` flips the APIC IRR bit and the normal
/// `inject_pending_interrupt` path delivers it on the next interruptible
/// VM-entry. `request_delivered` is set only after the IRR bit has actually
/// been raised (i.e. the IOAPIC entry was unmasked) so a request that arrives
/// before the guest module is ready isn't silently dropped.
pub fn check_io_channel<C: VmContext>(ctx: &mut C)
    ensures
        final(ctx).vm() == io_channel_checked(old(ctx).vm()),
        final(ctx).frame() == old(ctx).frame(),
{
    let state = ctx.state();
    if state.io_channel.page_gpa == 0 {
        return ;
    }
    if state.io_channel.request_len == 0 {
        return ;
    }
    if state.io_channel.request_delivered {
        return ;
    }
    // When the request was queued with a target TSC, defer until the emulated
    // TSC has caught up. The PEBS re-arm takes this target into account, so an
    // exit happens precisely at the requested instruction count; any later
    // exit is a safety net.

    if state.io_channel.request_target_tsc != 0 && state.emulated_tsc
        < state.io_channel.request_target_tsc {
        return ;
    }
    // Masked (bit 16) or vector < 16: the guest module hasn't wired up the IRQ
    // yet. Leave the request pending and try again next iteration.

    let entry: u64 = state.devices.ioapic.redtbl[9];
    if (entry >> 16) & 1 != 0 || entry & 0xFF < 16 {
        return ;
    }
    ioapic_deliver_irq(ctx, IO_CHANNEL_IRQ);
    let state = ctx.state_mut();
    state.io_channel.request_delivered = true;
}

/// The highest-priority requested interrupt, if the APIC is enabled.
pub open spec fn pending_vector(apic: ApicState) -> Option<u8> {
    if apic.svr & (1u32 << 8) == 0 {
        None
    } else {
        crate::vmx::devices::vectors::highest(apic.irr@)
    }
}

/// Find the highest priority pending interrupt in the APIC IRR.
/// Returns the vector number if an interrupt is pending, None otherwise.
pub fn apic_pending_vector<C: VmContext>(ctx: &C) -> (r: Option<u8>)
    ensures
        r == pending_vector(ctx.vm().devices.apic),
{
    let state = ctx.state();
    // Check if APIC is enabled (SVR bit 8)
    if state.devices.apic.svr & (1u32 << 8) == 0 {
        return None;
    }
    // Find highest priority pending interrupt (highest vector number)

    highest_vector(&state.devices.apic.irr)
}

/// The control structure with interrupt-window exiting on or off, and what
/// switching it returns.
pub open spec fn window_exiting(vmcs: Vmcs, on: bool) -> (Vmcs, Result<(), ExitError>) {
    match vmcs.get32(VmcsField32::PrimaryProcBasedVmExecControls) {
        None => (vmcs, Err(ExitError::VmcsReadError(VmcsError::UnsupportedField))),
        Some(controls) => if (controls & 0x4 != 0) == on {
            (vmcs, Ok(()))
        } else {
            match vmcs.write_error32(VmcsField32::PrimaryProcBasedVmExecControls) {
                Some(e) => (vmcs, Err(ExitError::VmcsWriteError(e))),
                None => (
                    vmcs.set32(
                        VmcsField32::PrimaryProcBasedVmExecControls,
                        if on {
                            controls | 0x4
                        } else {
                            controls & !0x4
                        },
                    ),
                    Ok(()),
                ),
            }
        },
    }
}

/// Enable interrupt-window exiting so we get a VM exit when the guest becomes interruptible.
pub fn enable_interrupt_window_exiting<C: VmContext>(ctx: &mut C) -> (r: Result<(), ExitError>)
    ensures
        final(ctx).vm() == (VmState {
            vmcs: window_exiting(old(ctx).vm().vmcs, true).0,
            ..old(ctx).vm()
        }),
        r == window_exiting(old(ctx).vm().vmcs, true).1,
        final(ctx).frame() == old(ctx).frame(),
{
    let state = ctx.state_mut();
    let controls: u32 = match state.vmcs.read32(VmcsField32::PrimaryProcBasedVmExecControls) {
        Ok(v) => v,
        Err(e) => return Err(ExitError::VmcsReadError(e)),
    };
    if controls & INTR_WINDOW_EXITING == 0 {
        if let Err(e) = state.vmcs.write32(
            VmcsField32::PrimaryProcBasedVmExecControls,
            controls | INTR_WINDOW_EXITING,
        ) {
            return Err(ExitError::VmcsWriteError(e));
        }
    }
    Ok(())
}

/// Disable interrupt-window exiting.
pub fn disable_interrupt_window_exiting<C: VmContext>(ctx: &mut C) -> (r: Result<(), ExitError>)
    ensures
        final(ctx).vm() == (VmState {
            vmcs: window_exiting(old(ctx).vm().vmcs, false).0,
            ..old(ctx).vm()
        }),
        r == window_exiting(old(ctx).vm().vmcs, false).1,
        final(ctx).frame() == old(ctx).frame(),
{
    let state = ctx.state_mut();
    let controls: u32 = match state.vmcs.read32(VmcsField32::PrimaryProcBasedVmExecControls) {
        Ok(v) => v,
        Err(e) => return Err(ExitError::VmcsReadError(e)),
    };
    if controls & INTR_WINDOW_EXITING != 0 {
        if let Err(e) = state.vmcs.write32(
            VmcsField32::PrimaryProcBasedVmExecControls,
            controls & !INTR_WINDOW_EXITING,
        ) {
            return Err(ExitError::VmcsWriteError(e));
        }
    }
    Ok(())
}

/// The control structure with an interrupted event set up for re-injection,
/// and whether there was one.
pub open spec fn reinjected(vmcs: Vmcs) -> (Vmcs, Result<bool, ExitError>) {
    match vmcs.get32(VmcsField32::IdtVectoringInfo) {
        None => (vmcs, Err(ExitError::VmcsReadError(VmcsError::UnsupportedField))),
        Some(info) => if info & (1u32 << 31) == 0 {
            (vmcs, Ok(false))
        } else {
            match vmcs.write_error32(VmcsField32::VmEntryInterruptionInfo) {
                Some(e) => (vmcs, Err(ExitError::VmcsWriteError(e))),
                None => {
                    let with_info = vmcs.set32(VmcsField32::VmEntryInterruptionInfo, info);
                    if info & (1u32 << 11) == 0 {
                        (with_info, Ok(true))
                    } else {
                        with_error_code(with_info, vmcs.get32(VmcsField32::IdtVectoringErrorCode))
                    }
                },
            }
        },
    }
}

/// The control structure with the interrupted event's error code set up too.
pub open spec fn with_error_code(vmcs: Vmcs, code: Option<u32>) -> (Vmcs, Result<bool, ExitError>) {
    match code {
        None => (vmcs, Err(ExitError::VmcsReadError(VmcsError::UnsupportedField))),
        Some(code) => match vmcs.write_error32(VmcsField32::VmEntryExceptionErrorCode) {
            Some(e) => (vmcs, Err(ExitError::VmcsWriteError(e))),
            None => (vmcs.set32(VmcsField32::VmEntryExceptionErrorCode, code), Ok(true)),
        },
    }
}

/// Check IDT-vectoring information and re-inject if an event was interrupted during delivery.
///
/// Per Intel SDM Vol 3C Section 29.2.4: When a VM exit occurs during delivery of an event
/// through the IDT (e.g., EPT violation while pushing interrupt frame to stack), the event
/// info is saved in IdtVectoringInfo. The hypervisor must re-inject this event by copying
/// it to VmEntryInterruptionInfo.
///
/// Returns Ok(true) if an event was re-injected, Ok(false) if no event needs re-injection.
pub fn reinject_vectored_event<C: VmContext>(ctx: &mut C) -> (r: Result<bool, ExitError>)
    ensures
        final(ctx).vm() == (VmState { vmcs: reinjected(old(ctx).vm().vmcs).0, ..old(ctx).vm() }),
        r == reinjected(old(ctx).vm().vmcs).1,
        final(ctx).frame() == old(ctx).frame(),
{
    let state = ctx.state_mut();
    let idt_info: u32 = match state.vmcs.read32(VmcsField32::IdtVectoringInfo) {
        Ok(v) => v,
        Err(e) => return Err(ExitError::VmcsReadError(e)),
    };

    // Check if valid (bit 31) - if not set, no event was interrupted
    if idt_info & (1u32 << 31) == 0 {
        return Ok(false);
    }
    // Copy IDT-vectoring info to VM-entry interruption-info for re-injection.
    // The formats are identical per Intel SDM (Table 26-18 and Table 26-21).

    if let Err(e) = state.vmcs.write32(VmcsField32::VmEntryInterruptionInfo, idt_info) {
        return Err(ExitError::VmcsWriteError(e));
    }
    // If error code is valid (bit 11), copy that too

    if idt_info & (1u32 << 11) != 0 {
        let error_code: u32 = match state.vmcs.read32(VmcsField32::IdtVectoringErrorCode) {
            Ok(v) => v,
            Err(e) => return Err(ExitError::VmcsReadError(e)),
        };
        if let Err(e) = state.vmcs.write32(VmcsField32::VmEntryExceptionErrorCode, error_code) {
            return Err(ExitError::VmcsWriteError(e));
        }
    }
    Ok(true)
}

/// Whether a fresh interrupt may be injected, given that no interrupted event
/// had to be re-injected.
pub open spec fn injection_eligible(s: VmState) -> bool {
    &&& s.last_exit_deterministic
    &&& s.vmcs.get32_or_zero(VmcsField32::VmEntryInterruptionInfo) & (1u32 << 31) == 0
}

/// The state after every source of interrupts was checked.
pub open spec fn sources_checked(s: VmState) -> VmState {
    let timer = timer_checked(s);
    io_channel_checked(
        timer.with_apic(preempt_checked(timer.devices.apic, timer.emulated_tsc)),
    )
}

/// The state after the highest-priority requested interrupt, if any, was
/// injected, or interrupt-window exiting asked for where the guest cannot take
/// it yet.
pub open spec fn requested_injected(s: VmState) -> (VmState, Result<(), ExitError>) {
    match pending_vector(s.devices.apic) {
        None => (s, Ok(())),
        Some(vector) => match s.vmcs.get_natural(VmcsFieldNatural::GuestRflags) {
            None => (s, Err(ExitError::VmcsReadError(VmcsError::UnsupportedField))),
            Some(rflags) => if rflags & (1u64 << 9) == 0 {
                (VmState { vmcs: window_exiting(s.vmcs, true).0, ..s }, window_exiting(
                    s.vmcs,
                    true,
                ).1)
            } else {
                match s.vmcs.get32(VmcsField32::GuestInterruptibilityState) {
                    None => (s, Err(ExitError::VmcsReadError(VmcsError::UnsupportedField))),
                    Some(blocking) => if blocking & 0x3 != 0 {
                        (VmState { vmcs: window_exiting(s.vmcs, true).0, ..s }, window_exiting(
                            s.vmcs,
                            true,
                        ).1)
                    } else {
                        let (vmcs, r) = super::helpers::event_injected(
                            s.vmcs,
                            InterruptionInfo::external(vector),
                            None,
                        );
                        if r is Err {
                            (VmState { vmcs, ..s }, r)
                        } else {
                            (
                                VmState {
                                    vmcs: window_exiting(vmcs, false).0,
                                    ..s.with_apic(in_service(s.devices.apic, vector))
                                },
                                window_exiting(vmcs, false).1,
                            )
                        }
                    },
                }
            },
        },
    }
}

/// The APIC once a requested vector is being serviced: its IRR bit clear, its
/// ISR bit set.
pub open spec fn in_service(apic: ApicState, vector: u8) -> ApicState {
    ApicState {
        irr: crate::vmx::devices::vectors::lowered(apic.irr, vector),
        isr: crate::vmx::devices::vectors::raised(apic.isr, vector),
        ..apic
    }
}

/// The state after an injection pass, and what it returns.
pub open spec fn injection_pass(s: VmState) -> (VmState, Result<(), ExitError>) {
    let (vmcs, again) = reinjected(s.vmcs);
    let s1 = VmState { vmcs, ..s };
    match again {
        Err(e) => (s1, Err(e)),
        Ok(again) => {
            let eligible = !again && injection_eligible(s1);
            let s2 = if eligible {
                sources_checked(s1)
            } else {
                s1
            };
            let s3 = VmState { requests: HostRequests { rearm_pebs: true, ..s2.requests }, ..s2 };
            if eligible {
                requested_injected(s3)
            } else {
                (s3, Ok(()))
            }
        },
    }
}

/// Inject any pending interrupt into the guest before VM entry.
/// This should be called before each VMLAUNCH/VMRESUME.
#[verifier::rlimit(40)]
pub fn inject_pending_interrupt<C: VmContext>(ctx: &mut C) -> (r: Result<(), ExitError>)
    requires
        old(ctx).vm().exit_stats.apic_timer_late_inject < u64::MAX,
        old(ctx).vm().devices.apic.preempt_period != 0 ==> old(
            ctx,
        ).vm().devices.apic.next_interval() <= u64::MAX,
    ensures
        final(ctx).vm() == injection_pass(old(ctx).vm()).0,
        r == injection_pass(old(ctx).vm()).1,
        final(ctx).frame() == old(ctx).frame(),
{
    // Decide whether a fresh interrupt is eligible for injection this
    // iteration. The PEBS re-arm below is asked for unconditionally, so every
    // branch here is a "what about the pending-interrupt side" decision.
    //
    // Three reasons to skip new injection:
    //
    //   - `reinject_vectored_event` returned true: an interrupt or exception
    //     delivery was aborted (e.g. CoW EPT violation while pushing the
    //     interrupt frame) and must complete first. Per Intel SDM Vol 3C
    //     29.2.4, we re-inject before handling new events. Runs
    //     unconditionally - the event was already in flight.
    //
    //   - Last exit was non-deterministic (host NMI, external interrupt, VMX
    //     preemption timer): we'd risk setting IRR / re-injecting at a
    //     non-deterministic boundary, e.g. a host NMI landing at the same
    //     instruction where hardware would have fired an interrupt-window VM
    //     exit, silently absorbing it and shortening the deterministic log by
    //     one entry.
    //
    //   - `VmEntryInterruptionInfo` already has an exception pending (e.g.
    //     reinjected #PF): don't overwrite it with an interrupt; it gets
    //     handled on the next exit.
    let again = match reinject_vectored_event(ctx) {
        Ok(v) => v,
        Err(e) => return Err(e),
    };
    let eligible = !again && ctx.state().last_exit_deterministic && ctx.state().vmcs.read32_or_zero(
        VmcsField32::VmEntryInterruptionInfo,
    ) & (1u32 << 31) == 0;
    if eligible {
        check_apic_timer(ctx);
        check_preempt(ctx);
        // Sequenced after `check_apic_timer` so that when both are eligible the
        // timer (typically higher vector, higher priority) wins selection in
        // `apic_pending_vector` and the request queues behind it via the sticky
        // IRR bit.
        check_io_channel(ctx);
    }
    // Re-arm PEBS for the next deadline regardless of which branch above was
    // taken: after a non-deterministic exit, the previous iteration's counter
    // reload no longer matches the instructions remaining to the deadline. The
    // timer check has to come first, or the re-arm would aim at a deadline that
    // has already fired.

    let state = ctx.state_mut();
    state.requests.rearm_pebs = true;

    if !eligible {
        return Ok(());
    }
    // Find highest priority pending interrupt

    let vector: u8 = match apic_pending_vector(ctx) {
        Some(v) => v,
        None => return Ok(()),  // No pending interrupt
    };

    // Check if guest is interruptible (RFLAGS.IF = 1)
    let rflags: u64 = match ctx.state().vmcs.read_natural(VmcsFieldNatural::GuestRflags) {
        Ok(v) => v,
        Err(e) => return Err(ExitError::VmcsReadError(e)),
    };
    if rflags & (1u64 << 9) == 0 {
        // IF=0, enable interrupt-window exiting to inject later
        return enable_interrupt_window_exiting(ctx);
    }
    // Check interruptibility state (blocking by STI or MOV SS)

    let interruptibility: u32 = match ctx.state().vmcs.read32(
        VmcsField32::GuestInterruptibilityState,
    ) {
        Ok(v) => v,
        Err(e) => return Err(ExitError::VmcsReadError(e)),
    };
    if interruptibility & 0x3 != 0 {
        // Blocked by STI or MOV SS
        return enable_interrupt_window_exiting(ctx);
    }
    // Guest is interruptible - inject the interrupt

    let state = ctx.state_mut();
    let info = InterruptionInfo::external_interrupt(vector);
    if let Err(e) = inject_exception(state, info, None) {
        return Err(e);
    }
    // Clear IRR bit, set ISR bit (interrupt now in service)

    clear_vector(&mut state.devices.apic.irr, vector);
    set_vector(&mut state.devices.apic.isr, vector);

    // Disable interrupt-window exiting if it was enabled
    disable_interrupt_window_exiting(ctx)
}

/// After a non-deterministic exit no interrupt is raised or injected: apart from
/// an event whose delivery was interrupted, the pass only asks for the PEBS
/// re-arm.
pub proof fn nondeterministic_exit_injects_nothing(s: VmState)
    requires
        !s.last_exit_deterministic,
        reinjected(s.vmcs).1 is Ok,
    ensures
        injection_pass(s).0 == (VmState {
            vmcs: reinjected(s.vmcs).0,
            requests: HostRequests { rearm_pebs: true, ..s.requests },
            ..s
        }),
        injection_pass(s).1 is Ok,
{
}

/// An event that is already set up for injection is never overwritten by an
/// interrupt.
pub proof fn pending_event_is_kept(s: VmState)
    requires
        s.vmcs.get32_or_zero(VmcsField32::VmEntryInterruptionInfo) & (1u32 << 31) != 0,
        reinjected(s.vmcs).1 == Ok::<bool, ExitError>(false),
    ensures
        injection_pass(s).0.vmcs == s.vmcs,
{
}

/// An interrupted event comes back exactly as it was reported, and no interrupt
/// is taken with it.
pub proof fn interrupted_event_is_redelivered(s: VmState)
    requires
        reinjected(s.vmcs).1 == Ok::<bool, ExitError>(true),
    ensures
        injection_pass(s).0.vmcs.get32(VmcsField32::VmEntryInterruptionInfo) == s.vmcs.get32(
            VmcsField32::IdtVectoringInfo,
        ),
        s.vmcs.get32(VmcsField32::IdtVectoringInfo)->0 & (1u32 << 11) != 0
            ==> injection_pass(s).0.vmcs.get32(VmcsField32::VmEntryExceptionErrorCode)
            == s.vmcs.get32(VmcsField32::IdtVectoringErrorCode),
        injection_pass(s).0.devices == s.devices,
{
}

/// A vector that goes into service is no longer requested, is in service, and
/// no other vector is touched.
pub proof fn in_service_moves_one_vector(apic: ApicState, vector: u8, other: u8)
    ensures
        !crate::vmx::devices::vectors::has_vector(in_service(apic, vector).irr@, vector),
        crate::vmx::devices::vectors::has_vector(in_service(apic, vector).isr@, vector),
        other != vector ==> crate::vmx::devices::vectors::has_vector(
            in_service(apic, vector).irr@,
            other,
        ) == crate::vmx::devices::vectors::has_vector(apic.irr@, other),
        other != vector ==> crate::vmx::devices::vectors::has_vector(
            in_service(apic, vector).isr@,
            other,
        ) == crate::vmx::devices::vectors::has_vector(apic.isr@, other),
{
    crate::vmx::devices::vectors::vector_bits_are_independent(apic.irr@, vector, other);
    crate::vmx::devices::vectors::vector_bits_are_independent(apic.isr@, vector, other);
}

/// A one-shot timer fires once: checking again right away changes nothing.
pub proof fn one_shot_timer_fires_once(s: VmState)
    requires
        s.devices.apic.lvt_timer & (1u32 << 17) == 0,
    ensures
        timer_checked(timer_checked(s)) == timer_checked(s),
{
}

/// A due timer requests its vector.
pub proof fn due_timer_requests_its_vector(s: VmState)
    requires
        timer_due(s.devices.apic, s.emulated_tsc),
    ensures
        crate::vmx::devices::vectors::has_vector(
            timer_checked(s).devices.apic.irr@,
            timer_vector(s.devices.apic),
        ),
{
    crate::vmx::devices::vectors::vector_bits_are_independent(
        s.devices.apic.irr@,
        timer_vector(s.devices.apic),
        timer_vector(s.devices.apic),
    );
}

/// An I/O channel request interrupts the guest once: checking again changes
/// nothing, whatever time has passed.
pub proof fn io_request_is_delivered_once(s: VmState, tsc: u64)
    ensures
        io_request_due(s) ==> io_channel_checked(
            VmState { emulated_tsc: tsc, ..io_channel_checked(s) },
        ) == (VmState { emulated_tsc: tsc, ..io_channel_checked(s) }),
{
}

/// An I/O channel request is never dropped: it stays pending until the guest
/// has routed the interrupt, and is then requested from the APIC.
pub proof fn io_request_is_never_dropped(s: VmState)
    ensures
        io_channel_checked(s).io_channel.request_delivered && !s.io_channel.request_delivered
            ==> crate::vmx::devices::vectors::has_vector(
            io_channel_checked(s).devices.apic.irr@,
            (s.devices.ioapic.redtbl@[9] & 0xFF) as u8,
        ),
        !io_request_due(s) ==> io_channel_checked(s) == s,
{
    let vector = (s.devices.ioapic.redtbl@[9] & 0xFF) as u8;
    crate::vmx::devices::vectors::vector_bits_are_independent(
        s.devices.apic.irr@,
        vector,
        vector,
    );
}

/// The pass that arms the first deadline injects nothing, and every pass that
/// schedules a deadline puts it at least one period ahead.
pub proof fn preemption_is_scheduled_ahead(apic: ApicState, tsc: u64)
    requires
        apic.preempt_period != 0,
        vector_usable(apic),
        tsc + apic.next_interval() <= u64::MAX,
    ensures
        apic.preempt_deadline == 0 ==> preempt_checked(apic, tsc).irr == apic.irr,
        apic.preempt_deadline == 0 || tsc >= apic.preempt_deadline ==> tsc + apic.preempt_period
            <= preempt_checked(apic, tsc).preempt_deadline < tsc + 2 * apic.preempt_period,
        apic.preempt_deadline != 0 && tsc < apic.preempt_deadline ==> preempt_checked(apic, tsc)
            == apic,
{
}

/// Two VMs with the same preemption settings draw the same schedule: where a
/// deadline falls depends on the time, the period and the seed alone.
pub proof fn preemption_schedule_is_reproducible(a: ApicState, b: ApicState, tsc: u64)
    requires
        a.preempt_period == b.preempt_period,
        a.preempt_seed == b.preempt_seed,
        a.preempt_deadline == b.preempt_deadline,
        vector_usable(a),
        vector_usable(b),
    ensures
        preempt_checked(a, tsc).preempt_deadline == preempt_checked(b, tsc).preempt_deadline,
        preempt_checked(a, tsc).preempt_seed == preempt_checked(b, tsc).preempt_seed,
{
}

/// Re-arms are at least an interval apart: after a pass that set a deadline, no
/// pass before it is due or changes anything, and the first one at or after it is
/// due.
pub proof fn rearms_are_an_interval_apart(apic: ApicState, tsc: u64, later: u64)
    requires
        apic.watchpoint_pct != 0,
        apic.wp_rearm_interval != 0,
        apic.wp_rearm_deadline == 0 || wp_rearm_due(apic, tsc),
        tsc + apic.wp_rearm_interval <= u64::MAX,
    ensures
        ({
            let set = wp_rearm_checked(apic, tsc);
            &&& wp_rearm_due(set, later) == (later >= tsc + apic.wp_rearm_interval)
            &&& later < tsc + apic.wp_rearm_interval ==> wp_rearm_checked(set, later) == set
        }),
{
}

} // verus!
