//! What exit handling promises the guest as a whole.
//!
//! The laws are stated over what a guest or a run loop can see: registers, fields
//! of the control structure, bits of the interrupt controllers.

use vstd::prelude::*;

use super::apic::InstructionFetch;
use super::cpuid::CpuidRegs;
use super::helpers::{ExitError, ExitHandlerResult};
use super::misc::DumpLine;
use super::qualifications::{EptViolationQualification, InterruptionInfo, InterruptionType};
use super::reasons::ExitReason;
use crate::vmx::devices::apic::ApicState;
use crate::vmx::devices::ioapic::IoApicState;
use crate::vmx::state::VmState;
use crate::vmx::vmcs::{Vmcs, VmcsError};

verus! {

// ---- Injection ----

/// A point at which a fresh interrupt may be taken up: the last exit was
/// deterministic, no delivery was interrupted, and no event is set up.
pub open spec fn at_a_quiet_exit(s: VmState) -> bool {
    &&& s.last_exit_deterministic
    &&& s.vmcs.idt_vectoring_info is Some
    &&& s.vmcs.idt_vectoring_info->0 & (1u32 << 31) == 0
    &&& s.vmcs.vm_entry_interruption_info is Some
    &&& s.vmcs.vm_entry_interruption_info->0 & (1u32 << 31) == 0
}

/// The guest can take an interrupt: IF is set, and neither STI nor MOV SS blocks.
pub open spec fn takes_interrupts(vmcs: Vmcs) -> bool {
    &&& vmcs.guest_rflags is Some
    &&& vmcs.guest_rflags->0 & (1u64 << 9) != 0
    &&& vmcs.guest_interruptibility_state is Some
    &&& vmcs.guest_interruptibility_state->0 & 0x3 == 0
}

/// The fields that an injection writes can be written.
pub open spec fn injection_fields_writable(vmcs: Vmcs) -> bool {
    &&& vmcs.vm_entry_interruption_info is Some
    &&& vmcs.write_faults.vm_entry_interruption_info is None
    &&& vmcs.primary_proc_based_vm_exec_controls is Some
    &&& vmcs.write_faults.primary_proc_based_vm_exec_controls is None
}

/// A vector is requested or in service.
pub open spec fn is_pending_or_served(apic: ApicState, vector: u8) -> bool {
    crate::vmx::devices::vectors::has_vector(apic.irr@, vector)
        || crate::vmx::devices::vectors::has_vector(apic.isr@, vector)
}

/// The APIC timer's interrupt is due.
pub open spec fn timer_has_expired(s: VmState) -> bool {
    &&& s.devices.apic.svr & (1u32 << 8) != 0
    &&& s.devices.apic.lvt_timer & (1u32 << 16) == 0
    &&& s.devices.apic.timer_deadline != 0
    &&& s.emulated_tsc >= s.devices.apic.timer_deadline
}

/// A forced preemption is due.
pub open spec fn preemption_has_come(s: VmState) -> bool {
    &&& s.devices.apic.preempt_period != 0
    &&& s.devices.apic.svr & (1u32 << 8) != 0
    &&& s.devices.apic.lvt_timer & (1u32 << 16) == 0
    &&& s.devices.apic.lvt_timer & 0xFF >= 16
    &&& s.devices.apic.preempt_deadline != 0
    &&& s.emulated_tsc >= s.devices.apic.preempt_deadline
}

/// A request on the I/O channel is due, and the guest has routed its interrupt.
pub open spec fn io_request_has_come(s: VmState) -> bool {
    let entry = s.devices.ioapic.redtbl@[9];
    &&& s.io_channel.page_gpa != 0
    &&& s.io_channel.request_len != 0
    &&& !s.io_channel.request_delivered
    &&& s.emulated_tsc >= s.io_channel.request_target_tsc
    &&& (entry >> 16) & 1 == 0
    &&& entry & 0xFF >= 16
}

/// What an injection pass makes of the requests and the vectors in service, and
/// what a vector that it takes up looks like to the processor.
proof fn lemma_pass(s: VmState, w: u8)
    requires
        at_a_quiet_exit(s),
    ensures
        ({
            let before = s.devices.apic;
            let after = super::interrupts::injection_pass(s).0.devices.apic;
            let timer = (before.lvt_timer & 0xFF) as u8;
            let channel = (s.devices.ioapic.redtbl@[9] & 0xFF) as u8;
            let raised = {
                ||| crate::vmx::devices::vectors::has_vector(before.irr@, w)
                ||| timer_has_expired(s) && w == timer
                ||| preemption_has_come(s) && w == timer
                ||| io_request_has_come(s) && w == channel
            };
            let checked = super::interrupts::sources_checked(s);
            &&& crate::vmx::devices::vectors::has_vector(checked.devices.apic.irr@, w) == raised
            &&& checked.devices.apic.isr == before.isr
            &&& checked.vmcs == s.vmcs
            &&& checked.devices.apic.svr == before.svr
            &&& is_pending_or_served(after, w) == (raised
                || crate::vmx::devices::vectors::has_vector(before.isr@, w))
        }),
{
    let checked = super::interrupts::sources_checked(s);
    let before = s.devices.apic;
    let timer = (before.lvt_timer & 0xFF) as u8;
    let channel = (s.devices.ioapic.redtbl@[9] & 0xFF) as u8;
    lemma_low_byte(before.lvt_timer, s.devices.ioapic.redtbl@[9]);
    let irr1 = super::interrupts::timer_checked(s).devices.apic.irr;
    let irr2 = super::interrupts::preempt_checked(
        super::interrupts::timer_checked(s).devices.apic,
        s.emulated_tsc,
    ).irr;
    crate::vmx::devices::vectors::vector_bits_are_independent(before.irr@, timer, w);
    crate::vmx::devices::vectors::vector_bits_are_independent(before.irr@, timer, timer);
    crate::vmx::devices::vectors::vector_bits_are_independent(irr1@, timer, w);
    crate::vmx::devices::vectors::vector_bits_are_independent(irr1@, timer, timer);
    crate::vmx::devices::vectors::vector_bits_are_independent(irr2@, channel, w);
    crate::vmx::devices::vectors::vector_bits_are_independent(irr2@, channel, channel);
    if crate::vmx::devices::vectors::highest(checked.devices.apic.irr@) is Some {
        let v = crate::vmx::devices::vectors::highest(checked.devices.apic.irr@)->0;
        crate::vmx::devices::vectors::highest_is_set_and_maximal(checked.devices.apic.irr@, v);
        super::interrupts::in_service_moves_one_vector(checked.devices.apic, v, w);
    }
}

proof fn lemma_low_byte(x: u32, y: u64)
    by (bit_vector)
    ensures
        ((x & 0xFF) as u8) as u32 == x & 0xFF,
        ((y & 0xFF) as u8) as u64 == y & 0xFF,
{
}

proof fn lemma_external(v: u8)
    by (bit_vector)
    ensures
        (v as u32) | (0u32 << 8) | 0 | 0 | (1u32 << 31) == 0x8000_0000u32 | (v as u32),
{
}

/// No interrupt comes from nowhere and none is lost: after a pass a vector is
/// requested or in service exactly if it was before, or if the timer, a forced
/// preemption or the I/O channel was due and has that vector. The pass asks for
/// the PEBS re-arm.
pub proof fn pending_interrupts_are_those_that_are_due(s: VmState, vector: u8)
    requires
        at_a_quiet_exit(s),
    ensures
        is_pending_or_served(super::interrupts::injection_pass(s).0.devices.apic, vector) == {
            ||| is_pending_or_served(s.devices.apic, vector)
            ||| timer_has_expired(s) && vector == (s.devices.apic.lvt_timer & 0xFF) as u8
            ||| preemption_has_come(s) && vector == (s.devices.apic.lvt_timer & 0xFF) as u8
            ||| io_request_has_come(s) && vector == (s.devices.ioapic.redtbl@[9] & 0xFF) as u8
        },
        super::interrupts::injection_pass(s).0.requests.rearm_pebs,
        super::interrupts::injection_pass(s).0.emulated_tsc == s.emulated_tsc,
        super::interrupts::injection_pass(s).0.gprs == s.gprs,
        super::interrupts::injection_pass(s).0.devices.ioapic == s.devices.ioapic,
{
    lemma_pass(s, vector);
}

/// An expired APIC timer interrupts the guest: its vector is requested or in
/// service after the pass. A one-shot timer is then stopped, and a periodic one is
/// set to expire a period from now.
pub proof fn expired_timer_is_delivered(s: VmState)
    requires
        at_a_quiet_exit(s),
        timer_has_expired(s),
    ensures
        ({
            let after = super::interrupts::injection_pass(s).0.devices.apic;
            let period = s.devices.apic.timer_initial
                * crate::vmx::devices::apic::timer_divisor(s.devices.apic.timer_divide);
            &&& is_pending_or_served(after, (s.devices.apic.lvt_timer & 0xFF) as u8)
            &&& s.devices.apic.lvt_timer & (1u32 << 17) == 0 ==> after.timer_deadline == 0
            &&& s.devices.apic.lvt_timer & (1u32 << 17) != 0 && s.emulated_tsc + period
                <= u64::MAX ==> after.timer_deadline == s.emulated_tsc + period
            &&& after.timer_initial == s.devices.apic.timer_initial
        }),
{
    lemma_pass(s, (s.devices.apic.lvt_timer & 0xFF) as u8);
    let period = s.devices.apic.timer_initial
        * crate::vmx::devices::apic::timer_divisor(s.devices.apic.timer_divide);
    assert(period >= 0) by (nonlinear_arith)
        requires
            period == s.devices.apic.timer_initial
                * crate::vmx::devices::apic::timer_divisor(s.devices.apic.timer_divide),
    ;
}

/// A timer whose time has not come, or that is masked or off, stays as it is.
pub proof fn unexpired_timer_keeps_running(s: VmState)
    requires
        at_a_quiet_exit(s),
        !timer_has_expired(s),
    ensures
        super::interrupts::injection_pass(s).0.devices.apic.timer_deadline
            == s.devices.apic.timer_deadline,
        super::interrupts::injection_pass(s).0.exit_stats == s.exit_stats,
{
}

/// A forced preemption that is due interrupts the guest with the timer's vector,
/// and the next one lies between one and two periods ahead.
pub proof fn due_preemption_is_delivered(s: VmState)
    requires
        at_a_quiet_exit(s),
        preemption_has_come(s),
        s.emulated_tsc + 2 * s.devices.apic.preempt_period <= u64::MAX,
    ensures
        ({
            let after = super::interrupts::injection_pass(s).0.devices.apic;
            &&& is_pending_or_served(after, (s.devices.apic.lvt_timer & 0xFF) as u8)
            &&& s.emulated_tsc + s.devices.apic.preempt_period <= after.preempt_deadline
                < s.emulated_tsc + 2 * s.devices.apic.preempt_period
            &&& after.preempt_period == s.devices.apic.preempt_period
        }),
{
    lemma_pass(s, (s.devices.apic.lvt_timer & 0xFF) as u8);
    lemma_low_byte(s.devices.apic.lvt_timer, 0);
}

/// An I/O channel request that is due interrupts the guest with the vector that
/// the guest routed pin 9 to, and is marked as delivered; one that is not stays
/// queued as it was.
pub proof fn due_io_request_is_delivered(s: VmState)
    requires
        at_a_quiet_exit(s),
    ensures
        ({
            let after = super::interrupts::injection_pass(s).0;
            &&& io_request_has_come(s) ==> {
                &&& is_pending_or_served(
                    after.devices.apic,
                    (s.devices.ioapic.redtbl@[9] & 0xFF) as u8,
                )
                &&& after.io_channel.request_delivered
            }
            &&& !io_request_has_come(s) ==> after.io_channel == s.io_channel
            &&& after.io_channel.page_gpa == s.io_channel.page_gpa
            &&& after.io_channel.request_len == s.io_channel.request_len
            &&& after.io_channel.request_target_tsc == s.io_channel.request_target_tsc
        }),
{
    lemma_pass(s, (s.devices.ioapic.redtbl@[9] & 0xFF) as u8);
    assert(s.emulated_tsc >= 0);
}

/// Where the guest can take it, the highest vector that was requested or has just
/// become due is injected: the next entry delivers it as an external interrupt, it
/// goes into service, and no request of it is left. Interrupt-window exiting is
/// off afterwards.
pub proof fn highest_due_vector_is_injected(s: VmState, vector: u8)
    requires
        at_a_quiet_exit(s),
        s.devices.apic.svr & (1u32 << 8) != 0,
        takes_interrupts(s.vmcs),
        injection_fields_writable(s.vmcs),
        crate::vmx::devices::vectors::has_vector(s.devices.apic.irr@, vector) || (vector == (
        s.devices.apic.lvt_timer & 0xFF) as u8 && (timer_has_expired(s) || preemption_has_come(s)))
            || (vector == (s.devices.ioapic.redtbl@[9] & 0xFF) as u8 && io_request_has_come(s)),
        forall|w: u8|
            w > vector ==> !#[trigger] crate::vmx::devices::vectors::has_vector(
                s.devices.apic.irr@,
                w,
            ),
        timer_has_expired(s) || preemption_has_come(s) ==> (s.devices.apic.lvt_timer & 0xFF) as u8
            <= vector,
        io_request_has_come(s) ==> (s.devices.ioapic.redtbl@[9] & 0xFF) as u8 <= vector,
    ensures
        ({
            let after = super::interrupts::injection_pass(s);
            &&& after.1 is Ok
            &&& after.0.vmcs.vm_entry_interruption_info == Some(0x8000_0000u32 | vector as u32)
            &&& crate::vmx::devices::vectors::has_vector(after.0.devices.apic.isr@, vector)
            &&& !crate::vmx::devices::vectors::has_vector(after.0.devices.apic.irr@, vector)
            &&& after.0.vmcs.primary_proc_based_vm_exec_controls is Some
            &&& after.0.vmcs.primary_proc_based_vm_exec_controls->0 & 0x4 == 0
            &&& after.0.vmcs.guest_rip == s.vmcs.guest_rip
        }),
{
    let checked = super::interrupts::sources_checked(s);
    lemma_pass(s, vector);
    assert forall|w: u8| vector < w implies !#[trigger] crate::vmx::devices::vectors::has_vector(
        checked.devices.apic.irr@,
        w,
    ) by {
        lemma_pass(s, w);
    }
    crate::vmx::devices::vectors::lemma_highest_is(checked.devices.apic.irr@, vector, 256);
    super::interrupts::in_service_moves_one_vector(checked.devices.apic, vector, vector);
    lemma_external(vector);
    let c = s.vmcs.primary_proc_based_vm_exec_controls->0;
    lemma_window(c);
}

proof fn lemma_window(c: u32)
    by (bit_vector)
    ensures
        (c | 0x4) & 0x4 == 0x4,
        (c | 0x4) & !0x4u32 == c & !0x4u32,
        (c & !0x4u32) & 0x4 == 0,
{
}

/// Where the guest cannot take it yet, the interrupt stays requested, nothing is
/// set up for the next entry, and the processor is asked to exit as soon as the
/// guest can.
pub proof fn blocked_interrupt_opens_a_window(s: VmState, vector: u8)
    requires
        at_a_quiet_exit(s),
        s.devices.apic.svr & (1u32 << 8) != 0,
        s.vmcs.guest_rflags is Some,
        s.vmcs.guest_interruptibility_state is Some,
        !takes_interrupts(s.vmcs),
        injection_fields_writable(s.vmcs),
        crate::vmx::devices::vectors::has_vector(s.devices.apic.irr@, vector) || (vector == (
        s.devices.apic.lvt_timer & 0xFF) as u8 && (timer_has_expired(s) || preemption_has_come(s)))
            || (vector == (s.devices.ioapic.redtbl@[9] & 0xFF) as u8 && io_request_has_come(s)),
    ensures
        ({
            let after = super::interrupts::injection_pass(s);
            &&& after.1 is Ok
            &&& crate::vmx::devices::vectors::has_vector(after.0.devices.apic.irr@, vector)
            &&& after.0.devices.apic.isr == s.devices.apic.isr
            &&& after.0.vmcs.vm_entry_interruption_info == s.vmcs.vm_entry_interruption_info
            &&& after.0.vmcs.primary_proc_based_vm_exec_controls is Some
            &&& after.0.vmcs.primary_proc_based_vm_exec_controls->0 & 0x4 != 0
            &&& after.0.vmcs.primary_proc_based_vm_exec_controls->0 & !0x4u32
                == s.vmcs.primary_proc_based_vm_exec_controls->0 & !0x4u32
        }),
{
    let checked = super::interrupts::sources_checked(s);
    lemma_pass(s, vector);
    crate::vmx::devices::vectors::highest_is_set_and_maximal(checked.devices.apic.irr@, vector);
    lemma_window(s.vmcs.primary_proc_based_vm_exec_controls->0);
}

/// With the APIC disabled or nothing requested or due, the control structure stays
/// as it is.
pub proof fn nothing_due_injects_nothing(s: VmState)
    requires
        at_a_quiet_exit(s),
        s.devices.apic.svr & (1u32 << 8) == 0 || (!timer_has_expired(s) && !preemption_has_come(s)
            && !io_request_has_come(s) && forall|w: u8|
            !#[trigger] crate::vmx::devices::vectors::has_vector(s.devices.apic.irr@, w)),
    ensures
        super::interrupts::injection_pass(s).0.vmcs == s.vmcs,
        super::interrupts::injection_pass(s).1 is Ok,
        super::interrupts::injection_pass(s).0.devices.apic.isr == s.devices.apic.isr,
{
    let checked = super::interrupts::sources_checked(s);
    lemma_pass(s, 0);
    if s.devices.apic.svr & (1u32 << 8) != 0 {
        assert forall|w: u8|
            !#[trigger] crate::vmx::devices::vectors::has_vector(checked.devices.apic.irr@, w) by {
            lemma_pass(s, w);
        }
        crate::vmx::devices::vectors::lemma_none_below(checked.devices.apic.irr@, 256);
    }
}

/// An event whose delivery a VM exit interrupted is set up again exactly as it was
/// reported, with its error code if it has one; the devices are left alone, whether
/// or not anything is due.
pub proof fn interrupted_delivery_is_repeated(s: VmState)
    requires
        s.vmcs.idt_vectoring_info is Some,
        s.vmcs.idt_vectoring_info->0 & (1u32 << 31) != 0,
        s.vmcs.vm_entry_interruption_info is Some,
        s.vmcs.write_faults.vm_entry_interruption_info is None,
        s.vmcs.idt_vectoring_info->0 & (1u32 << 11) != 0 ==> {
            &&& s.vmcs.idt_vectoring_error_code is Some
            &&& s.vmcs.vm_entry_exception_error_code is Some
            &&& s.vmcs.write_faults.vm_entry_exception_error_code is None
        },
    ensures
        ({
            let after = super::interrupts::injection_pass(s);
            &&& after.1 is Ok
            &&& after.0.vmcs.vm_entry_interruption_info == s.vmcs.idt_vectoring_info
            &&& s.vmcs.idt_vectoring_info->0 & (1u32 << 11) != 0
                ==> after.0.vmcs.vm_entry_exception_error_code == s.vmcs.idt_vectoring_error_code
            &&& s.vmcs.idt_vectoring_info->0 & (1u32 << 11) == 0
                ==> after.0.vmcs.vm_entry_exception_error_code
                == s.vmcs.vm_entry_exception_error_code
            &&& after.0.vmcs.guest_rip == s.vmcs.guest_rip
            &&& after.0.devices == s.devices
            &&& after.0.io_channel == s.io_channel
            &&& after.0.requests.rearm_pebs
        }),
{
}

/// After a non-deterministic exit, or with an event already set up, nothing that is
/// due is taken up: devices and I/O channel stay, and so does the event.
pub proof fn only_quiet_exits_take_interrupts_up(s: VmState)
    requires
        s.vmcs.idt_vectoring_info is Some,
        s.vmcs.idt_vectoring_info->0 & (1u32 << 31) == 0,
        !s.last_exit_deterministic || (s.vmcs.vm_entry_interruption_info is Some
            && s.vmcs.vm_entry_interruption_info->0 & (1u32 << 31) != 0),
    ensures
        super::interrupts::injection_pass(s).1 is Ok,
        super::interrupts::injection_pass(s).0.vmcs == s.vmcs,
        super::interrupts::injection_pass(s).0.devices == s.devices,
        super::interrupts::injection_pass(s).0.io_channel == s.io_channel,
        super::interrupts::injection_pass(s).0.requests.rearm_pebs,
{
}

// ---- CPUID ----

/// The TSC frequency that the guest works out from leaf 0x15, ECX * EBX / EAX, is
/// the configured one.
pub proof fn reported_frequency_is_the_configured_one(
    subleaf: u32,
    tsc_frequency: u64,
    host: CpuidRegs,
)
    requires
        tsc_frequency < 0x1_0000_0000,
    ensures
        ({
            let r = super::cpuid::guest_cpuid(0x15, subleaf, tsc_frequency, host);
            &&& r.eax != 0
            &&& r.ecx * r.ebx == tsc_frequency * r.eax
            &&& r.edx == 0
        }),
{
    assert((tsc_frequency & 0xFFFF_FFFF) as u32 == tsc_frequency) by (bit_vector)
        requires
            tsc_frequency < 0x1_0000_0000,
    ;
}

/// The CMOS clock advances by `n` seconds in the ticks that the guest takes `n`
/// seconds to be: the frequency that CPUID reports is the one that the clock
/// divides by.
pub proof fn clock_and_cpuid_agree_on_the_second(
    subleaf: u32,
    tsc_frequency: u64,
    host: CpuidRegs,
    base_time: u64,
    n: u64,
)
    requires
        0 < tsc_frequency < 0x1_0000_0000,
        n * tsc_frequency <= u64::MAX,
    ensures
        ({
            let r = super::cpuid::guest_cpuid(0x15, subleaf, tsc_frequency, host);
            let per_second = (r.ecx * r.ebx) / r.eax as int;
            crate::vmx::devices::rtc::rtc_seconds(
                base_time,
                (n * per_second) as u64,
                tsc_frequency,
            ) == base_time + n
        }),
{
    reported_frequency_is_the_configured_one(subleaf, tsc_frequency, host);
    let r = super::cpuid::guest_cpuid(0x15, subleaf, tsc_frequency, host);
    vstd::arithmetic::div_mod::lemma_div_multiples_vanish(tsc_frequency as int, r.eax as int);
    assert(tsc_frequency * r.eax == r.eax * tsc_frequency) by (nonlinear_arith);
    vstd::arithmetic::div_mod::lemma_div_multiples_vanish(n as int, tsc_frequency as int);
    assert(n * tsc_frequency == tsc_frequency * n) by (nonlinear_arith);
    assert(n * tsc_frequency >= 0) by (nonlinear_arith);
}

/// A CPUID answer is in the four registers, zero-extended; no other register
/// changes, RIP is past the instruction, and nothing else of the VM changes.
pub proof fn cpuid_changes_four_registers(s: VmState, host: CpuidRegs, rip: u64, length: u32, i: u8)
    requires
        s.vmcs.guest_rip == Some(rip),
        s.vmcs.vm_exit_instruction_length == Some(length),
        s.vmcs.write_faults.guest_rip is None,
        rip + length <= u64::MAX,
    ensures
        ({
            let regs = super::cpuid::guest_cpuid(
                s.gprs.rax as u32,
                s.gprs.rcx as u32,
                s.tsc_frequency,
                host,
            );
            let after = super::cpuid::cpuid_answered(s, host);
            &&& after.gprs.value(0) == regs.eax
            &&& after.gprs.value(3) == regs.ebx
            &&& after.gprs.value(1) == regs.ecx
            &&& after.gprs.value(2) == regs.edx
            &&& i > 3 ==> after.gprs.value(i) == s.gprs.value(i)
            &&& after.vmcs.guest_rip == Some((rip + length) as u64)
            &&& after == (VmState { gprs: after.gprs, vmcs: after.vmcs, ..s })
            &&& after.vmcs == (Vmcs { guest_rip: after.vmcs.guest_rip, ..s.vmcs })
            &&& super::helpers::advanced_result(s, ExitHandlerResult::Continue)
                == ExitHandlerResult::Continue
        }),
{
}

/// Bit `bit` of a word.
pub open spec fn bit(word: u32, bit: u32) -> bool {
    (word >> bit) & 1 == 1
}

/// What the processor is: family 6, model 85, stepping 7, with APIC ID 0, on every
/// host. Every feature bit is the host's but for VMX (ECX bit 5), the TSC deadline
/// timer (24) and hyper-threading (EDX bit 28), which are off, and the hypervisor
/// bit (ECX bit 31), which is on.
pub proof fn basic_features_are_the_hosts_without_a_few(
    subleaf: u32,
    tsc_frequency: u64,
    host: CpuidRegs,
    b: u32,
)
    requires
        b < 32,
    ensures
        ({
            let r = super::cpuid::guest_cpuid(0x1, subleaf, tsc_frequency, host);
            let stepping = r.eax & 0xF;
            let model = (((r.eax >> 16) & 0xF) << 4) | ((r.eax >> 4) & 0xF);
            let family = (r.eax >> 8) & 0xF;
            &&& family == 6 && model == 85 && stepping == 7
            &&& r.ebx >> 24 == 0
            &&& (r.ebx >> 16) & 0xFF == 1
            &&& r.ebx & 0xFFFF == host.ebx & 0xFFFF
            &&& bit(r.ecx, b) == (if b == 5 || b == 24 {
                false
            } else if b == 31 {
                true
            } else {
                bit(host.ecx, b)
            })
            &&& bit(r.edx, b) == (b != 28 && bit(host.edx, b))
        }),
{
    lemma_basic_features(host.ebx, host.ecx, host.edx, b);
}

proof fn lemma_basic_features(ebx: u32, ecx: u32, edx: u32, b: u32)
    by (bit_vector)
    requires
        b < 32,
    ensures
        0x0005_0657u32 & 0xF == 7,
        (((0x0005_0657u32 >> 16) & 0xF) << 4) | ((0x0005_0657u32 >> 4) & 0xF) == 85,
        (0x0005_0657u32 >> 8) & 0xF == 6,
        ((ebx & 0x0000_FFFF) | 0x0001_0000) >> 24 == 0,
        (((ebx & 0x0000_FFFF) | 0x0001_0000) >> 16) & 0xFF == 1,
        ((ebx & 0x0000_FFFF) | 0x0001_0000) & 0xFFFF == ebx & 0xFFFF,
        ((((ecx & !(1u32 << 5) & !(1u32 << 24)) | (1u32 << 31)) >> b) & 1 == 1) == (if b == 5 || b
            == 24 {
            false
        } else if b == 31 {
            true
        } else {
            (ecx >> b) & 1 == 1
        }),
        (((edx & !(1u32 << 28)) >> b) & 1 == 1) == (b != 28 && (edx >> b) & 1 == 1),
{
}

/// The structured extended features that are not offered: SGX, HLE, SMEP, RTM,
/// RDSEED, ADX, SMAP and everything of AVX-512.
pub open spec fn is_withheld_feature(b: u32) -> bool {
    b == 2 || b == 4 || b == 7 || b == 11 || (16 <= b <= 21) || b == 26 || b == 27 || b == 28 || b
        == 30 || b == 31
}

/// Of the structured extended features the guest has what the host has, without
/// those that are withheld, and nothing of the later extensions.
pub proof fn extended_features_are_the_hosts_without_the_withheld(
    subleaf: u32,
    tsc_frequency: u64,
    host: CpuidRegs,
    b: u32,
)
    requires
        b < 32,
    ensures
        ({
            let r = super::cpuid::guest_cpuid(0x7, subleaf, tsc_frequency, host);
            &&& bit(r.ebx, b) == (subleaf == 0 && !is_withheld_feature(b) && bit(host.ebx, b))
            &&& r.eax == (if subleaf == 0 {
                host.eax
            } else {
                0
            })
            &&& r.ecx == 0
            &&& r.edx == 0
        }),
{
    lemma_extended_features(host.ebx, b);
}

proof fn lemma_extended_features(ebx: u32, b: u32)
    by (bit_vector)
    requires
        b < 32,
    ensures
        (((ebx & !0xDC3F_0894u32) >> b) & 1 == 1) == (!(b == 2 || b == 4 || b == 7 || b == 11 || (
        16 <= b <= 21) || b == 26 || b == 27 || b == 28 || b == 30 || b == 31) && (ebx >> b) & 1
            == 1),
        ((0u32 >> b) & 1 == 1) == false,
{
}

/// The topology is that of one core: the x2APIC ID is the APIC ID of leaf 1, no
/// logical processors share anything, the cache leaf reports no sharing, and a level
/// that is asked for is the level that is answered.
pub proof fn topology_is_a_single_core(
    leaf: u32,
    subleaf: u32,
    tsc_frequency: u64,
    host: CpuidRegs,
)
    requires
        leaf == 0xB || leaf == 0x1F,
    ensures
        ({
            let r = super::cpuid::guest_cpuid(leaf, subleaf, tsc_frequency, host);
            &&& r.edx == super::cpuid::guest_cpuid(0x1, 0, tsc_frequency, host).ebx >> 24
            &&& r.ebx == 0
            &&& subleaf <= 1 ==> r.ecx & 0xFF == subleaf && r.ecx & 0xFFFF_FF00 == host.ecx
                & 0xFFFF_FF00 && r.eax == host.eax
            &&& subleaf > 1 ==> r.ecx == subleaf && r.eax == 0
        }),
        ({
            let r = super::cpuid::guest_cpuid(0x4, subleaf, tsc_frequency, host);
            &&& subleaf == 0 ==> (r.eax >> 14) & 0xFFF == 0
            &&& r.eax & 0xFC00_3FFF == host.eax & 0xFC00_3FFF
            &&& subleaf != 0 ==> r.eax == host.eax
            &&& r.ebx == host.ebx && r.ecx == host.ecx && r.edx == host.edx
        }),
        ({
            let r = super::cpuid::guest_cpuid(0x8000_0008, subleaf, tsc_frequency, host);
            &&& r.ecx & 0xFF == 0
            &&& r.ecx & 0xFFFF_FF00 == host.ecx & 0xFFFF_FF00
            &&& r.eax == host.eax && r.ebx == host.ebx && r.edx == host.edx
        }),
{
    lemma_topology(host.eax, host.ebx, host.ecx, subleaf);
}

proof fn lemma_topology(eax: u32, ebx: u32, ecx: u32, subleaf: u32)
    by (bit_vector)
    ensures
        ((ebx & 0x0000_FFFF) | 0x0001_0000) >> 24 == 0,
        subleaf <= 1 ==> ((ecx & 0xFFFF_FF00) | subleaf) & 0xFF == subleaf && ((ecx & 0xFFFF_FF00)
            | subleaf) & 0xFFFF_FF00 == ecx & 0xFFFF_FF00,
        ((eax & !0x3FF_C000u32) >> 14) & 0xFFF == 0,
        (eax & !0x3FF_C000u32) & 0xFC00_3FFF == eax & 0xFC00_3FFF,
        (ecx & 0xFFFF_FF00) & 0xFF == 0,
        (ecx & 0xFFFF_FF00) & 0xFFFF_FF00 == ecx & 0xFFFF_FF00,
{
}

/// The extended state area is consistent: its components are x87, SSE and AVX, the
/// size reported is where the last component ends, AVX state follows the legacy
/// area and the header, and no component beside these has a size.
pub proof fn extended_state_area_is_consistent(
    subleaf: u32,
    tsc_frequency: u64,
    host: CpuidRegs,
)
    ensures
        ({
            let all = super::cpuid::guest_cpuid(0xD, 0, tsc_frequency, host);
            let avx = super::cpuid::guest_cpuid(0xD, 2, tsc_frequency, host);
            let r = super::cpuid::guest_cpuid(0xD, subleaf, tsc_frequency, host);
            &&& all.eax == 1 + 2 + 4 && all.edx == 0
            &&& all.ebx == avx.ebx + avx.eax && all.ecx == all.ebx
            &&& avx.ebx == 512 + 64 && avx.eax == 256 && avx.ecx == 0 && avx.edx == 0
            &&& super::misc::is_valid_xcr0(all.eax as u64)
            &&& subleaf != 0 && subleaf != 2 ==> r.eax == 0 && r.ebx == 0 && r.ecx == 0 && r.edx
                == 0
        }),
{
    assert(7u64 & 1 != 0 && 7u64 & 2 != 0) by (bit_vector);
}

/// The highest leaves: the host's basic leaves up to 0x16 with its vendor, and
/// extended leaves at least up to the brand string.
pub proof fn highest_leaves_are_bounded(subleaf: u32, tsc_frequency: u64, host: CpuidRegs)
    ensures
        ({
            let r = super::cpuid::guest_cpuid(0x0, subleaf, tsc_frequency, host);
            &&& r.eax <= 0x16 && r.eax <= host.eax && (r.eax == 0x16 || r.eax == host.eax)
            &&& r.ebx == host.ebx && r.ecx == host.ecx && r.edx == host.edx
        }),
        ({
            let r = super::cpuid::guest_cpuid(0x8000_0000, subleaf, tsc_frequency, host);
            &&& r.eax >= 0x8000_0004 && r.eax >= host.eax && (r.eax == 0x8000_0004 || r.eax
                == host.eax)
            &&& r.ebx == host.ebx && r.ecx == host.ecx && r.edx == host.edx
        }),
{
}

/// The four bytes of a register, as they stand in memory.
pub open spec fn text_of(word: u32) -> Seq<u8> {
    crate::bytes::le_bytes(word as nat, 4)
}

/// The brand string reads "Bedrock VM CPU" and blanks, on every host.
pub proof fn brand_string_names_the_vm(leaf: u32, subleaf: u32, tsc_frequency: u64, host: CpuidRegs)
    requires
        0x8000_0002 <= leaf <= 0x8000_0004,
    ensures
        ({
            let r = super::cpuid::guest_cpuid(leaf, subleaf, tsc_frequency, host);
            &&& leaf == 0x8000_0002 ==> {
                &&& text_of(r.eax) == seq![66u8, 101, 100, 114]
                &&& text_of(r.ebx) == seq![111u8, 99, 107, 32]
                &&& text_of(r.ecx) == seq![86u8, 77, 32, 67]
                &&& text_of(r.edx) == seq![80u8, 85, 32, 32]
            }
            &&& leaf > 0x8000_0002 ==> {
                &&& text_of(r.eax) == seq![32u8, 32, 32, 32]
                &&& text_of(r.ebx) == seq![32u8, 32, 32, 32]
                &&& text_of(r.ecx) == seq![32u8, 32, 32, 32]
                &&& text_of(r.edx) == seq![0u8, 0, 0, 0]
            }
        }),
{
    reveal_with_fuel(crate::bytes::le_bytes, 5);
    let r = super::cpuid::guest_cpuid(leaf, subleaf, tsc_frequency, host);
    if leaf == 0x8000_0002 {
        assert(text_of(r.eax) =~= seq![66u8, 101, 100, 114]);
        assert(text_of(r.ebx) =~= seq![111u8, 99, 107, 32]);
        assert(text_of(r.ecx) =~= seq![86u8, 77, 32, 67]);
        assert(text_of(r.edx) =~= seq![80u8, 85, 32, 32]);
    } else {
        assert(text_of(r.eax) =~= seq![32u8, 32, 32, 32]);
        assert(text_of(r.edx) =~= seq![0u8, 0, 0, 0]);
    }
}

/// Everything else is fixed or absent: the frequency leaf has fixed numbers, and a
/// leaf that is not named in this module's laws is answered with zeros, on every
/// host.
pub proof fn remaining_leaves_are_fixed(
    leaf: u32,
    subleaf: u32,
    tsc_frequency: u64,
    host: CpuidRegs,
)
    ensures
        ({
            let r = super::cpuid::guest_cpuid(0x16, subleaf, tsc_frequency, host);
            &&& r.eax == 3000 && r.ebx == 5800 && r.ecx == 100 && r.edx == 0
        }),
        ({
            let r = super::cpuid::guest_cpuid(leaf, subleaf, tsc_frequency, host);
            leaf != 0x0 && leaf != 0x1 && leaf != 0x4 && leaf != 0x7 && leaf != 0xB && leaf != 0xD
                && leaf != 0x15 && leaf != 0x16 && leaf != 0x1F && leaf != 0x8000_0000 && leaf
                != 0x8000_0002 && leaf != 0x8000_0003 && leaf != 0x8000_0004 && leaf != 0x8000_0008
                ==> r.eax == 0 && r.ebx == 0 && r.ecx == 0 && r.edx == 0
        }),
{
}

// ---- MSRs ----

/// What RDMSR leaves in a register pair: the low half in EAX, the high half in EDX.
pub open spec fn register_pair(s: VmState) -> u64 {
    (s.gprs.rdx << 32) | (s.gprs.rax & 0xFFFF_FFFF)
}

/// RDMSR puts the register's value into EDX:EAX with the upper halves clear and
/// changes no other register; WRMSR takes EDX:EAX, whatever the upper halves hold.
pub proof fn msr_values_go_through_the_register_pair(s: VmState, value: u64, i: u8)
    ensures
        ({
            let after = super::msr::with_result(s, value);
            &&& register_pair(after) == value
            &&& after.gprs.rax < 0x1_0000_0000 && after.gprs.rdx < 0x1_0000_0000
            &&& i != 0 && i != 2 ==> after.gprs.value(i) == s.gprs.value(i)
            &&& after == (VmState { gprs: after.gprs, ..s })
        }),
        super::msr::written_value(s) == register_pair(s),
        super::msr::named_msr(s) == s.gprs.rcx as u32,
{
    lemma_register_pair(s.gprs.rax, s.gprs.rdx, value);
}

proof fn lemma_register_pair(rax: u64, rdx: u64, value: u64)
    by (bit_vector)
    ensures
        ((value >> 32) << 32) | ((value & 0xFFFF_FFFF) & 0xFFFF_FFFF) == value,
        value & 0xFFFF_FFFF < 0x1_0000_0000,
        value >> 32 < 0x1_0000_0000,
        ((rdx & 0xFFFF_FFFF) << 32) | (rax & 0xFFFF_FFFF) == (rdx << 32) | (rax & 0xFFFF_FFFF),
{
}

/// The number of the memory type range registers: default type, ten pairs of base
/// and mask, and the fixed ranges.
pub open spec fn is_mtrr(n: u32) -> bool {
    n == 0x2FF || 0x200 <= n <= 0x213 || n == 0x250 || n == 0x258 || n == 0x259 || 0x268 <= n
        <= 0x26F
}

/// Each memory type range register, the page attribute table and TSC_AUX hold what
/// was last written to them, and nothing else follows: two writes in a row leave
/// the second value, and a register that was not written keeps what it read.
pub proof fn storing_msrs_hold_the_last_write(s: VmState, n: u32, first: u64, second: u64, other: u32)
    requires
        is_mtrr(n) || n == 0x277 || n == 0xC000_0103,
    ensures
        ({
            let once = super::msr::msr_written(s, n, first);
            let twice = super::msr::msr_written(once->0, n, second);
            &&& once is Some && twice is Some
            &&& super::msr::msr_value(once->0, n) == Some(first)
            &&& super::msr::msr_value(twice->0, n) == Some(second)
            &&& other != n ==> super::msr::msr_value(twice->0, other) == super::msr::msr_value(
                s,
                other,
            )
            &&& once->0.gprs == s.gprs && once->0.vmcs == s.vmcs
            &&& once->0.devices.apic == s.devices.apic
        }),
{
}

/// Where the storing registers live.
pub proof fn storing_msrs_are_the_devices_fields(s: VmState, i: u32)
    ensures
        super::msr::msr_value(s, 0x277) == Some(s.msr_state.pat),
        super::msr::msr_value(s, 0xC000_0103) == Some(s.msr_state.tsc_aux),
        super::msr::msr_value(s, 0x2FF) == Some(s.devices.mtrr.def_type),
        super::msr::msr_value(s, 0x250) == Some(s.devices.mtrr.fixed_64k),
        i < 2 ==> super::msr::msr_value(s, (0x258 + i) as u32) == Some(
            s.devices.mtrr.fixed_16k@[i as int],
        ),
        i < 8 ==> super::msr::msr_value(s, (0x268 + i) as u32) == Some(
            s.devices.mtrr.fixed_4k@[i as int],
        ),
        i < 10 ==> super::msr::msr_value(s, (0x200 + 2 * i) as u32) == Some(
            s.devices.mtrr.var@[i as int].0,
        ) && super::msr::msr_value(s, (0x201 + 2 * i) as u32) == Some(
            s.devices.mtrr.var@[i as int].1,
        ),
{
}

/// The registers that identify the machine: the platform is the host's, the APIC
/// is where it is, VMX is locked out, the microcode version and the units are
/// fixed, and ten variable ranges, fixed ranges and write-combining are announced.
pub proof fn identifying_msrs_are_fixed(s: VmState)
    ensures
        super::msr::msr_value(s, 0xCE) == Some(s.host_state.platform_info),
        super::msr::msr_value(s, 0x1B) == Some(s.devices.apic.base),
        super::msr::msr_value(s, 0x3A) == Some(1u64),
        super::msr::msr_value(s, 0x8B) == Some(0x1_0000_0000u64),
        super::msr::msr_value(s, 0x606) == Some(0x000A_1003u64),
        super::msr::msr_value(s, 0xFE) == Some(0x50Au64),
        super::msr::msr_value(s, 0x1A0) is Some,
        super::msr::msr_value(s, 0x1A0)->0 & 0x1800 == 0x1800,
        super::msr::msr_value(s, 0x1A0)->0 & 0x4_0000 == 0,
        super::msr::msr_value(s, 0x1A0)->0 & !0x4_1800u64 == s.host_state.misc_enable & !0x4_1800u64,
{
    let host = s.host_state.misc_enable;
    assert(((host | (1u64 << 11) | (1u64 << 12)) & !(1u64 << 18)) & 0x1800 == 0x1800 && ((host | (
    1u64 << 11) | (1u64 << 12)) & !(1u64 << 18)) & 0x4_0000 == 0 && ((host | (1u64 << 11) | (1u64
        << 12)) & !(1u64 << 18)) & !0x4_1800u64 == host & !0x4_1800u64) by (bit_vector);
}

/// Numbers of the registers of features that the guest is not offered.
pub open spec fn is_withheld_msr(n: u32) -> bool {
    // Machine check, speculation control, TSC adjustment and deadline
    ||| n == 0x179 || n == 0x17A || n == 0x48 || n == 0x49 || n == 0x3B || n == 0x6E0
    // Thermal monitoring and processor inventory number
    ||| n == 0x19B || n == 0x19C || n == 0x1B1 || n == 0x1B2 || n == 0x4E
    // Performance monitoring
    ||| n == 0x345 || n == 0x1C9 || n == 0x1A6 || n == 0x1A7 || n == 0x3F6 || n == 0x3F7
    ||| 0x186 <= n <= 0x18D || n == 0x38D || 0xC1 <= n <= 0xC8 || n == 0xE7 || n == 0xE8
    ||| n == 0x66A || n == 0x66B || n == 0x66C || n == 0x140 || n == 0x570
    // Running average power limits
    ||| n == 0x610 || n == 0x611 || n == 0x614 || n == 0x618 || n == 0x619 || n == 0x61C
    ||| n == 0x638 || n == 0x639 || n == 0x640 || n == 0x641
    // Power management
    ||| n == 0xE2 || n == 0x1FC || n == 0x64E || n == 0x1AA || n == 0x770 || n == 0x771
    ||| n == 0x773 || n == 0x774 || n == 0x777 || n == 0x198 || n == 0x199 || n == 0x1B0
    ||| n == 0x150
}

/// A withheld feature's register reads 0 and swallows writes; three more read 0
/// and are not known for writing; the identifying registers swallow writes; the
/// APIC cannot be moved; a number that nothing is known of goes to userspace,
/// read or written.
pub proof fn other_msrs_are_withheld_or_unknown(s: VmState, n: u32, value: u64)
    ensures
        is_withheld_msr(n) ==> super::msr::msr_value(s, n) == Some(0u64) && super::msr::msr_written(
            s,
            n,
            value,
        ) == Some(s),
        n == 0x34 || n == 0xC001_1029 || n == 0x87 ==> super::msr::msr_value(s, n) == Some(0u64)
            && super::msr::msr_written(s, n, value) is None,
        n == 0x1A0 || n == 0x8B || n == 0xFE || n == 0x3A || n == 0xCE || n == 0x606
            ==> super::msr::msr_written(s, n, value) == Some(s),
        n == 0x1B ==> super::msr::msr_written(s, n, value) == (if value == s.devices.apic.base {
            Some(s)
        } else {
            None
        }),
        !is_withheld_msr(n) && !is_mtrr(n) && n != 0x277 && n != 0xC000_0103 && n != 0x34 && n
            != 0xC001_1029 && n != 0x87 && n != 0x1A0 && n != 0x8B && n != 0xFE && n != 0x3A && n
            != 0xCE && n != 0x606 && n != 0x1B ==> super::msr::msr_value(s, n) is None
            && super::msr::msr_written(s, n, value) is None,
{
}

// ---- Local APIC and I/O APIC ----

/// The divide configuration as the processor manual has it: bits 3, 1 and 0 give
/// the power of two, all ones divide by one, and the other bits do not matter.
pub proof fn timer_divides_by_powers_of_two(dcr: u32)
    ensures
        ({
            let divisor = crate::vmx::devices::apic::timer_divisor(dcr);
            &&& dcr & 0xB == 0x0 ==> divisor == 2
            &&& dcr & 0xB == 0x1 ==> divisor == 4
            &&& dcr & 0xB == 0x2 ==> divisor == 8
            &&& dcr & 0xB == 0x3 ==> divisor == 16
            &&& dcr & 0xB == 0x8 ==> divisor == 32
            &&& dcr & 0xB == 0x9 ==> divisor == 64
            &&& dcr & 0xB == 0xA ==> divisor == 128
            &&& dcr & 0xB == 0xB ==> divisor == 1
        }),
{
    assert(({
        let e = ((dcr >> 1) & 0b100) | (dcr & 0b11);
        &&& dcr & 0xB == 0x0 ==> e == 0
        &&& dcr & 0xB == 0x1 ==> e == 1
        &&& dcr & 0xB == 0x2 ==> e == 2
        &&& dcr & 0xB == 0x3 ==> e == 3
        &&& dcr & 0xB == 0x8 ==> e == 4
        &&& dcr & 0xB == 0x9 ==> e == 5
        &&& dcr & 0xB == 0xA ==> e == 6
        &&& dcr & 0xB == 0xB ==> e == 7
    })) by (bit_vector);
}

/// A guest that enables the APIC, unmasks the timer with a vector, sets the divide
/// configuration and starts the timer with a count is interrupted with that vector
/// once as many ticks as count times divisor have passed, and not before.
pub proof fn programmed_timer_fires_in_time(
    apic: ApicState,
    svr: u32,
    lvt: u32,
    divide: u32,
    count: u32,
    start: u64,
    s: VmState,
)
    requires
        svr & (1u32 << 8) != 0,
        lvt & (1u32 << 16) == 0,
        count != 0,
        start + count * crate::vmx::devices::apic::timer_divisor(divide) <= u64::MAX,
        at_a_quiet_exit(s),
        s.devices.apic == ({
            let enabled = super::apic::apic_written(apic, 0x0F0, svr, start);
            let unmasked = super::apic::apic_written(enabled, 0x320, lvt, start);
            let divided = super::apic::apic_written(unmasked, 0x3E0, divide, start);
            super::apic::apic_written(divided, 0x380, count, start)
        }),
    ensures
        timer_has_expired(s) == (s.emulated_tsc >= start + count
            * crate::vmx::devices::apic::timer_divisor(divide)),
        s.emulated_tsc >= start + count * crate::vmx::devices::apic::timer_divisor(divide)
            ==> is_pending_or_served(
            super::interrupts::injection_pass(s).0.devices.apic,
            (lvt & 0xFF) as u8,
        ),
{
    let divisor = crate::vmx::devices::apic::timer_divisor(divide);
    assert(count * divisor > 0) by (nonlinear_arith)
        requires
            count > 0,
            divisor > 0,
    ;
    if timer_has_expired(s) {
        expired_timer_is_delivered(s);
    }
}

/// A count of zero stops the timer.
pub proof fn zero_count_stops_the_timer(apic: ApicState, tsc: u64, s: VmState)
    requires
        s.devices.apic == super::apic::apic_written(apic, 0x380, 0, tsc),
    ensures
        !timer_has_expired(s),
        s.devices.apic.irr == apic.irr && s.devices.apic.isr == apic.isr,
{
}

/// Where the registers are: identification, priorities and destination, the local
/// vector table and the timer stand at the offsets of the processor manual.
pub proof fn apic_registers_stand_at_their_offsets(apic: ApicState)
    ensures
        super::apic::apic_register(apic, 0x020) == apic.id << 24,
        super::apic::apic_register(apic, 0x030) == apic.version,
        super::apic::apic_register(apic, 0x080) == apic.tpr,
        super::apic::apic_register(apic, 0x0A0) == super::apic::apic_register(apic, 0x080) & 0xF0,
        super::apic::apic_register(apic, 0x0D0) == apic.ldr,
        super::apic::apic_register(apic, 0x0E0) == apic.dfr,
        super::apic::apic_register(apic, 0x0F0) == apic.svr,
        super::apic::apic_register(apic, 0x280) == apic.esr,
        super::apic::apic_register(apic, 0x300) == apic.icr_lo,
        super::apic::apic_register(apic, 0x310) == apic.icr_hi,
        super::apic::apic_register(apic, 0x320) == apic.lvt_timer,
        super::apic::apic_register(apic, 0x330) == apic.lvt_thermal,
        super::apic::apic_register(apic, 0x340) == apic.lvt_perf,
        super::apic::apic_register(apic, 0x350) == apic.lvt_lint0,
        super::apic::apic_register(apic, 0x360) == apic.lvt_lint1,
        super::apic::apic_register(apic, 0x370) == apic.lvt_error,
        super::apic::apic_register(apic, 0x380) == apic.timer_initial,
        super::apic::apic_register(apic, 0x3E0) == apic.timer_divide,
        super::apic::apic_register(apic, 0x090) == 0,
        super::apic::apic_register(apic, 0x0B0) == 0,
        super::apic::apic_register(apic, 0x0C0) == 0,
        super::apic::apic_register(apic, 0x390) == 0,
{
}

/// A guest that reads the request, in-service or trigger mode register of a vector
/// finds the vector's bit: 32 vectors to a register, 16 bytes from one to the next.
pub proof fn vector_registers_show_each_vector(apic: ApicState, vector: u8)
    ensures
        ({
            let k = (vector / 32) as u32;
            let b = (vector % 32) as u32;
            &&& bit(super::apic::apic_register(apic, (0x100 + 0x10 * k) as u32), b)
                == crate::vmx::devices::vectors::has_vector(apic.isr@, vector)
            &&& bit(super::apic::apic_register(apic, (0x180 + 0x10 * k) as u32), b)
                == crate::vmx::devices::vectors::has_vector(apic.tmr@, vector)
            &&& bit(super::apic::apic_register(apic, (0x200 + 0x10 * k) as u32), b)
                == crate::vmx::devices::vectors::has_vector(apic.irr@, vector)
        }),
{
    let k = (vector / 32) as int;
    let b = (vector % 32) as u32;
    assert(0x100 <= 0x100 + 0x10 * k <= 0x170);
    assert(((0x100 + 0x10 * k) - 0x100) / 16 == k);
    assert(((0x180 + 0x10 * k) - 0x180) / 16 == k);
    assert(((0x200 + 0x10 * k) - 0x200) / 16 == k);
    lemma_one_bit(apic.isr@[k], b);
    lemma_one_bit(apic.tmr@[k], b);
    lemma_one_bit(apic.irr@[k], b);
}

proof fn lemma_one_bit(word: u32, b: u32)
    by (bit_vector)
    ensures
        (word >> b) & 1 == 0 || (word >> b) & 1 == 1,
{
}

/// The end of an interrupt takes exactly the highest vector out of service.
pub proof fn end_of_interrupt_takes_the_highest_out(
    apic: ApicState,
    value: u32,
    tsc: u64,
    vector: u8,
    other: u8,
)
    requires
        crate::vmx::devices::vectors::has_vector(apic.isr@, vector),
        forall|w: u8|
            w > vector ==> !#[trigger] crate::vmx::devices::vectors::has_vector(apic.isr@, w),
    ensures
        ({
            let after = super::apic::apic_written(apic, 0x0B0, value, tsc);
            &&& !crate::vmx::devices::vectors::has_vector(after.isr@, vector)
            &&& other != vector ==> crate::vmx::devices::vectors::has_vector(after.isr@, other)
                == crate::vmx::devices::vectors::has_vector(apic.isr@, other)
            &&& after == (ApicState { isr: after.isr, ..apic })
        }),
{
    crate::vmx::devices::vectors::lemma_highest_is(apic.isr@, vector, 256);
    crate::vmx::devices::vectors::vector_bits_are_independent(apic.isr@, vector, other);
    crate::vmx::devices::vectors::vector_bits_are_independent(apic.isr@, vector, vector);
}

/// A load from the local APIC's page puts the register at that offset, zero-extended,
/// into the instruction's register and changes no other; a store puts the low half
/// of the instruction's register there and changes no register. Either way RIP is
/// past the instruction. An instruction that cannot be decoded goes to userspace.
pub proof fn apic_page_is_accessed_by_moves(
    s: VmState,
    offset: u32,
    qual: EptViolationQualification,
    register: u8,
    length: u8,
    rip: u64,
    i: u8,
)
    requires
        offset < 0x1000,
        register < 16,
        s.vmcs.guest_rip == Some(rip),
        s.vmcs.write_faults.guest_rip is None,
        rip + length <= u64::MAX,
    ensures
        ({
            let gpa = (0xFEE0_0000 + offset) as u64;
            let (after, r) = super::apic::apic_access(
                s,
                gpa,
                qual,
                InstructionFetch::Decoded { register, length },
            );
            &&& r == ExitHandlerResult::Continue
            &&& after.vmcs == (Vmcs { guest_rip: Some((rip + length) as u64), ..s.vmcs })
            &&& qual.read ==> after.devices == s.devices && after.gprs.value(i) == (if i
                == register {
                super::apic::apic_register(s.devices.apic, offset) as u64
            } else {
                s.gprs.value(i)
            })
            &&& !qual.read && qual.write ==> after.gprs == s.gprs && after.devices.apic
                == super::apic::apic_written(
                s.devices.apic,
                offset,
                s.gprs.value(register) as u32,
                s.emulated_tsc,
            ) && after.devices.ioapic == s.devices.ioapic
        }),
        super::apic::apic_access(
            s,
            (0xFEE0_0000 + offset) as u64,
            qual,
            InstructionFetch::DecodeFailed,
        ) == (s, ExitHandlerResult::ExitToUserspace(ExitReason::EptViolation)),
{
}

/// The I/O APIC has two windows: the index at 0xFEC0_0000 and the data at
/// 0xFEC0_0010. Entry `pin` of the redirection table is registers 0x10 + 2 * pin
/// (low half) and the next one (high half).
pub proof fn ioapic_windows_reach_each_pin(ioapic: IoApicState, pin: u32, value: u32)
    requires
        pin < 24,
    ensures
        ({
            let selected = super::apic::ioapic_store(ioapic, 0x00, (0x10 + 2 * pin) as u32);
            let after = super::apic::ioapic_store(selected, 0x10, value);
            &&& super::apic::ioapic_load(selected, 0x00) == 0x10 + 2 * pin
            &&& super::apic::ioapic_load(selected, 0x10) == ioapic.redtbl@[pin as int] as u32
            &&& after.redtbl@[pin as int] as u32 == value
            &&& (after.redtbl@[pin as int] >> 32) as u32 == (ioapic.redtbl@[pin as int]
                >> 32) as u32
        }),
        ({
            let selected = super::apic::ioapic_store(ioapic, 0x00, (0x11 + 2 * pin) as u32);
            let after = super::apic::ioapic_store(selected, 0x10, value);
            &&& super::apic::ioapic_load(selected, 0x10) == (ioapic.redtbl@[pin as int]
                >> 32) as u32
            &&& (after.redtbl@[pin as int] >> 32) as u32 == value
            &&& after.redtbl@[pin as int] as u32 == ioapic.redtbl@[pin as int] as u32
        }),
        super::apic::ioapic_load(super::apic::ioapic_store(ioapic, 0x00, 1), 0x10) == 0x0017_0020,
        super::apic::ioapic_load(super::apic::ioapic_store(ioapic, 0x00, 0), 0x10) == ioapic.id,
{
    let entry = ioapic.redtbl@[pin as int];
    assert(((0x10 + 2 * pin) - 0x10) / 2 == pin);
    assert(((0x11 + 2 * pin) - 0x10) / 2 == pin);
    assert((0x11 + 2 * pin) % 2 == 1);
    let low = super::apic::ioapic_store(ioapic, 0x00, (0x10 + 2 * pin) as u32);
    let high = super::apic::ioapic_store(ioapic, 0x00, (0x11 + 2 * pin) as u32);
    super::apic::redirection_entry_reads_back(low, value, high.ioregsel);
    super::apic::redirection_entry_reads_back(high, value, low.ioregsel);
}

// ---- Exceptions ----

/// An NMI is the host's: the run loop is asked to service it, and the guest goes on
/// untouched, whatever else the exit says.
pub proof fn nmi_is_handed_to_the_host(s: VmState, info: u32)
    requires
        s.vmcs.vm_exit_interruption_info == Some(info),
        (info >> 8) & 0x7 == 2,
    ensures
        super::misc::exception_handled(s).1 == ExitHandlerResult::Continue,
        super::misc::exception_handled(s).0.requests.service_nmi,
        super::misc::exception_handled(s).0.vmcs == s.vmcs,
        super::misc::exception_handled(s).0.gprs == s.gprs,
        super::misc::exception_handled(s).0.devices == s.devices,
        super::misc::exception_handled(s).0.debug_watch == s.debug_watch,
{
}

/// An intercepted page fault happens in the guest as if it had not been: the next
/// entry delivers vector 14 as a hardware exception with the error code that the
/// processor reported, CR2 is the faulting address, and RIP stays.
pub proof fn page_fault_happens_in_the_guest(s: VmState, info: u32, error: u32, address: u64)
    requires
        s.vmcs.vm_exit_interruption_info == Some(info),
        (info >> 8) & 0x7 != 2,
        (info & 0xFF) as u8 == 14,
        s.intercept_pf,
        s.vmcs.vm_exit_interruption_error_code == Some(error),
        s.vmcs.exit_qualification == Some(address),
        s.vmcs.vm_entry_interruption_info is Some,
        s.vmcs.write_faults.vm_entry_interruption_info is None,
        s.vmcs.vm_entry_exception_error_code is Some,
        s.vmcs.write_faults.vm_entry_exception_error_code is None,
    ensures
        ({
            let (after, r) = super::misc::exception_handled(s);
            &&& r == ExitHandlerResult::Continue
            &&& after.vmcs.vm_entry_interruption_info == Some(0x8000_0B0Eu32)
            &&& after.vmcs.vm_entry_exception_error_code == Some(error)
            &&& after.vmx_ctx.guest_cr2 == address
            &&& after.vmcs.guest_rip == s.vmcs.guest_rip
            &&& after.gprs == s.gprs && after.devices == s.devices
        }),
{
    lemma_events();
}

proof fn lemma_events()
    by (bit_vector)
    ensures
        (14u8 as u32) | (3u32 << 8) | (1u32 << 11) | 0 | (1u32 << 31) == 0x8000_0B0Eu32,
        (1u8 as u32) | (3u32 << 8) | 0 | 0 | (1u32 << 31) == 0x8000_0301u32,
{
}

/// A debug exception that none of the detector's breakpoints caused happens in the
/// guest: the next entry delivers vector 1 as a hardware exception without an error
/// code, and nothing is counted or disarmed.
pub proof fn foreign_debug_exception_happens_in_the_guest(s: VmState, info: u32, fired: u64)
    requires
        s.vmcs.vm_exit_interruption_info == Some(info),
        (info >> 8) & 0x7 != 2,
        (info & 0xFF) as u8 == 1,
        s.devices.apic.watchpoint_dr,
        s.vmcs.exit_qualification == Some(fired),
        forall|i: usize|
            i < 4 && fired & (1u64 << i) != 0 ==> (#[trigger] s.debug_watch.slots@[i as int]) is None,
        s.vmcs.vm_entry_interruption_info is Some,
        s.vmcs.write_faults.vm_entry_interruption_info is None,
    ensures
        ({
            let (after, r) = super::misc::exception_handled(s);
            &&& r == ExitHandlerResult::Continue
            &&& after.vmcs.vm_entry_interruption_info == Some(0x8000_0301u32)
            &&& after.vmcs.guest_rip == s.vmcs.guest_rip
            &&& after.debug_watch == s.debug_watch
            &&& after.exit_stats == s.exit_stats
            &&& after.devices == s.devices
        }),
{
    lemma_events();
    assert(s.debug_watch.slots@[0usize as int] is None || fired & (1u64 << 0usize) == 0);
    assert(s.debug_watch.slots@[1usize as int] is None || fired & (1u64 << 1usize) == 0);
    assert(s.debug_watch.slots@[2usize as int] is None || fired & (1u64 << 2usize) == 0);
    assert(s.debug_watch.slots@[3usize as int] is None || fired & (1u64 << 3usize) == 0);
}

/// A debug exception of one of the detector's breakpoints, slot `i` the lowest that
/// fired. Another thread in user mode is a race: it is counted, the timer's vector
/// is requested if the guest can take it, and a one-shot breakpoint is disarmed. The
/// owner, or the kernel, is not: that is counted, and nothing else happens. The
/// guest sees neither.
pub proof fn own_debug_exception_is_classified(
    s: VmState,
    info: u32,
    fired: u64,
    cs: u16,
    thread: u64,
    i: usize,
    other: int,
)
    requires
        s.vmcs.vm_exit_interruption_info == Some(info),
        (info >> 8) & 0x7 != 2,
        (info & 0xFF) as u8 == 1,
        s.devices.apic.watchpoint_dr,
        s.vmcs.exit_qualification == Some(fired),
        s.vmcs.guest_cs_selector == Some(cs),
        s.vmcs.guest_fs_base == Some(thread),
        i < 4,
        fired & (1u64 << i) != 0,
        s.debug_watch.slots@[i as int] is Some,
        forall|j: usize|
            j < i && fired & (1u64 << j) != 0 ==> (#[trigger] s.debug_watch.slots@[j as int]) is None,
        s.exit_stats.wp_dr_conflicts < u64::MAX,
        s.exit_stats.wp_dr_self < u64::MAX,
        0 <= other < 4,
    ensures
        ({
            let (after, r) = super::misc::exception_handled(s);
            let apic = s.devices.apic;
            let races = cs & 3 == 3 && thread != s.debug_watch.slots@[i as int]->0.owner_tid;
            let usable = apic.svr & (1u32 << 8) != 0 && apic.lvt_timer & (1u32 << 16) == 0 && (
            apic.lvt_timer & 0xFF) as u8 >= 16;
            &&& r == ExitHandlerResult::Continue
            &&& after.vmcs == s.vmcs && after.gprs == s.gprs
            &&& after.exit_stats.wp_dr_conflicts == s.exit_stats.wp_dr_conflicts + (if races {
                1int
            } else {
                0
            })
            &&& after.exit_stats.wp_dr_self == s.exit_stats.wp_dr_self + (if races {
                0int
            } else {
                1
            })
            &&& after.debug_watch.slots@[other] == (if races && apic.watchpoint_dr_oneshot && other
                == i {
                None
            } else {
                s.debug_watch.slots@[other]
            })
            &&& races && usable ==> crate::vmx::devices::vectors::has_vector(
                after.devices.apic.irr@,
                (apic.lvt_timer & 0xFF) as u8,
            )
            &&& !(races && usable) ==> after.devices == s.devices
        }),
{
    let slots = s.debug_watch.slots@;
    assert(i > 0 ==> slots[0usize as int] is None || fired & (1u64 << 0usize) == 0);
    assert(i > 1 ==> slots[1usize as int] is None || fired & (1u64 << 1usize) == 0);
    assert(i > 2 ==> slots[2usize as int] is None || fired & (1u64 << 2usize) == 0);
    assert(i == 0 || i == 1 || i == 2 || i == 3);
    assert(crate::vmx::dr_watch::lowest_hit(slots, fired) == i);
    assert((cs & 3) as u8 == 3 <==> cs & 3 == 3) by (bit_vector);
    let timer = (s.devices.apic.lvt_timer & 0xFF) as u8;
    crate::vmx::devices::vectors::vector_bits_are_independent(s.devices.apic.irr@, timer, timer);
}

/// Every other exception goes to userspace with the VM as it was.
pub proof fn other_exceptions_go_to_userspace(s: VmState, info: u32)
    requires
        s.vmcs.vm_exit_interruption_info == Some(info),
        (info >> 8) & 0x7 != 2,
        !((info & 0xFF) as u8 == 1 && s.devices.apic.watchpoint_dr),
        !((info & 0xFF) as u8 == 14 && s.intercept_pf),
    ensures
        super::misc::exception_handled(s) == (
            s,
            ExitHandlerResult::ExitToUserspace(ExitReason::ExceptionNmi),
        ),
{
}

/// The sets of extended state that a guest can enable: x87 alone, with SSE, or with
/// SSE and AVX; what stands above these three bits is not looked at. The value is
/// taken from EDX:EAX.
pub proof fn extended_state_sets_are_nested(s: VmState, value: u64)
    ensures
        super::misc::is_valid_xcr0(value) == (value % 8 == 1 || value % 8 == 3 || value % 8 == 7),
        super::misc::xsetbv_value(s) == register_pair(s),
{
    assert((value & 1 != 0 && (value & 4 != 0 ==> value & 2 != 0)) == (value % 8 == 1 || value % 8
        == 3 || value % 8 == 7)) by (bit_vector);
}

// ---- Events as the processor encodes them ----

/// The interruption information of an event has the vector in its low byte, the
/// kind above it, the error code flag at bit 11, the NMI flag at bit 12 and the
/// valid flag at the top; the kinds have the processor manual's numbers.
pub proof fn event_fields_are_the_processors(info: InterruptionInfo)
    ensures
        ({
            let raw = info.bits();
            &&& raw % 0x100 == info.vector
            &&& (raw / 0x800) % 2 == (if info.error_code_valid {
                1int
            } else {
                0
            })
            &&& (raw / 0x1000) % 2 == (if info.nmi_unblocking {
                1int
            } else {
                0
            })
            &&& (raw >= 0x8000_0000) == info.valid
            &&& (raw / 0x100) % 8 == (match info.interruption_type {
                InterruptionType::ExternalInterrupt => 0int,
                InterruptionType::Reserved => 1,
                InterruptionType::Nmi => 2,
                InterruptionType::HardwareException => 3,
                InterruptionType::SoftwareInterrupt => 4,
                InterruptionType::PrivilegedSoftwareException => 5,
                InterruptionType::SoftwareException => 6,
                InterruptionType::Other => 7,
            })
        }),
{
    let v = info.vector;
    let c = info.interruption_type.code();
    let e = info.error_code_valid;
    let n = info.nmi_unblocking;
    let p = info.valid;
    let raw = info.bits();
    assert(c <= 7);
    assert(raw % 0x100 == v && (raw / 0x100) % 8 == c && ((raw / 0x800) % 2 == 1) == e && ((raw
        / 0x1000) % 2 == 1) == n && (raw >= 0x8000_0000) == p) by (bit_vector)
        requires
            c <= 7,
            raw == (v as u32) | (c << 8) | (if e {
                1u32 << 11
            } else {
                0
            }) | (if n {
                1u32 << 12
            } else {
                0
            }) | (if p {
                1u32 << 31
            } else {
                0
            }),
    ;
}

// ---- Instructions as a whole ----

/// RDMSR of a register that is known leaves its value in EDX:EAX, changes nothing
/// else but RIP, and goes on; of one that is not known, userspace is asked, with RIP
/// past the instruction and every register as it was.
pub proof fn rdmsr_reads_one_register(s: VmState, rip: u64, length: u32, i: u8)
    requires
        s.vmcs.guest_rip == Some(rip),
        s.vmcs.vm_exit_instruction_length == Some(length),
        s.vmcs.write_faults.guest_rip is None,
        rip + length <= u64::MAX,
    ensures
        ({
            let value = super::msr::msr_value(s, s.gprs.rcx as u32);
            let (after, r) = super::msr::msr_read_handled(s);
            &&& value is Some ==> {
                &&& r == ExitHandlerResult::Continue
                &&& register_pair(after) == value->0
                &&& after.gprs.rax < 0x1_0000_0000 && after.gprs.rdx < 0x1_0000_0000
                &&& i != 0 && i != 2 ==> after.gprs.value(i) == s.gprs.value(i)
            }
            &&& value is None ==> r == ExitHandlerResult::ExitToUserspace(ExitReason::MsrRead)
                && after.gprs == s.gprs
            &&& after.vmcs == (Vmcs { guest_rip: Some((rip + length) as u64), ..s.vmcs })
            &&& after.devices == s.devices && after.msr_state == s.msr_state
            &&& after.emulated_tsc == s.emulated_tsc
        }),
{
    if super::msr::msr_value(s, s.gprs.rcx as u32) is Some {
        msr_values_go_through_the_register_pair(
            s,
            super::msr::msr_value(s, s.gprs.rcx as u32)->0,
            i,
        );
    }
}

/// WRMSR writes EDX:EAX to the register that ECX names, changes no general-purpose
/// register, and leaves RIP past the instruction; a register that cannot be written
/// is userspace's, and nothing was written.
pub proof fn wrmsr_writes_one_register(s: VmState, rip: u64, length: u32)
    requires
        s.vmcs.guest_rip == Some(rip),
        s.vmcs.vm_exit_instruction_length == Some(length),
        s.vmcs.write_faults.guest_rip is None,
        rip + length <= u64::MAX,
    ensures
        ({
            let n = s.gprs.rcx as u32;
            let written = super::msr::msr_written(s, n, register_pair(s));
            let (after, r) = super::msr::msr_write_handled(s);
            &&& written is Some ==> r == ExitHandlerResult::Continue && after.devices
                == written->0.devices && after.msr_state == written->0.msr_state
            &&& written is None ==> r == ExitHandlerResult::ExitToUserspace(ExitReason::MsrWrite)
                && after.devices == s.devices && after.msr_state == s.msr_state
            &&& is_mtrr(n) || n == 0x277 || n == 0xC000_0103 ==> super::msr::msr_value(after, n)
                == Some(register_pair(s))
            &&& after.gprs == s.gprs
            &&& after.vmcs == (Vmcs { guest_rip: Some((rip + length) as u64), ..s.vmcs })
        }),
{
    msr_values_go_through_the_register_pair(s, 0, 0);
    if is_mtrr(s.gprs.rcx as u32) || s.gprs.rcx as u32 == 0x277 || s.gprs.rcx as u32
        == 0xC000_0103 {
        storing_msrs_hold_the_last_write(s, s.gprs.rcx as u32, register_pair(s), 0, 0);
    }
}

/// XSETBV with ECX 0 and a nested set of components enables them and goes on with
/// RIP past the instruction; anything else is userspace's, with nothing changed.
pub proof fn xsetbv_enables_nested_sets(s: VmState, rip: u64, length: u32)
    requires
        s.vmcs.guest_rip == Some(rip),
        s.vmcs.vm_exit_instruction_length == Some(length),
        s.vmcs.write_faults.guest_rip is None,
        rip + length <= u64::MAX,
    ensures
        ({
            let value = register_pair(s);
            let takes = s.gprs.rcx as u32 == 0 && (value % 8 == 1 || value % 8 == 3 || value % 8
                == 7);
            let (after, r) = super::misc::xsetbv_handled(s);
            &&& takes ==> {
                &&& r == ExitHandlerResult::Continue
                &&& after.xcr0_mask == value
                &&& after.vmcs == (Vmcs { guest_rip: Some((rip + length) as u64), ..s.vmcs })
                &&& after.gprs == s.gprs && after.devices == s.devices
            }
            &&& !takes ==> after == s && r == ExitHandlerResult::ExitToUserspace(
                ExitReason::Xsetbv,
            )
        }),
{
    extended_state_sets_are_nested(s, register_pair(s));
}

/// An instruction whose length the processor does not tell, or a RIP that cannot be
/// read or written, stops the VM with the field's error, and RIP stays.
pub proof fn instruction_that_cannot_be_passed_stops_the_vm(s: VmState)
    ensures
        s.vmcs.guest_rip is None || s.vmcs.vm_exit_instruction_length is None
            ==> super::helpers::advanced_result(s, ExitHandlerResult::Continue)
            == ExitHandlerResult::Error(ExitError::VmcsReadError(VmcsError::UnsupportedField))
            && super::helpers::advanced(s) == s,
        s.vmcs.guest_rip is Some && s.vmcs.vm_exit_instruction_length is Some
            && s.vmcs.write_faults.guest_rip is Some ==> super::helpers::advanced_result(
            s,
            ExitHandlerResult::Continue,
        ) == ExitHandlerResult::Error(
            ExitError::VmcsWriteError(s.vmcs.write_faults.guest_rip->0),
        ) && super::helpers::advanced(s) == s,
{
}

// ---- Reports ----

/// The report on a triple fault gives, with every field there to be read, the
/// guest's position, control registers and segments, the event that was being
/// delivered with its name and error code, the faulting addresses, the tables and
/// the guest's state, in this order.
pub proof fn triple_fault_report_is_complete(
    vmcs: Vmcs,
    info: u32,
    error: u32,
)
    requires
        vmcs.guest_rip is Some && vmcs.guest_rsp is Some && vmcs.guest_rflags is Some,
        vmcs.guest_cr0 is Some && vmcs.guest_cr3 is Some && vmcs.guest_cr4 is Some,
        vmcs.guest_cs_selector is Some && vmcs.guest_ss_selector is Some,
        vmcs.idt_vectoring_info == Some(info),
        info & (1u32 << 31) != 0,
        (info >> 11) & 1 != 0,
        vmcs.idt_vectoring_error_code == Some(error),
        vmcs.exit_qualification is Some && vmcs.guest_linear_addr is Some,
        vmcs.guest_physical_addr is Some,
        vmcs.guest_gdtr_base is Some && vmcs.guest_gdtr_limit is Some,
        vmcs.guest_idtr_base is Some && vmcs.guest_idtr_limit is Some,
        vmcs.guest_activity_state is Some && vmcs.guest_interruptibility_state is Some,
    ensures
        super::misc::triple_fault_report(vmcs) == seq![
            DumpLine::Begin,
            DumpLine::Rip(vmcs.guest_rip->0),
            DumpLine::Rsp(vmcs.guest_rsp->0),
            DumpLine::Rflags(vmcs.guest_rflags->0),
            DumpLine::Cr0(vmcs.guest_cr0->0),
            DumpLine::Cr3(vmcs.guest_cr3->0),
            DumpLine::Cr4(vmcs.guest_cr4->0),
            DumpLine::Cs(vmcs.guest_cs_selector->0),
            DumpLine::Ss(vmcs.guest_ss_selector->0),
            DumpLine::IdtVectoring {
                vector: info & 0xFF,
                int_type: (info >> 8) & 0x7,
                error_valid: true,
            },
            DumpLine::Exception {
                vector: info & 0xFF,
                name: super::misc::name_of_exception((info & 0xFF) as u8),
            },
            DumpLine::ErrorCode(error),
            DumpLine::ExitQualification(vmcs.exit_qualification->0),
            DumpLine::LinearAddress(vmcs.guest_linear_addr->0),
            DumpLine::PhysicalAddress(vmcs.guest_physical_addr->0),
            DumpLine::Gdtr { base: vmcs.guest_gdtr_base->0, limit: vmcs.guest_gdtr_limit->0 },
            DumpLine::Idtr { base: vmcs.guest_idtr_base->0, limit: vmcs.guest_idtr_limit->0 },
            DumpLine::ActivityState(vmcs.guest_activity_state->0),
            DumpLine::InterruptibilityState(vmcs.guest_interruptibility_state->0),
            DumpLine::End,
        ],
{
}

/// Where nothing can be read, the report says only that it is one.
pub proof fn empty_report_is_two_lines(vmcs: Vmcs)
    requires
        vmcs.guest_rip is None && vmcs.guest_rsp is None && vmcs.guest_rflags is None,
        vmcs.guest_cr0 is None && vmcs.guest_cr3 is None && vmcs.guest_cr4 is None,
        vmcs.guest_cs_selector is None && vmcs.guest_ss_selector is None,
        vmcs.idt_vectoring_info is None,
        vmcs.exit_qualification is None && vmcs.guest_linear_addr is None,
        vmcs.guest_physical_addr is None,
        vmcs.guest_gdtr_base is None || vmcs.guest_gdtr_limit is None,
        vmcs.guest_idtr_base is None || vmcs.guest_idtr_limit is None,
        vmcs.guest_activity_state is None && vmcs.guest_interruptibility_state is None,
    ensures
        super::misc::triple_fault_report(vmcs) == seq![DumpLine::Begin, DumpLine::End],
{
}

/// The exceptions have the processor manual's names; vectors 9 and 15 and those from
/// 22 on have none.
pub proof fn exceptions_have_their_names(vector: u8)
    ensures
        super::misc::name_of_exception(0)@ == "DE (Divide Error)"@,
        super::misc::name_of_exception(1)@ == "DB (Debug)"@,
        super::misc::name_of_exception(2)@ == "NMI"@,
        super::misc::name_of_exception(3)@ == "BP (Breakpoint)"@,
        super::misc::name_of_exception(4)@ == "OF (Overflow)"@,
        super::misc::name_of_exception(5)@ == "BR (Bound Range)"@,
        super::misc::name_of_exception(6)@ == "UD (Invalid Opcode)"@,
        super::misc::name_of_exception(7)@ == "NM (Device Not Available)"@,
        super::misc::name_of_exception(8)@ == "DF (Double Fault)"@,
        super::misc::name_of_exception(10)@ == "TS (Invalid TSS)"@,
        super::misc::name_of_exception(11)@ == "NP (Segment Not Present)"@,
        super::misc::name_of_exception(12)@ == "SS (Stack Fault)"@,
        super::misc::name_of_exception(13)@ == "GP (General Protection)"@,
        super::misc::name_of_exception(14)@ == "PF (Page Fault)"@,
        super::misc::name_of_exception(16)@ == "MF (x87 FPU Error)"@,
        super::misc::name_of_exception(17)@ == "AC (Alignment Check)"@,
        super::misc::name_of_exception(18)@ == "MC (Machine Check)"@,
        super::misc::name_of_exception(19)@ == "XM (SIMD Exception)"@,
        super::misc::name_of_exception(20)@ == "VE (Virtualization)"@,
        super::misc::name_of_exception(21)@ == "CP (Control Protection)"@,
        vector == 9 || vector == 15 || vector >= 22 ==> super::misc::name_of_exception(vector)@
            == "Unknown"@,
{
}

// ---- Single sources of interrupts ----

/// A pin of the I/O APIC that is raised requests the vector that its entry holds in
/// its low byte, unless bit 16 masks it or the vector is reserved; a pin that is not
/// there does nothing. No other request changes.
pub proof fn raised_pin_requests_its_vector(s: VmState, pin: u8, vector: u8)
    ensures
        ({
            let entry = s.devices.ioapic.redtbl@[pin as int];
            let after = super::interrupts::irq_delivered(s, pin);
            let routed = pin < 24 && (entry >> 16) & 1 == 0 && entry & 0xFF >= 16;
            &&& crate::vmx::devices::vectors::has_vector(after.devices.apic.irr@, vector) == (
            crate::vmx::devices::vectors::has_vector(s.devices.apic.irr@, vector) || (routed
                && vector == (entry & 0xFF) as u8))
            &&& after.devices.ioapic == s.devices.ioapic
            &&& after.devices.apic.isr == s.devices.apic.isr
            &&& after.vmcs == s.vmcs && after.gprs == s.gprs
        }),
{
    let v = (s.devices.ioapic.redtbl@[pin as int] & 0xFF) as u8;
    crate::vmx::devices::vectors::vector_bits_are_independent(s.devices.apic.irr@, v, vector);
    crate::vmx::devices::vectors::vector_bits_are_independent(s.devices.apic.irr@, v, v);
}

/// The first pass with forced preemption on sets a deadline between one and two
/// periods ahead and requests nothing; a pass before the deadline does nothing, and
/// so does any pass while the guest has no timer vector to be preempted with.
pub proof fn preemption_is_armed_before_it_comes(apic: ApicState, tsc: u64)
    requires
        apic.preempt_period != 0,
        tsc + 2 * apic.preempt_period <= u64::MAX,
    ensures
        ({
            let after = super::interrupts::preempt_checked(apic, tsc);
            let usable = apic.svr & (1u32 << 8) != 0 && apic.lvt_timer & (1u32 << 16) == 0 && (
            apic.lvt_timer & 0xFF) as u8 >= 16;
            &&& !usable ==> after == apic
            &&& tsc < apic.preempt_deadline ==> after == apic
            &&& usable && apic.preempt_deadline == 0 ==> after.irr == apic.irr && tsc
                + apic.preempt_period <= after.preempt_deadline < tsc + 2 * apic.preempt_period
            &&& after.timer_deadline == apic.timer_deadline && after.isr == apic.isr
            &&& after.watchpoint_seed == apic.watchpoint_seed
        }),
{
}

/// An expired timer counts as late exactly if its deadline has passed, not if it has
/// just come.
pub proof fn late_timers_are_counted(s: VmState)
    requires
        timer_has_expired(s),
        s.exit_stats.apic_timer_late_inject < u64::MAX,
    ensures
        super::interrupts::timer_checked(s).exit_stats.apic_timer_late_inject
            == s.exit_stats.apic_timer_late_inject + (if s.emulated_tsc
            > s.devices.apic.timer_deadline {
            1int
        } else {
            0
        }),
        super::interrupts::timer_checked(s).vmcs == s.vmcs,
        super::interrupts::timer_checked(s).emulated_tsc == s.emulated_tsc,
{
}

} // verus!
