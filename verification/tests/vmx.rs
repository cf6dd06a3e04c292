//! The hypervisor core on whole VMs: interrupts, emulated devices, exits and
//! copy-on-write.

use bedrock::host::mmap::{
    bedrock_forked_vm_mmap, bedrock_vm_mmap, host_frames, Mapping, MmapError, PageSource, Vma,
};
use bedrock::vmx::compat::AllocError;
use bedrock::vmx::cow::{CowPageMap, WatchpointClassMap, WpClass};
use bedrock::vmx::devices::apic::ApicState;
use bedrock::vmx::devices::rtc::RtcState;
use bedrock::vmx::devices::vectors::{clear_vector, highest_vector, set_vector};
use bedrock::vmx::dr_watch::ArmResult;
use bedrock::vmx::ept::{EptError, EptPageTable, EptPermissions};
use bedrock::vmx::exit_record::record::ExitRecord;
use bedrock::vmx::exits::apic::{
    fetch_instruction, handle_apic_access, handle_ioapic_access, read_apic_register, read_ioapic_register,
    write_apic_register, write_ioapic_register, InstructionFetch, APIC_BASE, IOAPIC_BASE,
};
use bedrock::vmx::exits::cpuid::{answer_cpuid, filter_cpuid, handle_cpuid, CpuidRegs};
use bedrock::vmx::exits::helpers::{advance_rip, ExitError, ExitHandlerResult};
use bedrock::vmx::exits::interrupts::{
    apic_pending_vector, check_apic_timer, check_io_channel, check_preempt, check_wp_rearm,
    disable_interrupt_window_exiting, enable_interrupt_window_exiting, inject_pending_interrupt,
    ioapic_deliver_irq, raise_preempt_vector, reinject_vectored_event,
};
use bedrock::vmx::exits::misc::{
    dump_triple_fault_state, exception_name, handle_exception_nmi, handle_xsetbv, DumpLine,
};
use bedrock::vmx::exits::msr::{handle_msr_read, handle_msr_write};
use bedrock::vmx::exits::qualifications::{
    EptViolationQualification, InterruptionInfo, InterruptionType,
};
use bedrock::vmx::exits::reasons::ExitReason;
use bedrock::vmx::memory::{GuestPhysAddr, HostPhysAddr, MemoryError};
use bedrock::vmx::msr;
use bedrock::vmx::registers::{get_gpr_value, set_gpr_value, GeneralPurposeRegisters};
use bedrock::vmx::state::{ExitTrigger, FeedbackBuffer, HostState, VmState, VmStateError};
use bedrock::vmx::traits::context::VmContext;
use bedrock::vmx::vm::forked::{ForkedVm, ForkedVmError};
use bedrock::vmx::vm::pages::{GuestPage, PagePool};
use bedrock::vmx::vm::parent::{ForkableVm, ParentVm};
use bedrock::vmx::vm::root::RootVm;
use bedrock::vmx::vmcs::{
    registers_guarded, RegistersError, Vmcs, VmcsError, VmcsField32, VmcsFieldNatural,
    VmcsWriteFaults,
};

const FREQ: u64 = 2_995_200_000;
const PAGES: usize = 8;

/// A control structure with every field present and zero.
fn vmcs() -> Vmcs {
    Vmcs {
        guest_cs_selector: Some(0),
        guest_ss_selector: Some(0),
        primary_proc_based_vm_exec_controls: Some(0),
        vm_entry_interruption_info: Some(0),
        vm_entry_exception_error_code: Some(0),
        vm_exit_interruption_info: Some(0),
        vm_exit_interruption_error_code: Some(0),
        idt_vectoring_info: Some(0),
        idt_vectoring_error_code: Some(0),
        vm_exit_instruction_length: Some(2),
        guest_gdtr_limit: Some(0),
        guest_idtr_limit: Some(0),
        guest_interruptibility_state: Some(0),
        guest_activity_state: Some(0),
        guest_physical_addr: Some(0),
        exit_qualification: Some(0),
        guest_linear_addr: Some(0),
        guest_cr0: Some(0),
        guest_cr3: Some(0),
        guest_cr4: Some(0),
        guest_fs_base: Some(0),
        guest_gdtr_base: Some(0),
        guest_idtr_base: Some(0),
        guest_rsp: Some(0),
        guest_rip: Some(0x1000),
        guest_rflags: Some(0x202),
        host_rip: Some(0),
        write_faults: VmcsWriteFaults::none(),
    }
}

/// A root VM with eight pages; byte `a` of its memory is the number of its page.
fn root() -> RootVm {
    let mut ept = EptPageTable::new();
    let mut memory = Vec::new();
    for page in 0..PAGES as u64 {
        ept.map_4k(
            GuestPhysAddr::new(page * 4096),
            HostPhysAddr::new(0x10_0000 + page * 4096),
            EptPermissions::ReadWriteExecute,
        );
        memory.extend_from_slice(&[page as u8; 4096]);
    }
    let state = VmState::new(
        vmcs(),
        ept,
        HostPhysAddr::new(0x9000),
        HostState {
            misc_enable: 0,
            platform_info: 0x1800,
        },
        FREQ,
    );
    RootVm::new(state, memory)
}

/// Free pages in frames from `first` on.
fn pool(first: u64, count: u64) -> PagePool {
    let mut pool = PagePool::new();
    for i in 0..count {
        pool.add(GuestPage::new(HostPhysAddr::new(first + i * 4096)));
    }
    pool
}

/// Software-enable the APIC and give the LVT timer an unmasked, deliverable
/// vector so `check_preempt` treats it as usable.
fn enable_apic_timer_vector(ctx: &mut RootVm, vector: u8) {
    let apic = &mut ctx.state_mut().devices.apic;
    apic.svr |= 1 << 8; // APIC software-enabled
    apic.lvt_timer = u32::from(vector); // unmasked (bit 16 clear), not periodic
}

/// Read the IRR bit for a vector.
fn irr_set(ctx: &RootVm, vector: u8) -> bool {
    let apic = &ctx.state().devices.apic;
    apic.irr[(vector / 32) as usize] & (1 << (vector % 32)) != 0
}

// ---- Forced preemption ----

#[test]
fn preempt_interval_is_deterministic_and_in_range() {
    let mut a = ApicState::default();
    a.configure_preempt(1000, 0x1234_5678);
    let mut b = ApicState::default();
    b.configure_preempt(1000, 0x1234_5678);

    for _ in 0..64 {
        let ia = a.next_preempt_interval();
        let ib = b.next_preempt_interval();
        assert_eq!(ia, ib, "same seed must produce the same interval stream");
        assert!(
            (1000..2000).contains(&ia),
            "interval {ia} out of [period, 2*period)"
        );
    }
}

#[test]
fn configure_preempt_forces_nonzero_seed_and_can_disable() {
    let mut a = ApicState::default();
    a.configure_preempt(1000, 0); // 0 is a xorshift fixed point; must be bumped
    assert_ne!(a.preempt_seed, 0);
    assert_ne!(a.next_preempt_interval(), 0);

    a.configure_preempt(0, 42); // period 0 disables
    assert_eq!(a.preempt_period, 0);
}

#[test]
fn check_preempt_noop_when_disabled() {
    let mut ctx = root();
    enable_apic_timer_vector(&mut ctx, 0x40);
    // preempt_period defaults to 0 -> feature off.
    ctx.state_mut().emulated_tsc = 1_000_000;
    check_preempt(&mut ctx);
    assert_eq!(ctx.state().devices.apic.preempt_deadline, 0);
    assert!(!irr_set(&ctx, 0x40));
}

#[test]
fn check_preempt_lazy_arms_then_fires_and_reschedules() {
    let mut ctx = root();
    enable_apic_timer_vector(&mut ctx, 0x40);
    ctx.state_mut()
        .devices
        .apic
        .configure_preempt(1000, 0x9e37_79b9);

    // First eligible pass arms the deadline but injects nothing.
    ctx.state_mut().emulated_tsc = 0;
    check_preempt(&mut ctx);
    let first_deadline = ctx.state().devices.apic.preempt_deadline;
    assert!(
        first_deadline >= 1000,
        "lazy-armed deadline in interval range"
    );
    assert!(!irr_set(&ctx, 0x40), "no injection on the arming pass");

    // Not yet at the deadline: nothing fires.
    ctx.state_mut().emulated_tsc = first_deadline - 1;
    check_preempt(&mut ctx);
    assert!(!irr_set(&ctx, 0x40));
    assert_eq!(ctx.state().devices.apic.preempt_deadline, first_deadline);

    // On the boundary: inject the timer vector and schedule the next one.
    ctx.state_mut().emulated_tsc = first_deadline;
    check_preempt(&mut ctx);
    assert!(
        irr_set(&ctx, 0x40),
        "preemption raises the LVT timer vector"
    );
    let second_deadline = ctx.state().devices.apic.preempt_deadline;
    assert!(
        second_deadline > first_deadline,
        "next deadline advances past the one that fired"
    );
}

#[test]
fn check_preempt_holds_off_until_vector_usable() {
    let mut ctx = root();
    ctx.state_mut().devices.apic.configure_preempt(1000, 0x1);
    // APIC left software-disabled and LVT timer masked (defaults): not usable.
    ctx.state_mut().emulated_tsc = 5000;
    check_preempt(&mut ctx);
    assert_eq!(
        ctx.state().devices.apic.preempt_deadline,
        0,
        "must not arm while the guest has no deliverable timer vector"
    );

    // Once the guest wires up a vector, the next pass arms.
    enable_apic_timer_vector(&mut ctx, 0x40);
    check_preempt(&mut ctx);
    assert_ne!(ctx.state().devices.apic.preempt_deadline, 0);
}

#[test]
fn watchpoint_decision_is_deterministic_and_respects_pct() {
    // Same seed -> identical decision stream (reproducible schedule).
    let mut a = ApicState::default();
    a.configure_watchpoints(50, 0x1234_5678, 0, 0, 0);
    let mut b = ApicState::default();
    b.configure_watchpoints(50, 0x1234_5678, 0, 0, 0);
    for _ in 0..64 {
        assert_eq!(a.watchpoint_should_preempt(), b.watchpoint_should_preempt());
    }

    // pct 0 (via a live pct field) never preempts; pct 100 always does.
    let mut never = ApicState::default();
    never.configure_watchpoints(100, 0x1, 0, 0, 0);
    never.watchpoint_pct = 0;
    let mut always = ApicState::default();
    always.configure_watchpoints(100, 0xdead_beef, 0, 0, 0);
    for _ in 0..256 {
        assert!(!never.watchpoint_should_preempt());
        assert!(always.watchpoint_should_preempt());
    }
}

#[test]
fn configure_watchpoints_forces_nonzero_seed() {
    let mut a = ApicState::default();
    a.configure_watchpoints(10, 0, 0, 0, 0); // 0 is a xorshift fixed point; must be bumped
    assert_ne!(a.watchpoint_seed, 0);
    assert_eq!(a.watchpoint_pct, 10);
}

#[test]
fn raise_preempt_vector_gated_on_usable_vector() {
    let mut ctx = root();
    // Default APIC: software-disabled, LVT timer masked -> must not raise.
    assert!(!raise_preempt_vector(&mut ctx.state_mut().devices.apic));
    assert!(!irr_set(&ctx, 0x40));

    // Wire up a deliverable vector -> raises it in IRR.
    enable_apic_timer_vector(&mut ctx, 0x40);
    assert!(raise_preempt_vector(&mut ctx.state_mut().devices.apic));
    assert!(irr_set(&ctx, 0x40));
}

#[test]
fn xorshift_stream_is_the_documented_one() {
    let mut a = ApicState::default();
    a.configure_preempt(1000, 1);
    // One xorshift64 step (13, 7, 17) from seed 1.
    let next: u64 = 0x4082_2041;
    assert_eq!(a.next_preempt_interval(), 1000 + next % 1000);
    assert_eq!(a.preempt_seed, next);
}

// ---- Timer, I/O channel and delivery ----

#[test]
fn one_shot_timer_fires_at_its_deadline_and_stops() {
    let mut ctx = root();
    enable_apic_timer_vector(&mut ctx, 0x31);
    ctx.state_mut().devices.apic.timer_initial = 10;
    ctx.state_mut().devices.apic.timer_deadline = 500;
    ctx.state_mut().emulated_tsc = 499;
    check_apic_timer(&mut ctx);
    assert!(!irr_set(&ctx, 0x31));
    ctx.state_mut().emulated_tsc = 500;
    check_apic_timer(&mut ctx);
    assert!(irr_set(&ctx, 0x31));
    assert_eq!(ctx.state().devices.apic.timer_deadline, 0);
}

#[test]
fn timer_write_schedules_by_the_divisor() {
    let mut apic = ApicState::default();
    write_apic_register(&mut apic, 0x3E0, 0b1011, 0); // divide by 1
    write_apic_register(&mut apic, 0x380, 1000, 7);
    assert_eq!(apic.timer_deadline, 1007);
    write_apic_register(&mut apic, 0x3E0, 0b0011, 0); // divide by 16
    write_apic_register(&mut apic, 0x380, 1000, 7);
    assert_eq!(apic.timer_deadline, 16007);
    write_apic_register(&mut apic, 0x380, 0, 7);
    assert_eq!(apic.timer_deadline, 0);
}

#[test]
fn io_request_interrupts_the_guest_once() {
    let mut ctx = root();
    ctx.state_mut().devices.apic.svr |= 1 << 8;
    ctx.state_mut().devices.ioapic.redtbl[9] = 0x39;
    ctx.state_mut().io_channel.page_gpa = 0x1000;
    ctx.state_mut().io_channel.request_len = 5;
    ctx.state_mut().io_channel.request_target_tsc = 100;
    ctx.state_mut().emulated_tsc = 99;
    check_io_channel(&mut ctx);
    assert!(!ctx.state().io_channel.request_delivered);
    ctx.state_mut().emulated_tsc = 100;
    check_io_channel(&mut ctx);
    assert!(ctx.state().io_channel.request_delivered);
    assert_eq!(apic_pending_vector(&ctx), Some(0x39));
    ctx.state_mut().devices.apic.irr = [0; 8];
    check_io_channel(&mut ctx);
    assert_eq!(apic_pending_vector(&ctx), None);
}

#[test]
fn masked_or_reserved_irqs_are_not_delivered() {
    let mut ctx = root();
    ctx.state_mut().devices.ioapic.redtbl[4] = 0x1_0034; // masked
    ioapic_deliver_irq(&mut ctx, 4);
    ctx.state_mut().devices.ioapic.redtbl[5] = 0x0F; // reserved vector
    ioapic_deliver_irq(&mut ctx, 5);
    ioapic_deliver_irq(&mut ctx, 24); // no such pin
    assert_eq!(ctx.state().devices.apic.irr, [0; 8]);
    ctx.state_mut().devices.ioapic.redtbl[4] = 0x34;
    ioapic_deliver_irq(&mut ctx, 4);
    assert!(irr_set(&ctx, 0x34));
}

#[test]
fn pending_interrupt_moves_into_service() {
    let mut ctx = root();
    ctx.state_mut().devices.apic.svr |= 1 << 8;
    set_vector(&mut ctx.state_mut().devices.apic.irr, 0x41);
    assert_eq!(inject_pending_interrupt(&mut ctx), Ok(()));
    assert!(!irr_set(&ctx, 0x41));
    assert_eq!(highest_vector(&ctx.state().devices.apic.isr), Some(0x41));
    assert_eq!(
        ctx.state().vmcs.read32(VmcsField32::VmEntryInterruptionInfo),
        Ok(0x8000_0041)
    );
}

#[test]
fn nothing_is_injected_at_a_nondeterministic_exit() {
    let mut ctx = root();
    ctx.state_mut().devices.apic.svr |= 1 << 8;
    set_vector(&mut ctx.state_mut().devices.apic.irr, 0x41);
    ctx.state_mut().last_exit_deterministic = false;
    assert_eq!(inject_pending_interrupt(&mut ctx), Ok(()));
    assert!(irr_set(&ctx, 0x41));
    assert_eq!(
        ctx.state().vmcs.read32(VmcsField32::VmEntryInterruptionInfo),
        Ok(0)
    );
}

#[test]
fn closed_window_is_waited_for() {
    let mut ctx = root();
    ctx.state_mut().devices.apic.svr |= 1 << 8;
    set_vector(&mut ctx.state_mut().devices.apic.irr, 0x41);
    ctx.state_mut().vmcs.guest_rflags = Some(0x2); // IF clear
    assert_eq!(inject_pending_interrupt(&mut ctx), Ok(()));
    assert!(irr_set(&ctx, 0x41));
    assert_eq!(
        ctx.state().vmcs.primary_proc_based_vm_exec_controls,
        Some(1 << 2)
    );
    assert_eq!(disable_interrupt_window_exiting(&mut ctx), Ok(()));
    assert_eq!(ctx.state().vmcs.primary_proc_based_vm_exec_controls, Some(0));
    assert_eq!(enable_interrupt_window_exiting(&mut ctx), Ok(()));
    assert_eq!(
        ctx.state().vmcs.primary_proc_based_vm_exec_controls,
        Some(4)
    );
    ctx.state_mut().vmcs.primary_proc_based_vm_exec_controls = None;
    assert!(enable_interrupt_window_exiting(&mut ctx).is_err());
}

#[test]
fn interrupted_delivery_is_repeated() {
    let mut ctx = root();
    assert_eq!(reinject_vectored_event(&mut ctx), Ok(false));
    // A page fault with error code was being delivered.
    ctx.state_mut().vmcs.idt_vectoring_info = Some(0x8000_0B0E);
    ctx.state_mut().vmcs.idt_vectoring_error_code = Some(6);
    assert_eq!(reinject_vectored_event(&mut ctx), Ok(true));
    assert_eq!(
        ctx.state().vmcs.vm_entry_interruption_info,
        Some(0x8000_0B0E)
    );
    assert_eq!(ctx.state().vmcs.vm_entry_exception_error_code, Some(6));
}

#[test]
fn vector_bits_are_set_found_and_cleared() {
    let mut words = [0u32; 8];
    assert_eq!(highest_vector(&words), None);
    set_vector(&mut words, 32);
    set_vector(&mut words, 255);
    assert_eq!(words[1], 1);
    assert_eq!(words[7], 0x8000_0000);
    assert_eq!(highest_vector(&words), Some(255));
    clear_vector(&mut words, 255);
    assert_eq!(highest_vector(&words), Some(32));
}

#[test]
fn interruption_info_is_the_processors() {
    let info = InterruptionInfo::external_interrupt(0x41);
    assert_eq!(info.encode(), 0x8000_0041);
    let fault = InterruptionInfo::decode(0x8000_0B0E);
    assert_eq!(fault.vector, 14);
    assert_eq!(fault.interruption_type, InterruptionType::HardwareException);
    assert!(fault.error_code_valid);
    assert!(fault.valid);
    assert_eq!(fault.encode(), 0x8000_0B0E);
}

// ---- APIC and I/O APIC registers ----

#[test]
fn apic_registers_read_back() {
    let mut apic = ApicState::default();
    write_apic_register(&mut apic, 0x080, 0x20, 0);
    assert_eq!(read_apic_register(&apic, 0x080), 0x20);
    assert_eq!(read_apic_register(&apic, 0x0A0), 0x20);
    assert_eq!(read_apic_register(&apic, 0x030), 0x0005_0014);
    write_apic_register(&mut apic, 0x320, 0x40, 0);
    assert_eq!(read_apic_register(&apic, 0x320), 0x40);
    assert_eq!(read_apic_register(&apic, 0xFF0), 0);
}

#[test]
fn end_of_interrupt_retires_the_highest_vector() {
    let mut apic = ApicState::default();
    set_vector(&mut apic.isr, 0x30);
    set_vector(&mut apic.isr, 0x80);
    write_apic_register(&mut apic, 0x0B0, 0, 0);
    assert_eq!(highest_vector(&apic.isr), Some(0x30));
    write_apic_register(&mut apic, 0x0B0, 0, 0);
    write_apic_register(&mut apic, 0x0B0, 0, 0);
    assert_eq!(highest_vector(&apic.isr), None);
}

#[test]
fn apic_access_goes_through_the_register() {
    let mut ctx = root();
    let read = EptViolationQualification {
        read: true,
        write: false,
        execute: false,
    };
    let write = EptViolationQualification {
        read: false,
        write: true,
        execute: false,
    };
    let fetch = InstructionFetch::Decoded {
        register: 3,
        length: 6,
    };
    ctx.state_mut().gprs.rbx = 0x30;
    assert_eq!(
        handle_apic_access(&mut ctx, APIC_BASE + 0x80, write, fetch),
        ExitHandlerResult::Continue
    );
    assert_eq!(ctx.state().devices.apic.tpr, 0x30);
    ctx.state_mut().gprs.rbx = u64::MAX;
    assert_eq!(
        handle_apic_access(&mut ctx, APIC_BASE + 0x80, read, fetch),
        ExitHandlerResult::Continue
    );
    assert_eq!(ctx.state().gprs.rbx, 0x30);
    assert_eq!(ctx.state().vmcs.guest_rip, Some(0x100C));
    assert_eq!(
        handle_apic_access(
            &mut ctx,
            APIC_BASE + 0x80,
            read,
            InstructionFetch::DecodeFailed
        ),
        ExitHandlerResult::ExitToUserspace(ExitReason::EptViolation)
    );
    ctx.state_mut().vmcs.guest_rip = None;
    assert_eq!(
        handle_apic_access(&mut ctx, APIC_BASE, read, fetch),
        ExitHandlerResult::Error(ExitError::VmcsReadError(VmcsError::UnsupportedField))
    );
}

#[test]
fn instructions_are_fetched_from_guest_memory() {
    let vm = root();
    let bytes = fetch_instruction(&vm, Some(GuestPhysAddr::new(0x1ffa))).unwrap();
    assert_eq!(bytes, [1, 1, 1, 1, 1, 1, 2, 2, 2, 2, 2, 2, 2, 2, 2]);
    assert_eq!(
        fetch_instruction(&vm, None),
        Err(InstructionFetch::TranslateFailed)
    );
    assert_eq!(
        fetch_instruction(&vm, Some(GuestPhysAddr::new(PAGES as u64 * 4096 - 14))),
        Err(InstructionFetch::ReadFailed)
    );
}

#[test]
fn ioapic_entries_are_written_in_halves() {
    let mut ctx = root();
    let ioapic = &mut ctx.state_mut().devices.ioapic;
    ioapic.ioregsel = 1;
    assert_eq!(read_ioapic_register(ioapic), 0x0017_0020);
    ioapic.ioregsel = 0x12;
    write_ioapic_register(ioapic, 0x0000_0045);
    assert_eq!(read_ioapic_register(ioapic), 0x45);
    ioapic.ioregsel = 0x13;
    write_ioapic_register(ioapic, 0xAB00_0000);
    assert_eq!(read_ioapic_register(ioapic), 0xAB00_0000);
    assert_eq!(ioapic.redtbl[1], 0xAB00_0000_0000_0045);
    ioapic.ioregsel = 0x40;
    assert_eq!(read_ioapic_register(ioapic), 0);

    // Through the index and data windows.
    let write = EptViolationQualification {
        read: false,
        write: true,
        execute: false,
    };
    let fetch = InstructionFetch::Decoded {
        register: 0,
        length: 3,
    };
    ctx.state_mut().gprs.rax = 0x10;
    handle_ioapic_access(&mut ctx, IOAPIC_BASE, write, fetch);
    ctx.state_mut().gprs.rax = 0x77;
    handle_ioapic_access(&mut ctx, IOAPIC_BASE + 0x10, write, fetch);
    assert_eq!(ctx.state().devices.ioapic.redtbl[0] & 0xFF, 0x77);
    assert_eq!(ctx.state().vmcs.guest_rip, Some(0x1006));
}

#[test]
fn selected_ioapic_register_reads_back_through_the_windows() {
    let store = EptViolationQualification {
        read: false,
        write: true,
        execute: false,
    };
    let load = EptViolationQualification {
        read: true,
        write: false,
        execute: false,
    };
    let fetch = |register| InstructionFetch::Decoded {
        register,
        length: 3,
    };
    // Register, value written, value read.
    for (reg, value, expected) in [
        (0x10, 0x1234_5678, 0x1234_5678),
        (0x3F, 0xFFFF_0001, 0xFFFF_0001),
        (0, 0xFFFF_FFFF, 0x0F00_0000),
        (1, 0xFFFF_FFFF, 0x0017_0020),
        (2, 0xFFFF_FFFF, 0x0300_0000),
        (3, 0xFFFF_FFFF, 0),
        (0x40, 0xFFFF_FFFF, 0),
    ] {
        let mut ctx = root();
        ctx.state_mut().devices.ioapic.id = 0x0300_0000;
        let before = ctx.state().devices.ioapic.redtbl;
        ctx.state_mut().gprs.rcx = reg;
        ctx.state_mut().gprs.r9 = value;
        handle_ioapic_access(&mut ctx, IOAPIC_BASE, store, fetch(1));
        handle_ioapic_access(&mut ctx, IOAPIC_BASE + 0x10, store, fetch(9));
        handle_ioapic_access(&mut ctx, IOAPIC_BASE + 0x10, load, fetch(6));
        assert_eq!(ctx.state().gprs.rsi, expected);
        for (i, entry) in ctx.state().devices.ioapic.redtbl.iter().enumerate() {
            let low = 0x10 + 2 * i as u64;
            if reg != low {
                assert_eq!(*entry as u32, before[i] as u32);
            }
            if reg != low + 1 {
                assert_eq!(*entry >> 32, before[i] >> 32);
            }
        }
        if reg != 0 {
            assert_eq!(ctx.state().devices.ioapic.id, 0x0300_0000);
        }
    }
}

// ---- CPUID, MSRs, XSETBV, exceptions ----

#[test]
fn cpuid_is_answered_and_skipped() {
    let mut ctx = root();
    ctx.state_mut().gprs.rax = 0x4000_0000;
    assert_eq!(handle_cpuid(&mut ctx), ExitHandlerResult::Continue);
    assert_eq!(ctx.state().vmcs.guest_rip, Some(0x1002));

    let host = CpuidRegs {
        eax: u32::MAX,
        ebx: u32::MAX,
        ecx: u32::MAX,
        edx: u32::MAX,
    };
    ctx.state_mut().gprs.rax = 1;
    ctx.state_mut().gprs.rcx = 0;
    assert_eq!(answer_cpuid(&mut ctx, host), ExitHandlerResult::Continue);
    // A fixed processor; no VMX and no TSC deadline, but a hypervisor.
    assert_eq!(ctx.state().gprs.rax, 0x0005_0657);
    assert_eq!(ctx.state().gprs.rbx, 0x0001_FFFF);
    assert_eq!(ctx.state().gprs.rcx, 0xFEFF_FFDF);
    assert_eq!(ctx.state().gprs.rdx, 0xEFFF_FFFF);
}

#[test]
fn wrapper_asks_the_processor() {
    // Leaf 0 takes its vendor string from the host: never all zero.
    let mut ctx = root();
    ctx.state_mut().gprs.rax = 0;
    ctx.state_mut().gprs.rcx = 0;
    assert_eq!(handle_cpuid(&mut ctx), ExitHandlerResult::Continue);
    assert_ne!(ctx.state().gprs.rbx, 0);
    assert_ne!(ctx.state().gprs.rcx, 0);
    assert_ne!(ctx.state().gprs.rdx, 0);
}

#[test]
fn host_is_asked_for_the_guests_leaf() {
    for (leaf, subleaf) in [(0, 0), (4, 0), (4, 1), (7, 0), (0x8000_0008, 0)] {
        let said = core::arch::x86_64::__cpuid_count(leaf, subleaf);
        let host = CpuidRegs {
            eax: said.eax,
            ebx: said.ebx,
            ecx: said.ecx,
            edx: said.edx,
        };
        let mut asked = root();
        asked.state_mut().gprs.rax = u64::from(leaf);
        asked.state_mut().gprs.rcx = u64::from(subleaf);
        let mut told = root();
        told.state_mut().gprs.rax = u64::from(leaf);
        told.state_mut().gprs.rcx = u64::from(subleaf);
        handle_cpuid(&mut asked);
        answer_cpuid(&mut told, host);
        assert_eq!(asked.state().gprs, told.state().gprs);
    }
}

#[test]
fn brand_string_is_the_same_everywhere() {
    let host = CpuidRegs {
        eax: 1,
        ebx: 2,
        ecx: 3,
        edx: 4,
    };
    let mut brand = Vec::new();
    for leaf in 0x8000_0002..=0x8000_0004 {
        let r = filter_cpuid(leaf, 0, FREQ, host);
        for word in [r.eax, r.ebx, r.ecx, r.edx] {
            brand.extend_from_slice(&word.to_le_bytes());
        }
    }
    let other = CpuidRegs {
        eax: 5,
        ebx: 6,
        ecx: 7,
        edx: 8,
    };
    for leaf in 0x8000_0002..=0x8000_0004u32 {
        assert_eq!(
            filter_cpuid(leaf, 0, FREQ, host),
            filter_cpuid(leaf, 0, FREQ, other)
        );
    }
    assert_eq!(&brand[..16], b"Bedrock VM CPU  ");
}

#[test]
fn msrs_read_what_was_stored() {
    let mut ctx = root();
    let write = |ctx: &mut RootVm, n: u32, value: u64| {
        ctx.state_mut().gprs.rcx = u64::from(n);
        ctx.state_mut().gprs.rax = value & 0xFFFF_FFFF;
        ctx.state_mut().gprs.rdx = value >> 32;
        handle_msr_write(ctx)
    };
    let read = |ctx: &mut RootVm, n: u32| {
        ctx.state_mut().gprs.rcx = u64::from(n);
        let r = handle_msr_read(ctx);
        (r, (ctx.state().gprs.rdx << 32) | ctx.state().gprs.rax)
    };
    for n in [
        msr::IA32_PAT,
        msr::IA32_TSC_AUX,
        msr::IA32_MTRR_DEF_TYPE,
        msr::IA32_MTRR_PHYSBASE0,
        msr::IA32_MTRR_PHYSMASK9,
        msr::IA32_MTRR_FIX64K_00000,
        msr::IA32_MTRR_FIX16K_A0000,
        msr::IA32_MTRR_FIX4K_F8000,
    ] {
        let value = 0x1234_5678_0000_0000 | u64::from(n);
        assert_eq!(write(&mut ctx, n, value), ExitHandlerResult::Continue);
        assert_eq!(read(&mut ctx, n), (ExitHandlerResult::Continue, value));
    }
    assert_eq!(
        read(&mut ctx, msr::IA32_MISC_ENABLE),
        (ExitHandlerResult::Continue, (1 << 11) | (1 << 12))
    );
    assert_eq!(
        read(&mut ctx, msr::IA32_PLATFORM_INFO),
        (ExitHandlerResult::Continue, 0x1800)
    );
    assert_eq!(
        read(&mut ctx, msr::IA32_BIOS_SIGN_ID),
        (ExitHandlerResult::Continue, 0x1_0000_0000)
    );
    assert_eq!(
        read(&mut ctx, msr::MSR_PKG_ENERGY_STATUS),
        (ExitHandlerResult::Continue, 0)
    );
    assert_eq!(
        read(&mut ctx, 0x1234).0,
        ExitHandlerResult::ExitToUserspace(ExitReason::MsrRead)
    );
    assert_eq!(
        write(&mut ctx, 0x1234, 1),
        ExitHandlerResult::ExitToUserspace(ExitReason::MsrWrite)
    );
    // The APIC cannot be moved.
    let base = ctx.state().devices.apic.base;
    assert_eq!(
        write(&mut ctx, msr::IA32_APIC_BASE, base),
        ExitHandlerResult::Continue
    );
    assert_eq!(
        write(&mut ctx, msr::IA32_APIC_BASE, base + 0x1000),
        ExitHandlerResult::ExitToUserspace(ExitReason::MsrWrite)
    );
}

#[test]
fn missing_length_stops_the_vm() {
    let mut ctx = root();
    ctx.state_mut().gprs.rcx = u64::from(msr::IA32_PAT);
    ctx.state_mut().vmcs.vm_exit_instruction_length = None;
    assert_eq!(
        handle_msr_read(&mut ctx),
        ExitHandlerResult::Error(ExitError::VmcsReadError(VmcsError::UnsupportedField))
    );
    assert_eq!(
        advance_rip(ctx.state_mut()),
        Err(ExitError::VmcsReadError(VmcsError::UnsupportedField))
    );
}

#[test]
fn xcr0_is_validated() {
    let set = |rcx: u64, value: u64| {
        let mut ctx = root();
        ctx.state_mut().gprs.rcx = rcx;
        ctx.state_mut().gprs.rax = value & 0xFFFF_FFFF;
        ctx.state_mut().gprs.rdx = value >> 32;
        let r = handle_xsetbv(&mut ctx);
        (r, ctx.state().xcr0_mask)
    };
    assert_eq!(set(0, 7), (ExitHandlerResult::Continue, 7));
    let refused = ExitHandlerResult::ExitToUserspace(ExitReason::Xsetbv);
    assert_eq!(set(0, 6), (refused, 1)); // x87 off
    assert_eq!(set(0, 5), (refused, 1)); // AVX without SSE
    assert_eq!(set(1, 7), (refused, 1)); // no such register
}

#[test]
fn exceptions_go_where_they_belong() {
    let mut ctx = root();
    // A host NMI is served by the host.
    ctx.state_mut().vmcs.vm_exit_interruption_info = Some(0x8000_0202);
    assert_eq!(handle_exception_nmi(&mut ctx), ExitHandlerResult::Continue);
    assert!(ctx.state().requests.service_nmi);

    // A page fault goes to userspace, or back to the guest if intercepted.
    ctx.state_mut().vmcs.vm_exit_interruption_info = Some(0x8000_0B0E);
    assert_eq!(
        handle_exception_nmi(&mut ctx),
        ExitHandlerResult::ExitToUserspace(ExitReason::ExceptionNmi)
    );
    ctx.state_mut().intercept_pf = true;
    ctx.state_mut().vmcs.exit_qualification = Some(0xdead_b000);
    ctx.state_mut().vmcs.vm_exit_interruption_error_code = Some(2);
    assert_eq!(handle_exception_nmi(&mut ctx), ExitHandlerResult::Continue);
    assert_eq!(ctx.state().vmx_ctx.guest_cr2, 0xdead_b000);
    assert_eq!(
        ctx.state().vmcs.vm_entry_interruption_info,
        Some(0x8000_0B0E)
    );
    assert_eq!(ctx.state().vmcs.vm_entry_exception_error_code, Some(2));
    assert_eq!(ctx.state().vmcs.guest_rip, Some(0x1000));

    ctx.state_mut().vmcs.vm_exit_interruption_info = None;
    assert_eq!(
        handle_exception_nmi(&mut ctx),
        ExitHandlerResult::Error(ExitError::VmcsReadError(VmcsError::UnsupportedField))
    );
}

#[test]
fn breakpoint_hit_by_another_thread_is_a_race() {
    let mut ctx = root();
    enable_apic_timer_vector(&mut ctx, 0x40);
    ctx.state_mut().devices.apic.watchpoint_dr = true;
    assert_eq!(
        ctx.state_mut().debug_watch.arm(0x5000, 4, 111, 0),
        ArmResult::Armed { slot: 0 }
    );
    ctx.state_mut().vmcs.vm_exit_interruption_info = Some(0x8000_0301);
    ctx.state_mut().vmcs.exit_qualification = Some(1);
    ctx.state_mut().vmcs.guest_cs_selector = Some(0x33);
    ctx.state_mut().vmcs.guest_fs_base = Some(111);
    assert_eq!(handle_exception_nmi(&mut ctx), ExitHandlerResult::Continue);
    assert_eq!(ctx.state().exit_stats.wp_dr_self, 1);
    assert_eq!(ctx.state().exit_stats.wp_dr_conflicts, 0);
    ctx.state_mut().vmcs.guest_fs_base = Some(222);
    assert_eq!(handle_exception_nmi(&mut ctx), ExitHandlerResult::Continue);
    assert_eq!(ctx.state().exit_stats.wp_dr_conflicts, 1);
    assert!(irr_set(&ctx, 0x40));
}

#[test]
fn foreign_breakpoint_goes_to_the_guest() {
    let mut ctx = root();
    ctx.state_mut().devices.apic.watchpoint_dr = true;
    ctx.state_mut().debug_watch.arm(0x5000, 4, 111, 0);
    ctx.state_mut().vmcs.vm_exit_interruption_info = Some(0x8000_0301);
    // Breakpoint 1 fired, which nobody armed.
    ctx.state_mut().vmcs.exit_qualification = Some(0b10);
    ctx.state_mut().vmcs.guest_cs_selector = Some(0x33);
    ctx.state_mut().vmcs.guest_fs_base = Some(222);
    assert_eq!(handle_exception_nmi(&mut ctx), ExitHandlerResult::Continue);
    // Valid, hardware exception, vector 1, no error code.
    assert_eq!(
        ctx.state().vmcs.vm_entry_interruption_info,
        Some(0x8000_0301)
    );
    assert_eq!(ctx.state().vmcs.vm_entry_exception_error_code, Some(0));
    assert_eq!(ctx.state().exit_stats.wp_dr_self, 0);
    assert_eq!(ctx.state().exit_stats.wp_dr_conflicts, 0);
    assert_eq!(ctx.state().debug_watch.slot(0).unwrap().gva, 0x5000);

    ctx.state_mut().vmcs.vm_entry_interruption_info = None;
    assert_eq!(
        handle_exception_nmi(&mut ctx),
        ExitHandlerResult::Error(ExitError::VmcsWriteError(VmcsError::UnsupportedField))
    );
}

#[test]
fn own_breakpoint_is_not_injected() {
    let mut ctx = root();
    ctx.state_mut().devices.apic.watchpoint_dr = true;
    ctx.state_mut().debug_watch.arm(0x5000, 4, 111, 0);
    ctx.state_mut().vmcs.vm_exit_interruption_info = Some(0x8000_0301);
    ctx.state_mut().vmcs.exit_qualification = Some(1);
    ctx.state_mut().vmcs.guest_cs_selector = Some(0x33);
    ctx.state_mut().vmcs.guest_fs_base = Some(111);
    assert_eq!(handle_exception_nmi(&mut ctx), ExitHandlerResult::Continue);
    assert_eq!(ctx.state().vmcs.vm_entry_interruption_info, Some(0));
}

#[test]
fn exception_names_are_intels() {
    assert_eq!(exception_name(14), "PF (Page Fault)");
    assert_eq!(exception_name(8), "DF (Double Fault)");
    assert_eq!(exception_name(9), "Unknown");
    assert_eq!(exception_name(255), "Unknown");
}

#[test]
fn triple_fault_report_names_the_event() {
    let mut ctx = root();
    ctx.state_mut().vmcs.idt_vectoring_info = Some(0x8000_0B0E);
    ctx.state_mut().vmcs.idt_vectoring_error_code = Some(3);
    ctx.state_mut().vmcs.guest_gdtr_limit = None;
    let lines = dump_triple_fault_state(&ctx);
    assert_eq!(lines.first(), Some(&DumpLine::Begin));
    assert_eq!(lines[1], DumpLine::Rip(0x1000));
    assert_eq!(lines.last(), Some(&DumpLine::End));
    assert!(lines.contains(&DumpLine::Exception {
        vector: 14,
        name: "PF (Page Fault)"
    }));
    assert!(lines.contains(&DumpLine::ErrorCode(3)));
    assert!(!lines.iter().any(|l| matches!(l, DumpLine::Gdtr { .. })));
    ctx.state_mut().vmcs.idt_vectoring_info = Some(0);
    assert!(dump_triple_fault_state(&ctx).contains(&DumpLine::NoIdtVectoring));
}

#[test]
fn registers_are_found_by_encoding() {
    let mut gprs = GeneralPurposeRegisters::new();
    for register in 0..16u8 {
        set_gpr_value(&mut gprs, register, u64::from(register) + 1);
    }
    for register in 0..16u8 {
        assert_eq!(get_gpr_value(&gprs, register), u64::from(register) + 1);
    }
    assert_eq!(gprs.rsp, 5);
    assert_eq!(get_gpr_value(&gprs, 16), 0);
}

#[test]
fn clearing_is_told_of_before_the_access() {
    let fault = VmcsError::UnsupportedField;
    assert_eq!(registers_guarded(Ok(()), Ok::<u8, u8>(1), Ok(())), Ok(1));
    assert_eq!(
        registers_guarded(Ok(()), Err::<u8, u8>(2), Ok(())),
        Err(RegistersError::Access(2))
    );
    assert_eq!(
        registers_guarded(Ok(()), Err::<u8, u8>(2), Err(fault)),
        Err(RegistersError::VmcsGuard(fault))
    );
    assert_eq!(
        registers_guarded(Err(fault), Ok::<u8, u8>(1), Ok(())),
        Err(RegistersError::VmcsGuard(fault))
    );
}

// ---- Fields that can be read but not written ----

#[test]
fn rip_that_cannot_be_written_is_an_error() {
    let mut ctx = root();
    ctx.state_mut().vmcs.write_faults.guest_rip = Some(VmcsError::ReadOnlyField);
    let stuck = ExitError::VmcsWriteError(VmcsError::ReadOnlyField);
    assert_eq!(advance_rip(ctx.state_mut()), Err(stuck));
    ctx.state_mut().gprs.rax = 0x4000_0000;
    assert_eq!(handle_cpuid(&mut ctx), ExitHandlerResult::Error(stuck));
    // A field that is not there at all fails on the read.
    ctx.state_mut().vmcs.guest_rip = None;
    assert_eq!(
        advance_rip(ctx.state_mut()),
        Err(ExitError::VmcsReadError(VmcsError::UnsupportedField))
    );

    // The access is made before RIP is found stuck.
    let load = EptViolationQualification {
        read: true,
        write: false,
        execute: false,
    };
    let fetch = InstructionFetch::Decoded {
        register: 3,
        length: 3,
    };
    let mut ctx = root();
    ctx.state_mut().vmcs.write_faults.guest_rip = Some(VmcsError::NoCurrentVmcs);
    assert_eq!(
        handle_apic_access(&mut ctx, APIC_BASE + 0x30, load, fetch),
        ExitHandlerResult::Error(ExitError::Fatal("Failed to advance RIP for APIC access"))
    );
    assert_eq!(ctx.state().gprs.rbx, 0x0005_0014);
    ctx.state_mut().devices.ioapic.ioregsel = 1;
    assert_eq!(
        handle_ioapic_access(&mut ctx, IOAPIC_BASE + 0x10, load, fetch),
        ExitHandlerResult::Error(ExitError::Fatal(
            "Failed to advance RIP for I/O APIC access"
        ))
    );
    assert_eq!(ctx.state().gprs.rbx, 0x0017_0020);
    assert_eq!(ctx.state().vmcs.guest_rip, Some(0x1000));
}

#[test]
fn event_that_cannot_be_set_up_is_an_error() {
    let refused = ExitError::VmcsWriteError(VmcsError::ReadOnlyField);
    let mut ctx = root();
    ctx.state_mut().vmcs.idt_vectoring_info = Some(0x8000_0B0E);
    ctx.state_mut().vmcs.idt_vectoring_error_code = Some(2);
    ctx.state_mut().vmcs.write_faults.vm_entry_exception_error_code =
        Some(VmcsError::ReadOnlyField);
    assert_eq!(reinject_vectored_event(&mut ctx), Err(refused));
    // The event itself was written before its error code was refused.
    assert_eq!(
        ctx.state().vmcs.vm_entry_interruption_info,
        Some(0x8000_0B0E)
    );
    let mut ctx = root();
    ctx.state_mut().vmcs.idt_vectoring_info = Some(0x8000_0B0E);
    ctx.state_mut().vmcs.write_faults.vm_entry_interruption_info = Some(VmcsError::ReadOnlyField);
    assert_eq!(inject_pending_interrupt(&mut ctx), Err(refused));
    assert_eq!(ctx.state().vmcs.vm_entry_interruption_info, Some(0));
}

#[test]
fn window_that_cannot_be_switched_is_an_error() {
    let refused = Err(ExitError::VmcsWriteError(VmcsError::ReadOnlyField));
    let mut ctx = root();
    ctx.state_mut()
        .vmcs
        .write_faults
        .primary_proc_based_vm_exec_controls = Some(VmcsError::ReadOnlyField);
    assert_eq!(enable_interrupt_window_exiting(&mut ctx), refused);
    // Off already: nothing to write.
    assert_eq!(disable_interrupt_window_exiting(&mut ctx), Ok(()));
    ctx.state_mut().vmcs.primary_proc_based_vm_exec_controls = Some(0x4);
    assert_eq!(enable_interrupt_window_exiting(&mut ctx), Ok(()));
    assert_eq!(disable_interrupt_window_exiting(&mut ctx), refused);
}

// ---- Sampling re-arm ----

#[test]
fn rearm_is_lazy_and_recurs() {
    let mut ctx = root();
    ctx.state_mut().emulated_tsc = 1_000;
    // Off.
    assert!(!check_wp_rearm(&mut ctx));
    assert_eq!(ctx.state().devices.apic.wp_rearm_deadline, 0);
    ctx.state_mut()
        .devices
        .apic
        .configure_watchpoints(50, 1, 0, 0, 300);
    // The first pass arms the deadline and asks for nothing.
    assert!(!check_wp_rearm(&mut ctx));
    assert_eq!(ctx.state().devices.apic.wp_rearm_deadline, 1_300);
    ctx.state_mut().emulated_tsc = 1_299;
    assert!(!check_wp_rearm(&mut ctx));
    assert_eq!(ctx.state().devices.apic.wp_rearm_deadline, 1_300);
    // A late pass is due, and the next deadline counts from it.
    ctx.state_mut().emulated_tsc = 1_350;
    assert!(check_wp_rearm(&mut ctx));
    assert_eq!(ctx.state().devices.apic.wp_rearm_deadline, 1_650);
    assert!(!check_wp_rearm(&mut ctx));
}

#[test]
fn due_sample_protects_what_was_let_through() {
    let parent = root();
    let mut free = pool(0x80_0000, 4);
    let mut fork =
        ForkedVm::new_with_incremented_parent(&parent, Some(vmcs()), &mut free, 1).unwrap();
    let page = GuestPhysAddr::new(0x1000);
    fork.state_mut()
        .devices
        .apic
        .configure_watchpoints(50, 1, 0, 0, 300);
    fork.watchpoint_class
        .insert(
            page,
            WpClass {
                first_tid: 7,
                arm_epoch: 0,
                fault_count: 1,
                confirmed: true,
            },
        )
        .unwrap();
    let hpa = fork.state().ept.lookup(page).unwrap().hpa;
    fork.state_mut()
        .ept
        .remap_4k(page, hpa, EptPermissions::ReadWriteExecute)
        .unwrap();
    fork.state_mut().emulated_tsc = 10;
    assert!(!fork.sample_watchpoints());
    assert_eq!(
        fork.state().ept.lookup(page).unwrap().perms,
        EptPermissions::ReadWriteExecute
    );
    fork.state_mut().emulated_tsc = 310;
    assert!(fork.sample_watchpoints());
    assert_eq!(
        fork.state().ept.lookup(page).unwrap().perms,
        EptPermissions::ReadExecute
    );
    assert_eq!(fork.state().exit_stats.wp_rearms, 1);
    assert!(fork.state().requests.flush_ept);
    assert_eq!(fork.state().devices.apic.wp_rearm_deadline, 610);
}

// ---- Clock ----

#[test]
fn clock_depends_on_the_current_time_alone() {
    // The last second of 9999, reached in two ways and with a stopped TSC.
    let last = 253_402_300_799;
    for index in [0x00, 0x02, 0x04, 0x06, 0x07, 0x08, 0x09, 0x32] {
        let ran = RtcState {
            index,
            base_time: last - 5,
        }
        .read_register_with_tsc(5 * FREQ + 1, FREQ);
        let set = RtcState {
            index,
            base_time: last,
        };
        assert_eq!(ran, set.read_register_with_tsc(0, FREQ));
        assert_eq!(ran, set.read_register_with_tsc(99, 0));
        assert!(ran >> 4 <= 9 && ran & 0xF <= 9);
    }
    let century = RtcState {
        index: 0x32,
        base_time: last,
    };
    assert_eq!(century.read_register_with_tsc(0, FREQ), 0x99);
    let hours = RtcState {
        index: 0x04,
        base_time: last,
    };
    assert_eq!(hours.read_register_with_tsc(0, FREQ), 0x23);
}

#[test]
fn clock_tells_the_date() {
    // 2024-02-29 13:45:59 UTC, a Thursday.
    let mut rtc = RtcState {
        index: 0,
        base_time: 0,
    };
    rtc.set_time(1_709_214_359);
    let read = |index: u8, tsc: u64| RtcState { index, ..rtc }.read_register_with_tsc(tsc, FREQ);
    assert_eq!(read(0x00, 0), 0x59);
    assert_eq!(read(0x02, 0), 0x45);
    assert_eq!(read(0x04, 0), 0x13);
    assert_eq!(read(0x07, 0), 0x29);
    assert_eq!(read(0x08, 0), 0x02);
    assert_eq!(read(0x09, 0), 0x24);
    // One emulated second later.
    assert_eq!(read(0x00, FREQ), 0x00);
    assert_eq!(read(0x02, FREQ), 0x46);
    assert_eq!(RtcState::to_bcd(59), 0x59);
    assert!(RtcState::is_leap_year(2000));
    assert!(!RtcState::is_leap_year(1900));
    assert_eq!(RtcState::days_to_date(0).0, 1970);
}

// ---- Memory ----

#[test]
fn root_memory_is_read_and_written() {
    let mut vm = root();
    assert!(!vm.is_forked());
    let mut buf = [0u8; 4];
    assert_eq!(
        vm.read_guest_memory(GuestPhysAddr::new(0x1ffe), &mut buf),
        Ok(())
    );
    assert_eq!(buf, [1, 1, 2, 2]);
    assert_eq!(
        vm.write_guest_memory(GuestPhysAddr::new(0x1fff), &[9, 8]),
        Ok(())
    );
    assert_eq!(
        vm.read_guest_memory(GuestPhysAddr::new(0x1ffe), &mut buf),
        Ok(())
    );
    assert_eq!(buf, [1, 9, 8, 2]);
    let end = GuestPhysAddr::new(PAGES as u64 * 4096 - 2);
    assert_eq!(
        vm.read_guest_memory(end, &mut buf),
        Err(MemoryError::OutOfRange)
    );
    assert_eq!(
        vm.write_guest_memory(end, &[0; 4]),
        Err(MemoryError::OutOfRange)
    );
}

#[test]
fn fork_reads_its_parent_until_it_writes() {
    let parent = root();
    let mut free = pool(0x80_0000, 4);
    let mut fork =
        ForkedVm::new_with_incremented_parent(&parent, Some(vmcs()), &mut free, 0xfff).unwrap();
    assert!(fork.is_forked());
    assert_eq!(fork.state().vmcs.host_rip, Some(0xfff));
    let gpa = GuestPhysAddr::new(0x2010);
    assert_eq!(
        fork.state().ept.lookup(gpa).unwrap().perms,
        EptPermissions::ReadExecute
    );
    let mut buf = [0u8; 1];
    assert_eq!(fork.read_guest_memory(gpa, &mut buf), Ok(()));
    assert_eq!(buf, [2]);
    // Not copied yet: the hypervisor must not write through to the parent.
    assert!(fork.write_guest_memory(gpa, &[7]).is_err());

    assert_eq!(
        fork.handle_cow_fault(gpa, &mut free),
        Some(ExitHandlerResult::Continue)
    );
    assert_eq!(fork.cow_pages().len(), 1);
    let entry = fork.state().ept.lookup(gpa).unwrap();
    assert_eq!(entry.perms, EptPermissions::ReadWriteExecute);
    assert!(fork.state().requests.flush_ept);
    assert_eq!(fork.write_guest_memory(gpa, &[7]), Ok(()));
    assert_eq!(fork.read_guest_memory(gpa, &mut buf), Ok(()));
    assert_eq!(buf, [7]);
    // The parent keeps its own.
    assert_eq!(parent.read_guest_memory(gpa, &mut buf), Ok(()));
    assert_eq!(buf, [2]);
}

#[test]
fn nested_fork_sees_its_parents_copy() {
    let parent = root();
    let mut free = pool(0x80_0000, 8);
    let mut child =
        ForkedVm::new_with_incremented_parent(&parent, Some(vmcs()), &mut free, 1).unwrap();
    let gpa = GuestPhysAddr::new(0x3000);
    child.handle_cow_fault(gpa, &mut free);
    child.write_guest_memory(gpa, b"child").unwrap();
    let grandchild =
        ForkedVm::new_with_incremented_parent(&child, Some(vmcs()), &mut free, 1).unwrap();
    let mut buf = [0u8; 6];
    grandchild.read_guest_memory(gpa, &mut buf).unwrap();
    assert_eq!(&buf, b"child\x03");
    assert_eq!(ParentVm::Forked(&grandchild).memory_size(), PAGES * 4096);
    assert!(ParentVm::Forked(&grandchild)
        .read_page(GuestPhysAddr::new(PAGES as u64 * 4096))
        .is_none());
}

#[test]
fn forks_are_counted() {
    let mut parent = root();
    assert!(parent.can_run());
    parent.add_child();
    assert!(!parent.can_run());
    assert_eq!(parent.children_count(), 1);
    parent.remove_child();
    assert!(parent.can_run());
    let mut free = pool(0x80_0000, 1);
    assert!(ForkedVm::new(&mut parent, Some(vmcs()), &mut free, 1).is_ok());
    assert_eq!(parent.children_count(), 1);
}

#[test]
fn fork_tells_what_it_lacks() {
    let parent = root();
    let mut free = pool(0x80_0000, 0);
    assert!(matches!(
        ForkedVm::new_with_incremented_parent(&parent, Some(vmcs()), &mut free, 1),
        Err(ForkedVmError::EptClone(AllocError))
    ));
    let mut free = pool(0x80_0000, 2);
    assert!(matches!(
        ForkedVm::new_with_incremented_parent(&parent, None, &mut free, 1),
        Err(ForkedVmError::VmcsAlloc)
    ));
    let lacking = Vmcs {
        host_rip: None,
        ..vmcs()
    };
    assert!(matches!(
        ForkedVm::new_with_incremented_parent(&parent, Some(lacking), &mut free, 1),
        Err(ForkedVmError::VmState(VmStateError::Vmcs(
            VmcsError::UnsupportedField
        )))
    ));
    let mut stuck = vmcs();
    stuck.write_faults.host_rip = Some(VmcsError::ReadOnlyField);
    let mut free = pool(0x90_0000, 1);
    assert!(matches!(
        ForkedVm::new_with_incremented_parent(&parent, Some(stuck), &mut free, 1),
        Err(ForkedVmError::VmState(VmStateError::Vmcs(
            VmcsError::ReadOnlyField
        )))
    ));
}

#[test]
fn exhausted_pool_refuses_the_fault() {
    let parent = root();
    let mut free = pool(0x80_0000, 1);
    let mut fork =
        ForkedVm::new_with_incremented_parent(&parent, Some(vmcs()), &mut free, 1).unwrap();
    assert_eq!(
        fork.handle_cow_fault(GuestPhysAddr::new(0x1000), &mut free),
        None
    );
    // Root VMs do not copy at all.
    let mut vm = root();
    assert_eq!(
        vm.handle_cow_fault(GuestPhysAddr::new(0x1000), &mut free),
        None
    );
}

#[test]
fn second_thread_confirms_a_watched_page() {
    let parent = root();
    let mut free = pool(0x80_0000, 4);
    let mut fork =
        ForkedVm::new_with_incremented_parent(&parent, Some(vmcs()), &mut free, 1).unwrap();
    fork.state_mut()
        .devices
        .apic
        .configure_watchpoints(100, 1, 2, 0, 1000);
    fork.state_mut().vmcs.guest_cs_selector = Some(0x33);
    fork.state_mut().vmcs.guest_fs_base = Some(0x111);
    let gpa = GuestPhysAddr::new(0x4000);
    // The first write copies the page and leaves it watched.
    assert_eq!(
        fork.handle_cow_fault(gpa, &mut free),
        Some(ExitHandlerResult::Continue)
    );
    assert_eq!(fork.state().exit_stats.wp_armed, 1);
    // A second thread's write shows it to be shared.
    fork.state_mut().vmcs.guest_fs_base = Some(0x222);
    assert_eq!(
        fork.handle_cow_fault(gpa, &mut free),
        Some(ExitHandlerResult::Continue)
    );
    assert_eq!(fork.state().exit_stats.wp_confirmed, 1);
    assert_eq!(fork.state().exit_stats.wp_faults, 1);
    assert_eq!(fork.cow_pages().len(), 1);
}

#[test]
fn exit_record_gets_its_hash_when_finalized() {
    let record = ExitRecord {
        tsc: 5,
        exit_qualification: 0,
        exit_reason: 10,
        flags: 0,
        gprs: [0; 16],
        rip: 0,
        rflags: 0,
        apic_hash: 0,
        serial_hash: 0,
        ioapic_hash: 0,
        rtc_hash: 0,
        mtrr_hash: 0,
        rdrand_hash: 0,
        memory_hash: 99,
        cow_page_count: 99,
        pad: 0,
        reserved: [0; 35],
    };
    let parent = root();
    let mut free = pool(0x80_0000, 4);
    let mut fork =
        ForkedVm::new_with_incremented_parent(&parent, Some(vmcs()), &mut free, 1).unwrap();
    fork.handle_cow_fault(GuestPhysAddr::new(0x1000), &mut free);
    fork.state_mut().exit_records.push(record);
    fork.finalize_exit_record();
    assert_eq!(fork.state().exit_records[0].memory_hash, 99);
    fork.state_mut().exit_trigger = ExitTrigger::AllExits;
    fork.state_mut().pending_exit_loc = Some(0);
    fork.finalize_exit_record();
    assert_eq!(fork.state().exit_records[0].memory_hash, 0);
    assert_eq!(fork.state().exit_records[0].cow_page_count, 1);
    assert_eq!(fork.state().exit_records[0].tsc, 5);
    assert_eq!(fork.state().pending_exit_loc, None);

    // A host that digests the fork's own pages: each page's address and bytes.
    assert_eq!(fork.exit_memory_stream(), None);
    fork.state_mut().pending_exit_loc = Some(0);
    let stream = fork.exit_memory_stream().unwrap();
    assert_eq!(stream.len(), 8 + 4096);
    assert_eq!(stream[..8], 0x1000u64.to_le_bytes());
    assert!(stream[8..].iter().all(|&b| b == 1));
    fork.finalize_exit_record_with(0xabcd);
    assert_eq!(fork.state().exit_records[0].memory_hash, 0xabcd);
    assert_eq!(fork.state().exit_records[0].cow_page_count, 1);
    // No digest is taken where memory is not hashed.
    fork.state_mut().pending_exit_loc = Some(0);
    fork.state_mut().skip_memory_hash = true;
    assert_eq!(fork.exit_memory_stream(), None);
    fork.finalize_exit_record_with(0xabcd);
    assert_eq!(fork.state().exit_records[0].memory_hash, 0);

    // A root digests all of its memory.
    let mut ctx = root();
    ctx.state_mut().exit_records.push(record);
    ctx.state_mut().exit_trigger = ExitTrigger::AllExits;
    assert!(ctx.exit_memory_stream().is_none());
    ctx.state_mut().pending_exit_loc = Some(0);
    assert_eq!(ctx.exit_memory_stream().unwrap().len(), PAGES * 4096);
    ctx.finalize_exit_record_with(7);
    assert_eq!(ctx.state().exit_records[0].memory_hash, 7);
    assert_eq!(ctx.state().exit_records[0].cow_page_count, 0);
}

#[test]
fn ept_remaps_only_what_is_mapped() {
    let mut ept = EptPageTable::new();
    let gpa = GuestPhysAddr::new(0x5123);
    let rwx = EptPermissions::ReadWriteExecute;
    assert_eq!(
        ept.remap_4k(gpa, HostPhysAddr::new(1), rwx),
        Err(EptError::NotMapped)
    );
    ept.map_4k(gpa, HostPhysAddr::new(0x7000), rwx);
    assert_eq!(
        ept.lookup(GuestPhysAddr::new(0x5fff)).unwrap().hpa,
        HostPhysAddr::new(0x7000)
    );
    let copy = ept.clone_for_fork();
    assert_eq!(copy.lookup(gpa).unwrap().perms, EptPermissions::ReadExecute);
    assert_eq!(ept.lookup(gpa).unwrap().perms, rwx);
}

#[test]
fn page_maps_go_by_page() {
    let mut pages: CowPageMap<u8> = CowPageMap::new();
    assert!(pages.is_empty());
    assert!(pages.insert(GuestPhysAddr::new(0x3008), 3).is_ok());
    assert!(pages.insert(GuestPhysAddr::new(0x1008), 1).is_ok());
    // A page that is there is replaced and counted once.
    assert!(pages.insert(GuestPhysAddr::new(0x3000), 4).is_ok());
    assert_eq!(pages.get(GuestPhysAddr::new(0x3fff)), Some(&4));
    assert!(!pages.contains(GuestPhysAddr::new(0x2000)));
    if let Some(p) = pages.get_mut(GuestPhysAddr::new(0x1000)) {
        *p = 9;
    }
    let order: Vec<(u64, u8)> = pages.iter().iter().map(|(a, p)| (a.as_u64(), **p)).collect();
    assert_eq!(order, vec![(0x1000, 9), (0x3000, 4)]);
    assert_eq!(pages.len(), 2);

    // As many pages as there are different page addresses; the last insert wins.
    let mut pages: CowPageMap<u64> = CowPageMap::new();
    let inserts = [0x5000, 0x2fff, 0x5001, 0x2000, 0x9abc, 0x5fff];
    for (i, addr) in inserts.into_iter().enumerate() {
        assert!(pages.insert(GuestPhysAddr::new(addr), i as u64).is_ok());
    }
    assert_eq!(pages.len(), 3);
    assert_eq!(pages.iter().len(), 3);
    assert!(!pages.is_empty());
    assert_eq!(pages.get(GuestPhysAddr::new(0x5123)), Some(&5));
    assert_eq!(pages.get(GuestPhysAddr::new(0x2000)), Some(&3));
    assert_eq!(pages.get(GuestPhysAddr::new(0x9000)), Some(&4));
    assert!(pages.get_mut(GuestPhysAddr::new(0x4000)).is_none());

    let mut classes = WatchpointClassMap::new();
    let class = WpClass {
        first_tid: 7,
        arm_epoch: 1,
        fault_count: 0,
        confirmed: false,
    };
    assert!(classes.insert(GuestPhysAddr::new(0x2004), class).is_ok());
    assert_eq!(classes.get(GuestPhysAddr::new(0x2000)), Some(class));
    classes.get_mut(GuestPhysAddr::new(0x2010)).unwrap().confirmed = true;
    assert!(classes.get(GuestPhysAddr::new(0x2000)).unwrap().confirmed);
    classes.remove(GuestPhysAddr::new(0x2ffc));
    assert_eq!(classes.get(GuestPhysAddr::new(0x2000)), None);
}

// ---- Mapping ----

fn buffer(gpas: &[u64]) -> FeedbackBuffer {
    let mut all = [0u64; 256];
    all[..gpas.len()].copy_from_slice(gpas);
    FeedbackBuffer {
        gpas: all,
        num_pages: gpas.len(),
    }
}

fn request(offset: u64, size: u64) -> Vma {
    Vma {
        start: 0x7000_0000,
        end: 0x7000_0000 + size,
        pgoff: offset / 4096,
    }
}

#[test]
fn root_file_is_laid_out_behind_guest_memory() {
    const MIB: u64 = 1 << 20;
    let mut vm = root();
    vm.state_mut().feedback_buffers[1] = Some(buffer(&[0x2000, 0x5000]));
    let guest = PAGES as u64 * 4096;
    let map = |offset: u64, size: u64| bedrock_vm_mmap(&vm, true, request(offset, size));
    assert!(matches!(
        map(0x1000, 0x2000),
        Ok(Mapping::GuestMemory { pgoff: 1 })
    ));
    assert!(matches!(map(0x1000, guest), Err(MmapError::BeyondMemory)));
    assert!(matches!(map(guest, 4096), Ok(Mapping::SerialBuffer)));
    assert!(matches!(
        map(guest, 8192),
        Err(MmapError::Size { expected: 4096 })
    ));
    assert!(matches!(map(guest + 4096, MIB), Ok(Mapping::LogBuffer)));
    assert!(matches!(map(guest + 8192, 4096), Err(MmapError::Offset)));
    assert!(matches!(map(guest + 4096 + MIB, 4096), Ok(Mapping::SerialTsc)));
    let slots = guest + 4096 + MIB + 4096;
    assert!(matches!(
        map(slots, 8192),
        Err(MmapError::FeedbackNotRegistered(0))
    ));
    assert!(matches!(
        map(slots + MIB + 4096, 8192),
        Err(MmapError::FeedbackOffset)
    ));
    assert!(matches!(
        map(slots + 16 * MIB, 8192),
        Err(MmapError::FeedbackIndex)
    ));
    match map(slots + MIB, 8192) {
        Ok(Mapping::Feedback { index, pages }) => {
            assert_eq!(index, 1);
            assert_eq!(
                pages,
                vec![
                    PageSource::Memory(GuestPhysAddr::new(0x2000)),
                    PageSource::Memory(GuestPhysAddr::new(0x5000)),
                ]
            );
            assert_eq!(host_frames(&pages, &[0xa000, 0xb000]), Ok(vec![0xa000, 0xb000]));
            assert_eq!(
                host_frames(&pages, &[0xa000, 0]),
                Err(MmapError::Untranslated { gpa: 0x5000 })
            );
        }
        _ => panic!("the buffer is registered"),
    }
    assert!(matches!(
        bedrock_vm_mmap(&vm, false, request(guest + 4096, MIB)),
        Err(MmapError::NoLogBuffer)
    ));
    assert_eq!(MmapError::Offset.errno(), 22);
}

#[test]
fn fork_maps_its_own_copies() {
    const MIB: u64 = 1 << 20;
    let mut parent = root();
    parent.state_mut().feedback_buffers[0] = Some(buffer(&[0x2000, 0x3000]));
    parent.state_mut().feedback_buffers[2] = Some(buffer(&[0x1000, 0x10_0000]));
    let mut free = pool(0x80_0000, 4);
    let mut fork =
        ForkedVm::new_with_incremented_parent(&parent, Some(vmcs()), &mut free, 1).unwrap();
    fork.handle_cow_fault(GuestPhysAddr::new(0x3000), &mut free);
    let frame = fork
        .state()
        .ept
        .lookup(GuestPhysAddr::new(0x3000))
        .unwrap()
        .hpa;
    let slots = 4096 + MIB + 4096;
    match bedrock_forked_vm_mmap(&fork, false, request(slots, 8192)) {
        Ok(Mapping::Feedback { index: 0, pages }) => {
            assert_eq!(
                pages,
                vec![
                    PageSource::Memory(GuestPhysAddr::new(0x2000)),
                    PageSource::Copy(frame),
                ]
            );
            assert_eq!(
                host_frames(&pages, &[0xa000, 0]),
                Ok(vec![0xa000, frame.as_u64()])
            );
        }
        _ => panic!("the buffer is registered"),
    }
    assert!(matches!(
        bedrock_forked_vm_mmap(&fork, false, request(slots + 2 * MIB, 8192)),
        Err(MmapError::Unresolved { gpa: 0x10_0000 })
    ));
    assert!(matches!(
        bedrock_forked_vm_mmap(&fork, false, request(0, 4096)),
        Ok(Mapping::SerialBuffer)
    ));
    // Made writable before it is mapped, a buffer is the fork's own altogether.
    fork.pre_cow_feedback_buffer_at(0, &mut free);
    match bedrock_forked_vm_mmap(&fork, false, request(slots, 8192)) {
        Ok(Mapping::Feedback { pages, .. }) => {
            assert!(pages.iter().all(|p| matches!(p, PageSource::Copy(_))));
        }
        _ => panic!("the buffer is registered"),
    }
}

#[test]
fn guest_rip_wraps_at_the_top() {
    let mut ctx = root();
    ctx.state_mut().vmcs.guest_rip = Some(u64::MAX);
    assert_eq!(advance_rip(ctx.state_mut()), Ok(()));
    assert_eq!(
        ctx.state().vmcs.read_natural(VmcsFieldNatural::GuestRip),
        Ok(1)
    );
}
