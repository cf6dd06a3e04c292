//! What the kernel module decides: counter, descriptors, commands, descriptors.

use bedrock::host::fd::vm_fd_created;
use bedrock::host::instruction_counter::{
    architectural_pmc_mask, leaf_pmc_mask, pmc_mask, InstructionCounterError,
    LinuxInstructionCounter, MsrFault, IA32_A_PMC0, IA32_PMC0, PERFEVTSEL0_INST_RETIRED_ANY_P,
};
use bedrock::host::ioctl::{
    bedrock_forked_vm_ioctl, bedrock_vm_ioctl, handle_set_input, VmCommand, ENOTTY,
};
use bedrock::host::machine::{read_tr_base, tr_descriptor_address, tss_base};
use bedrock::vm::serial::{SerialInput, SERIAL_INPUT_MAX_SIZE};
use bedrock::vmx::handler::{BedrockHandler, VmxInitError};

#[test]
fn pmc_mask_covers_exact_width() {
    assert_eq!(pmc_mask(0), None);
    assert_eq!(pmc_mask(32), Some(0xffff_ffff));
    assert_eq!(pmc_mask(48), Some(0xffff_ffff_ffff));
    assert_eq!(pmc_mask(64), Some(u64::MAX));
    assert_eq!(pmc_mask(65), None);
}

#[test]
fn leaf_without_counters_has_no_mask() {
    // Version 5, 8 counters, 48 bits wide.
    assert_eq!(leaf_pmc_mask(0x0830_0805), Some(0xffff_ffff_ffff));
    // No version, no counters, no width.
    assert_eq!(leaf_pmc_mask(0x0030_0800), None);
    assert_eq!(leaf_pmc_mask(0x0030_0005), None);
    assert_eq!(leaf_pmc_mask(0x0000_0805), None);
    // Whatever this machine has, its mask is all ones from bit 0 on.
    if let Some(mask) = architectural_pmc_mask() {
        assert_eq!(mask & mask.wrapping_add(1), 0);
        assert_ne!(mask, 0);
    }
}

#[test]
fn counter_sums_deltas_once() {
    let mut c = LinuxInstructionCounter::with_mask(0xffff_ffff, Some((0x1000, 0x2000)));
    assert!(c.is_configured());
    assert_eq!(c.msr_exit_store_entry_phys(), Some(0x1000));
    assert_eq!(c.msr_entry_load_entry_phys(), Some(0x2000));
    assert_eq!(c.pages.unwrap().exit_store.entry.msr_index, IA32_PMC0);
    assert_eq!(c.pages.unwrap().entry_load.entry.msr_index, IA32_A_PMC0);

    let store = |c: &mut LinuxInstructionCounter, raw: u64| {
        let mut pages = c.pages.unwrap();
        pages.exit_store.entry.msr_data = raw;
        c.pages = Some(pages);
    };
    store(&mut c, 1_000);
    assert_eq!(c.read(), 1_000);
    // Reading again before the next exit gives the same total.
    assert_eq!(c.read(), 1_000);
    // Bits beyond the counter's width do not count.
    store(&mut c, 0xdead_0000_0000_0007);
    assert_eq!(c.read(), 1_007);
}

#[test]
fn counter_without_pages_counts_nothing() {
    let mut c = LinuxInstructionCounter::with_mask(0, Some((0x1000, 0x2000)));
    assert!(!c.is_configured());
    assert_eq!(c.read(), 0);
    assert_eq!(c.prepare(Ok(1), Ok(2)), Ok(None));
    assert_eq!(c.finish(), None);
    assert_eq!(c.msr_exit_store_entry_phys(), None);
    let c = LinuxInstructionCounter::with_mask(1, None);
    assert!(!c.is_configured());
}

#[test]
fn counter_is_as_wide_as_the_machine_says() {
    let pages = Some((0x1000, 0x2000));
    assert_eq!(
        LinuxInstructionCounter::new(pages),
        LinuxInstructionCounter::with_mask(architectural_pmc_mask().unwrap_or(0), pages)
    );
    assert_eq!(
        architectural_pmc_mask(),
        leaf_pmc_mask(core::arch::x86_64::__cpuid_count(0xA, 0).eax)
    );
    assert!(!LinuxInstructionCounter::new(None).is_configured());
}

#[test]
fn counter_is_programmed_and_restored() {
    let mut c = LinuxInstructionCounter::with_mask(u64::MAX, Some((0x1000, 0x2000)));
    assert_eq!(c.perf_global_ctrl_values(), None);
    assert_eq!(
        c.prepare(Ok(0b111), Ok(0x55)),
        Ok(Some(PERFEVTSEL0_INST_RETIRED_ANY_P))
    );
    assert_eq!(PERFEVTSEL0_INST_RETIRED_ANY_P, (1 << 16) | (1 << 17) | (1 << 22) | 0xC0);
    assert_eq!(c.programmed(Ok(())), Ok(()));
    assert_eq!(c.perf_global_ctrl_values(), Some((0b111, 0b110)));
    assert_eq!(c.finish(), Some(0x55));
    assert_eq!(
        c.restored(Err(MsrFault)),
        Err(InstructionCounterError::RestoreFailed)
    );
    assert_eq!(c.finish(), Some(0x55));
    assert_eq!(c.restored(Ok(())), Ok(()));
    assert_eq!(c.finish(), None);
}

#[test]
fn counter_reports_faults() {
    let mut c = LinuxInstructionCounter::with_mask(u64::MAX, Some((0x1000, 0x2000)));
    assert_eq!(
        c.prepare(Err(MsrFault), Ok(1)),
        Err(InstructionCounterError::Unavailable)
    );
    assert_eq!(
        c.prepare(Ok(1), Err(MsrFault)),
        Err(InstructionCounterError::Unavailable)
    );
    assert!(c.prepare(Ok(1), Ok(1)).is_ok());
    assert_eq!(
        c.programmed(Err(MsrFault)),
        Err(InstructionCounterError::ProgramFailed)
    );
    assert_eq!(c.finish(), None);
}

#[test]
fn tss_base_gathers_its_bytes() {
    let descriptor = [
        0x67, 0x20, 0x11, 0x22, 0x33, 0x8b, 0x00, 0x44, 0x55, 0x66, 0x77, 0x88, 0, 0, 0, 0,
    ];
    assert_eq!(tss_base(&descriptor), 0x8877_6655_4433_2211);
    assert_eq!(read_tr_base(0x40, &descriptor), 0x8877_6655_4433_2211);
    // Only privilege and table bits: nothing is selected.
    assert_eq!(read_tr_base(0x7, &descriptor), 0);
    assert_eq!(tr_descriptor_address(0x1000, 0x43), Some(0x1040));
    assert_eq!(tr_descriptor_address(0x1000, 0x3), None);
}

#[test]
fn files_know_their_commands() {
    assert_eq!(bedrock_vm_ioctl(Some(VmCommand::Run)), Ok(VmCommand::Run));
    assert_eq!(
        bedrock_forked_vm_ioctl(Some(VmCommand::Run)),
        Ok(VmCommand::Run)
    );
    assert_eq!(
        bedrock_vm_ioctl(Some(VmCommand::SetInput)),
        Ok(VmCommand::SetInput)
    );
    assert_eq!(
        bedrock_forked_vm_ioctl(Some(VmCommand::SetInput)),
        Err(ENOTTY)
    );
    for cmd in [VmCommand::QueueIoAction, VmCommand::DrainIoResponse] {
        assert_eq!(bedrock_vm_ioctl(Some(cmd)), Err(ENOTTY));
        assert_eq!(bedrock_forked_vm_ioctl(Some(cmd)), Ok(cmd));
    }
    assert_eq!(bedrock_vm_ioctl(None), Err(25));
    assert_eq!(bedrock_forked_vm_ioctl(None), Err(25));
}

#[test]
fn serial_input_is_bounded() {
    let mut buf = [0u8; SERIAL_INPUT_MAX_SIZE];
    buf[0] = b'l';
    buf[1] = b's';
    let input = |len: u32| SerialInput {
        len,
        _reserved: 0,
        buf,
    };
    assert_eq!(handle_set_input(&input(2)), Ok(b"ls".to_vec()));
    assert_eq!(handle_set_input(&input(0)), Ok(Vec::new()));
    assert_eq!(handle_set_input(&input(256)).unwrap().len(), 256);
    assert_eq!(handle_set_input(&input(257)), Err(22));
}

#[test]
fn handler_tracks_vms_by_id() {
    let mut handler: BedrockHandler<2> = BedrockHandler::new(Ok(())).ok().unwrap();
    let first = handler.alloc_vm_id().unwrap();
    handler.add_vm(0x1000, first);
    let second = handler.alloc_vm_id().unwrap();
    handler.add_vm(0x2000, second);
    assert_ne!(first, second);
    assert!(!handler.can_create_vm());
    assert_eq!(handler.alloc_vm_id(), None);
    assert_eq!(handler.find_vm_by_id(first).unwrap().as_ptr(), 0x1000);
    assert_eq!(handler.find_vm_by_id(second).unwrap().as_ptr(), 0x2000);
    handler.remove_vm(0x1000);
    assert!(handler.find_vm_by_id(first).is_none());
    assert_eq!(handler.find_vm_by_id(second).unwrap().as_ptr(), 0x2000);
    assert!(handler.can_create_vm());
    assert_eq!(handler.alloc_vm_id(), Some(3));
}

#[test]
fn handler_needs_vmx() {
    let failed: Result<BedrockHandler<2>, VmxInitError> =
        BedrockHandler::new(Err(VmxInitError::MemoryAllocationFailed));
    assert!(matches!(
        failed,
        Err(VmxInitError::MemoryAllocationFailed)
    ));
}

#[test]
fn failed_descriptor_unregisters_the_vm() {
    let mut handler: BedrockHandler<4> = BedrockHandler::new(Ok(())).ok().unwrap();
    handler.add_vm(0x1000, 1);
    assert_eq!(vm_fd_created(&mut handler, 0x1000, 7), Ok(7));
    handler.add_vm(0x2000, 2);
    assert_eq!(vm_fd_created(&mut handler, 0x2000, -24), Err(-24));
    assert!(handler.find_vm_by_id(1).is_some());
    assert!(handler.find_vm_by_id(2).is_none());
}
