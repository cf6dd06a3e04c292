//! Configuration of the event stream, and the boot tables.

use bedrock::boot::mptable::{mp_checksum, setup_mptable, BASE_ADDR, MP_TABLES_SIZE};
use bedrock::vm::config::{
    EventConfig, SingleStepConfig, EXIT_FLAG_IGNORE_LATE_INJECT, EXIT_FLAG_IGNORE_PEBS_MARGIN,
    EXIT_FLAG_INTERCEPT_PF, EXIT_FLAG_NO_MEMORY_HASH,
};
use bedrock::vmx::compat::{
    heap_box, heap_vec_push, heap_vec_remove_front, heap_vec_with_capacity,
};
use bedrock::vmx::events::EventCategories;
use bedrock::vmx::state::ExitTrigger;

#[test]
fn disabled_takes_every_default() {
    let config = EventConfig::disabled();
    assert_eq!(config, EventConfig::default());
    assert_eq!(config.enabled, 0);
    // No breakpoint is armed, and one that is would be disarmed on its first
    // conflict.
    assert!(!config.watchpoint_dr);
    assert!(config.watchpoint_dr_oneshot);
    assert!(EventConfig::enabled(EventCategories::empty()).watchpoint_dr_oneshot);
    assert_eq!(config.categories(), EventCategories::empty());
    assert_eq!(SingleStepConfig::default().enabled, 0);
}

#[test]
fn builders_touch_their_own_fields() {
    let mask = EventCategories(EventCategories::SERIAL | EventCategories::EXIT);
    let config = EventConfig::enabled(mask)
        .with_exit_trigger(ExitTrigger::Checkpoints, 500)
        .with_exit_start_tsc(7)
        .with_no_memory_hash()
        .with_intercept_pf()
        .with_ignore_pebs_margin()
        .with_ignore_late_inject()
        .with_preempt(1000, 42)
        .with_watchpoints(25, 9, 3, 4, 5)
        .with_watchpoint_dr(8, true, 0x1000, 0x2000);
    assert_eq!(config.enabled, 1);
    assert_eq!(config.categories(), mask);
    assert_eq!(config.exit_target_tsc, 500);
    assert_eq!(config.exit_start_tsc, 7);
    assert_eq!(
        config.exit_flags,
        EXIT_FLAG_NO_MEMORY_HASH
            | EXIT_FLAG_INTERCEPT_PF
            | EXIT_FLAG_IGNORE_PEBS_MARGIN
            | EXIT_FLAG_IGNORE_LATE_INJECT
    );
    assert_eq!(config.exit_flags, 0b1111);
    assert_eq!((config.preempt_period, config.preempt_seed), (1000, 42));
    assert_eq!(config.watchpoint_pct, 25);
    assert_eq!(config.watchpoint_seed, 9);
    assert_eq!(config.watchpoint_cull_epochs, 3);
    assert_eq!(config.watchpoint_cull_cap, 4);
    assert_eq!(config.watchpoint_rearm, 5);
    assert!(config.watchpoint_dr);
    assert_eq!(config.watchpoint_dr_len, 8);
    assert!(config.watchpoint_dr_oneshot);
    assert_eq!(config.watchpoint_dr_rip_lo, 0x1000);
    assert_eq!(config.watchpoint_dr_rip_hi, 0x2000);
}

#[test]
fn checksum_closes_to_zero() {
    assert_eq!(mp_checksum(&[]), 0);
    assert_eq!(mp_checksum(&[1, 2, 3]), 250);
    assert_eq!(mp_checksum(&[200, 100]), 212);
}

#[test]
fn mp_tables_are_sealed_and_alone() {
    let mut memory = vec![0xAAu8; BASE_ADDR + MP_TABLES_SIZE + 16];
    setup_mptable(&mut memory);
    let tables = &memory[BASE_ADDR..BASE_ADDR + MP_TABLES_SIZE];
    assert_eq!(&tables[..4], b"_MP_");
    assert_eq!(&tables[16..20], b"PCMP");
    let sum = |bytes: &[u8]| bytes.iter().fold(0u8, |a, b| a.wrapping_add(*b));
    assert_eq!(sum(&tables[..16]), 0);
    assert_eq!(sum(&tables[16..]), 0);
    assert!(memory[..BASE_ADDR].iter().all(|b| *b == 0xAA));
    assert!(memory[BASE_ADDR + MP_TABLES_SIZE..].iter().all(|b| *b == 0xAA));
}

#[test]
fn heap_queue_is_first_in_first_out() {
    let mut queue = heap_vec_with_capacity::<u8>(2).unwrap();
    assert_eq!(heap_vec_remove_front(&mut queue), None);
    assert_eq!(heap_vec_push(&mut queue, 1), Ok(()));
    assert_eq!(heap_vec_push(&mut queue, 2), Ok(()));
    assert_eq!(heap_vec_remove_front(&mut queue), Some(1));
    assert_eq!(heap_vec_remove_front(&mut queue), Some(2));
    assert_eq!(*heap_box(7u8), 7);
}
