//! Data-breakpoint slots.

use bedrock::vmx::dr_hw::{
    program_guest_drs, read_guest_dr6, register_writes, restore_host_drs, DebugRegister,
    DebugRegisters, RegisterWrite,
};
use bedrock::vmx::dr_watch::{normalize_len, ArmResult, DbOutcome, DebugWatch};

#[test]
fn arms_into_free_slots_then_evicts() {
    let mut w = DebugWatch::new();
    assert!(!w.any_armed());
    assert_eq!(w.arm(0x1000, 4, 1, 0), ArmResult::Armed { slot: 0 });
    assert_eq!(w.arm(0x2000, 4, 1, 0), ArmResult::Armed { slot: 1 });
    assert_eq!(w.arm(0x3000, 4, 1, 0), ArmResult::Armed { slot: 2 });
    assert_eq!(w.arm(0x4000, 4, 1, 0), ArmResult::Armed { slot: 3 });
    assert!(w.any_armed());
    // Fifth arm evicts (round-robin starts at slot 0).
    assert_eq!(w.arm(0x5000, 4, 1, 1), ArmResult::Evicted { slot: 0 });
    assert_eq!(w.evictions, 1);
    assert_eq!(w.slot(0).unwrap().gva, 0x5000);
}

#[test]
fn dedups_same_address() {
    let mut w = DebugWatch::new();
    assert_eq!(w.arm(0x1000, 4, 7, 0), ArmResult::Armed { slot: 0 });
    // Re-arming the same gva keeps the original owner.
    assert_eq!(
        w.arm(0x1000, 4, 9, 5),
        ArmResult::AlreadyWatched { slot: 0 }
    );
    assert_eq!(w.slot(0).unwrap().owner_tid, 7);
}

#[test]
fn different_thread_write_is_a_conflict() {
    let mut w = DebugWatch::new();
    w.arm(0x1000, 4, /*owner*/ 111, 0);
    // Owner re-touches: not a race.
    assert_eq!(
        w.on_db(0b0001, /*tid*/ 111, 3, true),
        DbOutcome::OwnerReaccess { slot: 0 }
    );
    // Slot still armed after an owner re-access.
    assert!(w.any_armed());
    // A different thread touches it: race.
    assert_eq!(
        w.on_db(0b0001, /*tid*/ 222, 3, true),
        DbOutcome::Conflict {
            slot: 0,
            gva: 0x1000,
            owner_tid: 111,
            tid: 222
        }
    );
    // One-shot: slot disarmed after the conflict.
    assert!(!w.any_armed());
}

#[test]
fn kernel_fault_is_never_a_race() {
    let mut w = DebugWatch::new();
    w.arm(0x1000, 4, 111, 0);
    // Different tid but CPL 0: FS_BASE is not a thread id, so not a race.
    assert_eq!(
        w.on_db(0b0001, 222, /*cpl*/ 0, true),
        DbOutcome::OwnerReaccess { slot: 0 }
    );
    assert!(w.any_armed());
}

#[test]
fn db_for_unowned_slot_is_not_ours() {
    let mut w = DebugWatch::new();
    // Nothing armed: any DR6 is not ours.
    assert_eq!(w.on_db(0b0010, 5, 3, true), DbOutcome::NotOurs);
    // Slot 0 armed, but DR6 reports slot 1 fired: not ours.
    w.arm(0x1000, 4, 111, 0);
    assert_eq!(w.on_db(0b0010, 5, 3, true), DbOutcome::NotOurs);
}

#[test]
fn non_oneshot_keeps_slot_after_conflict() {
    let mut w = DebugWatch::new();
    w.arm(0x1000, 4, 111, 0);
    assert!(matches!(
        w.on_db(0b0001, 222, 3, false),
        DbOutcome::Conflict { .. }
    ));
    // Persistent mode: slot stays armed to catch further conflicts.
    assert!(w.any_armed());
}

#[test]
fn dr7_encodes_enable_rw_and_len() {
    let mut w = DebugWatch::new();
    // No slots: only the reserved bit 10.
    assert_eq!(w.dr7(), 1 << 10);
    w.arm(0x1000, 4, 1, 0); // slot 0, 4-byte
    let dr7 = w.dr7();
    assert_eq!(dr7 & 1, 1); // L0 set
    assert_eq!((dr7 >> 16) & 0b11, 0b11); // R/W0 = read/write
    assert_eq!((dr7 >> 18) & 0b11, 0b11); // LEN0 = 4 bytes
    assert_eq!(dr7 & (1 << 10), 1 << 10); // reserved bit
}

#[test]
fn len_is_clamped_to_alignment() {
    // 4-byte watch on a 2-aligned (not 4-aligned) address narrows to 2.
    assert_eq!(normalize_len(4, 0x1002), 2);
    // 8-byte watch on an odd address narrows to 1.
    assert_eq!(normalize_len(8, 0x1001), 1);
    // Aligned stays.
    assert_eq!(normalize_len(4, 0x1000), 4);
    // Illegal length defaults to 4 (then alignment-clamped).
    assert_eq!(normalize_len(3, 0x1000), 4);
}

#[test]
fn eviction_goes_round_robin() {
    let mut w = DebugWatch::new();
    for i in 0..4u64 {
        w.arm(0x1000 * (i + 1), 1, i, 0);
    }
    for i in 0..5usize {
        assert_eq!(
            w.arm(0x10_0000 + 8 * i as u64, 8, 9, 1),
            ArmResult::Evicted { slot: i % 4 }
        );
    }
    assert_eq!(w.evictions, 5);
    assert_eq!(w.slot(0).unwrap().gva, 0x10_0020);
}

#[test]
fn dr7_tells_every_length() {
    // LEN encodings: 1 -> 0b00, 2 -> 0b01, 8 -> 0b10, 4 -> 0b11.
    let mut w = DebugWatch::new();
    w.arm(0x1000, 1, 1, 0);
    w.arm(0x2000, 2, 1, 0);
    w.arm(0x3000, 4, 1, 0);
    w.arm(0x4000, 8, 1, 0);
    let dr7 = w.dr7();
    assert_eq!(dr7 & 0xff, 0b0101_0101);
    assert_eq!((dr7 >> 18) & 0b11, 0b00);
    assert_eq!((dr7 >> 22) & 0b11, 0b01);
    assert_eq!((dr7 >> 26) & 0b11, 0b11);
    assert_eq!((dr7 >> 30) & 0b11, 0b10);
}

#[test]
fn disarm_and_clear_empty_the_slots() {
    let mut w = DebugWatch::new();
    assert!(!w.clear());
    w.arm(0x1000, 4, 1, 0);
    w.arm(0x2000, 4, 1, 0);
    w.disarm(0);
    assert!(w.slot(0).is_none());
    assert!(w.slot(4).is_none());
    assert!(w.any_armed());
    assert!(w.clear());
    assert!(!w.any_armed());
    assert_eq!(w.dr7(), 1 << 10);
}

/// The registers of a host.
fn host_registers() -> DebugRegisters {
    DebugRegisters {
        dr0: 10,
        dr1: 11,
        dr2: 12,
        dr3: 13,
        dr6: 16,
        dr7: 17,
    }
}

#[test]
fn stale_hits_are_cleared_before_the_guest_runs() {
    let mut regs = host_registers();
    regs.dr6 = 0b1111;
    program_guest_drs(&mut regs, &[0x1000, 0x2000, 0x3000, 0x4000]);
    let mut w = DebugWatch::new();
    w.arm(0x1000, 4, 1, 0);
    assert_eq!(read_guest_dr6(&regs), 0);
    assert_eq!(
        w.on_db(read_guest_dr6(&regs), 2, 3, true),
        DbOutcome::NotOurs
    );
    regs.dr6 = 1;
    assert!(matches!(
        w.on_db(read_guest_dr6(&regs), 2, 3, true),
        DbOutcome::Conflict { .. }
    ));
}

#[test]
fn host_debug_registers_survive_the_guest() {
    let host = host_registers();
    let mut regs = host;
    // A slot without an address leaves its register alone.
    let saved = program_guest_drs(&mut regs, &[1, 2, 0, 4]);
    assert_eq!(
        regs,
        DebugRegisters {
            dr0: 1,
            dr1: 2,
            dr2: 12,
            dr3: 4,
            dr6: 0,
            dr7: 17
        }
    );
    regs.dr6 = 0xf;
    regs.dr7 = 0;
    restore_host_drs(&mut regs, &saved);
    assert_eq!(regs, host);
}

#[test]
fn breakpoints_are_enabled_last() {
    let host = host_registers();
    let mut regs = host;
    let saved = program_guest_drs(&mut regs, &[1, 2, 3, 4]);
    restore_host_drs(&mut regs, &saved);
    let writes = register_writes(&regs);
    let order: Vec<(DebugRegister, u64)> = writes.iter().map(|w| (w.register, w.value)).collect();
    assert_eq!(
        order,
        vec![
            (DebugRegister::Dr0, 10),
            (DebugRegister::Dr1, 11),
            (DebugRegister::Dr2, 12),
            (DebugRegister::Dr3, 13),
            (DebugRegister::Dr6, 16),
            (DebugRegister::Dr7, 17),
        ]
    );
    assert_eq!(
        writes.last(),
        Some(&RegisterWrite {
            register: DebugRegister::Dr7,
            value: 17
        })
    );
}

#[test]
fn armed_address_is_watched_in_one_slot_after_any_use() {
    let mut w = DebugWatch::new();
    for i in 0..9u64 {
        w.arm(0x1000 + i * 3, 8, 1, i as u32);
        if i % 3 == 2 {
            w.disarm(1);
        }
        w.on_db(0b1000, 2, 3, true);
        if i == 6 {
            w.clear();
        }
    }
    let named = match w.arm(0x2002, 8, 1, 9) {
        ArmResult::Armed { slot } => slot,
        ArmResult::Evicted { slot } => slot,
        ArmResult::AlreadyWatched { slot } => slot,
    };
    for i in 0..4 {
        let watches = w.slot(i).is_some_and(|s| s.gva == 0x2002);
        assert_eq!(watches, i == named);
        if let Some(s) = w.slot(i) {
            assert!([1, 2, 4, 8].contains(&s.len));
            assert_eq!(s.gva % u64::from(s.len), 0);
            for j in 0..i {
                assert!(w.slot(j).map_or(true, |t| t.gva != s.gva));
            }
        }
    }
    // 0x2002 is aligned to two bytes and to no more.
    assert_eq!(w.slot(named).unwrap().len, 2);
    assert_eq!(w.evict_cursor as u64, w.evictions % 4);
}
