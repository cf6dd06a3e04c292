//! Hardware data-breakpoint race detector (DataCollider-style).
//!
//! The EPT write-watchpoint mechanism fires on every write to a shared page,
//! but a write to a shared page is not a race: a race is a *second* thread
//! touching the *same exact location* with no ordering between the accesses.
//! Hardware debug registers can tell: a data breakpoint on the exact byte/word
//! fires a precise `#DB` only when some access matches, and arming one is a
//! register write with no INVEPT.
//!
//! This module is the pure-logic core: it owns the 4 hardware slots, decides
//! which candidate to watch, computes the `DR7` value the run loop programs, and
//! classifies a `#DB` (read from `DR6`) as a real cross-thread conflict or the
//! owner re-touching its own location. It never touches hardware.

use vstd::prelude::*;

verus! {

/// Number of hardware data breakpoints (DR0-DR3). Fixed by the architecture.
pub const NUM_SLOTS: usize = 4;

/// One armed hardware data breakpoint.
#[derive(Clone, Copy, Debug, PartialEq, Eq, Structural)]
pub struct DrSlot {
    /// Guest linear address being watched (the exact faulting address captured
    /// from the EPT violation, not a page).
    pub gva: u64,
    /// Watch length in bytes: 1, 2, 4, or 8. Must match `gva` alignment.
    pub len: u8,
    /// Thread (guest FS_BASE) that armed this slot. A `#DB` from a *different*
    /// tid is the race signal; the same tid is just the owner re-touching it.
    pub owner_tid: u64,
    /// Watchpoint epoch (observed userspace thread switches) at arm time.
    pub arm_epoch: u32,
}

impl DrSlot {
    /// The length is one the hardware knows and the address is aligned to it.
    pub open spec fn legal(&self) -> bool {
        &&& self.len == 1 || self.len == 2 || self.len == 4 || self.len == 8
        &&& self.gva as int % self.len as int == 0
    }
}

/// Result of arming a candidate.
#[derive(Clone, Copy, Debug, PartialEq, Eq, Structural)]
pub enum ArmResult {
    /// Newly armed in the given slot.
    Armed { slot: usize },
    /// Armed in `slot`, evicting the breakpoint that was there.
    Evicted { slot: usize },
    /// `gva` was already watched; nothing changed.
    AlreadyWatched { slot: usize },
}

/// Classification of a `#DB` VM exit.
#[derive(Clone, Copy, Debug, PartialEq, Eq, Structural)]
pub enum DbOutcome {
    /// A different thread touched a watched location: a race is realized.
    Conflict {
        slot: usize,
        /// The watched guest linear address (the racing location).
        gva: u64,
        owner_tid: u64,
        tid: u64,
    },
    /// The owner thread re-touched its own watched location: not a race.
    OwnerReaccess { slot: usize },
    /// The `#DB` did not come from any of our slots (guest's own breakpoint, or
    /// a stale/spurious `DR6`); the caller should reflect it to the guest.
    NotOurs,
}

/// The length that `len` asks for: a legal one as it is, any other as 4.
pub open spec fn requested_len(len: u8) -> u8 {
    if len == 1 || len == 2 || len == 4 || len == 8 {
        len
    } else {
        4
    }
}

/// The largest legal length, at most the requested one, that `gva` is aligned to.
pub open spec fn watch_len(len: u8, gva: u64) -> u8 {
    let want = requested_len(len);
    if want >= 8 && gva % 8 == 0 {
        8
    } else if want >= 4 && gva % 4 == 0 {
        4
    } else if want >= 2 && gva % 2 == 0 {
        2
    } else {
        1
    }
}

/// Whether slot `i` watches `gva`.
pub open spec fn watches(slots: Seq<Option<DrSlot>>, i: int, gva: u64) -> bool {
    slots[i] is Some && slots[i]->0.gva == gva
}

/// The lowest slot that watches `gva`, or `NUM_SLOTS` when none does.
pub open spec fn watcher(slots: Seq<Option<DrSlot>>, gva: u64) -> int {
    if watches(slots, 0, gva) {
        0
    } else if watches(slots, 1, gva) {
        1
    } else if watches(slots, 2, gva) {
        2
    } else if watches(slots, 3, gva) {
        3
    } else {
        4
    }
}

/// The lowest free slot, or `NUM_SLOTS` when all are armed.
pub open spec fn free_slot(slots: Seq<Option<DrSlot>>) -> int {
    if slots[0] is None {
        0
    } else if slots[1] is None {
        1
    } else if slots[2] is None {
        2
    } else if slots[3] is None {
        3
    } else {
        4
    }
}

/// What arming `gva` comes to: the slot that already watches it, else the
/// lowest free slot, else the slot under the eviction cursor.
pub open spec fn arm_outcome(slots: Seq<Option<DrSlot>>, cursor: usize, gva: u64) -> ArmResult {
    if watcher(slots, gva) < 4 {
        ArmResult::AlreadyWatched { slot: watcher(slots, gva) as usize }
    } else if free_slot(slots) < 4 {
        ArmResult::Armed { slot: free_slot(slots) as usize }
    } else {
        ArmResult::Evicted { slot: cursor }
    }
}

/// Whether `DR6` reports breakpoint `i` (bit `Bi`) and slot `i` is armed.
pub open spec fn hit(slots: Seq<Option<DrSlot>>, dr6: u64, i: usize) -> bool {
    dr6 & (1u64 << i) != 0 && slots[i as int] is Some
}

/// The lowest armed slot that `DR6` reports, or `NUM_SLOTS` when there is none.
pub open spec fn lowest_hit(slots: Seq<Option<DrSlot>>, dr6: u64) -> usize {
    if hit(slots, dr6, 0) {
        0
    } else if hit(slots, dr6, 1) {
        1
    } else if hit(slots, dr6, 2) {
        2
    } else if hit(slots, dr6, 3) {
        3
    } else {
        4
    }
}

/// What a `#DB` with this `DR6`, from thread `tid` at privilege level `cpl`, means.
pub open spec fn db_outcome(slots: Seq<Option<DrSlot>>, dr6: u64, tid: u64, cpl: u8) -> DbOutcome {
    let i = lowest_hit(slots, dr6);
    if i == 4 {
        DbOutcome::NotOurs
    } else {
        let s = slots[i as int]->0;
        if cpl == 3 && tid != s.owner_tid {
            DbOutcome::Conflict { slot: i, gva: s.gva, owner_tid: s.owner_tid, tid }
        } else {
            DbOutcome::OwnerReaccess { slot: i }
        }
    }
}

/// The slots after that `#DB`: a one-shot conflict disarms its slot, nothing
/// else changes them.
pub open spec fn db_slots(
    slots: Seq<Option<DrSlot>>,
    dr6: u64,
    tid: u64,
    cpl: u8,
    oneshot: bool,
) -> Seq<Option<DrSlot>> {
    if oneshot && db_outcome(slots, dr6, tid, cpl) is Conflict {
        slots.update(lowest_hit(slots, dr6) as int, None)
    } else {
        slots
    }
}

/// The R/W (break on data read or write) and LEN bits of one slot in `DR7`.
pub open spec fn dr7_control(slot: Option<DrSlot>) -> u64 {
    match slot {
        None => 0,
        Some(s) => if s.len == 1 {
            0b0011
        } else if s.len == 2 {
            0b0111
        } else if s.len == 8 {
            0b1011
        } else {
            0b1111
        },
    }
}

/// The enable bit of one slot in `DR7`.
pub open spec fn dr7_enable(slot: Option<DrSlot>) -> u64 {
    if slot is Some {
        1
    } else {
        0
    }
}

/// The 4-slot data-breakpoint table. The oneshot policy is passed to `on_db` by
/// the caller (it lives in `ApicState` config, inherited by forked VMs), so this
/// table carries no configuration and starts empty in every VM.
#[derive(Clone, Copy)]
pub struct DebugWatch {
    pub slots: [Option<DrSlot>; 4],
    /// Round-robin cursor for eviction when all slots are full.
    pub evict_cursor: usize,
    /// Diagnostic: number of slots evicted while still armed.
    pub evictions: u64,
}

/// An operation on the table.
#[derive(Clone, Copy, Debug, PartialEq, Eq, Structural)]
pub enum WatchOp {
    Arm { gva: u64, len: u8, owner_tid: u64, arm_epoch: u32 },
    Disarm { slot: usize },
    Clear,
    OnDb { dr6: u64, tid: u64, cpl: u8, oneshot: bool },
}

/// The slot that arming left the address in.
pub open spec fn armed_slot(r: ArmResult) -> usize {
    match r {
        ArmResult::Armed { slot } => slot,
        ArmResult::Evicted { slot } => slot,
        ArmResult::AlreadyWatched { slot } => slot,
    }
}

impl DebugWatch {
    /// Every armed slot is legal, no address is watched twice, and the cursor is
    /// where the evictions so far have brought it.
    pub open spec fn wf(&self) -> bool {
        &&& self.evict_cursor == self.evictions % 4
        &&& forall|i: int| 0 <= i < 4 && self.slots@[i] is Some ==> (#[trigger] self.slots@[i])->0.legal()
        &&& forall|i: int, j: int|
            0 <= i < j < 4 && self.slots@[i] is Some && self.slots@[j] is Some ==> (
            #[trigger] self.slots@[i])->0.gva != (#[trigger] self.slots@[j])->0.gva
    }

    /// The table after `gva` was armed: unchanged where it is already watched,
    /// else with the new breakpoint in the slot that `arm_outcome` says.
    pub open spec fn armed(self, gva: u64, len: u8, owner_tid: u64, arm_epoch: u32) -> DebugWatch {
        let new = DrSlot { gva, len: watch_len(len, gva), owner_tid, arm_epoch };
        match arm_outcome(self.slots@, self.evict_cursor, gva) {
            ArmResult::AlreadyWatched { .. } => self,
            ArmResult::Armed { slot } => DebugWatch {
                slots: vstd::array::spec_array_update(self.slots, slot as int, Some(new)),
                ..self
            },
            ArmResult::Evicted { slot } => DebugWatch {
                slots: vstd::array::spec_array_update(self.slots, slot as int, Some(new)),
                evict_cursor: ((slot + 1) % 4) as usize,
                evictions: (self.evictions + 1) as u64,
            },
        }
    }

    /// The table after a `#DB`: a one-shot conflict disarms its slot.
    pub open spec fn after_db(self, dr6: u64, tid: u64, cpl: u8, oneshot: bool) -> DebugWatch {
        if oneshot && db_outcome(self.slots@, dr6, tid, cpl) is Conflict {
            DebugWatch {
                slots: vstd::array::spec_array_update(
                    self.slots,
                    lowest_hit(self.slots@, dr6) as int,
                    None,
                ),
                ..self
            }
        } else {
            self
        }
    }

    /// The table after a slot was disarmed; a number that names no slot changes
    /// nothing.
    pub open spec fn disarmed(self, slot: usize) -> DebugWatch {
        if slot < 4 {
            DebugWatch {
                slots: vstd::array::spec_array_update(self.slots, slot as int, None),
                ..self
            }
        } else {
            self
        }
    }

    /// The table after every slot was disarmed. The eviction cursor stays.
    pub open spec fn cleared(self) -> DebugWatch {
        DebugWatch { slots: [None, None, None, None], ..self }
    }

    /// The table that a VM starts with.
    pub open spec fn empty() -> DebugWatch {
        DebugWatch { slots: [None, None, None, None], evict_cursor: 0, evictions: 0 }
    }

    /// The table after one operation.
    pub open spec fn after(self, op: WatchOp) -> DebugWatch {
        match op {
            WatchOp::Arm { gva, len, owner_tid, arm_epoch } => self.armed(
                gva,
                len,
                owner_tid,
                arm_epoch,
            ),
            WatchOp::Disarm { slot } => self.disarmed(slot),
            WatchOp::Clear => self.cleared(),
            WatchOp::OnDb { dr6, tid, cpl, oneshot } => self.after_db(dr6, tid, cpl, oneshot),
        }
    }

    /// The table after operations, made in order.
    pub open spec fn after_all(self, ops: Seq<WatchOp>) -> DebugWatch
        decreases ops.len(),
    {
        if ops.len() == 0 {
            self
        } else {
            self.after_all(ops.drop_last()).after(ops.last())
        }
    }

    /// No slot is armed.
    pub open spec fn idle(&self) -> bool {
        forall|i: int| 0 <= i < 4 ==> #[trigger] self.slots@[i] is None
    }
}

impl Default for DebugWatch {
    fn default() -> (r: Self)
        ensures
            r == DebugWatch::empty(),
            r.wf(),
            r.idle(),
    {
        Self::new()
    }
}

impl DebugWatch {
    /// An empty table.
    pub fn new() -> (r: Self)
        ensures
            r == DebugWatch::empty(),
            r.wf(),
            r.idle(),
    {
        DebugWatch { slots: [None, None, None, None], evict_cursor: 0, evictions: 0 }
    }

    /// True when at least one slot is armed (the run loop only swaps hardware DR
    /// state when this holds, so the feature is zero-cost while idle).
    pub fn any_armed(&self) -> (r: bool)
        ensures
            r == !self.idle(),
    {
        let mut i: usize = 0;
        while i < NUM_SLOTS
            invariant
                i <= 4,
                forall|j: int| 0 <= j < i ==> #[trigger] self.slots@[j] is None,
            decreases 4 - i,
        {
            if self.slots[i].is_some() {
                assert(self.slots@[i as int] is Some);
                return true;
            }
            i += 1;
        }
        false
    }

    /// Read-only view of a slot for the run loop's `DR0-3` programming.
    pub fn slot(&self, i: usize) -> (r: Option<DrSlot>)
        ensures
            r == (if i < 4 {
                self.slots@[i as int]
            } else {
                None
            }),
    {
        if i < NUM_SLOTS {
            self.slots[i]
        } else {
            None
        }
    }

    /// Arm a data breakpoint on `gva` for `owner_tid`. If `gva` is already
    /// watched, returns that slot unchanged. Otherwise uses a free slot, or
    /// evicts the round-robin-selected slot when all four are occupied.
    pub fn arm(&mut self, gva: u64, len: u8, owner_tid: u64, arm_epoch: u32) -> (r: ArmResult)
        requires
            old(self).wf(),
            old(self).evictions < u64::MAX,
        ensures
            final(self).wf(),
            r == arm_outcome(old(self).slots@, old(self).evict_cursor, gva),
            *final(self) == old(self).armed(gva, len, owner_tid, arm_epoch),
    {
        let legal_len: u8 = normalize_len(len, gva);
        proof {
            lemma_watch_len_legal(len, gva);
        }
        // Already watching this exact address: keep the existing owner so a later
        // access by a different thread still reads as a conflict.
        let mut i: usize = 0;
        while i < NUM_SLOTS
            invariant
                i <= 4,
                *self == *old(self),
                self.wf(),
                forall|j: int| 0 <= j < i ==> !#[trigger] watches(self.slots@, j, gva),
            decreases 4 - i,
        {
            if let Some(slot) = self.slots[i] {
                if slot.gva == gva {
                    assert(watches(self.slots@, i as int, gva));
                    return ArmResult::AlreadyWatched { slot: i };
                }
            }
            i += 1;
        }
        let new = DrSlot { gva, len: legal_len, owner_tid, arm_epoch };
        // Prefer a free slot.
        let mut i: usize = 0;
        while i < NUM_SLOTS
            invariant
                i <= 4,
                *self == *old(self),
                self.wf(),
                new == (DrSlot { gva, len: watch_len(len, gva), owner_tid, arm_epoch }),
                new.legal(),
                forall|j: int| 0 <= j < 4 ==> !#[trigger] watches(self.slots@, j, gva),
                forall|j: int| 0 <= j < i ==> #[trigger] self.slots@[j] is Some,
            decreases 4 - i,
        {
            if self.slots[i].is_none() {
                self.slots[i] = Some(new);
                proof {
                    lemma_install_keeps_wf(*old(self), *self, i as int, new);
                }
                return ArmResult::Armed { slot: i };
            }
            i += 1;
        }
        // All full: evict via the round-robin cursor. (Round-robin over the 4
        // hot slots gives every recently-seen shared address a turn without
        // needing a full LRU scan; arm_epoch is retained for observability.)
        let victim: usize = self.evict_cursor % NUM_SLOTS;
        self.evict_cursor = (self.evict_cursor + 1) % NUM_SLOTS;
        self.slots[victim] = Some(new);
        self.evictions += 1;
        proof {
            lemma_install_keeps_wf(*old(self), *self, victim as int, new);
        }
        ArmResult::Evicted { slot: victim }
    }

    /// Disarm a slot (e.g. after a one-shot conflict, or when its page is culled).
    pub fn disarm(&mut self, slot: usize)
        ensures
            *final(self) == old(self).disarmed(slot),
            old(self).wf() ==> final(self).wf(),
    {
        if slot < NUM_SLOTS {
            self.slots[slot] = None;
        }
    }

    /// Disarm every slot (e.g. on reconfigure). Returns whether anything changed.
    pub fn clear(&mut self) -> (r: bool)
        ensures
            r == !old(self).idle(),
            final(self).idle(),
            *final(self) == old(self).cleared(),
            old(self).wf() ==> final(self).wf(),
    {
        let was = self.any_armed();
        self.slots = [None, None, None, None];
        was
    }

    /// Classify a `#DB` given the captured `DR6` and the faulting thread.
    ///
    /// `dr6` bits 0-3 (`B0-B3`) indicate which breakpoint(s) matched. We report
    /// the lowest-numbered matching slot. A CPL-0 fault is never a userspace race
    /// (FS_BASE at CPL 0 is not the thread id), so it is treated as the owner
    /// re-touching (no conflict) but still consumed as ours.
    ///
    /// `oneshot`: when true, a slot is disarmed the moment it reports a conflict
    /// (avoids re-fire storms on a hot shared word); when false the slot stays
    /// armed to catch further conflicts.
    pub fn on_db(&mut self, dr6: u64, tid: u64, cpl: u8, oneshot: bool) -> (r: DbOutcome)
        ensures
            r == db_outcome(old(self).slots@, dr6, tid, cpl),
            *final(self) == old(self).after_db(dr6, tid, cpl, oneshot),
            final(self).slots@ == db_slots(old(self).slots@, dr6, tid, cpl, oneshot),
            old(self).wf() ==> final(self).wf(),
    {
        let mut i: usize = 0;
        while i < NUM_SLOTS
            invariant
                i <= 4,
                *self == *old(self),
                forall|j: usize| j < i ==> !#[trigger] hit(self.slots@, dr6, j),
            decreases 4 - i,
        {
            if dr6 & (1u64 << i) != 0 {
                if let Some(slot) = self.slots[i] {
                    assert(hit(self.slots@, dr6, i));
                    assert(lowest_hit(self.slots@, dr6) == i) by {
                        lemma_lowest_hit(self.slots@, dr6, i);
                    }
                    if cpl == 3 && tid != slot.owner_tid {
                        if oneshot {
                            self.slots[i] = None;
                        }
                        return DbOutcome::Conflict {
                            slot: i,
                            gva: slot.gva,
                            owner_tid: slot.owner_tid,
                            tid,
                        };
                    }
                    return DbOutcome::OwnerReaccess { slot: i };
                }
                // A B-bit set for a slot we do not own: not ours to handle.
            }
            i += 1;
        }
        DbOutcome::NotOurs
    }

    /// Compute the `DR7` value that enables exactly the armed slots. Each slot
    /// gets its local-enable bit and a read/write, len encoding. Bit 10 (reserved,
    /// must be 1) is set as the architecture requires.
    pub fn dr7(&self) -> (r: u64)
        ensures
            forall|i: int|
                0 <= i < 4 ==> (r >> ((2 * i) as u64)) & 3 == dr7_enable(#[trigger] self.slots@[i]),
            forall|i: int|
                0 <= i < 4 ==> (r >> ((16 + 4 * i) as u64)) & 15 == dr7_control(
                    #[trigger] self.slots@[i],
                ),
            (r >> 8) & 0xFF == 0b100,
            r >> 32 == 0,
    {
        let e0: u64 = if self.slots[0].is_some() { 1 } else { 0 };
        let e1: u64 = if self.slots[1].is_some() { 1 } else { 0 };
        let e2: u64 = if self.slots[2].is_some() { 1 } else { 0 };
        let e3: u64 = if self.slots[3].is_some() { 1 } else { 0 };
        let c0: u64 = slot_control(self.slots[0]);
        let c1: u64 = slot_control(self.slots[1]);
        let c2: u64 = slot_control(self.slots[2]);
        let c3: u64 = slot_control(self.slots[3]);
        // Bit 10 is reserved and must be written as 1 (Intel SDM Vol 3B 17.2.4).
        // Local enable Ln = bit 2*n; R/W and LEN live at bits 16+4*n and 18+4*n.
        let dr7: u64 = (1u64 << 10) | e0 | (e1 << 2) | (e2 << 4) | (e3 << 6) | (c0 << 16) | (c1
            << 20) | (c2 << 24) | (c3 << 28);
        proof {
            lemma_dr7_fields(e0, e1, e2, e3, c0, c1, c2, c3, dr7);
        }
        dr7
    }
}

/// R/W = 0b11 => break on data read or write (catches either side of a
/// conflicting access). LEN per byte width.
fn slot_control(slot: Option<DrSlot>) -> (r: u64)
    ensures
        r == dr7_control(slot),
        r <= 15,
{
    match slot {
        None => 0,
        Some(s) => match s.len {
            1 => 0b0011,
            2 => 0b0111,
            8 => 0b1011,
            _ => 0b1111,  // 4 bytes
        },
    }
}

/// Clamp a watch length to a legal value (1/2/4/8) and to `gva` alignment. A
/// data breakpoint address must be aligned to its length, so an unaligned
/// candidate is narrowed to the largest length its address supports.
pub fn normalize_len(len: u8, gva: u64) -> (r: u8)
    ensures
        r == watch_len(len, gva),
{
    let mut l: u8 = match len {
        1 | 2 | 4 | 8 => len,
        _ => 4,
    };
    while l > 1 && gva % (l as u64) != 0
        invariant
            l == 1 || l == 2 || l == 4 || l == 8,
            l <= requested_len(len),
            requested_len(len) >= 8 && l < 8 ==> gva % 8 != 0,
            requested_len(len) >= 4 && l < 4 ==> gva % 4 != 0,
            requested_len(len) >= 2 && l < 2 ==> gva % 2 != 0,
        decreases l,
    {
        l /= 2;
    }
    l
}

proof fn lemma_watch_len_legal(len: u8, gva: u64)
    ensures
        watch_len(len, gva) == 1 || watch_len(len, gva) == 2 || watch_len(len, gva) == 4
            || watch_len(len, gva) == 8,
        gva as int % watch_len(len, gva) as int == 0,
{
}

proof fn lemma_install_keeps_wf(before: DebugWatch, after: DebugWatch, i: int, new: DrSlot)
    requires
        before.wf(),
        0 <= i < 4,
        after.slots@ == before.slots@.update(i, Some(new)),
        after.evict_cursor == after.evictions % 4,
        new.legal(),
        forall|j: int| 0 <= j < 4 ==> !#[trigger] watches(before.slots@, j, new.gva),
    ensures
        after.wf(),
{
    assert forall|j: int, k: int|
        0 <= j < k < 4 && after.slots@[j] is Some && after.slots@[k] is Some implies (
    #[trigger] after.slots@[j])->0.gva != (#[trigger] after.slots@[k])->0.gva by {
        assert(!watches(before.slots@, j, new.gva));
        assert(!watches(before.slots@, k, new.gva));
    }
}

proof fn lemma_lowest_hit(slots: Seq<Option<DrSlot>>, dr6: u64, i: usize)
    requires
        i < 4,
        hit(slots, dr6, i),
        forall|j: usize| j < i ==> !#[trigger] hit(slots, dr6, j),
    ensures
        lowest_hit(slots, dr6) == i,
{
}

proof fn lemma_dr7_fields(
    e0: u64,
    e1: u64,
    e2: u64,
    e3: u64,
    c0: u64,
    c1: u64,
    c2: u64,
    c3: u64,
    dr7: u64,
)
    by (bit_vector)
    requires
        e0 <= 1,
        e1 <= 1,
        e2 <= 1,
        e3 <= 1,
        c0 <= 15,
        c1 <= 15,
        c2 <= 15,
        c3 <= 15,
        dr7 == (1u64 << 10) | e0 | (e1 << 2) | (e2 << 4) | (e3 << 6) | (c0 << 16) | (c1 << 20) | (c2
            << 24) | (c3 << 28),
    ensures
        (dr7 >> 0u64) & 3 == e0,
        (dr7 >> 2u64) & 3 == e1,
        (dr7 >> 4u64) & 3 == e2,
        (dr7 >> 6u64) & 3 == e3,
        (dr7 >> 16u64) & 15 == c0,
        (dr7 >> 20u64) & 15 == c1,
        (dr7 >> 24u64) & 15 == c2,
        (dr7 >> 28u64) & 15 == c3,
        (dr7 >> 8) & 0xFF == 0b100,
        dr7 >> 32 == 0,
{
}

proof fn lemma_armed_keeps_wf(w: DebugWatch, gva: u64, len: u8, owner_tid: u64, arm_epoch: u32)
    requires
        w.wf(),
        w.evictions < u64::MAX,
    ensures
        w.armed(gva, len, owner_tid, arm_epoch).wf(),
        w.armed(gva, len, owner_tid, arm_epoch).evictions <= w.evictions + 1,
        watches(
            w.armed(gva, len, owner_tid, arm_epoch).slots@,
            armed_slot(arm_outcome(w.slots@, w.evict_cursor, gva)) as int,
            gva,
        ),
{
    let after = w.armed(gva, len, owner_tid, arm_epoch);
    let r = arm_outcome(w.slots@, w.evict_cursor, gva);
    if r !is AlreadyWatched {
        lemma_watch_len_legal(len, gva);
        let new = DrSlot { gva, len: watch_len(len, gva), owner_tid, arm_epoch };
        let i = armed_slot(r) as int;
        assert forall|j: int| 0 <= j < 4 implies !#[trigger] watches(w.slots@, j, gva) by {
            assert(j == 0 || j == 1 || j == 2 || j == 3);
        }
        assert(after.slots@ =~= w.slots@.update(i, Some(new)));
        lemma_install_keeps_wf(w, after, i, new);
    }
}

proof fn lemma_reached_wf(ops: Seq<WatchOp>)
    requires
        ops.len() <= u64::MAX,
    ensures
        DebugWatch::empty().after_all(ops).wf(),
        DebugWatch::empty().after_all(ops).evictions <= ops.len(),
    decreases ops.len(),
{
    if ops.len() > 0 {
        let before = DebugWatch::empty().after_all(ops.drop_last());
        lemma_reached_wf(ops.drop_last());
        if let WatchOp::Arm { gva, len, owner_tid, arm_epoch } = ops.last() {
            lemma_armed_keeps_wf(before, gva, len, owner_tid, arm_epoch);
        }
    }
}

/// However the table was used since the VM started, it takes an address to be
/// armed, and then watches exactly that address in exactly the slot that arming
/// named. No two slots watch one address, and every slot has a length that the
/// hardware knows and its address is aligned to. (The eviction counter bounds how
/// long a use can be.)
pub proof fn armed_address_is_watched_once(
    ops: Seq<WatchOp>,
    gva: u64,
    len: u8,
    owner_tid: u64,
    arm_epoch: u32,
)
    requires
        ops.len() < u64::MAX,
    ensures
        ({
            let before = DebugWatch::empty().after_all(ops);
            let slots = before.armed(gva, len, owner_tid, arm_epoch).slots@;
            let named = armed_slot(arm_outcome(before.slots@, before.evict_cursor, gva));
            &&& before.wf()
            &&& before.evictions < u64::MAX
            &&& named < 4
            &&& forall|i: int| 0 <= i < 4 ==> (#[trigger] watches(slots, i, gva) <==> i == named)
            &&& forall|i: int, j: int|
                0 <= i < j < 4 && slots[i] is Some && slots[j] is Some ==> (
                #[trigger] slots[i])->0.gva != (#[trigger] slots[j])->0.gva
            &&& forall|i: int|
                0 <= i < 4 && slots[i] is Some ==> {
                    let slot = (#[trigger] slots[i])->0;
                    &&& slot.len == 1 || slot.len == 2 || slot.len == 4 || slot.len == 8
                    &&& slot.gva as int % slot.len as int == 0
                }
        }),
{
    let before = DebugWatch::empty().after_all(ops);
    lemma_reached_wf(ops);
    lemma_armed_keeps_wf(before, gva, len, owner_tid, arm_epoch);
}

/// A fault outside ring 3 is never reported as a race, whichever breakpoints fired.
pub proof fn kernel_fault_is_never_a_conflict(
    slots: Seq<Option<DrSlot>>,
    dr6: u64,
    tid: u64,
    cpl: u8,
    oneshot: bool,
)
    requires
        slots.len() == 4,
        cpl != 3,
    ensures
        !(db_outcome(slots, dr6, tid, cpl) is Conflict),
        db_slots(slots, dr6, tid, cpl, oneshot) == slots,
{
}

/// Arming an address and then being hit on it: the owner's own access is not a
/// race, and any other thread's user-mode access is one, reported with the
/// watched address and both threads.
pub proof fn armed_slot_tells_owner_from_intruder(
    slots: Seq<Option<DrSlot>>,
    i: usize,
    slot: DrSlot,
    dr6: u64,
    tid: u64,
)
    requires
        slots.len() == 4,
        i < 4,
        slots[i as int] == Some(slot),
        lowest_hit(slots, dr6) == i,
    ensures
        tid == slot.owner_tid ==> db_outcome(slots, dr6, tid, 3) == (DbOutcome::OwnerReaccess {
            slot: i,
        }),
        tid != slot.owner_tid ==> db_outcome(slots, dr6, tid, 3) == (DbOutcome::Conflict {
            slot: i,
            gva: slot.gva,
            owner_tid: slot.owner_tid,
            tid,
        }),
{
}

/// A one-shot conflict cannot fire again: the same `#DB` is then classified as
/// if that slot had never been armed.
pub proof fn oneshot_conflict_disarms(slots: Seq<Option<DrSlot>>, dr6: u64, tid: u64)
    requires
        slots.len() == 4,
        db_outcome(slots, dr6, tid, 3) is Conflict,
    ensures
        db_slots(slots, dr6, tid, 3, true)[lowest_hit(slots, dr6) as int] is None,
        lowest_hit(db_slots(slots, dr6, tid, 3, true), dr6) > lowest_hit(slots, dr6),
{
    let after = db_slots(slots, dr6, tid, 3, true);
    assert forall|j: usize| j <= lowest_hit(slots, dr6) implies !#[trigger] hit(after, dr6, j) by {
        assert(j < lowest_hit(slots, dr6) ==> !hit(slots, dr6, j));
    }
}

/// The length of a breakpoint is the largest that the hardware knows, that is no
/// larger than asked for (4 where what is asked for is none the hardware knows), and
/// that the address is a multiple of.
pub proof fn watch_length_is_the_largest_that_fits(len: u8, gva: u64, other: u8)
    ensures
        ({
            let r = watch_len(len, gva);
            let asked = if len == 1 || len == 2 || len == 4 || len == 8 {
                len as int
            } else {
                4
            };
            &&& r == 1 || r == 2 || r == 4 || r == 8
            &&& r <= asked
            &&& gva as int % r as int == 0
            &&& (other == 1 || other == 2 || other == 4 || other == 8) && other <= asked && gva as int
                % other as int == 0 ==> other <= r
        }),
{
}

/// What arming an address that no slot watches changes. With a slot free, a free
/// slot takes it and no other changes; with none free, slots are given up in turn,
/// the `n`th eviction taking slot `n` modulo 4. The breakpoint is on that address,
/// for that thread.
pub proof fn arming_fills_free_slots_and_then_evicts_in_turn(
    w: DebugWatch,
    gva: u64,
    len: u8,
    owner_tid: u64,
    arm_epoch: u32,
    other: int,
)
    requires
        w.wf(),
        w.evictions < u64::MAX,
        forall|i: int|
            0 <= i < 4 && (#[trigger] w.slots@[i]) is Some ==> w.slots@[i]->0.gva != gva,
        0 <= other < 4,
    ensures
        ({
            let after = w.armed(gva, len, owner_tid, arm_epoch);
            let taken = armed_slot(arm_outcome(w.slots@, w.evict_cursor, gva));
            let free = w.slots@[0] is None || w.slots@[1] is None || w.slots@[2] is None
                || w.slots@[3] is None;
            &&& taken < 4
            &&& free ==> w.slots@[taken as int] is None && after.evictions == w.evictions
            &&& free ==> forall|i: int| 0 <= i < taken ==> (#[trigger] w.slots@[i]) is Some
            &&& !free ==> taken == w.evictions % 4 && after.evictions == w.evictions + 1
            &&& other != taken ==> after.slots@[other] == w.slots@[other]
            &&& after.slots@[taken as int] is Some
            &&& after.slots@[taken as int]->0.gva == gva
            &&& after.slots@[taken as int]->0.owner_tid == owner_tid
            &&& after.slots@[taken as int]->0.arm_epoch == arm_epoch
            &&& after.evict_cursor == after.evictions % 4
        }),
{
    lemma_armed_keeps_wf(w, gva, len, owner_tid, arm_epoch);
    assert forall|i: int| 0 <= i < 4 implies !#[trigger] watches(w.slots@, i, gva) by {
        assert(w.slots@[i] is Some ==> w.slots@[i]->0.gva != gva);
    }
    assert(!watches(w.slots@, 0, gva) && !watches(w.slots@, 1, gva) && !watches(w.slots@, 2, gva)
        && !watches(w.slots@, 3, gva));
}

/// An address that a slot watches is left to that slot and its owner.
pub proof fn watched_address_is_not_armed_again(
    w: DebugWatch,
    gva: u64,
    len: u8,
    owner_tid: u64,
    arm_epoch: u32,
    i: int,
)
    requires
        0 <= i < 4,
        w.slots@[i] is Some,
        w.slots@[i]->0.gva == gva,
    ensures
        w.armed(gva, len, owner_tid, arm_epoch) == w,
        arm_outcome(w.slots@, w.evict_cursor, gva) is AlreadyWatched,
{
    assert(watches(w.slots@, i, gva));
    assert(i == 0 || i == 1 || i == 2 || i == 3);
}

/// The control bits of an armed slot: break on reads and writes, and a length code
/// of 0, 1, 3 and 2 for 1, 2, 4 and 8 bytes. A slot that is not armed has none, and
/// is not enabled.
pub proof fn control_bits_are_the_processors(slot: DrSlot)
    requires
        slot.legal(),
    ensures
        dr7_control(Some(slot)) % 4 == 3,
        dr7_control(Some(slot)) / 4 == (if slot.len == 1 {
            0int
        } else if slot.len == 2 {
            1
        } else if slot.len == 4 {
            3
        } else {
            2
        }),
        dr7_enable(Some(slot)) == 1,
        dr7_control(None) == 0 && dr7_enable(None) == 0,
{
}

/// Disarming a slot frees it and no other, clearing frees them all, and neither
/// moves the cursor by which slots are given up.
pub proof fn disarmed_slots_are_free(w: DebugWatch, slot: usize, i: int)
    requires
        0 <= i < 4,
    ensures
        slot < 4 ==> w.disarmed(slot).slots@[slot as int] is None,
        i != slot ==> w.disarmed(slot).slots@[i] == w.slots@[i],
        w.disarmed(slot).evict_cursor == w.evict_cursor && w.disarmed(slot).evictions
            == w.evictions,
        w.cleared().slots@[i] is None,
        w.cleared().evict_cursor == w.evict_cursor && w.cleared().evictions == w.evictions,
        DebugWatch::empty().slots@[i] is None,
        DebugWatch::empty().evict_cursor == 0 && DebugWatch::empty().evictions == 0,
{
}

} // verus!
