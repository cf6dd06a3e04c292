//! Instruction counter over general-purpose performance counter 0.
//!
//! Counts retired guest instructions (`INST_RETIRED.ANY_P`, event 0xC0) on
//! general-purpose counter 0. Determinism is achieved by hooking the counter
//! into the VM-exit MSR-store list and the VM-entry MSR-load list, so:
//!
//! * Each VM entry atomically resets `IA32_PMC0` to zero.
//! * On VM exit, the CPU atomically saves that iteration's delta before any
//!   host code runs.
//! * The host adds each delta to a software `u64` total. Hardware never has
//!   to round-trip a large cumulative value.
//!
//! The counter decides which MSR accesses are due and what they mean; whoever
//! drives it performs them and hands back what they gave.

use vstd::prelude::*;

use crate::vmx::exits::cpuid::{cpuid, HostCpuid};

verus! {

/// Canonical read MSR for general-purpose counter 0.
pub const IA32_PMC0: u32 = 0xC1;

/// Full-width write alias used to reset general-purpose counter 0 on VM entry.
pub const IA32_A_PMC0: u32 = 0x4C1;

/// Performance event-select register for `IA32_PMC0`.
pub const IA32_PERFEVTSEL0: u32 = 0x186;

/// Global enable for performance counters.
pub const IA32_PERF_GLOBAL_CTRL: u32 = 0x38F;

/// `IA32_PERFEVTSEL0` programming for `INST_RETIRED.ANY_P`: event select
/// 0xC0, unit mask 0x00, USR (bit 16), OS (bit 17), EN (bit 22). Counts
/// every retired instruction.
pub const PERFEVTSEL0_INST_RETIRED_ANY_P: u64 = 0x43_00C0;

/// Bit 0 in `IA32_PERF_GLOBAL_CTRL` enables `IA32_PMC0`.
pub const PERF_GLOBAL_CTRL_PMC0: u64 = 1;

/// What can go wrong with the counter.
#[derive(Clone, Copy, PartialEq, Eq, Debug, Structural)]
pub enum InstructionCounterError {
    /// A counter MSR could not be read.
    Unavailable,
    /// The event select could not be programmed.
    ProgramFailed,
    /// The host's event select could not be put back.
    RestoreFailed,
}

/// An MSR access faulted.
#[derive(Clone, Copy, PartialEq, Eq, Debug, Structural)]
pub struct MsrFault;

/// Mask of a counter that is `width` bits wide, if a counter can be.
pub open spec fn width_mask(width: u32) -> Option<u64> {
    if 1 <= width <= 64 {
        Some((vstd::arithmetic::power2::pow2(width as nat) - 1) as u64)
    } else {
        None
    }
}

/// Mask of a counter that is `width` bits wide.
pub fn pmc_mask(width: u32) -> (r: Option<u64>)
    ensures
        r == width_mask(width),
        r matches Some(mask) ==> mask + 1 == vstd::arithmetic::power2::pow2(width as nat),
{
    proof {
        vstd::arithmetic::power2::lemma2_to64();
        vstd::arithmetic::power2::lemma2_to64_rest();
    }
    match width {
        1..=63 => {
            proof {
                vstd::bits::lemma_u64_pow2_no_overflow(width as nat);
                vstd::bits::lemma_u64_shl_is_mul(1, width as u64);
                vstd::arithmetic::power2::lemma_pow2_pos(width as nat);
            }
            Some((1u64 << (width as u64)) - 1)
        },
        64 => Some(u64::MAX),
        _ => None,
    }
}

/// Mask of the general-purpose counters that EAX of CPUID leaf 0xA tells of, if
/// there are any: bits 7:0 are the version, bits 15:8 the number of counters and
/// bits 23:16 their width.
pub open spec fn leaf_mask(eax: u32) -> Option<u64> {
    let version = eax & 0xff;
    let counter_count = (eax >> 8) & 0xff;
    if version == 0 || counter_count == 0 {
        None
    } else {
        width_mask((eax >> 16) & 0xff)
    }
}

/// Mask of the general-purpose counters that EAX of CPUID leaf 0xA tells of.
pub fn leaf_pmc_mask(eax: u32) -> (r: Option<u64>)
    ensures
        r == leaf_mask(eax),
{
    let version: u32 = eax & 0xff;
    let counter_count: u32 = (eax >> 8) & 0xff;
    let width: u32 = (eax >> 16) & 0xff;
    if version == 0 || counter_count == 0 {
        return None;
    }
    pmc_mask(width)
}

/// Mask of the general-purpose counters of the processor that answered. It must
/// have been asked for the leaf on performance monitoring.
pub fn host_pmc_mask(host: &HostCpuid) -> (r: Option<u64>)
    requires
        host.leaf() == 0xA,
        host.subleaf() == 0,
    ensures
        r == leaf_mask(host.regs().eax),
{
    leaf_pmc_mask(host.registers().eax)
}

/// Mask of this machine's general-purpose counters.
pub fn architectural_pmc_mask() -> (r: Option<u64>)
    ensures
        exists|host: HostCpuid|
            host.leaf() == 0xA && host.subleaf() == 0 && r == leaf_mask(
                (#[trigger] host.regs()).eax,
            ),
{
    let host = cpuid(0xA, 0);
    host_pmc_mask(&host)
}

/// An entry of a VM-exit store list or a VM-entry load list.
#[derive(Clone, Copy, PartialEq, Eq, Debug, Structural)]
pub struct MsrListEntry {
    pub msr_index: u32,
    pub reserved: u32,
    pub msr_data: u64,
}

/// The page that an entry stands at the start of.
#[derive(Clone, Copy, PartialEq, Eq, Debug, Structural)]
pub struct MsrListPage {
    /// Its physical address, for the control structure.
    pub phys: u64,
    pub entry: MsrListEntry,
}

/// The two pages that the CPU stores the counter to and resets it from.
#[derive(Clone, Copy, PartialEq, Eq, Debug, Structural)]
pub struct MsrPages {
    /// VM-exit store entry for `IA32_PMC0`.
    pub exit_store: MsrListPage,
    /// VM-entry load entry that resets `IA32_PMC0` through its write alias.
    pub entry_load: MsrListPage,
}

/// Instruction counter on general-purpose counter 0.
#[derive(Clone, Copy, PartialEq, Eq, Debug, Structural)]
pub struct LinuxInstructionCounter {
    /// The MSR-list pages; `None` where there is no counter.
    pub pages: Option<MsrPages>,
    /// Mask for the architectural counter width.
    pub counter_mask: u64,
    /// Cumulative guest instructions from consumed per-entry deltas.
    pub total: u64,
    /// The host's `IA32_PERFEVTSEL0`, to be put back.
    pub saved_perfevtsel0: u64,
    /// Value the CPU loads into `IA32_PERF_GLOBAL_CTRL` on VM entry.
    pub guest_perf_global_ctrl: u64,
    /// Value the CPU loads into `IA32_PERF_GLOBAL_CTRL` on VM exit.
    pub host_perf_global_ctrl: u64,
    /// Whether the counter is programmed.
    pub armed: bool,
}

/// Instructions counted once a delta is added; the total wraps around.
pub open spec fn counted(total: u64, delta: u64) -> u64 {
    if total + delta > u64::MAX {
        (total + delta - u64::MAX - 1) as u64
    } else {
        (total + delta) as u64
    }
}

impl LinuxInstructionCounter {
    /// What the last VM exit saved.
    pub open spec fn delta(self) -> u64 {
        match self.pages {
            Some(pages) => pages.exit_store.entry.msr_data & self.counter_mask,
            None => 0,
        }
    }

    /// The counter once the saved delta is consumed.
    pub open spec fn consumed(self) -> Self {
        match self.pages {
            Some(pages) => LinuxInstructionCounter {
                pages: Some(with_slots(pages, 0, 0)),
                total: counted(self.total, self.delta()),
                ..self
            },
            None => self,
        }
    }

    /// The counter once a VM exit saved `raw`.
    pub open spec fn exited(self, raw: u64) -> Self {
        match self.pages {
            Some(pages) => LinuxInstructionCounter {
                pages: Some(with_slots(pages, raw, pages.entry_load.entry.msr_data)),
                ..self
            },
            None => self,
        }
    }

    /// A counter of the given width mask that has not counted yet, over the two
    /// pages at `exit_store` and `entry_load`. Without a counter or without pages
    /// it counts nothing.
    pub open spec fn fresh(counter_mask: u64, pages: Option<(u64, u64)>) -> Self {
        LinuxInstructionCounter {
            pages: match pages {
                Some((exit_store, entry_load)) if counter_mask != 0 => Some(
                    MsrPages {
                        exit_store: MsrListPage {
                            phys: exit_store,
                            entry: MsrListEntry { msr_index: IA32_PMC0, reserved: 0, msr_data: 0 },
                        },
                        entry_load: MsrListPage {
                            phys: entry_load,
                            entry: MsrListEntry {
                                msr_index: IA32_A_PMC0,
                                reserved: 0,
                                msr_data: 0,
                            },
                        },
                    },
                ),
                _ => None,
            },
            counter_mask,
            total: 0,
            saved_perfevtsel0: 0,
            guest_perf_global_ctrl: 0,
            host_perf_global_ctrl: 0,
            armed: false,
        }
    }

    /// A counter on this machine, over the two pages at `exit_store` and
    /// `entry_load`: as wide as its general-purpose counters are.
    pub fn new(pages: Option<(u64, u64)>) -> (r: Self)
        ensures
            exists|host: HostCpuid|
                host.leaf() == 0xA && host.subleaf() == 0 && r == Self::fresh(
                    match leaf_mask((#[trigger] host.regs()).eax) {
                        Some(mask) => mask,
                        None => 0,
                    },
                    pages,
                ),
    {
        let host = cpuid(0xA, 0);
        Self::for_host(&host, pages)
    }

    /// A counter on the processor that answered, over the two pages. The
    /// processor must have been asked for the leaf on performance monitoring.
    pub fn for_host(host: &HostCpuid, pages: Option<(u64, u64)>) -> (r: Self)
        requires
            host.leaf() == 0xA,
            host.subleaf() == 0,
        ensures
            r == Self::fresh(
                match leaf_mask(host.regs().eax) {
                    Some(mask) => mask,
                    None => 0,
                },
                pages,
            ),
    {
        let counter_mask: u64 = match host_pmc_mask(host) {
            Some(mask) => mask,
            None => 0,
        };
        Self::with_mask(counter_mask, pages)
    }

    /// A counter of the given width mask, over the two pages.
    pub fn with_mask(counter_mask: u64, pages: Option<(u64, u64)>) -> (r: Self)
        ensures
            r == Self::fresh(counter_mask, pages),
    {
        let pages = match pages {
            Some((exit_store, entry_load)) if counter_mask != 0 => Some(
                MsrPages {
                    exit_store: MsrListPage {
                        phys: exit_store,
                        entry: MsrListEntry { msr_index: IA32_PMC0, reserved: 0, msr_data: 0 },
                    },
                    entry_load: MsrListPage {
                        phys: entry_load,
                        entry: MsrListEntry { msr_index: IA32_A_PMC0, reserved: 0, msr_data: 0 },
                    },
                },
            ),
            _ => None,
        };
        LinuxInstructionCounter {
            pages,
            counter_mask,
            total: 0,
            saved_perfevtsel0: 0,
            guest_perf_global_ctrl: 0,
            host_perf_global_ctrl: 0,
            armed: false,
        }
    }

    /// Add the delta of the last VM exit to the total, once: the slots are
    /// cleared, so further reads before the next VM entry give the same total.
    pub fn consume_delta(&mut self) -> (r: u64)
        ensures
            *final(self) == old(self).consumed(),
            r == final(self).total,
    {
        match self.pages {
            Some(pages) => {
                let delta: u64 = pages.exit_store.entry.msr_data & self.counter_mask;
                self.pages = Some(
                    MsrPages {
                        exit_store: MsrListPage {
                            entry: MsrListEntry { msr_data: 0, ..pages.exit_store.entry },
                            ..pages.exit_store
                        },
                        entry_load: MsrListPage {
                            entry: MsrListEntry { msr_data: 0, ..pages.entry_load.entry },
                            ..pages.entry_load
                        },
                    },
                );
                self.total = self.total.wrapping_add(delta);
                self.total
            },
            None => self.total,
        }
    }

    /// Instructions retired in the guest so far.
    pub fn read(&mut self) -> (r: u64)
        ensures
            *final(self) == old(self).consumed(),
            r == final(self).total,
    {
        self.consume_delta()
    }

    /// The counter after both registers were read, and what is to be programmed.
    pub open spec fn prepared(
        self,
        global_ctrl: Result<u64, MsrFault>,
        perfevtsel0: Result<u64, MsrFault>,
    ) -> (Self, Result<Option<u64>, InstructionCounterError>) {
        let gated = match global_ctrl {
            Ok(current) => LinuxInstructionCounter {
                host_perf_global_ctrl: current & !PERF_GLOBAL_CTRL_PMC0,
                guest_perf_global_ctrl: (current & !PERF_GLOBAL_CTRL_PMC0) | PERF_GLOBAL_CTRL_PMC0,
                ..self
            },
            Err(_) => self,
        };
        if self.pages is None {
            (self, Ok(None))
        } else if global_ctrl is Ok && perfevtsel0 is Ok {
            (
                LinuxInstructionCounter { saved_perfevtsel0: perfevtsel0->Ok_0, ..gated },
                Ok(Some(PERFEVTSEL0_INST_RETIRED_ANY_P)),
            )
        } else {
            (gated, Err(InstructionCounterError::Unavailable))
        }
    }

    /// Where the VM-exit store list and the VM-entry load list are.
    pub open spec fn lists(self) -> Option<(u64, u64)> {
        match self.pages {
            Some(pages) => Some((pages.exit_store.phys, pages.entry_load.phys)),
            None => None,
        }
    }

    /// The values of `IA32_PERF_GLOBAL_CTRL` for the guest and for the host.
    pub open spec fn gates(self) -> Option<(u64, u64)> {
        if self.armed {
            Some((self.guest_perf_global_ctrl, self.host_perf_global_ctrl))
        } else {
            None
        }
    }

    /// What the event select is to be put back to.
    pub open spec fn owed(self) -> Option<u64> {
        if self.armed {
            Some(self.saved_perfevtsel0)
        } else {
            None
        }
    }

    /// Take up what `IA32_PERF_GLOBAL_CTRL` and `IA32_PERFEVTSEL0` held before
    /// the guest runs, and say what the latter is to be programmed with, if the
    /// counter is there at all.
    ///
    /// The global-control values act as a first-line gate: bit 0 is cleared on
    /// the host so the counter is disabled outside of guest execution.
    pub fn prepare(
        &mut self,
        global_ctrl: Result<u64, MsrFault>,
        perfevtsel0: Result<u64, MsrFault>,
    ) -> (r: Result<Option<u64>, InstructionCounterError>)
        ensures
            ({
                let gated = match global_ctrl {
                    Ok(current) => LinuxInstructionCounter {
                        host_perf_global_ctrl: current & !PERF_GLOBAL_CTRL_PMC0,
                        guest_perf_global_ctrl: (current & !PERF_GLOBAL_CTRL_PMC0)
                            | PERF_GLOBAL_CTRL_PMC0,
                        ..*old(self)
                    },
                    Err(_) => *old(self),
                };
                if old(self).pages is None {
                    *final(self) == *old(self) && r == Ok::<
                        Option<u64>,
                        InstructionCounterError,
                    >(None)
                } else if global_ctrl is Ok && perfevtsel0 is Ok {
                    *final(self) == (LinuxInstructionCounter {
                        saved_perfevtsel0: perfevtsel0->Ok_0,
                        ..gated
                    }) && r == Ok::<Option<u64>, InstructionCounterError>(
                        Some(PERFEVTSEL0_INST_RETIRED_ANY_P),
                    )
                } else {
                    *final(self) == gated && r == Err::<Option<u64>, InstructionCounterError>(
                        InstructionCounterError::Unavailable,
                    )
                }
            }),
            *final(self) == old(self).prepared(global_ctrl, perfevtsel0).0,
            r == old(self).prepared(global_ctrl, perfevtsel0).1,
    {
        if self.pages.is_none() {
            return Ok(None);
        }
        match global_ctrl {
            Ok(current) => {
                self.host_perf_global_ctrl = current & !PERF_GLOBAL_CTRL_PMC0;
                self.guest_perf_global_ctrl = self.host_perf_global_ctrl | PERF_GLOBAL_CTRL_PMC0;
            },
            Err(_) => {
                return Err(InstructionCounterError::Unavailable);
            },
        }
        match perfevtsel0 {
            Ok(saved) => {
                self.saved_perfevtsel0 = saved;
                Ok(Some(PERFEVTSEL0_INST_RETIRED_ANY_P))
            },
            Err(_) => Err(InstructionCounterError::Unavailable),
        }
    }

    /// The event select was written, or the write faulted.
    pub fn programmed(&mut self, written: Result<(), MsrFault>) -> (r: Result<
        (),
        InstructionCounterError,
    >)
        ensures
            written is Ok ==> r is Ok && *final(self) == (LinuxInstructionCounter {
                armed: true,
                ..*old(self)
            }),
            written is Err ==> r == Err::<(), InstructionCounterError>(
                InstructionCounterError::ProgramFailed,
            ) && *final(self) == *old(self),
    {
        match written {
            Ok(()) => {
                self.armed = true;
                Ok(())
            },
            Err(_) => Err(InstructionCounterError::ProgramFailed),
        }
    }

    /// What `IA32_PERFEVTSEL0` is to be put back to, if it was programmed.
    /// `IA32_PERF_GLOBAL_CTRL` was loaded by hardware on the last VM exit.
    pub fn finish(&self) -> (r: Option<u64>)
        ensures
            r == (if self.armed {
                Some(self.saved_perfevtsel0)
            } else {
                None
            }),
            r == self.owed(),
    {
        if !self.armed {
            return None;
        }
        Some(self.saved_perfevtsel0)
    }

    /// The event select was put back, or the write faulted.
    pub fn restored(&mut self, written: Result<(), MsrFault>) -> (r: Result<
        (),
        InstructionCounterError,
    >)
        ensures
            written is Ok ==> r is Ok && *final(self) == (LinuxInstructionCounter {
                armed: false,
                ..*old(self)
            }),
            written is Err ==> r == Err::<(), InstructionCounterError>(
                InstructionCounterError::RestoreFailed,
            ) && *final(self) == *old(self),
    {
        match written {
            Ok(()) => {
                self.armed = false;
                Ok(())
            },
            Err(_) => Err(InstructionCounterError::RestoreFailed),
        }
    }

    /// Whether there is a counter.
    pub fn is_configured(&self) -> (r: bool)
        ensures
            r == (self.pages is Some),
    {
        self.pages.is_some()
    }

    /// The values of `IA32_PERF_GLOBAL_CTRL` for the guest and for the host,
    /// while the counter is programmed.
    pub fn perf_global_ctrl_values(&self) -> (r: Option<(u64, u64)>)
        ensures
            r == (if self.armed {
                Some((self.guest_perf_global_ctrl, self.host_perf_global_ctrl))
            } else {
                None
            }),
            r == self.gates(),
    {
        if self.armed {
            Some((self.guest_perf_global_ctrl, self.host_perf_global_ctrl))
        } else {
            None
        }
    }

    /// Physical address of the VM-exit store list.
    pub fn msr_exit_store_entry_phys(&self) -> (r: Option<u64>)
        ensures
            r == (match self.pages {
                Some(pages) => Some(pages.exit_store.phys),
                None => None,
            }),
            r is Some <==> self.lists() is Some,
            r is Some ==> r->0 == (self.lists()->0).0,
    {
        match &self.pages {
            Some(pages) => Some(pages.exit_store.phys),
            None => None,
        }
    }

    /// Physical address of the VM-entry load list.
    pub fn msr_entry_load_entry_phys(&self) -> (r: Option<u64>)
        ensures
            r == (match self.pages {
                Some(pages) => Some(pages.entry_load.phys),
                None => None,
            }),
            r is Some <==> self.lists() is Some,
            r is Some ==> r->0 == (self.lists()->0).1,
    {
        match &self.pages {
            Some(pages) => Some(pages.entry_load.phys),
            None => None,
        }
    }
}

/// The pages with the given values in their slots.
pub open spec fn with_slots(pages: MsrPages, stored: u64, loaded: u64) -> MsrPages {
    MsrPages {
        exit_store: MsrListPage {
            entry: MsrListEntry { msr_data: stored, ..pages.exit_store.entry },
            ..pages.exit_store
        },
        entry_load: MsrListPage {
            entry: MsrListEntry { msr_data: loaded, ..pages.entry_load.entry },
            ..pages.entry_load
        },
    }
}

/// The counter after VM exits that saved `raws`, each consumed before the next
/// VM entry.
pub open spec fn after_exits(counter: LinuxInstructionCounter, raws: Seq<u64>)
    -> LinuxInstructionCounter
    decreases raws.len(),
{
    if raws.len() == 0 {
        counter
    } else {
        after_exits(counter, raws.drop_last()).exited(raws.last()).consumed()
    }
}

/// Sum of the deltas in `raws`.
pub open spec fn delta_sum(raws: Seq<u64>, mask: u64) -> int
    decreases raws.len(),
{
    if raws.len() == 0 {
        0
    } else {
        delta_sum(raws.drop_last(), mask) + (raws.last() & mask)
    }
}

/// Reading again before the next VM entry gives the same count.
pub proof fn repeated_reads_agree(counter: LinuxInstructionCounter)
    ensures
        counter.consumed().consumed() == counter.consumed(),
{
    let mask = counter.counter_mask;
    assert(0u64 & mask == 0) by (bit_vector);
}

/// Every VM exit is counted exactly once: the total is the sum of the deltas
/// that the exits saved.
pub proof fn every_exit_is_counted_once(counter: LinuxInstructionCounter, raws: Seq<u64>)
    requires
        counter.pages is Some,
        counter.total + delta_sum(raws, counter.counter_mask) <= u64::MAX,
    ensures
        after_exits(counter, raws).total == counter.total + delta_sum(raws, counter.counter_mask),
        after_exits(counter, raws).pages is Some,
        after_exits(counter, raws).counter_mask == counter.counter_mask,
        delta_sum(raws, counter.counter_mask) >= 0,
    decreases raws.len(),
{
    if raws.len() > 0 {
        lemma_delta_sum(raws.drop_last(), counter.counter_mask);
        every_exit_is_counted_once(counter, raws.drop_last());
    }
}

proof fn lemma_delta_sum(raws: Seq<u64>, mask: u64)
    ensures
        delta_sum(raws, mask) >= 0,
    decreases raws.len(),
{
    if raws.len() > 0 {
        lemma_delta_sum(raws.drop_last(), mask);
    }
}

/// The guest runs with the counter enabled and the host with it disabled;
/// nothing else of the global control differs.
pub proof fn only_the_guest_counts(current: u64)
    ensures
        ({
            let host = current & !PERF_GLOBAL_CTRL_PMC0;
            let guest = host | PERF_GLOBAL_CTRL_PMC0;
            &&& host & PERF_GLOBAL_CTRL_PMC0 == 0
            &&& guest & PERF_GLOBAL_CTRL_PMC0 == PERF_GLOBAL_CTRL_PMC0
            &&& host & !PERF_GLOBAL_CTRL_PMC0 == current & !PERF_GLOBAL_CTRL_PMC0
            &&& guest & !PERF_GLOBAL_CTRL_PMC0 == current & !PERF_GLOBAL_CTRL_PMC0
        }),
{
    assert(({
        let host = current & !1u64;
        let guest = host | 1u64;
        &&& host & 1u64 == 0
        &&& guest & 1u64 == 1u64
        &&& host & !1u64 == current & !1u64
        &&& guest & !1u64 == current & !1u64
    })) by (bit_vector);
}

/// The performance monitoring leaf, field by field: with a version and at least one
/// counter, the mask has as many ones as the counters are wide; otherwise, or for a
/// width that no counter has, there is no mask.
pub proof fn leaf_tells_the_counter_width(version: u32, counters: u32, width: u32, rest: u32)
    requires
        version < 256,
        counters < 256,
        width < 256,
        rest < 256,
    ensures
        ({
            let eax = (version + 256 * counters + 65536 * width + 16777216 * rest) as u32;
            &&& leaf_mask(eax) is Some <==> version != 0 && counters != 0 && 1 <= width <= 64
            &&& leaf_mask(eax) is Some ==> leaf_mask(eax)->0 + 1
                == vstd::arithmetic::power2::pow2(width as nat)
        }),
{
    let eax = (version + 256 * counters + 65536 * width + 16777216 * rest) as u32;
    assert(eax & 0xff == version && (eax >> 8) & 0xff == counters && (eax >> 16) & 0xff == width)
        by (bit_vector)
        requires
            version < 256,
            counters < 256,
            width < 256,
            rest < 256,
            eax == version + 256 * counters + 65536 * width + 16777216 * rest,
    ;
    if 1 <= width <= 64 {
        vstd::arithmetic::power2::lemma_pow2_pos(width as nat);
        vstd::arithmetic::power2::lemma2_to64();
        vstd::arithmetic::power2::lemma2_to64_rest();
        if width < 64 {
            vstd::arithmetic::power2::lemma_pow2_strictly_increases(width as nat, 64);
        }
    }
}

/// The guest counts retired instructions from zero at each entry: what the processor
/// stores on exit is counter 0, what it loads on entry is the counter's full-width
/// alias with 0, and the event is instruction retirement at every privilege level,
/// enabled.
pub proof fn counter_is_stored_and_reset(mask: u64, exit_store: u64, entry_load: u64)
    requires
        mask != 0,
    ensures
        ({
            let c = LinuxInstructionCounter::fresh(mask, Some((exit_store, entry_load)));
            &&& c.pages is Some
            &&& c.pages->0.exit_store.phys == exit_store
            &&& c.pages->0.exit_store.entry.msr_index == 0xC1
            &&& c.pages->0.entry_load.phys == entry_load
            &&& c.pages->0.entry_load.entry.msr_index == 0x4C1
            &&& c.pages->0.entry_load.entry.msr_data == 0
            &&& c.total == 0 && !c.armed && c.counter_mask == mask
            &&& c.lists() == Some((exit_store, entry_load))
        }),
        PERFEVTSEL0_INST_RETIRED_ANY_P % 0x100 == 0xC0,
        (PERFEVTSEL0_INST_RETIRED_ANY_P / 0x100) % 0x100 == 0,
        PERFEVTSEL0_INST_RETIRED_ANY_P / 0x1_0000 == 1 + 2 + 64,
        IA32_PERFEVTSEL0 == 0x186 && IA32_PERF_GLOBAL_CTRL == 0x38F,
{
}

/// One exit adds what was saved, within the counter's width, to the total, and the
/// next entry starts from zero again.
pub proof fn exit_adds_its_delta(counter: LinuxInstructionCounter, raw: u64)
    requires
        counter.pages is Some,
        counter.total + (raw & counter.counter_mask) <= u64::MAX,
    ensures
        ({
            let after = counter.exited(raw).consumed();
            &&& after.total == counter.total + (raw & counter.counter_mask)
            &&& after.pages is Some
            &&& after.pages->0.exit_store.entry.msr_data == 0
            &&& after.pages->0.entry_load.entry.msr_data == 0
            &&& after.pages->0.exit_store.phys == counter.pages->0.exit_store.phys
            &&& after.armed == counter.armed
            &&& after.saved_perfevtsel0 == counter.saved_perfevtsel0
        }),
{
}

/// Preparing to run: the event select is programmed to count retired instructions,
/// the guest runs with bit 0 of the global control set and the host with it clear,
/// every other bit as it was, and what the host had in its event select is what it
/// gets back.
pub proof fn preparation_can_be_undone(
    counter: LinuxInstructionCounter,
    global_ctrl: u64,
    perfevtsel0: u64,
)
    requires
        counter.pages is Some,
    ensures
        ({
            let (after, r) = counter.prepared(
                Ok::<u64, MsrFault>(global_ctrl),
                Ok::<u64, MsrFault>(perfevtsel0),
            );
            let armed = LinuxInstructionCounter { armed: true, ..after };
            &&& r == Ok::<Option<u64>, InstructionCounterError>(Some(0x43_00C0u64))
            &&& armed.owed() == Some(perfevtsel0)
            &&& armed.gates() is Some && (armed.gates()->0).0 & 1 == 1 && (armed.gates()->0).1 & 1 == 0
            &&& !counter.armed ==> after.owed() is None && after.gates() is None
            &&& after.guest_perf_global_ctrl & 1 == 1
            &&& after.host_perf_global_ctrl & 1 == 0
            &&& after.guest_perf_global_ctrl & !1u64 == global_ctrl & !1u64
            &&& after.host_perf_global_ctrl & !1u64 == global_ctrl & !1u64
            &&& after.total == counter.total
        }),
        ({
            let none = LinuxInstructionCounter { pages: None, ..counter };
            none.prepared(Ok::<u64, MsrFault>(global_ctrl), Ok::<u64, MsrFault>(perfevtsel0)) == (
                none,
                Ok::<Option<u64>, InstructionCounterError>(None),
            )
        }),
{
    only_the_guest_counts(global_ctrl);
}

} // verus!
