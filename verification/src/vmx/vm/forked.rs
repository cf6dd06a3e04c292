//! ForkedVm - Copy-on-write VM derived from a parent.
//!
//! This module provides `ForkedVm`, which shares its parent's memory but
//! allocates new pages on write using copy-on-write semantics.

use vstd::prelude::*;
use vstd::slice::slice_to_vec;

use super::pages::{GuestPage, PagePool};
use super::parent::{ForkableVm, ParentVm};
use crate::vmx::compat::AllocError;
use crate::vmx::cow::{CowPageMap, WatchpointClassMap, WpClass};
use crate::vmx::devices::apic::ApicState;
use crate::vmx::dr_watch::{ArmResult, DebugWatch};
use crate::vmx::ept::{EptEntry, EptPageTable, EptPermissions};
use crate::vmx::exit_record::hash::Xxh64Hasher;
use crate::vmx::exits::helpers::ExitHandlerResult;
use crate::vmx::exits::interrupts::{check_wp_rearm, raise_preempt_vector};
use crate::vmx::memory::{GuestPhysAddr, HostPhysAddr, MemoryError, PAGE_SIZE};
use crate::vmx::state::{
    AllExitStats, CowStats, DeviceStates, HostRequests, VmState, VmStateError, MAX_FEEDBACK_BUFFERS,
};
use crate::vmx::traits::context::VmContext;
use crate::vmx::vmcs::{Vmcs, VmcsField16, VmcsFieldNatural};

verus! {

/// Error type for ForkedVm creation.
#[derive(Debug)]
pub enum ForkedVmError<E> {
    /// Parent VM has children and cannot be forked.
    ParentHasChildren,
    /// EPT clone failed.
    EptClone(E),
    /// VMCS allocation failed.
    VmcsAlloc,
    /// VmState creation failed.
    VmState(VmStateError<E>),
}

/// A forked VM using copy-on-write memory.
///
/// `ForkedVm` shares its parent's memory but allocates new pages on write.
/// The EPT is cloned from parent with R+X (no write) permissions, so
/// writes cause EPT violations that trigger COW page allocation.
///
/// # Parent Relationship
///
/// When reading non-COW pages, a fork goes to its parent, which may itself be a
/// fork and check its own COW pages first, and so on down to the root's memory.
/// The parent is borrowed for as long as the fork lives, so it cannot run or be
/// changed meanwhile; `children_count` says so to whoever schedules VMs.
pub struct ForkedVm<'a> {
    /// VM state (VMCS, registers, devices, etc.).
    pub state: VmState,
    /// Copy-on-write pages owned by this VM.
    pub cow_pages: CowPageMap<GuestPage>,
    /// Per-page EPT write-watchpoint classification (arm-then-cull). Populated
    /// only when watchpoints are enabled; empty and unused otherwise.
    pub watchpoint_class: WatchpointClassMap,
    /// Last userspace thread id (guest FS_BASE) seen at a watchpoint fault.
    pub wp_last_tid: u64,
    /// Count of observed userspace thread switches (bumped when the FS_BASE at a
    /// CPL 3 watchpoint fault differs from `wp_last_tid`). Drives the cull epoch.
    /// The arm-then-cull diagnostic counters and this epoch are mirrored in
    /// `exit_stats`, which reaches userspace.
    pub wp_switch_epoch: u32,
    /// Parent VM for reading non-COW pages.
    pub parent: ParentVm<'a>,
    /// Number of forks derived from this VM.
    pub children_count: usize,
}

/// What a copied page holds and where.
pub struct PageView {
    pub bytes: Seq<u8>,
    pub phys: HostPhysAddr,
}

/// What copying a page can change.
pub struct CowView {
    /// The fork's own pages.
    pub copies: Map<u64, PageView>,
    /// Its page table.
    pub ept: Map<u64, EptEntry>,
    /// The pages that are still free.
    pub pool: Seq<GuestPage>,
    /// Whether the run loop has to flush cached mappings.
    pub flush_ept: bool,
}

/// Copying the parent's page at `page` and mapping the copy with `perms`, and
/// whether it was done. It takes a free page, also where the page turns out to
/// lie outside guest memory; a copy whose page is not in the page table is kept
/// but not mapped.
pub open spec fn page_copied(
    c: CowView,
    parent: ParentVm<'_>,
    page: u64,
    perms: EptPermissions,
) -> (CowView, bool) {
    if c.pool.len() == 0 {
        (c, false)
    } else if page + 4096 > parent.size() {
        (CowView { pool: c.pool.drop_last(), ..c }, false)
    } else {
        let phys = c.pool.last().phys;
        let kept = CowView {
            copies: c.copies.insert(page, PageView { bytes: parent.page(page), phys }),
            pool: c.pool.drop_last(),
            ..c
        };
        if c.ept.contains_key(page) {
            (
                CowView {
                    ept: c.ept.insert(page, EptEntry { hpa: phys, perms }),
                    flush_ept: true,
                    ..kept
                },
                true,
            )
        } else {
            (kept, false)
        }
    }
}

/// Copying the page at `page`, writable, unless the fork already has its own.
pub open spec fn page_owned(c: CowView, parent: ParentVm<'_>, page: u64) -> CowView {
    if c.copies.contains_key(page) {
        c
    } else {
        page_copied(c, parent, page, EptPermissions::ReadWriteExecute).0
    }
}

/// Doing so for each of the pages at `gpas`, in order.
pub open spec fn pages_owned(c: CowView, parent: ParentVm<'_>, gpas: Seq<u64>) -> CowView
    decreases gpas.len(),
{
    if gpas.len() == 0 {
        c
    } else {
        page_owned(
            pages_owned(c, parent, gpas.drop_last()),
            parent,
            crate::vmx::memory::page_base(gpas.last()),
        )
    }
}

/// The bytes that a fork's memory hash is taken of: each copy's address and
/// contents, in ascending order of addresses.
pub open spec fn cow_stream(pages: Seq<(u64, GuestPage)>) -> Seq<u8>
    decreases pages.len(),
{
    if pages.len() == 0 {
        Seq::empty()
    } else {
        crate::vmx::exit_record::hash::fed_u64(cow_stream(pages.drop_last()), pages.last().0)
            + pages.last().1.bytes@
    }
}

/// Counters after a data breakpoint was armed.
pub open spec fn arm_counted(stats: AllExitStats, outcome: ArmResult) -> AllExitStats {
    match outcome {
        ArmResult::Armed { .. } => AllExitStats {
            wp_dr_armed: (stats.wp_dr_armed + 1) as u64,
            ..stats
        },
        ArmResult::Evicted { .. } => AllExitStats {
            wp_dr_armed: (stats.wp_dr_armed + 1) as u64,
            wp_dr_evictions: (stats.wp_dr_evictions + 1) as u64,
            ..stats
        },
        ArmResult::AlreadyWatched { .. } => stats,
    }
}

impl<'a> ForkedVm<'a> {
    /// Copies are 4 KiB pages of guest memory.
    pub open spec fn inv(&self) -> bool
        decreases *self,
    {
        &&& self.state.wf()
        &&& self.cow_pages.wf()
        &&& self.watchpoint_class.wf()
        &&& self.parent.wf()
        &&& forall|p: u64| #[trigger]
            self.cow_pages@.contains_key(p) ==> self.cow_pages@[p].wf() && p + 4096
                <= self.parent.size()
    }

    /// Contents of the page at address `page`: this VM's copy, else the
    /// parent's page.
    pub open spec fn page(&self, page: u64) -> Seq<u8>
        decreases *self,
    {
        if self.cow_pages@.contains_key(page) {
            self.cow_pages@[page].bytes@
        } else {
            self.parent.page(page)
        }
    }

    /// The fork's own pages.
    pub open spec fn copies(&self) -> Map<u64, PageView> {
        Map::new(
            |p: u64| self.cow_pages@.contains_key(p),
            |p: u64|
                PageView { bytes: self.cow_pages@[p].bytes@, phys: self.cow_pages@[p].phys },
        )
    }

    /// What copying a page can change.
    pub open spec fn cow_view(&self, pool: Seq<GuestPage>) -> CowView {
        CowView {
            copies: self.copies(),
            ept: self.state.ept@,
            pool,
            flush_ept: self.state.requests.flush_ept,
        }
    }

    /// Nothing but what copying a page can change differs from `before`.
    pub open spec fn only_cow_changed(&self, before: &ForkedVm<'a>) -> bool {
        *self == (ForkedVm {
            cow_pages: self.cow_pages,
            state: VmState {
                ept: self.state.ept,
                requests: HostRequests {
                    flush_ept: self.state.requests.flush_ept,
                    ..before.state.requests
                },
                ..before.state
            },
            ..*before
        })
    }

    // ---- One write fault on a page that the fork already owns ----

    /// Privilege level of the guest.
    pub open spec fn cpl(&self) -> u16 {
        self.state.vmcs.get16_or_zero(VmcsField16::GuestCsSelector) & 3
    }

    /// Thread that the guest runs, if it is in user mode.
    pub open spec fn tid(&self) -> u64 {
        self.state.vmcs.get_natural_or_zero(VmcsFieldNatural::GuestFsBase)
    }

    /// A fault on `page` is a watchpoint hit: the page was copied before and
    /// deliberately left read-only.
    pub open spec fn watch_hit(&self, page: u64) -> bool {
        &&& self.cow_pages@.contains_key(page)
        &&& self.state.devices.apic.watchpoint_pct != 0
        &&& self.state.ept@.contains_key(page)
        &&& self.state.ept@[page].perms == EptPermissions::ReadExecute
    }

    /// A user thread other than the last one faults.
    pub open spec fn hit_switches(&self) -> bool {
        self.cpl() == 3 && self.tid() != self.wp_last_tid
    }

    /// The thread-switch epoch of this fault.
    pub open spec fn hit_epoch(&self) -> u32 {
        if self.hit_switches() {
            if self.wp_switch_epoch == u32::MAX {
                0
            } else {
                (self.wp_switch_epoch + 1) as u32
            }
        } else {
            self.wp_switch_epoch
        }
    }

    /// The page counts as shared before this fault. A page without a record is
    /// not expected; it is kept watched.
    pub open spec fn hit_shared(&self, page: u64) -> bool {
        !self.watchpoint_class@.contains_key(page) || self.watchpoint_class@[page].confirmed
    }

    /// This fault shows the page to be shared: a second user thread writes it.
    pub open spec fn hit_confirms(&self, page: u64) -> bool {
        !self.hit_shared(page) && self.cpl() == 3 && self.tid()
            != self.watchpoint_class@[page].first_tid
    }

    /// The page's only writer so far writes it again.
    pub open spec fn hit_repeats(&self, page: u64) -> bool {
        !self.hit_shared(page) && self.cpl() == 3 && self.tid()
            == self.watchpoint_class@[page].first_tid
    }

    /// The preemption stream is drawn from: on every user-mode hit of a shared
    /// page.
    pub open spec fn hit_draws(&self, page: u64) -> bool {
        self.cpl() == 3 && (self.hit_shared(page) || self.hit_confirms(page))
    }

    /// The draw asks for a preemption.
    pub open spec fn hit_coin(&self, page: u64) -> bool {
        self.hit_draws(page) && self.state.devices.apic.coin()
    }

    /// A preemption is forced: it was drawn and the guest can take it.
    pub open spec fn hit_preempts(&self, page: u64) -> bool {
        self.hit_coin(page) && crate::vmx::exits::interrupts::vector_usable(
            self.state.devices.apic,
        )
    }

    /// The write is held back, to be tried again after the preemption. With
    /// data breakpoints the write is let through: the breakpoint watches.
    pub open spec fn hit_holds(&self, page: u64) -> bool {
        self.hit_preempts(page) && !self.state.devices.apic.watchpoint_dr
    }

    /// The faulting address is one a data breakpoint may be spent on.
    pub open spec fn dr_candidate(&self) -> bool {
        self.state.vmcs.get_natural_or_zero(VmcsFieldNatural::GuestLinearAddr) != 0
            && self.state.devices.apic.rip_allowed(
            self.state.vmcs.get_natural_or_zero(VmcsFieldNatural::GuestRip),
        )
    }

    /// A data breakpoint is armed: with the drawn preemption on a page known to
    /// be shared, at once on a page just found to be.
    pub open spec fn hit_arms(&self, page: u64) -> bool {
        &&& self.state.devices.apic.watchpoint_dr
        &&& self.hit_confirms(page) || (self.hit_shared(page) && self.hit_coin(page))
        &&& self.dr_candidate()
    }

    /// Faults of the page's only writer, this one counted.
    pub open spec fn hit_count(&self, page: u64) -> u32 {
        if self.watchpoint_class@[page].fault_count == u32::MAX {
            u32::MAX
        } else {
            (self.watchpoint_class@[page].fault_count + 1) as u32
        }
    }

    /// Thread switches since the page was armed.
    pub open spec fn hit_age(&self, page: u64) -> int {
        (self.hit_epoch() - self.watchpoint_class@[page].arm_epoch) % 0x1_0000_0000
    }

    /// The page is let go: it had one writer for enough thread switches, or
    /// faulted often enough.
    pub open spec fn hit_culls(&self, page: u64) -> bool {
        self.hit_repeats(page) && (self.hit_age(page)
            >= self.state.devices.apic.watchpoint_cull_epochs || self.hit_count(page)
            >= self.state.devices.apic.watchpoint_cull_cap)
    }

    /// The local APIC after a watchpoint hit.
    pub open spec fn hit_apic(&self, page: u64) -> ApicState {
        let drawn = if self.hit_draws(page) {
            ApicState {
                watchpoint_seed: crate::vmx::devices::apic::xorshift64(
                    self.state.devices.apic.watchpoint_seed,
                ),
                ..self.state.devices.apic
            }
        } else {
            self.state.devices.apic
        };
        if self.hit_coin(page) {
            crate::vmx::exits::interrupts::preempt_raised(drawn)
        } else {
            drawn
        }
    }

    /// The data breakpoints after a watchpoint hit.
    pub open spec fn hit_breakpoints(&self, page: u64) -> DebugWatch {
        if self.hit_arms(page) {
            self.state.debug_watch.armed(
                self.state.vmcs.get_natural_or_zero(VmcsFieldNatural::GuestLinearAddr),
                self.state.devices.apic.dr_len(),
                self.tid(),
                self.hit_epoch(),
            )
        } else {
            self.state.debug_watch
        }
    }

    /// The counters after a watchpoint hit.
    pub open spec fn hit_stats(&self, page: u64) -> AllExitStats {
        let s = self.state.exit_stats;
        let s = AllExitStats {
            wp_faults: (s.wp_faults + 1) as u64,
            wp_epoch: if self.hit_switches() {
                self.hit_epoch() as u64
            } else {
                s.wp_epoch
            },
            wp_confirmed: (s.wp_confirmed + if self.hit_confirms(page) {
                1int
            } else {
                0
            }) as u64,
            wp_preempts: (s.wp_preempts + if self.hit_preempts(page) {
                1int
            } else {
                0
            }) as u64,
            wp_culled: (s.wp_culled + if self.hit_culls(page) {
                1int
            } else {
                0
            }) as u64,
            ..s
        };
        if self.hit_arms(page) {
            arm_counted(
                s,
                crate::vmx::dr_watch::arm_outcome(
                    self.state.debug_watch.slots@,
                    self.state.debug_watch.evict_cursor,
                    self.state.vmcs.get_natural_or_zero(VmcsFieldNatural::GuestLinearAddr),
                ),
            )
        } else {
            s
        }
    }

    /// The page table after a watchpoint hit: the page is writable unless the
    /// write is held back.
    pub open spec fn hit_ept(&self, page: u64) -> Map<u64, EptEntry> {
        if self.hit_holds(page) {
            self.state.ept@
        } else {
            self.state.ept@.insert(
                page,
                EptEntry {
                    perms: EptPermissions::ReadWriteExecute,
                    ..self.state.ept@[page]
                },
            )
        }
    }

    /// The classification records after a watchpoint hit.
    pub open spec fn hit_classes(&self, page: u64) -> Map<u64, WpClass> {
        let classes = self.watchpoint_class@;
        if self.hit_confirms(page) {
            classes.insert(page, WpClass { confirmed: true, ..classes[page] })
        } else if self.hit_culls(page) {
            classes.remove(page)
        } else if self.hit_repeats(page) {
            classes.insert(page, WpClass { fault_count: self.hit_count(page), ..classes[page] })
        } else {
            classes
        }
    }

    /// What a watchpoint hit leaves of `before`.
    pub open spec fn is_after_hit(&self, before: &ForkedVm<'a>, page: u64) -> bool {
        &&& *self == (ForkedVm {
            state: VmState {
                ept: self.state.ept,
                devices: DeviceStates { apic: before.hit_apic(page), ..before.state.devices },
                debug_watch: before.hit_breakpoints(page),
                exit_stats: before.hit_stats(page),
                requests: HostRequests {
                    flush_ept: before.state.requests.flush_ept || !before.hit_holds(page),
                    ..before.state.requests
                },
                ..before.state
            },
            watchpoint_class: self.watchpoint_class,
            wp_last_tid: if before.hit_switches() {
                before.tid()
            } else {
                before.wp_last_tid
            },
            wp_switch_epoch: before.hit_epoch(),
            ..*before
        })
        &&& self.state.ept@ == before.hit_ept(page)
        &&& self.watchpoint_class@ == before.hit_classes(page)
    }

    // ---- The first write fault on a page ----

    /// The page is armed as a watchpoint: watchpoints are on and the first
    /// write comes from user mode.
    pub open spec fn first_write_arms(&self) -> bool {
        self.state.devices.apic.watchpoint_pct != 0 && self.cpl() == 3
    }

    /// Permissions of a page after its first write.
    pub open spec fn first_write_perms(&self) -> EptPermissions {
        if self.first_write_arms() {
            EptPermissions::ReadExecute
        } else {
            EptPermissions::ReadWriteExecute
        }
    }

    /// What the first write to `page` leaves of `before`, apart from what
    /// copying changes.
    pub open spec fn is_after_first_write(&self, before: &ForkedVm<'a>, page: u64, copied: bool) -> bool {
        let armed = copied && before.first_write_arms();
        &&& *self == (ForkedVm {
            cow_pages: self.cow_pages,
            state: VmState {
                ept: self.state.ept,
                requests: HostRequests {
                    flush_ept: self.state.requests.flush_ept,
                    ..before.state.requests
                },
                exit_stats: if armed {
                    AllExitStats {
                        wp_armed: (before.state.exit_stats.wp_armed + 1) as u64,
                        ..before.state.exit_stats
                    }
                } else {
                    before.state.exit_stats
                },
                ..before.state
            },
            watchpoint_class: self.watchpoint_class,
            ..*before
        })
        &&& self.watchpoint_class@ == (if armed {
            before.watchpoint_class@.insert(
                page,
                WpClass {
                    first_tid: before.tid(),
                    arm_epoch: before.wp_switch_epoch,
                    fault_count: 0,
                    confirmed: false,
                },
            )
        } else {
            before.watchpoint_class@
        })
    }
}

/// What a new fork is, and what it took from the pool.
pub open spec fn forks<'a>(
    vm: ForkedVm<'a>,
    parent: ParentVm<'a>,
    parent_state: VmState,
    exit_handler_rip: u64,
    pool_before: Seq<GuestPage>,
    pool: Seq<GuestPage>,
) -> bool {
    &&& vm.parent == parent
    &&& vm.state.is_fork_of(
        &parent_state,
        vm.state.ept,
        pool_before.last().phys,
        exit_handler_rip,
    )
    &&& !vm.state.requests.service_nmi && !vm.state.requests.rearm_pebs
    &&& vm.watchpoint_class@ == Map::<u64, WpClass>::empty()
    &&& vm.wp_last_tid == 0
    &&& vm.wp_switch_epoch == 0
    &&& vm.children_count == 0
    &&& vm.cow_view(pool) == io_page_owned(
        CowView {
            copies: Map::empty(),
            ept: crate::vmx::ept::write_protected(parent_state.ept@),
            pool: pool_before.drop_last(),
            flush_ept: false,
        },
        parent,
        parent_state.io_channel.page_gpa,
    )
}

/// What making a fork returns: the first of what it needs and cannot have, or
/// the fork.
pub open spec fn fork_result<'a>(
    r: Result<ForkedVm<'a>, ForkedVmError<AllocError>>,
    parent: ParentVm<'a>,
    parent_state: VmState,
    vmcs: Option<Vmcs>,
    exit_handler_rip: u64,
    pool_before: Seq<GuestPage>,
    pool: Seq<GuestPage>,
) -> bool {
    if pool_before.len() == 0 {
        r == Err::<ForkedVm<'a>, ForkedVmError<AllocError>>(ForkedVmError::EptClone(AllocError))
            && pool == pool_before
    } else if vmcs is None {
        r == Err::<ForkedVm<'a>, ForkedVmError<AllocError>>(ForkedVmError::VmcsAlloc) && pool
            == pool_before.drop_last()
    } else if vmcs->0.write_error_natural(VmcsFieldNatural::HostRip) is Some {
        r == Err::<ForkedVm<'a>, ForkedVmError<AllocError>>(
            ForkedVmError::VmState(
                VmStateError::Vmcs(vmcs->0.write_error_natural(VmcsFieldNatural::HostRip)->0),
            ),
        ) && pool == pool_before.drop_last()
    } else {
        r is Ok && r->Ok_0.inv() && r->Ok_0.memory() == parent.bytes() && forks(
            r->Ok_0,
            parent,
            parent_state,
            exit_handler_rip,
            pool_before,
            pool,
        )
    }
}

impl<'a> ForkedVm<'a> {
    /// Create a new ForkedVm from a parent VM.
    ///
    /// This method:
    /// 1. Increments the parent's children count
    /// 2. Clones the parent's EPT with R+X (no write) permissions for COW
    /// 3. Creates a new VmState by copying parent's device/MSR/register state
    /// 4. Creates an empty COW page map
    ///
    /// # Arguments
    ///
    /// * `parent` - The parent VM (RootVm or another ForkedVm)
    /// * `vmcs` - The control structure that the machine allocated for this VM,
    ///   if it could
    /// * `allocator` - Pages for the EPT's root and for COW
    /// * `exit_handler_rip` - Address of the VM exit handler
    ///
    /// The parent counts the child even where the fork could not be made; the
    /// caller takes it off again.
    pub fn new<P: ForkableVm>(
        parent: &'a mut P,
        vmcs: Option<Vmcs>,
        allocator: &mut PagePool,
        exit_handler_rip: u64,
    ) -> (r: Result<Self, ForkedVmError<AllocError>>)
        requires
            old(parent).wf(),
            old(allocator).wf(),
        ensures
            final(parent).vm() == old(parent).vm(),
            final(parent).memory() == old(parent).memory(),
            final(parent).children() == super::parent::one_more(old(parent).children()),
            final(allocator).wf(),
            fork_result(
                r,
                final(parent).parent_view(),
                old(parent).vm(),
                vmcs,
                exit_handler_rip,
                old(allocator)@,
                final(allocator)@,
            ),
            r is Ok <==> old(allocator)@.len() > 0 && vmcs is Some && vmcs->0.host_rip is Some
                && vmcs->0.write_faults.host_rip is None,
            r is Ok ==> {
                let state = r->Ok_0.state;
                let from = old(parent).vm();
                &&& forall|i: u8| #[trigger] state.gprs.value(i) == from.gprs.value(i)
                &&& state.gprs == from.gprs
                &&& state.devices == from.devices
                &&& state.msr_state == from.msr_state
                &&& state.host_state == from.host_state
                &&& state.xcr0_mask == from.xcr0_mask
                &&& state.vmx_ctx == from.vmx_ctx
                &&& state.emulated_tsc == from.emulated_tsc
                &&& state.tsc_frequency == from.tsc_frequency
                &&& state.last_exit_deterministic == from.last_exit_deterministic
                &&& state.intercept_pf == from.intercept_pf
                &&& state.io_channel == from.io_channel
                &&& state.feedback_buffers == from.feedback_buffers
                &&& state.skip_memory_hash == from.skip_memory_hash
                &&& state.exit_trigger == from.exit_trigger
                &&& state.vmcs == (Vmcs { host_rip: Some(exit_handler_rip), ..from.vmcs })
                &&& state.ept_root == old(allocator)@.last().phys
            },
    {
        parent.add_child();
        Self::new_internal(&*parent, vmcs, allocator, exit_handler_rip)
    }

    /// Create a new ForkedVm from a parent VM whose children count was already incremented.
    ///
    /// This is the parallel-fork-safe variant of `new()`: the caller increments the
    /// parent's children count beforehand, and decrements it if this method returns
    /// an error. Many forks can be made of one parent this way, since all of them
    /// only read it.
    pub fn new_with_incremented_parent<P: ForkableVm>(
        parent: &'a P,
        vmcs: Option<Vmcs>,
        allocator: &mut PagePool,
        exit_handler_rip: u64,
    ) -> (r: Result<Self, ForkedVmError<AllocError>>)
        requires
            parent.wf(),
            old(allocator).wf(),
        ensures
            final(allocator).wf(),
            fork_result(
                r,
                parent.parent_view(),
                parent.vm(),
                vmcs,
                exit_handler_rip,
                old(allocator)@,
                final(allocator)@,
            ),
            r is Ok <==> old(allocator)@.len() > 0 && vmcs is Some && vmcs->0.host_rip is Some
                && vmcs->0.write_faults.host_rip is None,
            r is Ok ==> {
                let state = r->Ok_0.state;
                let from = parent.vm();
                &&& forall|i: u8| #[trigger] state.gprs.value(i) == from.gprs.value(i)
                &&& state.gprs == from.gprs
                &&& state.devices == from.devices
                &&& state.msr_state == from.msr_state
                &&& state.host_state == from.host_state
                &&& state.xcr0_mask == from.xcr0_mask
                &&& state.vmx_ctx == from.vmx_ctx
                &&& state.emulated_tsc == from.emulated_tsc
                &&& state.tsc_frequency == from.tsc_frequency
                &&& state.last_exit_deterministic == from.last_exit_deterministic
                &&& state.intercept_pf == from.intercept_pf
                &&& state.io_channel == from.io_channel
                &&& state.feedback_buffers == from.feedback_buffers
                &&& state.skip_memory_hash == from.skip_memory_hash
                &&& state.exit_trigger == from.exit_trigger
                &&& state.vmcs == (Vmcs { host_rip: Some(exit_handler_rip), ..from.vmcs })
                &&& state.ept_root == old(allocator)@.last().phys
            },
    {
        // Note: caller has already incremented parent's children count
        Self::new_internal(parent, vmcs, allocator, exit_handler_rip)
    }

    /// Internal constructor shared by `new` and `new_with_incremented_parent`.
    fn new_internal<P: ForkableVm>(
        parent: &'a P,
        vmcs: Option<Vmcs>,
        allocator: &mut PagePool,
        exit_handler_rip: u64,
    ) -> (r: Result<Self, ForkedVmError<AllocError>>)
        requires
            parent.wf(),
            old(allocator).wf(),
        ensures
            final(allocator).wf(),
            fork_result(
                r,
                parent.parent_view(),
                parent.vm(),
                vmcs,
                exit_handler_rip,
                old(allocator)@,
                final(allocator)@,
            ),
    {
        proof {
            parent.lemma_wf();
            parent.lemma_parent();
        }
        // Clone parent's EPT with R+X permissions (COW setup)
        let root = match allocator.allocate_cow_page() {
            Ok(page) => page.phys,
            Err(e) => return Err(ForkedVmError::EptClone(e)),
        };
        let ept = parent.state().ept.clone_for_fork();

        // The new VMCS for this forked VM
        let vmcs = match vmcs {
            Some(vmcs) => vmcs,
            None => return Err(ForkedVmError::VmcsAlloc),
        };

        // Create VmState by copying from parent
        let state = match VmState::new_for_fork(
            vmcs,
            ept,
            root,
            parent.state(),
            exit_handler_rip,
        ) {
            Ok(state) => state,
            Err(e) => return Err(ForkedVmError::VmState(e)),
        };

        let mut forked_vm = ForkedVm {
            state,
            cow_pages: CowPageMap::new(),
            watchpoint_class: WatchpointClassMap::new(),
            wp_last_tid: 0,
            wp_switch_epoch: 0,
            parent: parent.as_parent(),
            children_count: 0,
        };
        proof {
            assert(forked_vm.copies() =~= Map::<u64, PageView>::empty());
            assert forall|p: u64| #[trigger] forked_vm.page(p) == forked_vm.parent.page(p) by {}
            assert(forked_vm.memory() =~= forked_vm.parent.bytes());
        }
        // Feedback buffers need no special handling at fork: their pages are
        // copied-on-write lazily through the normal EPT write-fault path
        // (`handle_cow_fault`) when the guest writes them. When userspace maps
        // a buffer, `cow_feedback_buffer_for_mapping` COWs its pages so the
        // mapping stays coherent with subsequent guest writes.
        //
        // Pre-COW the I/O channel shared page if registered. Without this any
        // request that the hypervisor hands to the guest on the fork would hit
        // write_guest_memory's "page not COW'd yet" error path and never reach
        // the guest module.
        forked_vm.pre_cow_io_channel_page(allocator);
        Ok(forked_vm)
    }

    /// Copy the parent's page at `page_gpa` into a page of this VM's own and
    /// map it with `perms`. Returns whether that was done; it is not without a
    /// free page, outside guest memory, or for a page that is not mapped.
    #[verifier::rlimit(40)]
    fn copy_page(
        &mut self,
        page_gpa: GuestPhysAddr,
        perms: EptPermissions,
        allocator: &mut PagePool,
    ) -> (r: bool)
        requires
            old(self).inv(),
            old(allocator).wf(),
            page_gpa.addr % 4096 == 0,
            !old(self).cow_pages@.contains_key(page_gpa.addr),
        ensures
            final(self).inv(),
            final(allocator).wf(),
            final(self).only_cow_changed(old(self)),
            final(self).cow_view(final(allocator)@) == page_copied(
                old(self).cow_view(old(allocator)@),
                old(self).parent,
                page_gpa.addr,
                perms,
            ).0,
            r == page_copied(
                old(self).cow_view(old(allocator)@),
                old(self).parent,
                page_gpa.addr,
                perms,
            ).1,
            final(self).memory() == old(self).memory(),
            old(self).writable().subset_of(final(self).writable()),
    {
        let ghost page = page_gpa.addr;
        proof {
            crate::vmx::memory::page_base_is_idempotent(page);
        }
        // Allocate a new page for COW
        let new_page = match allocator.allocate_cow_page() {
            Ok(new_page) => new_page,
            Err(_) => {
                return false;
            },
        };
        let phys = new_page.phys;

        // Copy content from parent (walks COW chain for nested forks)
        let bytes = match self.parent.read_page(page_gpa) {
            Some(bytes) => slice_to_vec(bytes),
            None => {
                return false;
            },
        };
        proof {
            self.parent.lemma_shape();
        }
        let copy = GuestPage { bytes, phys };
        if self.cow_pages.insert(page_gpa, copy).is_err() {
            return false;
        }
        proof {
            lemma_copy_keeps_memory(*old(self), *self, page, copy);
            assert(self.copies() =~= old(self).copies().insert(
                page,
                PageView { bytes: copy.bytes@, phys },
            ));
        }
        if self.state.ept.remap_4k(page_gpa, phys, perms).is_err() {
            return false;
        }
        // SDM Vol 3C 30.4.3.4 requires single-context INVEPT after changing the
        // HPA in an EPT leaf. The EPT-violation auto-invalidation only covers
        // the faulting linear address; combined mappings cached for other GVAs
        // that target this GPA would otherwise keep the old HPA and read
        // pre-COW data.

        self.state.requests.flush_ept = true;
        proof {
            lemma_same_copies(*old(self), *self, page, copy);
        }
        true
    }

    /// Make sure that this VM has a writable page of its own for `gpa`, where
    /// that can be done. A page that it already has is left as it is.
    fn own_page(&mut self, gpa: GuestPhysAddr, allocator: &mut PagePool)
        requires
            old(self).inv(),
            old(allocator).wf(),
        ensures
            final(self).inv(),
            final(allocator).wf(),
            final(self).only_cow_changed(old(self)),
            final(self).cow_view(final(allocator)@) == page_owned(
                old(self).cow_view(old(allocator)@),
                old(self).parent,
                crate::vmx::memory::page_base(gpa.addr),
            ),
            final(self).memory() == old(self).memory(),
            old(self).writable().subset_of(final(self).writable()),
    {
        let page_gpa = gpa.page();
        proof {
            crate::vmx::memory::page_base_is_idempotent(gpa.addr);
        }
        if self.cow_pages.contains(page_gpa) {
            return ;
        }
        let _ = self.copy_page(page_gpa, EptPermissions::ReadWriteExecute, allocator);
    }

    /// A hasher that was fed this VM's own pages, each with its address so that
    /// its position matters.
    fn hashed_cow_pages(&self) -> (r: Xxh64Hasher)
        requires
            self.inv(),
        ensures
            r@ == cow_stream(self.cow_pages.sorted()),
    {
        let mut hasher = Xxh64Hasher::new();
        let pages = self.cow_pages.iter();
        let ghost sorted = self.cow_pages.sorted();
        let mut i: usize = 0;
        while i < pages.len()
            invariant
                i <= pages@.len(),
                pages@.len() == sorted.len(),
                forall|j: int|
                    0 <= j < pages@.len() ==> (#[trigger] pages@[j]).0.addr == sorted[j].0
                        && *pages@[j].1 == sorted[j].1,
                hasher@ == cow_stream(sorted.take(i as int)),
            decreases pages@.len() - i,
        {
            hasher.write_u64(pages[i].0.as_u64());
            hasher.write_bytes(pages[i].1.bytes.as_slice());
            assert(sorted.take(i + 1).drop_last() =~= sorted.take(i as int));
            i += 1;
        }
        assert(sorted.take(i as int) =~= sorted);
        hasher
    }

    /// The bytes that the pending exit record's memory hash is taken of: this
    /// VM's own pages, which are what it differs from its parent in. `None` where
    /// no record awaits a memory hash.
    pub fn exit_memory_stream(&self) -> (r: Option<Vec<u8>>)
        requires
            self.inv(),
        ensures
            match r {
                Some(bytes) => self.state.awaits_memory_hash() && bytes@ == cow_stream(
                    self.cow_pages.sorted(),
                ),
                None => !self.state.awaits_memory_hash(),
            },
    {
        if self.state.needs_memory_hash() {
            Some(self.hashed_cow_pages().into_stream())
        } else {
            None
        }
    }

    /// Finalize the pending exit record with the digest of what
    /// `exit_memory_stream` gave, and the number of this VM's own pages. The
    /// digest is not used where it gave nothing.
    pub fn finalize_exit_record_with(&mut self, digest: u64)
        requires
            old(self).inv(),
        ensures
            final(self).inv(),
            final(self).frame() == old(self).frame(),
            final(self).state == (VmState {
                exit_records: final(self).state.exit_records,
                pending_exit_loc: None,
                ..old(self).state
            }),
            final(self).state.exit_records@ == forked_records_with(*old(self), digest),
            old(self).state.pending_exit_loc is None ==> *final(self) == *old(self),
    {
        // Nothing to do unless an `Exit` event awaits its deferred memory hash.
        if self.state.pending_exit_loc.is_none() {
            return ;
        }
        let memory_hash: u64 = if self.state.needs_memory_hash() {
            digest
        } else {
            0
        };

        // Patch the pending `Exit` record's memory_hash and cow_page_count.
        let cow_page_count: u32 = self.cow_pages.len() as u32;
        self.state.finalize_exit_memory_hash(memory_hash, cow_page_count);
    }

    /// A watched page that is writable: one that a re-arm protects again.
    pub open spec fn rearmable(&self, page: u64) -> bool {
        self.state.ept@.contains_key(page) && self.state.ept@[page].perms
            == EptPermissions::ReadWriteExecute
    }

    /// The pages that a re-arm protects again.
    pub open spec fn rearm_set(&self) -> Set<u64> {
        Set::new(|k: u64| self.watchpoint_class@.contains_key(k) && self.rearmable(k))
    }

    /// The page table with the given pages write-protected.
    pub open spec fn rearmed_ept(&self, pages: Set<u64>) -> Map<u64, EptEntry> {
        Map::new(
            |k: u64| self.state.ept@.contains_key(k),
            |k: u64|
                if pages.contains(k) {
                    EptEntry { perms: EptPermissions::ReadExecute, ..self.state.ept@[k] }
                } else {
                    self.state.ept@[k]
                },
        )
    }

    /// What a re-arm leaves of `before`.
    pub open spec fn is_after_rearm(&self, before: &ForkedVm<'a>) -> bool {
        let pages = before.rearm_set();
        if before.state.devices.apic.watchpoint_pct == 0 {
            *self == *before
        } else if pages.len() == 0 {
            &&& *self == (ForkedVm {
                state: VmState { ept: self.state.ept, ..before.state },
                ..*before
            })
            &&& self.state.ept@ == before.state.ept@
        } else {
            &&& *self == (ForkedVm {
                state: VmState {
                    ept: self.state.ept,
                    requests: HostRequests { flush_ept: true, ..before.state.requests },
                    exit_stats: AllExitStats {
                        wp_rearms: (before.state.exit_stats.wp_rearms + 1) as u64,
                        wp_rearm_pages: (before.state.exit_stats.wp_rearm_pages
                            + pages.len()) as u64,
                        ..before.state.exit_stats
                    },
                    ..before.state
                },
                ..*before
            })
            &&& self.state.ept@ == before.rearmed_ept(pages)
        }
    }

    /// This VM after the deadline of the next re-arm was checked.
    pub open spec fn rearm_checked(&self) -> ForkedVm<'a> {
        ForkedVm {
            state: self.state.with_apic(
                crate::vmx::exits::interrupts::wp_rearm_checked(
                    self.state.devices.apic,
                    self.state.emulated_tsc,
                ),
            ),
            ..*self
        }
    }

    /// Sample the watched pages at a deterministic exit: where a re-arm is due,
    /// protect every page that was let through again. Returns whether it was.
    pub fn sample_watchpoints(&mut self) -> (r: bool)
        requires
            old(self).inv(),
            old(self).state.exit_stats.can_count(),
            old(self).state.exit_stats.wp_rearm_pages + old(self).state.ept@.dom().len()
                <= u64::MAX,
        ensures
            final(self).inv(),
            r == crate::vmx::exits::interrupts::wp_rearm_due(
                old(self).state.devices.apic,
                old(self).state.emulated_tsc,
            ),
            if r {
                final(self).is_after_rearm(&old(self).rearm_checked())
            } else {
                *final(self) == old(self).rearm_checked()
            },
    {
        if !check_wp_rearm(self) {
            return false;
        }
        self.rearm_watchpoints();
        true
    }

    /// The guest addresses of a registered feedback buffer's pages.
    pub open spec fn feedback_gpas(&self, index: usize) -> Seq<u64> {
        if index < 16 && self.state.feedback_buffers@[index as int] is Some {
            let buffer = self.state.feedback_buffers@[index as int]->0;
            buffer.gpas@.take(buffer.num_pages as int)
        } else {
            Seq::empty()
        }
    }

    /// Copying the pages of the first `n` feedback buffers.
    pub open spec fn buffers_owned(&self, c: CowView, n: nat) -> CowView
        decreases n,
    {
        if n == 0 {
            c
        } else {
            pages_owned(
                self.buffers_owned(c, (n - 1) as nat),
                self.parent,
                self.feedback_gpas((n - 1) as usize),
            )
        }
    }

    /// Get a reference to the COW pages.
    pub fn cow_pages(&self) -> (r: &CowPageMap<GuestPage>)
        ensures
            *r == self.cow_pages,
    {
        &self.cow_pages
    }

    /// Get a mutable reference to the COW pages.
    pub fn cow_pages_mut(&mut self) -> (r: &mut CowPageMap<GuestPage>)
        ensures
            *r == old(self).cow_pages,
            *final(self) == (ForkedVm { cow_pages: *final(r), ..*old(self) }),
    {
        &mut self.cow_pages
    }

    /// Remap a watched page to RWX and have the affected EPT mapping flushed so
    /// the pending write can proceed. Shared by the let-through and cull paths.
    /// Returns false if the remap fails.
    fn wp_remap_rwx(&mut self, page_gpa: GuestPhysAddr, hpa: HostPhysAddr) -> (r: bool)
        requires
            old(self).state.ept.wf(),
            page_gpa.addr % 4096 == 0,
        ensures
            r == old(self).state.ept@.contains_key(page_gpa.addr),
            !r ==> *final(self) == *old(self),
            r ==> final(self).is_after_grant(old(self), page_gpa.addr, hpa),
    {
        proof {
            crate::vmx::memory::page_base_is_idempotent(page_gpa.addr);
        }
        if self.state.ept.remap_4k(page_gpa, hpa, EptPermissions::ReadWriteExecute).is_err() {
            return false;
        }
        self.state.requests.flush_ept = true;
        true
    }

    /// The page at `page` is writable, and nothing else differs from `before`.
    pub open spec fn is_after_grant(
        &self,
        before: &ForkedVm<'a>,
        page: u64,
        hpa: HostPhysAddr,
    ) -> bool {
        &&& *self == (ForkedVm {
            state: VmState {
                ept: self.state.ept,
                requests: HostRequests { flush_ept: true, ..before.state.requests },
                ..before.state
            },
            ..*before
        })
        &&& self.state.ept.wf()
        &&& self.state.ept@ == before.state.ept@.insert(
            page,
            EptEntry { hpa, perms: EptPermissions::ReadWriteExecute },
        )
    }

    /// Let a watched write through and LEAVE the page writable (RWX): the next
    /// write to it will not fault until the batch re-arm (`rearm_watchpoints`)
    /// re-protects it to R+E. This is the sampling protocol: one fault per page
    /// per re-arm window instead of one fault (plus an MTF step and two INVEPTs)
    /// per write.
    fn wp_grant_and_leave(&mut self, page_gpa: GuestPhysAddr, hpa: HostPhysAddr) -> (r: Option<
        ExitHandlerResult,
    >)
        requires
            old(self).state.ept.wf(),
            page_gpa.addr % 4096 == 0,
        ensures
            old(self).state.ept@.contains_key(page_gpa.addr) ==> r == Some(
                ExitHandlerResult::Continue,
            ) && final(self).is_after_grant(old(self), page_gpa.addr, hpa),
            !old(self).state.ept@.contains_key(page_gpa.addr) ==> r is None && *final(self) == *old(
                self,
            ),
    {
        if !self.wp_remap_rwx(page_gpa, hpa) {
            return None;
        }
        Some(ExitHandlerResult::Continue)
    }

    /// Cull a single-writer watched page: grant write permanently and drop its
    /// classification record, so it stops faulting for good. Removing the record
    /// is REQUIRED under sampling: the batch re-arm (`rearm_watchpoints`) walks
    /// the classification map and re-protects every page in it, so a leftover
    /// record would re-arm a culled page every window and resurrect its cost.
    fn wp_cull(&mut self, page_gpa: GuestPhysAddr, hpa: HostPhysAddr) -> (r: Option<
        ExitHandlerResult,
    >)
        requires
            old(self).state.ept.wf(),
            old(self).watchpoint_class.wf(),
            old(self).state.exit_stats.wp_culled < u64::MAX,
            page_gpa.addr % 4096 == 0,
            old(self).state.ept@.contains_key(page_gpa.addr),
        ensures
            r == Some(ExitHandlerResult::Continue),
            final(self).watchpoint_class.wf(),
            final(self).is_after_cull(old(self), page_gpa.addr, hpa),
    {
        proof {
            crate::vmx::memory::page_base_is_idempotent(page_gpa.addr);
        }
        if !self.wp_remap_rwx(page_gpa, hpa) {
            return None;
        }
        self.watchpoint_class.remove(page_gpa);
        self.state.exit_stats.wp_culled += 1;
        Some(ExitHandlerResult::Continue)
    }

    /// The page at `page` is writable, its record is gone, and that was counted.
    pub open spec fn is_after_cull(
        &self,
        before: &ForkedVm<'a>,
        page: u64,
        hpa: HostPhysAddr,
    ) -> bool {
        &&& *self == (ForkedVm {
            state: VmState {
                ept: self.state.ept,
                requests: HostRequests { flush_ept: true, ..before.state.requests },
                exit_stats: AllExitStats {
                    wp_culled: (before.state.exit_stats.wp_culled + 1) as u64,
                    ..before.state.exit_stats
                },
                ..before.state
            },
            watchpoint_class: self.watchpoint_class,
            ..*before
        })
        &&& self.state.ept.wf()
        &&& self.state.ept@ == before.state.ept@.insert(
            page,
            EptEntry { hpa, perms: EptPermissions::ReadWriteExecute },
        )
        &&& self.watchpoint_class@ == before.watchpoint_class@.remove(page)
    }

    /// Arm a hardware data breakpoint on the EXACT address of a confirmed-shared
    /// write (DataCollider-style), so a later access to that byte/word by a
    /// *different* thread fires a `#DB` -- a realized data race. Unlike the EPT
    /// watchpoint this is byte-granular and costs no INVEPT (arming is register
    /// state programmed by the run loop). Returns whether a slot is now watching
    /// this address.
    ///
    /// The exact faulting linear address comes from `GuestLinearAddr`, set by the
    /// EPT violation; a page-granular address would defeat the whole point.
    fn wp_arm_dr(&mut self, owner_tid: u64) -> (r: bool)
        requires
            old(self).state.debug_watch.wf(),
            old(self).state.debug_watch.evictions < u64::MAX,
            old(self).state.exit_stats.wp_dr_armed < u64::MAX,
            old(self).state.exit_stats.wp_dr_evictions < u64::MAX,
        ensures
            r == old(self).dr_candidate(),
            !r ==> *final(self) == *old(self),
            r ==> final(self).state.debug_watch.wf() && *final(self) == (ForkedVm {
                state: VmState {
                    debug_watch: old(self).state.debug_watch.armed(
                        old(self).state.vmcs.get_natural_or_zero(VmcsFieldNatural::GuestLinearAddr),
                        old(self).state.devices.apic.dr_len(),
                        owner_tid,
                        old(self).wp_switch_epoch,
                    ),
                    exit_stats: arm_counted(
                        old(self).state.exit_stats,
                        crate::vmx::dr_watch::arm_outcome(
                            old(self).state.debug_watch.slots@,
                            old(self).state.debug_watch.evict_cursor,
                            old(self).state.vmcs.get_natural_or_zero(
                                VmcsFieldNatural::GuestLinearAddr,
                            ),
                        ),
                    ),
                    ..old(self).state
                },
                ..*old(self)
            }),
    {
        let gva: u64 = self.state.vmcs.read_natural_or_zero(VmcsFieldNatural::GuestLinearAddr);
        if gva == 0 {
            return false;
        }
        // RIP-window candidate filter. A candidate is only worth a scarce DR slot
        // if the racy access comes from code in the configured window (typically
        // the target executable's text): library-internal shared writes
        // (malloc/futex/stdio) fault from the shared-object mapping and would
        // otherwise monopolize all 4 slots, starving the cold in-target race
        // sites. Skip arming (but not the paired preemption, decided at the call
        // site) when the faulting RIP is out of window. Disabled when rip_hi == 0.

        let rip: u64 = self.state.vmcs.read_natural_or_zero(VmcsFieldNatural::GuestRip);
        if !self.state.devices.apic.watchpoint_dr_rip_allowed(rip) {
            return false;
        }
        let len: u8 = self.state.devices.apic.watchpoint_dr_len();
        let epoch: u32 = self.wp_switch_epoch;
        match self.state.debug_watch.arm(gva, len, owner_tid, epoch) {
            ArmResult::Armed { .. } => {
                self.state.exit_stats.wp_dr_armed += 1;
            },
            ArmResult::Evicted { .. } => {
                self.state.exit_stats.wp_dr_armed += 1;
                self.state.exit_stats.wp_dr_evictions += 1;
            },
            ArmResult::AlreadyWatched { .. } => {},
        }
        true
    }

    /// Count a watchpoint hit and track userspace thread switches, which drive
    /// the cull epoch: a new tid at CPL 3 means the guest scheduler switched
    /// threads since the last watchpoint fault.
    fn wp_note_thread(&mut self, cpl: u16, tid: u64)
        requires
            cpl == old(self).cpl(),
            tid == old(self).tid(),
            old(self).state.exit_stats.wp_faults < u64::MAX,
        ensures
            *final(self) == old(self).noted(),
    {
        self.state.exit_stats.wp_faults += 1;
        if cpl == 3 && tid != self.wp_last_tid {
            self.wp_last_tid = tid;
            self.wp_switch_epoch = self.wp_switch_epoch.wrapping_add(1);
            self.state.exit_stats.wp_epoch = self.wp_switch_epoch as u64;
        }
    }

    /// This VM once a watchpoint hit and its thread are noted.
    pub open spec fn noted(self) -> ForkedVm<'a> {
        ForkedVm {
            state: VmState {
                exit_stats: AllExitStats {
                    wp_faults: (self.state.exit_stats.wp_faults + 1) as u64,
                    wp_epoch: if self.hit_switches() {
                        self.hit_epoch() as u64
                    } else {
                        self.state.exit_stats.wp_epoch
                    },
                    ..self.state.exit_stats
                },
                ..self.state
            },
            wp_last_tid: if self.hit_switches() {
                self.tid()
            } else {
                self.wp_last_tid
            },
            wp_switch_epoch: self.hit_epoch(),
            ..self
        }
    }

    /// Draw whether to preempt at this hit, if it is one to draw at, and force
    /// the preemption if the guest can take it. In data-breakpoint mode a
    /// breakpoint on the faulting address goes with the draw, or with the hit
    /// itself where `arm_now`. Returns whether a preemption was forced.
    fn wp_sample(&mut self, tid: u64, draw: bool, arm_now: bool) -> (r: bool)
        requires
            old(self).state.debug_watch.wf(),
            old(self).state.debug_watch.evictions < u64::MAX,
            old(self).state.exit_stats.wp_dr_armed < u64::MAX,
            old(self).state.exit_stats.wp_dr_evictions < u64::MAX,
            old(self).state.exit_stats.wp_preempts < u64::MAX,
        ensures
            r == (draw && old(self).state.devices.apic.coin()
                && crate::vmx::exits::interrupts::vector_usable(old(self).state.devices.apic)),
            *final(self) == old(self).sampled(tid, draw, arm_now),
            final(self).state.debug_watch.wf(),
    {
        let coin = draw && self.state.devices.apic.watchpoint_should_preempt();
        if self.state.devices.apic.watchpoint_dr && (arm_now || coin) {
            let _ = self.wp_arm_dr(tid);
        }
        if coin && raise_preempt_vector(&mut self.state.devices.apic) {
            self.state.exit_stats.wp_preempts += 1;
            return true;
        }
        false
    }

    /// This VM once a watchpoint hit was sampled.
    pub open spec fn sampled(self, tid: u64, draw: bool, arm_now: bool) -> ForkedVm<'a> {
        let apic = self.state.devices.apic;
        let coin = draw && apic.coin();
        let arms = apic.watchpoint_dr && (arm_now || coin) && self.dr_candidate();
        let gva = self.state.vmcs.get_natural_or_zero(VmcsFieldNatural::GuestLinearAddr);
        let drawn = if draw {
            ApicState {
                watchpoint_seed: crate::vmx::devices::apic::xorshift64(apic.watchpoint_seed),
                ..apic
            }
        } else {
            apic
        };
        let stats = AllExitStats {
            wp_preempts: (self.state.exit_stats.wp_preempts + if coin
                && crate::vmx::exits::interrupts::vector_usable(apic) {
                1int
            } else {
                0
            }) as u64,
            ..self.state.exit_stats
        };
        ForkedVm {
            state: VmState {
                devices: DeviceStates {
                    apic: if coin {
                        crate::vmx::exits::interrupts::preempt_raised(drawn)
                    } else {
                        drawn
                    },
                    ..self.state.devices
                },
                debug_watch: if arms {
                    self.state.debug_watch.armed(gva, apic.dr_len(), tid, self.wp_switch_epoch)
                } else {
                    self.state.debug_watch
                },
                exit_stats: if arms {
                    arm_counted(
                        stats,
                        crate::vmx::dr_watch::arm_outcome(
                            self.state.debug_watch.slots@,
                            self.state.debug_watch.evict_cursor,
                            gva,
                        ),
                    )
                } else {
                    stats
                },
                ..self.state
            },
            ..self
        }
    }

    /// A hit on a page that counts as shared: sample it, and let the write
    /// through unless it is held back for a preemption.
    fn wp_shared_fault(
        &mut self,
        page_gpa: GuestPhysAddr,
        hpa: HostPhysAddr,
        tid: u64,
        draw: bool,
        arm_now: bool,
    ) -> (r: Option<ExitHandlerResult>)
        requires
            old(self).state.ept.wf(),
            old(self).state.ept@.contains_key(page_gpa.addr),
            page_gpa.addr % 4096 == 0,
            old(self).state.debug_watch.wf(),
            old(self).state.debug_watch.evictions < u64::MAX,
            old(self).state.exit_stats.wp_dr_armed < u64::MAX,
            old(self).state.exit_stats.wp_dr_evictions < u64::MAX,
            old(self).state.exit_stats.wp_preempts < u64::MAX,
        ensures
            r == Some(ExitHandlerResult::Continue),
            final(self).state.debug_watch.wf(),
            final(self).state.ept.wf(),
            final(self).is_after_shared(old(self), page_gpa.addr, hpa, tid, draw, arm_now),
    {
        let preempted = self.wp_sample(tid, draw, arm_now);
        if preempted && !self.state.devices.apic.watchpoint_dr {
            return Some(ExitHandlerResult::Continue);
        }
        self.wp_grant_and_leave(page_gpa, hpa)
    }

    /// What `wp_shared_fault` leaves of `before`.
    pub open spec fn is_after_shared(
        &self,
        before: &ForkedVm<'a>,
        page: u64,
        hpa: HostPhysAddr,
        tid: u64,
        draw: bool,
        arm_now: bool,
    ) -> bool {
        let apic = before.state.devices.apic;
        let sampled = before.sampled(tid, draw, arm_now);
        if draw && apic.coin() && crate::vmx::exits::interrupts::vector_usable(apic)
            && !apic.watchpoint_dr {
            *self == sampled
        } else {
            self.is_after_grant(&sampled, page, hpa)
        }
    }

    /// Handle a write to an armed watchpoint page: classify it, and hold the
    /// write back (to preempt), let it through, or let the page go.
    fn wp_fault(&mut self, page_gpa: GuestPhysAddr, hpa: HostPhysAddr) -> (r: Option<
        ExitHandlerResult,
    >)
        requires
            old(self).inv(),
            page_gpa.addr % 4096 == 0,
            old(self).watch_hit(page_gpa.addr),
            hpa == old(self).state.ept@[page_gpa.addr].hpa,
            old(self).state.exit_stats.can_count(),
            old(self).state.debug_watch.evictions < u64::MAX,
        ensures
            final(self).inv(),
            r == Some(ExitHandlerResult::Continue),
            final(self).is_after_hit(old(self), page_gpa.addr),
    {
        let ghost page = page_gpa.addr;
        proof {
            crate::vmx::memory::page_base_is_idempotent(page);
        }
        // Thread id = guest FS_BASE (the per-thread TLS base); CPL from the CS
        // selector's low 2 bits. Both are deterministic VMCS reads at a
        // deterministic EPT fault.
        let cpl: u16 = self.state.vmcs.read16_or_zero(VmcsField16::GuestCsSelector) & 3;
        let tid: u64 = self.state.vmcs.read_natural_or_zero(VmcsFieldNatural::GuestFsBase);
        self.wp_note_thread(cpl, tid);

        // A missing record for an armed page is not expected; fail safe by
        // treating it as confirmed (keep watching).
        let unconfirmed = match self.watchpoint_class.get(page_gpa) {
            Some(rec) => if rec.confirmed {
                None
            } else {
                Some(rec)
            },
            None => None,
        };
        let rec = match unconfirmed {
            Some(rec) => rec,
            None => {
                // A confirmed-shared page: preempt at this access with
                // probability watchpoint_pct, else let the write through. The
                // no-grant preempt path is taken only when the vector could
                // actually be raised (else fall through so the guest always makes
                // progress); the PRNG still advances on every CPL 3 confirmed hit.
                //
                // Hardware data-breakpoint mode (DataCollider): on a sampled
                // write, arm a DR on the exact faulting address for this thread
                // AND force a preemption, so another thread runs into the
                // breakpoint. Arming is GATED on the same coin flip as the
                // preemption: otherwise every write to a confirmed page arms a
                // slot, and with only 4 slots the set thrashes. The write is let
                // through (the DR, not the EPT page, watches the location), so
                // this pays no per-write INVEPT.
                let r = self.wp_shared_fault(page_gpa, hpa, tid, cpl == 3, false);
                proof {
                    lemma_shared_hit(*old(self), *self, page);
                    lemma_hit_keeps_inv(*old(self), *self);
                }
                return r;
            },
        };

        // Classifying: record present and not yet confirmed.
        if cpl != 3 {
            // Do not classify on kernel faults: FS_BASE at CPL 0 is not the
            // userspace thread id. Just let it through.
            let r = self.wp_grant_and_leave(page_gpa, hpa);
            proof {
                lemma_unclassified_hit(*old(self), *self, page);
                lemma_hit_keeps_inv(*old(self), *self);
            }
            return r;
        }
        if tid != rec.first_tid {
            // A second distinct thread wrote this page: confirm it shared, then
            // act shared for this very fault. DR mode: arm on the exact address
            // at the moment we confirm the page shared (this fault is already a
            // second-thread write, the strongest candidate).
            let _ = self.watchpoint_class.insert(
                page_gpa,
                WpClass {
                    first_tid: rec.first_tid,
                    arm_epoch: rec.arm_epoch,
                    fault_count: rec.fault_count,
                    confirmed: true,
                },
            );
            self.state.exit_stats.wp_confirmed += 1;
            let ghost mid = *self;
            let r = self.wp_shared_fault(page_gpa, hpa, tid, true, true);
            proof {
                lemma_confirming_hit(*old(self), mid, *self, page);
                lemma_hit_keeps_inv(*old(self), *self);
            }
            return r;
        }
        // Same thread as the first writer. Count the fault, and cull the page
        // (grant W permanently) once it has survived enough observed thread
        // switches or hit the fault cap: it is thread-local, not shared.

        let new_count: u32 = rec.fault_count.saturating_add(1);
        let _ = self.watchpoint_class.insert(
            page_gpa,
            WpClass {
                first_tid: rec.first_tid,
                arm_epoch: rec.arm_epoch,
                fault_count: new_count,
                confirmed: false,
            },
        );
        let ghost mid = *self;
        let cull_epochs: u32 = self.state.devices.apic.watchpoint_cull_epochs;
        let cull_cap: u32 = self.state.devices.apic.watchpoint_cull_cap;
        if self.wp_switch_epoch.wrapping_sub(rec.arm_epoch) >= cull_epochs || new_count >= cull_cap {
            let r = self.wp_cull(page_gpa, hpa);
            proof {
                lemma_repeating_hit(*old(self), mid, *self, page);
                lemma_hit_keeps_inv(*old(self), *self);
            }
            return r;
        }
        let r = self.wp_grant_and_leave(page_gpa, hpa);
        proof {
            lemma_repeating_hit(*old(self), mid, *self, page);
            lemma_hit_keeps_inv(*old(self), *self);
        }
        r
    }
}

/// A hit on a shared page, step by step and as a whole.
proof fn lemma_shared_hit(before: ForkedVm<'_>, after: ForkedVm<'_>, page: u64)
    requires
        before.watch_hit(page),
        before.hit_shared(page),
        after.is_after_shared(
            &before.noted(),
            page,
            before.state.ept@[page].hpa,
            before.tid(),
            before.cpl() == 3,
            false,
        ),
    ensures
        after.is_after_hit(&before, page),
{
}

/// A hit that shows a page to be shared, step by step and as a whole.
proof fn lemma_confirming_hit<'a>(before: ForkedVm<'a>, mid: ForkedVm<'a>, after: ForkedVm<'a>, page: u64)
    requires
        before.watch_hit(page),
        before.hit_confirms(page),
        mid == (ForkedVm {
            state: VmState {
                exit_stats: AllExitStats {
                    wp_confirmed: (before.state.exit_stats.wp_confirmed + 1) as u64,
                    ..before.noted().state.exit_stats
                },
                ..before.state
            },
            watchpoint_class: mid.watchpoint_class,
            ..before.noted()
        }),
        mid.watchpoint_class@ == before.hit_classes(page),
        after.is_after_shared(
            &mid,
            page,
            before.state.ept@[page].hpa,
            before.tid(),
            true,
            true,
        ),
    ensures
        after.is_after_hit(&before, page),
{
}

/// A hit that says nothing about who shares a page, step by step and as a whole.
proof fn lemma_unclassified_hit<'a>(before: ForkedVm<'a>, after: ForkedVm<'a>, page: u64)
    requires
        before.watch_hit(page),
        !before.hit_shared(page),
        before.cpl() != 3,
        after.is_after_grant(&before.noted(), page, before.state.ept@[page].hpa),
    ensures
        after.is_after_hit(&before, page),
{
}

/// A hit by a page's only writer, step by step and as a whole.
proof fn lemma_repeating_hit<'a>(before: ForkedVm<'a>, mid: ForkedVm<'a>, after: ForkedVm<'a>, page: u64)
    requires
        before.watch_hit(page),
        before.hit_repeats(page),
        mid == (ForkedVm { watchpoint_class: mid.watchpoint_class, ..before.noted() }),
        mid.watchpoint_class@ == before.watchpoint_class@.insert(
            page,
            WpClass {
                fault_count: before.hit_count(page),
                ..before.watchpoint_class@[page]
            },
        ),
        if before.hit_culls(page) {
            after.is_after_cull(&mid, page, before.state.ept@[page].hpa)
        } else {
            after.is_after_grant(&mid, page, before.state.ept@[page].hpa)
        },
    ensures
        after.is_after_hit(&before, page),
{
    if before.hit_culls(page) {
        assert(after.watchpoint_class@ =~= before.watchpoint_class@.remove(page));
    }
}

/// The invariant does not see what a watchpoint hit changes.
proof fn lemma_hit_keeps_inv<'a>(before: ForkedVm<'a>, after: ForkedVm<'a>)
    requires
        before.inv(),
        after.cow_pages == before.cow_pages,
        after.parent == before.parent,
        after.watchpoint_class.wf(),
        after.state.wf(),
    ensures
        after.inv(),
{
}

/// Adding a copy of the parent's page changes no byte of memory.
proof fn lemma_copy_keeps_memory(before: ForkedVm<'_>, after: ForkedVm<'_>, page: u64, copy: GuestPage)
    requires
        before.inv(),
        page % 4096 == 0,
        !before.cow_pages@.contains_key(page),
        copy.bytes@ == before.parent.page(page),
        after.cow_pages@ == before.cow_pages@.insert(page, copy),
        after.parent == before.parent,
    ensures
        after.memory() == before.memory(),
        before.writable().subset_of(after.writable()),
{
    assert forall|p: u64| #[trigger] after.page(p) == before.page(p) by {}
    assert(after.memory() =~= before.memory());
}

/// What only looks at copies does not see the page table change.
proof fn lemma_same_copies(before: ForkedVm<'_>, after: ForkedVm<'_>, page: u64, copy: GuestPage)
    requires
        after.cow_pages@ == before.cow_pages@.insert(page, copy),
    ensures
        after.copies() == before.copies().insert(
            page,
            PageView { bytes: copy.bytes@, phys: copy.phys },
        ),
{
    assert(after.copies() =~= before.copies().insert(
        page,
        PageView { bytes: copy.bytes@, phys: copy.phys },
    ));
}

/// Memory depends on the copies and the parent alone.
pub proof fn lemma_memory_of(a: ForkedVm<'_>, b: ForkedVm<'_>)
    requires
        a.cow_pages == b.cow_pages,
        a.parent == b.parent,
    ensures
        a.memory() == b.memory(),
        a.writable() == b.writable(),
{
    assert forall|p: u64| #[trigger] a.page(p) == b.page(p) by {}
    assert(a.memory() =~= b.memory());
    assert(a.writable() =~= b.writable());
}

impl<'a> VmContext for ForkedVm<'a> {
    type Frame = (CowPageMap<GuestPage>, WatchpointClassMap, u64, u32, ParentVm<'a>, usize);

    open spec fn vm(&self) -> VmState {
        self.state
    }

    open spec fn frame(&self) -> Self::Frame {
        (
            self.cow_pages,
            self.watchpoint_class,
            self.wp_last_tid,
            self.wp_switch_epoch,
            self.parent,
            self.children_count,
        )
    }

    open spec fn wf(&self) -> bool {
        self.inv()
    }

    open spec fn forked(&self) -> bool {
        true
    }

    open spec fn memory(&self) -> Map<int, u8> {
        ParentVm::Forked(self).bytes()
    }

    open spec fn writable(&self) -> Set<int> {
        Set::new(
            |a: int|
                0 <= a <= u64::MAX && self.cow_pages@.contains_key(
                    crate::vmx::memory::page_base(a as u64),
                ),
        )
    }

    proof fn lemma_frame(a: &Self, b: &Self) {
        lemma_memory_of(*a, *b);
    }

    proof fn lemma_wf(&self) {
        assert forall|a: int| self.writable().contains(a) implies self.memory().dom().contains(
            a,
        ) by {
            crate::vmx::memory::page_base_is_idempotent(a as u64);
        }
    }

    fn state(&self) -> &VmState {
        &self.state
    }

    fn state_mut(&mut self) -> &mut VmState {
        &mut self.state
    }

    fn read_guest_memory(&self, gpa: GuestPhysAddr, buf: &mut [u8]) -> Result<(), MemoryError> {
        ParentVm::Forked(self).read_memory(gpa, buf)
    }

    fn write_guest_memory(&mut self, gpa: GuestPhysAddr, buf: &[u8]) -> (r: Result<(), MemoryError>)
        ensures
            *final(self) == (ForkedVm { cow_pages: final(self).cow_pages, ..*old(self) }),
            final(self).cow_pages@.dom() == old(self).cow_pages@.dom(),
            forall|p: u64| #[trigger]
                final(self).cow_pages@.contains_key(p) ==> final(self).cow_pages@[p].phys == old(
                    self,
                ).cow_pages@[p].phys,
    {
        let len: usize = buf.len();
        let mut cur: u64 = gpa.as_u64();
        let mut done: usize = 0;
        let ghost addr = gpa.addr as int;
        proof {
            assert(buf@.take(0) =~= Seq::<u8>::empty());
            assert(self.memory() =~= crate::vmx::traits::context::written(
                old(self).memory(),
                addr,
                buf@.take(0),
            ));
        }
        loop
            invariant
                self.inv(),
                *self == (ForkedVm { cow_pages: self.cow_pages, ..*old(self) }),
                self.cow_pages@.dom() == old(self).cow_pages@.dom(),
                forall|p: u64| #[trigger]
                    self.cow_pages@.contains_key(p) ==> self.cow_pages@[p].phys == old(
                        self,
                    ).cow_pages@[p].phys,
                self.writable() == old(self).writable(),
                addr == gpa.addr,
                len == buf.len(),
                done <= len,
                done == 0 || done < len,
                cur == addr + done,
                forall|a: int| addr <= a < addr + done ==> old(self).writable().contains(a),
                self.memory() == crate::vmx::traits::context::written(
                    old(self).memory(),
                    addr,
                    buf@.take(done as int),
                ),
            decreases len - done,
        {
            let at = GuestPhysAddr::new(cur);
            let offset: usize = at.offset();
            let ghost page = crate::vmx::memory::page_base(cur);
            let ghost before = *self;
            proof {
                crate::vmx::memory::page_base_is_idempotent(cur);
                self.parent.lemma_shape();
            }
            let room: usize = PAGE_SIZE - offset;
            let n: usize = if len - done <= room {
                len - done
            } else {
                room
            };
            match self.cow_pages.get_mut(at) {
                Some(copy) => {
                    // Write to the COW page
                    write_into(&mut copy.bytes, offset, buf, done, n);
                },
                None => {
                    // Page not COW'd yet - this shouldn't normally happen as writes
                    // should go through EPT fault -> handle_cow_fault first.
                    // Return an error to indicate the page needs COW handling.
                    proof {
                        assert(self.cow_pages@ == before.cow_pages@);
                        lemma_equal_copies(before, *self);
                        crate::vmx::traits::context::lemma_prefix_is(
                            old(self).writable(),
                            addr,
                            len as nat,
                            done as nat,
                        );
                    }
                    return Err(MemoryError::PermissionDenied);
                },
            }
            let ghost data = buf@.subrange(done as int, done + n);
            proof {
                assert(self.cow_pages@.dom() =~= before.cow_pages@.dom());
                lemma_page_written(before, *self, page, offset as int, data);
                crate::vmx::traits::context::lemma_written_twice(
                    old(self).memory(),
                    addr,
                    buf@.take(done as int),
                    data,
                );
                assert(buf@.take(done as int) + data =~= buf@.take(done + n));
                assert forall|a: int| addr <= a < addr + done + n implies old(
                    self,
                ).writable().contains(a) by {
                    if a >= cur {
                        super::parent::lemma_same_page(cur, (a - cur) as u64);
                    }
                }
            }
            done += n;
            if done == len {
                proof {
                    crate::vmx::traits::context::lemma_prefix_is(
                        old(self).writable(),
                        addr,
                        len as nat,
                        len as nat,
                    );
                }
                return Ok(());
            }
            cur += n as u64;
        }
    }

    fn finalize_exit_record(&mut self)
        ensures
            final(self).state.exit_records@ == forked_records(*old(self)),
    {
        let digest: u64 = if self.state.needs_memory_hash() {
            self.hashed_cow_pages().finish()
        } else {
            0
        };
        self.finalize_exit_record_with(digest);
    }

    #[verifier::rlimit(40)]
    fn handle_cow_fault(&mut self, gpa: GuestPhysAddr, allocator: &mut PagePool) -> (r: Option<
        ExitHandlerResult,
    >)
        ensures
            final(self).cow_fault_handled(
                old(self),
                crate::vmx::memory::page_base(gpa.addr),
                old(allocator)@,
                final(allocator)@,
                r is Some,
            ),
    {
        let page_gpa = gpa.page();
        let ghost page = page_gpa.addr;
        proof {
            crate::vmx::memory::page_base_is_idempotent(gpa.addr);
        }
        // Check if we already have a COW page for this address
        if self.cow_pages.contains(page_gpa) {
            // EPT write-watchpoint hit: an already-COW'd page that was
            // deliberately left R+E (armed) is faulting on a write. It is told
            // apart from an ordinary (RWX) COW'd page by its EPT permissions.
            if self.state.devices.apic.watchpoint_pct != 0 {
                if let Some(entry) = self.state.ept.lookup(page_gpa) {
                    if entry.perms == EptPermissions::ReadExecute {
                        let r = self.wp_fault(page_gpa, entry.hpa);
                        proof {
                            lemma_memory_of(*old(self), *self);
                        }
                        return r;
                    }
                }
            }
            // Already copied - this means the EPT was already remapped to RWX but
            // the TLB still had a stale R+X entry. The EPT violation
            // auto-invalidates the stale entry, so the retry will use the correct
            // mapping.

            self.state.exit_stats.cow.stale_tlb_faults += 1;
            proof {
                lemma_memory_of(*old(self), *self);
            }
            return Some(ExitHandlerResult::Continue);
        }
        // Normally the copy is mapped RWX; but if EPT write-watchpoints are enabled
        // and this first write came from userspace (CPL 3), leave the page R+E so
        // every later write to it faults back out (an armed watchpoint). The
        // faulting instruction then retries, re-faults, and lands in the branch
        // above. Kernel-written pages (CPL 0) get plain RWX and are never watched,
        // which keeps boot and kernel writes fast.

        let arm_watchpoint = self.state.devices.apic.watchpoint_pct != 0
            && self.state.vmcs.read16_or_zero(VmcsField16::GuestCsSelector) & 3 == 3;
        let perms = if arm_watchpoint {
            EptPermissions::ReadExecute
        } else {
            EptPermissions::ReadWriteExecute
        };
        if !self.copy_page(page_gpa, perms, allocator) {
            return None;
        }
        // If this page armed as a watchpoint, record its classification: the first
        // writer thread (guest FS_BASE) and the current switch epoch, so the
        // arm-then-cull logic can later cull it (single-writer) or confirm it
        // shared (multiple distinct writers).

        if arm_watchpoint {
            let ghost mid = *self;
            let tid: u64 = self.state.vmcs.read_natural_or_zero(VmcsFieldNatural::GuestFsBase);
            let _ = self.watchpoint_class.insert(
                page_gpa,
                WpClass {
                    first_tid: tid,
                    arm_epoch: self.wp_switch_epoch,
                    fault_count: 0,
                    confirmed: false,
                },
            );
            self.state.exit_stats.wp_armed += 1;
            proof {
                lemma_memory_of(mid, *self);
            }
        }
        // Return Continue to retry the faulting instruction

        Some(ExitHandlerResult::Continue)
    }

    fn is_forked(&self) -> bool {
        true
    }

    fn rearm_watchpoints(&mut self)
        ensures
            final(self).is_after_rearm(old(self)),
    {
        if self.state.devices.apic.watchpoint_pct == 0 {
            return ;
        }
        // Re-protect every tracked watchpoint page that is currently writable
        // (was let through since the last re-arm) back to R+E, so its next write
        // faults and can preempt again. Pages already R+E (never granted this
        // window, or holding after a preempt refault) are skipped.

        let pages = self.watchpoint_class.iter();
        let mut rearmed: u64 = 0;
        let mut i: usize = 0;
        let ghost mut seen: Set<u64> = Set::empty();
        proof {
            self.watchpoint_class.lemma_keys_are_pages();
            self.state.ept.lemma_finite();
            assert(self.state.ept@ =~= old(self).rearmed_ept(seen));
        }
        while i < pages.len()
            invariant
                i <= pages@.len(),
                old(self).inv(),
                *self == (ForkedVm {
                    state: VmState { ept: self.state.ept, ..old(self).state },
                    ..*old(self)
                }),
                self.state.ept.wf(),
                self.state.ept@ == old(self).rearmed_ept(seen),
                old(self).state.ept@.dom().finite(),
                seen.finite(),
                rearmed == seen.len(),
                seen.subset_of(old(self).state.ept@.dom()),
                old(self).state.ept@.dom().len() <= u64::MAX,
                forall|k: u64| #[trigger]
                    seen.contains(k) <==> old(self).rearmable(k) && exists|j: int|
                        0 <= j < i && (#[trigger] pages@[j]).addr == k,
                forall|j: int|
                    0 <= j < pages@.len() ==> old(self).watchpoint_class@.contains_key(
                        (#[trigger] pages@[j]).addr,
                    ) && pages@[j].addr % 4096 == 0,
                forall|j: int, k: int|
                    0 <= j < k < pages@.len() ==> (#[trigger] pages@[j]).addr < (
                    #[trigger] pages@[k]).addr,
            decreases pages@.len() - i,
        {
            let page_gpa = pages[i];
            let ghost page = page_gpa.addr;
            let ghost seen_before = seen;
            proof {
                crate::vmx::memory::page_base_is_idempotent(page);
                if seen.contains(page) {
                    let j = choose|j: int| 0 <= j < i && (#[trigger] pages@[j]).addr == page;
                    assert(pages@[j].addr < pages@[i as int].addr);
                }
            }
            if let Some(entry) = self.state.ept.lookup(page_gpa) {
                if entry.perms == EptPermissions::ReadWriteExecute {
                    proof {
                        seen = seen.insert(page);
                        vstd::set_lib::lemma_len_subset(seen, old(self).state.ept@.dom());
                    }
                    let _ = self.state.ept.remap_4k(page_gpa, entry.hpa, EptPermissions::ReadExecute);
                    rearmed += 1;
                    assert(self.state.ept@ =~= old(self).rearmed_ept(seen));
                }
            }
            proof {
                assert forall|k: u64| #[trigger]
                    seen.contains(k) <==> old(self).rearmable(k) && exists|j: int|
                        0 <= j < i + 1 && (#[trigger] pages@[j]).addr == k by {
                    if k == page {
                        assert(pages@[i as int].addr == k);
                    } else if seen_before.contains(k) {
                        let j = choose|j: int| 0 <= j < i && (#[trigger] pages@[j]).addr == k;
                        assert(pages@[j].addr == k);
                    }
                }
            }
            i += 1;
        }
        proof {
            assert(seen =~= old(self).rearm_set()) by {
                assert forall|k: u64| old(self).rearm_set().contains(k) implies seen.contains(
                    k,
                ) by {
                    assert(old(self).watchpoint_class@.contains_key(k));
                }
            }
            vstd::set_lib::lemma_len_subset(seen, old(self).state.ept@.dom());
            if rearmed == 0 {
                assert(seen =~= Set::<u64>::empty());
            }
        }
        // One flush for the whole batch (not one per page): the point of sampling
        // is to pay a single flush per window instead of per write.
        if rearmed > 0 {
            self.state.requests.flush_ept = true;
            self.state.exit_stats.wp_rearms += 1;
            self.state.exit_stats.wp_rearm_pages += rearmed;
        }
        proof {
            lemma_memory_of(*old(self), *self);
        }
    }

    fn cow_feedback_buffer_for_mapping(&mut self, index: usize, allocator: &mut PagePool)
        ensures
            final(self).only_cow_changed(old(self)),
            final(self).cow_view(final(allocator)@) == pages_owned(
                old(self).cow_view(old(allocator)@),
                old(self).parent,
                old(self).feedback_gpas(index),
            ),
    {
        proof {
            assert(self.copies() =~= old(self).copies());
        }
        if index >= MAX_FEEDBACK_BUFFERS {
            return ;
        }
        let buffer = match self.state.feedback_buffers[index] {
            Some(buffer) => buffer,
            None => {
                return ;
            },
        };
        let ghost gpas = old(self).feedback_gpas(index);
        let mut i: usize = 0;
        while i < buffer.num_pages
            invariant
                i <= buffer.num_pages,
                buffer.wf(),
                gpas == buffer.gpas@.take(buffer.num_pages as int),
                self.inv(),
                allocator.wf(),
                self.only_cow_changed(old(self)),
                self.memory() == old(self).memory(),
                old(self).writable().subset_of(self.writable()),
                self.cow_view(allocator@) == pages_owned(
                    old(self).cow_view(old(allocator)@),
                    old(self).parent,
                    gpas.take(i as int),
                ),
            decreases buffer.num_pages - i,
        {
            // Skips pages already COW'd in this VM: re-copying would clobber a
            // guest write that happened before the mapping.
            self.own_page(GuestPhysAddr::new(buffer.gpas[i]), allocator);
            assert(gpas.take(i + 1).drop_last() =~= gpas.take(i as int));
            i += 1;
        }
        assert(gpas.take(i as int) =~= gpas);
    }

    fn pre_cow_feedback_buffers(&mut self, allocator: &mut PagePool)
        ensures
            final(self).only_cow_changed(old(self)),
            final(self).cow_view(final(allocator)@) == old(self).buffers_owned(
                old(self).cow_view(old(allocator)@),
                16,
            ),
    {
        proof {
            assert(self.copies() =~= old(self).copies());
        }
        let mut i: usize = 0;
        while i < MAX_FEEDBACK_BUFFERS
            invariant
                i <= 16,
                self.inv(),
                allocator.wf(),
                self.only_cow_changed(old(self)),
                self.memory() == old(self).memory(),
                old(self).writable().subset_of(self.writable()),
                self.cow_view(allocator@) == old(self).buffers_owned(
                    old(self).cow_view(old(allocator)@),
                    i as nat,
                ),
            decreases 16 - i,
        {
            self.cow_feedback_buffer_for_mapping(i, allocator);
            i += 1;
        }
    }

    fn pre_cow_feedback_buffer_at(&mut self, index: usize, allocator: &mut PagePool)
        ensures
            final(self).only_cow_changed(old(self)),
            final(self).cow_view(final(allocator)@) == pages_owned(
                old(self).cow_view(old(allocator)@),
                old(self).parent,
                old(self).feedback_gpas(index),
            ),
    {
        self.cow_feedback_buffer_for_mapping(index, allocator);
    }

    fn pre_cow_io_channel_page(&mut self, allocator: &mut PagePool)
        ensures
            final(self).only_cow_changed(old(self)),
            final(self).cow_view(final(allocator)@) == io_page_owned(
                old(self).cow_view(old(allocator)@),
                old(self).parent,
                old(self).state.io_channel.page_gpa,
            ),
    {
        let page_gpa: u64 = self.state.io_channel.page_gpa;
        if page_gpa == 0 {
            return ;
        }
        self.own_page(GuestPhysAddr::new(page_gpa), allocator);
    }
}

/// Copying the I/O channel's page, if one is registered.
pub open spec fn io_page_owned(c: CowView, parent: ParentVm<'_>, page_gpa: u64) -> CowView {
    if page_gpa == 0 {
        c
    } else {
        page_owned(c, parent, crate::vmx::memory::page_base(page_gpa))
    }
}

/// The exit records of a fork once the pending one is finalized, given the digest
/// of its own pages.
pub open spec fn forked_records_with(vm: ForkedVm<'_>, digest: u64) -> Seq<
    crate::vmx::exit_record::record::ExitRecord,
> {
    crate::vmx::state::finalized_records(
        vm.state.exit_records@,
        vm.state.pending_exit_loc,
        if vm.state.hashes_memory() {
            digest
        } else {
            0
        },
        vm.cow_pages@.dom().len() as u32,
    )
}

/// The exit records of a fork once the pending one is finalized.
pub open spec fn forked_records(vm: ForkedVm<'_>) -> Seq<
    crate::vmx::exit_record::record::ExitRecord,
> {
    // Only COW (modified) pages are hashed: this captures the delta from the
    // parent, which is what matters for comparing forked VM states.
    forked_records_with(
        vm,
        crate::vmx::exit_record::hash::digest(cow_stream(vm.cow_pages.sorted())),
    )
}

/// Overwrite `n` bytes of `bytes`, from `at` on, with those of `src` from `from` on.
fn write_into(bytes: &mut Vec<u8>, at: usize, src: &[u8], from: usize, n: usize)
    requires
        at + n <= old(bytes).len(),
        from + n <= src.len(),
    ensures
        final(bytes)@.len() == old(bytes)@.len(),
        forall|i: int|
            0 <= i < old(bytes)@.len() ==> #[trigger] final(bytes)@[i] == (if at <= i < at + n {
                src@[from + i - at]
            } else {
                old(bytes)@[i]
            }),
{
    let mut i: usize = 0;
    while i < n
        invariant
            i <= n,
            bytes@.len() == old(bytes)@.len(),
            at + n <= bytes.len(),
            from + n <= src.len(),
            forall|j: int|
                0 <= j < bytes@.len() ==> #[trigger] bytes@[j] == (if at <= j < at + i {
                    src@[from + j - at]
                } else {
                    old(bytes)@[j]
                }),
        decreases n - i,
    {
        bytes.set(at + i, src[from + i]);
        i += 1;
    }
}

/// Overwriting part of a copy is writing to memory there.
proof fn lemma_page_written(
    before: ForkedVm<'_>,
    after: ForkedVm<'_>,
    page: u64,
    offset: int,
    data: Seq<u8>,
)
    requires
        before.inv(),
        page % 4096 == 0,
        before.cow_pages@.contains_key(page),
        0 <= offset,
        offset + data.len() <= 4096,
        after.parent == before.parent,
        after.cow_pages@ == before.cow_pages@.insert(page, after.cow_pages@[page]),
        after.cow_pages@[page].bytes@.len() == 4096,
        forall|i: int|
            0 <= i < 4096 ==> #[trigger] after.cow_pages@[page].bytes@[i] == (if offset <= i
                < offset + data.len() {
                data[i - offset]
            } else {
                before.cow_pages@[page].bytes@[i]
            }),
    ensures
        after.memory() == crate::vmx::traits::context::written(
            before.memory(),
            page + offset,
            data,
        ),
        after.writable() == before.writable(),
{
    before.parent.lemma_shape();
    let want = crate::vmx::traits::context::written(before.memory(), page + offset, data);
    assert forall|a: int| after.memory().contains_key(a) implies #[trigger] after.memory()[a]
        == want[a] by {
        crate::vmx::memory::page_base_is_idempotent(a as u64);
    }
    assert(after.memory() =~= want);
    assert(after.writable() =~= before.writable());
}

/// Memory depends on what the copies hold.
proof fn lemma_equal_copies(a: ForkedVm<'_>, b: ForkedVm<'_>)
    requires
        a.cow_pages@ == b.cow_pages@,
        a.parent == b.parent,
    ensures
        a.memory() == b.memory(),
        a.writable() == b.writable(),
{
    assert forall|p: u64| #[trigger] a.page(p) == b.page(p) by {}
    assert(a.memory() =~= b.memory());
    assert(a.writable() =~= b.writable());
}

impl<'a> ForkedVm<'a> {
    /// What a write fault on `page` leaves of `before` and of the pool, and
    /// whether it was handled.
    pub open spec fn cow_fault_handled(
        &self,
        before: &ForkedVm<'a>,
        page: u64,
        pool_before: Seq<GuestPage>,
        pool: Seq<GuestPage>,
        handled: bool,
    ) -> bool {
        if before.watch_hit(page) {
            &&& handled
            &&& pool == pool_before
            &&& self.is_after_hit(before, page)
        } else if before.cow_pages@.contains_key(page) {
            &&& handled
            &&& pool == pool_before
            &&& *self == (ForkedVm {
                state: VmState {
                    exit_stats: AllExitStats {
                        cow: CowStats {
                            stale_tlb_faults: (before.state.exit_stats.cow.stale_tlb_faults
                                + 1) as u64,
                        },
                        ..before.state.exit_stats
                    },
                    ..before.state
                },
                ..*before
            })
        } else {
            let (view, copied) = page_copied(
                before.cow_view(pool_before),
                before.parent,
                page,
                before.first_write_perms(),
            );
            &&& handled == copied
            &&& self.cow_view(pool) == view
            &&& self.is_after_first_write(before, page, copied)
        }
    }
}

} // verus!
