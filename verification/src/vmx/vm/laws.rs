//! What copy-on-write and write-watchpoints promise as a whole.

use vstd::prelude::*;

use super::forked::{CowView, ForkedVm, ForkedVmError};
use super::pages::GuestPage;
use super::parent::ParentVm;
use super::root::RootVm;
use crate::vmx::compat::AllocError;
use crate::vmx::cow::WpClass;
use crate::vmx::ept::{EptEntry, EptPermissions};
use crate::vmx::exits::apic::InstructionFetch;
use crate::vmx::exits::cpuid::CpuidRegs;
use crate::vmx::exits::qualifications::EptViolationQualification;
use crate::vmx::state::{ExitTrigger, VmState};
use crate::vmx::traits::context::VmContext;
use crate::vmx::vmcs::Vmcs;

verus! {

/// Every page that a fork owns is what its page table maps there.
pub open spec fn coherent(c: CowView) -> bool {
    forall|p: u64| #[trigger]
        c.copies.contains_key(p) ==> c.ept.contains_key(p) && c.ept[p].hpa == c.copies[p].phys
}

/// A fork starts with no writable page, so that every first write faults.
pub proof fn fork_starts_write_protected(parent: Map<u64, EptEntry>, page: u64)
    ensures
        super::super::ept::write_protected(parent).contains_key(page) == parent.contains_key(page),
        parent.contains_key(page) ==> super::super::ept::write_protected(parent)[page].perms
            == EptPermissions::ReadExecute && super::super::ept::write_protected(parent)[page].hpa
            == parent[page].hpa,
{
}

/// A fork reads its own copy where it has one and its parent's memory everywhere
/// else, so that two forks of one VM agree on every page that neither has copied.
pub proof fn unowned_memory_is_the_parents<'a>(vm: ForkedVm<'a>, sibling: ForkedVm<'a>, addr: int)
    requires
        vm.inv(),
        sibling.inv(),
        sibling.parent == vm.parent,
        vm.memory().contains_key(addr),
    ensures
        vm.parent.bytes().contains_key(addr),
        !vm.cow_pages@.contains_key(crate::vmx::memory::page_base(addr as u64)) ==> vm.memory()[addr]
            == vm.parent.bytes()[addr],
        !vm.cow_pages@.contains_key(crate::vmx::memory::page_base(addr as u64))
            && !sibling.cow_pages@.contains_key(crate::vmx::memory::page_base(addr as u64))
            ==> sibling.memory()[addr] == vm.memory()[addr],
        vm.cow_pages@.contains_key(crate::vmx::memory::page_base(addr as u64)) ==> vm.memory()[addr]
            == vm.cow_pages@[crate::vmx::memory::page_base(addr as u64)].bytes@[crate::vmx::memory::page_offset(
            addr as u64,
        )],
{
}

/// A page that was copied holds what the parent's page holds, in a frame of its
/// own that the page table maps, and no other page is touched.
pub proof fn copied_page_is_private(
    c: CowView,
    parent: ParentVm<'_>,
    page: u64,
    perms: EptPermissions,
    other: u64,
)
    requires
        super::forked::page_copied(c, parent, page, perms).1,
    ensures
        ({
            let after = super::forked::page_copied(c, parent, page, perms).0;
            &&& after.copies.contains_key(page)
            &&& after.copies[page].bytes == parent.page(page)
            &&& after.copies[page].phys == c.pool.last().phys
            &&& after.ept[page] == (EptEntry { hpa: after.copies[page].phys, perms })
            &&& after.flush_ept
            &&& other != page ==> after.copies.contains_key(other) == c.copies.contains_key(other)
                && after.copies[other] == c.copies[other] && after.ept[other] == c.ept[other]
        }),
{
}

/// Copying a page that the page table maps keeps the two in agreement.
pub proof fn copying_keeps_coherence(
    c: CowView,
    parent: ParentVm<'_>,
    page: u64,
    perms: EptPermissions,
)
    requires
        coherent(c),
        c.ept.contains_key(page),
    ensures
        coherent(super::forked::page_copied(c, parent, page, perms).0),
{
}

/// A page is copied once: asking again leaves everything as it is, whatever was
/// written to the copy meanwhile.
pub proof fn owned_page_is_never_copied_again(c: CowView, parent: ParentVm<'_>, page: u64)
    requires
        c.copies.contains_key(page),
    ensures
        super::forked::page_owned(c, parent, page) == c,
{
}

/// Pages that a fork owns stay its own while others are copied.
pub proof fn owned_pages_stay(c: CowView, parent: ParentVm<'_>, gpas: Seq<u64>, page: u64)
    requires
        c.copies.contains_key(page),
    ensures
        super::forked::pages_owned(c, parent, gpas).copies.contains_key(page),
        super::forked::pages_owned(c, parent, gpas).copies[page] == c.copies[page],
    decreases gpas.len(),
{
    if gpas.len() > 0 {
        owned_pages_stay(c, parent, gpas.drop_last(), page);
    }
}

/// With enough free pages, copying a feedback buffer leaves the fork owning
/// each of its pages that lies in guest memory.
pub proof fn copied_buffer_is_owned(c: CowView, parent: ParentVm<'_>, gpas: Seq<u64>, i: int)
    requires
        0 <= i < gpas.len(),
        gpas.len() <= c.pool.len(),
        crate::vmx::memory::page_base(gpas[i]) + 4096 <= parent.size(),
    ensures
        super::forked::pages_owned(c, parent, gpas).copies.contains_key(
            crate::vmx::memory::page_base(gpas[i]),
        ),
    decreases gpas.len(),
{
    let before = super::forked::pages_owned(c, parent, gpas.drop_last());
    lemma_pool_use(c, parent, gpas.drop_last());
    if i < gpas.len() - 1 {
        copied_buffer_is_owned(c, parent, gpas.drop_last(), i);
        assert(gpas.drop_last()[i] == gpas[i]);
    }
}

proof fn lemma_pool_use(c: CowView, parent: ParentVm<'_>, gpas: Seq<u64>)
    requires
        gpas.len() <= c.pool.len(),
    ensures
        super::forked::pages_owned(c, parent, gpas).pool.len() >= c.pool.len() - gpas.len(),
    decreases gpas.len(),
{
    if gpas.len() > 0 {
        lemma_pool_use(c, parent, gpas.drop_last());
    }
}

/// A watchpoint hit lets the guest make progress: the page is writable
/// afterwards, or the guest is about to be preempted.
pub proof fn watchpoint_hit_makes_progress<'a>(before: ForkedVm<'a>, after: ForkedVm<'a>, page: u64)
    requires
        before.watch_hit(page),
        after.is_after_hit(&before, page),
    ensures
        after.state.ept@[page].perms == EptPermissions::ReadWriteExecute
            || crate::vmx::devices::vectors::has_vector(
            after.state.devices.apic.irr@,
            crate::vmx::exits::interrupts::timer_vector(before.state.devices.apic),
        ),
        after.state.ept@[page].hpa == before.state.ept@[page].hpa,
{
    let apic = before.state.devices.apic;
    let vector = crate::vmx::exits::interrupts::timer_vector(apic);
    crate::vmx::devices::vectors::vector_bits_are_independent(apic.irr@, vector, vector);
}

/// A fault outside user mode is never taken as evidence: it classifies nothing,
/// draws nothing, arms nothing and preempts nothing; the write goes through.
pub proof fn kernel_write_is_let_through<'a>(before: ForkedVm<'a>, after: ForkedVm<'a>, page: u64)
    requires
        before.watch_hit(page),
        before.cpl() != 3,
        after.is_after_hit(&before, page),
    ensures
        after.watchpoint_class@ == before.watchpoint_class@,
        after.state.devices == before.state.devices,
        after.state.debug_watch == before.state.debug_watch,
        after.wp_last_tid == before.wp_last_tid,
        after.wp_switch_epoch == before.wp_switch_epoch,
        after.state.ept@[page].perms == EptPermissions::ReadWriteExecute,
{
}

/// A page that is let go stops faulting for good: it is writable, and no record
/// is left that a re-arm would find.
pub proof fn culled_page_stays_writable<'a>(
    before: ForkedVm<'a>,
    after: ForkedVm<'a>,
    rearmed: ForkedVm<'a>,
    page: u64,
)
    requires
        before.watch_hit(page),
        before.hit_culls(page),
        after.is_after_hit(&before, page),
        rearmed.is_after_rearm(&after),
    ensures
        !after.watchpoint_class@.contains_key(page),
        after.state.ept@[page].perms == EptPermissions::ReadWriteExecute,
        rearmed.state.ept@[page].perms == EptPermissions::ReadWriteExecute,
{
}

/// A page is found to be shared by a second writer alone, and stays so.
pub proof fn sharing_is_found_once<'a>(before: ForkedVm<'a>, after: ForkedVm<'a>, page: u64)
    requires
        before.watch_hit(page),
        after.is_after_hit(&before, page),
        before.watchpoint_class@.contains_key(page),
    ensures
        before.watchpoint_class@[page].confirmed ==> after.watchpoint_class@
            == before.watchpoint_class@,
        !before.watchpoint_class@[page].confirmed && after.watchpoint_class@.contains_key(page)
            && after.watchpoint_class@[page].confirmed ==> before.cpl() == 3 && before.tid()
            != before.watchpoint_class@[page].first_tid,
{
}

/// After a re-arm no watched page is writable, every other page is as it was,
/// and a second re-arm finds nothing to do.
pub proof fn rearm_protects_every_watched_page<'a>(
    before: ForkedVm<'a>,
    after: ForkedVm<'a>,
    page: u64,
)
    requires
        before.inv(),
        before.state.devices.apic.watchpoint_pct != 0,
        after.is_after_rearm(&before),
    ensures
        after.watchpoint_class@.contains_key(page) ==> !after.rearmable(page),
        !before.watchpoint_class@.contains_key(page) && before.state.ept@.contains_key(page)
            ==> after.state.ept@[page] == before.state.ept@[page],
        after.rearm_set() == Set::<u64>::empty(),
{
    before.state.ept.lemma_finite();
    assert(before.rearm_set().subset_of(before.state.ept@.dom()));
    vstd::set_lib::lemma_len_subset(before.rearm_set(), before.state.ept@.dom());
    if before.rearm_set().len() == 0 {
        assert(before.rearm_set() =~= Set::<u64>::empty());
    }
    assert(before.rearm_set().contains(page) == (before.watchpoint_class@.contains_key(page)
        && before.rearmable(page)));
    assert forall|k: u64| !after.rearm_set().contains(k) by {
        assert(before.rearm_set().contains(k) == (before.watchpoint_class@.contains_key(k)
            && before.rearmable(k)));
    }
    assert(after.rearm_set() =~= Set::<u64>::empty());
}

// ---- Forking ----

/// A fork goes on where its parent stood: every register, every field of the
/// control structure but the host's return address, devices, MSRs and clock are the
/// parent's, and memory reads the same byte for byte. It owes nothing of what the
/// parent counted, watched or recorded.
pub proof fn fork_continues_its_parent<'a>(
    r: Result<ForkedVm<'a>, ForkedVmError<AllocError>>,
    parent: ParentVm<'a>,
    parent_state: VmState,
    vmcs: Option<Vmcs>,
    exit_handler_rip: u64,
    pool_before: Seq<GuestPage>,
    pool: Seq<GuestPage>,
    i: u8,
    addr: int,
)
    requires
        super::forked::fork_result(
            r,
            parent,
            parent_state,
            vmcs,
            exit_handler_rip,
            pool_before,
            pool,
        ),
    ensures
        r is Ok <==> pool_before.len() > 0 && vmcs is Some && vmcs->0.host_rip is Some
            && vmcs->0.write_faults.host_rip is None,
        r is Ok ==> ({
            let fork = r->Ok_0;
            &&& fork.state.gprs.value(i) == parent_state.gprs.value(i)
            &&& fork.state.gprs == parent_state.gprs
            &&& fork.state.vmcs == (Vmcs {
                host_rip: Some(exit_handler_rip),
                ..parent_state.vmcs
            })
            &&& fork.state.devices == parent_state.devices
            &&& fork.state.msr_state == parent_state.msr_state
            &&& fork.state.xcr0_mask == parent_state.xcr0_mask
            &&& fork.state.vmx_ctx == parent_state.vmx_ctx
            &&& fork.state.emulated_tsc == parent_state.emulated_tsc
            &&& fork.state.tsc_frequency == parent_state.tsc_frequency
            &&& fork.state.last_exit_deterministic == parent_state.last_exit_deterministic
            &&& fork.state.intercept_pf == parent_state.intercept_pf
            &&& fork.state.io_channel == parent_state.io_channel
            &&& fork.state.feedback_buffers == parent_state.feedback_buffers
            &&& fork.state.exit_trigger == parent_state.exit_trigger
            &&& parent.bytes().contains_key(addr) ==> fork.memory().contains_key(addr)
                && fork.memory()[addr] == parent.bytes()[addr]
            &&& fork.state.exit_stats.wp_faults == 0 && fork.state.exit_stats.wp_culled == 0
            &&& fork.state.exit_records@.len() == 0 && fork.state.pending_exit_loc is None
            &&& forall|k: int| 0 <= k < 4 ==> #[trigger] fork.state.debug_watch.slots@[k] is None
            &&& forall|page: u64| !#[trigger] fork.watchpoint_class@.contains_key(page)
            &&& fork.wp_last_tid == 0 && fork.wp_switch_epoch == 0 && fork.children_count == 0
        }),
{
}

/// What a fork takes from the pool: one page for the root of its page table, and
/// one more where its parent had registered a page for the I/O channel that lies in
/// guest memory and another page is left. That page is then the fork's own and
/// writable; every other page that the parent maps is mapped to the parent's frame,
/// and no longer writable.
pub proof fn fork_maps_its_parents_frames<'a>(
    fork: ForkedVm<'a>,
    parent: ParentVm<'a>,
    parent_state: VmState,
    exit_handler_rip: u64,
    pool_before: Seq<GuestPage>,
    pool: Seq<GuestPage>,
    page: u64,
)
    requires
        pool_before.len() > 0,
        super::forked::forks(
            fork,
            parent,
            parent_state,
            exit_handler_rip,
            pool_before,
            pool,
        ),
    ensures
        ({
            let channel = parent_state.io_channel.page_gpa;
            let its = crate::vmx::memory::page_base(channel);
            let copied = channel != 0 && pool_before.len() > 1 && its + 4096 <= parent.size();
            &&& fork.state.ept_root == pool_before.last().phys
            &&& fork.state.ept@.contains_key(page) == parent_state.ept@.contains_key(page)
            &&& fork.cow_pages@.contains_key(page) == (copied && page == its)
            &&& copied ==> fork.cow_pages@[its].bytes@ == parent.page(its)
            &&& copied && parent_state.ept@.contains_key(its) ==> fork.state.ept@[its].perms
                == EptPermissions::ReadWriteExecute && fork.state.ept@[its].hpa
                == fork.cow_pages@[its].phys && fork.cow_pages@[its].phys
                == pool_before[pool_before.len() - 2].phys
            &&& parent_state.ept@.contains_key(page) && !(copied && page == its)
                ==> fork.state.ept@[page] == (EptEntry {
                hpa: parent_state.ept@[page].hpa,
                perms: EptPermissions::ReadExecute,
            })
        }),
{
    let view = fork.cow_view(pool);
    assert(view.copies == fork.copies());
    assert(fork.copies().contains_key(page) == fork.cow_pages@.contains_key(page));
    let its = crate::vmx::memory::page_base(parent_state.io_channel.page_gpa);
    assert(fork.copies().contains_key(its) == fork.cow_pages@.contains_key(its));
    if fork.cow_pages@.contains_key(its) {
        assert(fork.copies()[its].bytes == fork.cow_pages@[its].bytes@);
        assert(fork.copies()[its].phys == fork.cow_pages@[its].phys);
    }
}

/// CPUID gives the same registers on a fork as on its parent, and every MSR reads
/// the same.
pub proof fn fork_answers_as_its_parent<'a>(
    fork: ForkedVm<'a>,
    parent: ParentVm<'a>,
    parent_state: VmState,
    exit_handler_rip: u64,
    pool_before: Seq<GuestPage>,
    pool: Seq<GuestPage>,
    host: CpuidRegs,
    n: u32,
    i: u8,
)
    requires
        super::forked::forks(
            fork,
            parent,
            parent_state,
            exit_handler_rip,
            pool_before,
            pool,
        ),
    ensures
        ({
            let here = crate::vmx::exits::cpuid::cpuid_answered(fork.state, host);
            let there = crate::vmx::exits::cpuid::cpuid_answered(parent_state, host);
            &&& here.gprs.value(i) == there.gprs.value(i)
            &&& here.vmcs.guest_rip == there.vmcs.guest_rip
        }),
        crate::vmx::exits::msr::msr_value(fork.state, n) == crate::vmx::exits::msr::msr_value(
            parent_state,
            n,
        ),
{
    let rip = fork.state.vmcs.host_rip;
    assert(fork.state.vmcs == (Vmcs { host_rip: rip, ..parent_state.vmcs }));
}

/// An access to the local or the I/O APIC leaves the same registers and the same
/// devices on a fork as on its parent.
pub proof fn fork_accesses_devices_as_its_parent<'a>(
    fork: ForkedVm<'a>,
    parent: ParentVm<'a>,
    parent_state: VmState,
    exit_handler_rip: u64,
    pool_before: Seq<GuestPage>,
    pool: Seq<GuestPage>,
    gpa: u64,
    qual: EptViolationQualification,
    fetch: InstructionFetch,
    i: u8,
)
    requires
        super::forked::forks(
            fork,
            parent,
            parent_state,
            exit_handler_rip,
            pool_before,
            pool,
        ),
    ensures
        ({
            let here = crate::vmx::exits::apic::apic_access(fork.state, gpa, qual, fetch);
            let there = crate::vmx::exits::apic::apic_access(parent_state, gpa, qual, fetch);
            &&& here.0.gprs.value(i) == there.0.gprs.value(i)
            &&& here.0.devices == there.0.devices
            &&& here.0.vmcs.guest_rip == there.0.vmcs.guest_rip
            &&& here.1 == there.1
        }),
        ({
            let here = crate::vmx::exits::apic::ioapic_access(fork.state, gpa, qual, fetch);
            let there = crate::vmx::exits::apic::ioapic_access(parent_state, gpa, qual, fetch);
            &&& here.0.gprs.value(i) == there.0.gprs.value(i)
            &&& here.0.devices == there.0.devices
            &&& here.0.vmcs.guest_rip == there.0.vmcs.guest_rip
            &&& here.1 == there.1
        }),
{
    let rip = fork.state.vmcs.host_rip;
    assert(fork.state.vmcs == (Vmcs { host_rip: rip, ..parent_state.vmcs }));
}

// ---- Write faults, over what the guest and the records show ----

/// The guest faults on a write to a page that the fork owns and keeps read-only,
/// with watchpoints on; CS and FS base are as given.
pub open spec fn writes_to_watched_page(vm: ForkedVm<'_>, page: u64, cs: u16, fs_base: u64) -> bool {
    &&& vm.cow_pages@.contains_key(page)
    &&& vm.state.devices.apic.watchpoint_pct != 0
    &&& vm.state.ept@.contains_key(page)
    &&& vm.state.ept@[page].perms == EptPermissions::ReadExecute
    &&& vm.state.vmcs.guest_cs_selector == Some(cs)
    &&& vm.state.vmcs.guest_fs_base == Some(fs_base)
}

/// The thread-switch count after a fault of user thread `fs_base`.
pub open spec fn switches_after(vm: ForkedVm<'_>, fs_base: u64) -> int {
    if fs_base == vm.wp_last_tid {
        vm.wp_switch_epoch as int
    } else {
        (vm.wp_switch_epoch + 1) % 0x1_0000_0000
    }
}

/// Nothing but the given page's mapping, its record, the thread-switch tracking,
/// counters, the APIC and data breakpoints differs, and the mapping still leads to
/// the same frame.
pub open spec fn only_watch_state_changed(
    before: ForkedVm<'_>,
    after: ForkedVm<'_>,
    page: u64,
    other: u64,
) -> bool {
    &&& after.cow_pages == before.cow_pages
    &&& after.parent == before.parent
    &&& after.state.gprs == before.state.gprs
    &&& after.state.vmcs == before.state.vmcs
    &&& after.state.emulated_tsc == before.state.emulated_tsc
    &&& after.state.devices.ioapic == before.state.devices.ioapic
    &&& after.state.io_channel == before.state.io_channel
    &&& after.state.ept@.contains_key(page)
    &&& after.state.ept@[page].hpa == before.state.ept@[page].hpa
    &&& other != page ==> after.state.ept@.contains_key(other) == before.state.ept@.contains_key(
        other,
    ) && after.state.ept@[other] == before.state.ept@[other]
        && after.watchpoint_class@.contains_key(other) == before.watchpoint_class@.contains_key(
        other,
    ) && after.watchpoint_class@[other] == before.watchpoint_class@[other]
}

/// A page's only writer so far writes it again, from user mode. While fewer thread
/// switches than the configured number lie between arming and this fault, and fewer
/// faults than the configured cap were counted with this one, the page stays
/// watched: its record counts one fault more. Once either limit is reached the
/// record is gone and the page was let go. The write goes through either way.
pub proof fn only_writer_is_watched_up_to_the_limits<'a>(
    before: ForkedVm<'a>,
    after: ForkedVm<'a>,
    page: u64,
    cs: u16,
    fs_base: u64,
    pool_before: Seq<GuestPage>,
    pool: Seq<GuestPage>,
    handled: bool,
    other: u64,
)
    requires
        writes_to_watched_page(before, page, cs, fs_base),
        cs & 3 == 3,
        before.watchpoint_class@.contains_key(page),
        !before.watchpoint_class@[page].confirmed,
        before.watchpoint_class@[page].first_tid == fs_base,
        before.state.exit_stats.wp_culled < u64::MAX,
        before.state.exit_stats.wp_faults < u64::MAX,
        after.cow_fault_handled(&before, page, pool_before, pool, handled),
    ensures
        ({
            let record = before.watchpoint_class@[page];
            let apic = before.state.devices.apic;
            let switches = (switches_after(before, fs_base) - record.arm_epoch) % 0x1_0000_0000;
            let stays = switches < apic.watchpoint_cull_epochs && record.fault_count + 1
                < apic.watchpoint_cull_cap;
            &&& handled && pool == pool_before
            &&& stays ==> {
                &&& after.watchpoint_class@.contains_key(page)
                &&& after.watchpoint_class@[page].fault_count == record.fault_count + 1
                &&& after.watchpoint_class@[page].first_tid == fs_base
                &&& after.watchpoint_class@[page].arm_epoch == record.arm_epoch
                &&& !after.watchpoint_class@[page].confirmed
                &&& after.state.exit_stats.wp_culled == before.state.exit_stats.wp_culled
            }
            &&& !stays ==> {
                &&& !after.watchpoint_class@.contains_key(page)
                &&& after.state.exit_stats.wp_culled == before.state.exit_stats.wp_culled + 1
            }
            &&& after.state.ept@[page].perms == EptPermissions::ReadWriteExecute
            &&& after.state.requests.flush_ept
            &&& after.state.devices.apic == apic
            &&& after.state.debug_watch == before.state.debug_watch
            &&& after.wp_last_tid == fs_base
            &&& after.wp_switch_epoch == switches_after(before, fs_base)
            &&& after.state.exit_stats.wp_faults == before.state.exit_stats.wp_faults + 1
            &&& after.state.exit_stats.wp_confirmed == before.state.exit_stats.wp_confirmed
            &&& after.state.exit_stats.wp_preempts == before.state.exit_stats.wp_preempts
            &&& only_watch_state_changed(before, after, page, other)
        }),
{
}

/// A second user thread writes a watched page: the page is known to be shared from
/// then on, with its record otherwise as it was, and it is not let go, whatever the
/// limits.
pub proof fn second_writer_confirms_sharing<'a>(
    before: ForkedVm<'a>,
    after: ForkedVm<'a>,
    page: u64,
    cs: u16,
    fs_base: u64,
    pool_before: Seq<GuestPage>,
    pool: Seq<GuestPage>,
    handled: bool,
    other: u64,
)
    requires
        writes_to_watched_page(before, page, cs, fs_base),
        cs & 3 == 3,
        before.watchpoint_class@.contains_key(page),
        !before.watchpoint_class@[page].confirmed,
        before.watchpoint_class@[page].first_tid != fs_base,
        before.state.exit_stats.wp_confirmed < u64::MAX,
        before.state.exit_stats.wp_faults < u64::MAX,
        after.cow_fault_handled(&before, page, pool_before, pool, handled),
    ensures
        handled && pool == pool_before,
        after.watchpoint_class@.contains_key(page),
        after.watchpoint_class@[page] == (WpClass {
            confirmed: true,
            ..before.watchpoint_class@[page]
        }),
        after.state.exit_stats.wp_confirmed == before.state.exit_stats.wp_confirmed + 1,
        after.state.exit_stats.wp_culled == before.state.exit_stats.wp_culled,
        after.state.exit_stats.wp_faults == before.state.exit_stats.wp_faults + 1,
        after.wp_last_tid == fs_base,
        after.wp_switch_epoch == switches_after(before, fs_base),
        only_watch_state_changed(before, after, page, other),
{
}

/// A user thread writes a page that is known to be shared, or finds it to be; a page
/// without a record counts as shared. One
/// number is drawn, the next of the xorshift stream; if its remainder by 100 is
/// below the configured percentage and the guest has an enabled, unmasked timer
/// vector that is not reserved, that vector is requested. Without data breakpoints
/// the write is then held back; otherwise it goes through.
pub proof fn shared_write_draws_a_preemption<'a>(
    before: ForkedVm<'a>,
    after: ForkedVm<'a>,
    page: u64,
    cs: u16,
    fs_base: u64,
    pool_before: Seq<GuestPage>,
    pool: Seq<GuestPage>,
    handled: bool,
    vector: u8,
    other: u64,
)
    requires
        writes_to_watched_page(before, page, cs, fs_base),
        cs & 3 == 3,
        !before.watchpoint_class@.contains_key(page) || before.watchpoint_class@[page].confirmed
            || before.watchpoint_class@[page].first_tid != fs_base,
        before.state.exit_stats.wp_preempts < u64::MAX,
        after.cow_fault_handled(&before, page, pool_before, pool, handled),
    ensures
        ({
            let apic = before.state.devices.apic;
            let x1 = apic.watchpoint_seed ^ (apic.watchpoint_seed << 13);
            let x2 = x1 ^ (x1 >> 7);
            let x3 = x2 ^ (x2 << 17);
            let preempts = x3 % 100 < apic.watchpoint_pct && apic.svr & (1u32 << 8) != 0
                && apic.lvt_timer & (1u32 << 16) == 0 && (apic.lvt_timer & 0xFF) as u8 >= 16;
            &&& handled && pool == pool_before
            &&& after.state.devices.apic.watchpoint_seed == x3
            &&& crate::vmx::devices::vectors::has_vector(after.state.devices.apic.irr@, vector) == (
            crate::vmx::devices::vectors::has_vector(apic.irr@, vector) || (preempts && vector == (
            apic.lvt_timer & 0xFF) as u8))
            &&& after.state.exit_stats.wp_preempts == before.state.exit_stats.wp_preempts + (
            if preempts {
                1int
            } else {
                0
            })
            &&& after.state.ept@[page].perms == (if preempts && !apic.watchpoint_dr {
                EptPermissions::ReadExecute
            } else {
                EptPermissions::ReadWriteExecute
            })
            &&& after.watchpoint_class@.contains_key(page)
                == before.watchpoint_class@.contains_key(page)
            &&& before.watchpoint_class@.contains_key(page) ==> after.watchpoint_class@[page]
                == (WpClass { confirmed: true, ..before.watchpoint_class@[page] })
            &&& after.state.exit_stats.wp_culled == before.state.exit_stats.wp_culled
            &&& only_watch_state_changed(before, after, page, other)
        }),
{
    let apic = before.state.devices.apic;
    let timer = (apic.lvt_timer & 0xFF) as u8;
    crate::vmx::devices::vectors::vector_bits_are_independent(apic.irr@, timer, vector);
    crate::vmx::devices::vectors::vector_bits_are_independent(apic.irr@, timer, timer);
}

/// With data breakpoints, a write that shows a page to be shared is watched at its
/// exact address: unless one already does, a breakpoint is armed there for the
/// writing thread, provided that the processor told the address and the code that
/// wrote lies in the configured window.
pub proof fn confirming_write_arms_a_breakpoint<'a>(
    before: ForkedVm<'a>,
    after: ForkedVm<'a>,
    page: u64,
    cs: u16,
    fs_base: u64,
    address: u64,
    rip: u64,
    pool_before: Seq<GuestPage>,
    pool: Seq<GuestPage>,
    handled: bool,
)
    requires
        before.state.debug_watch.wf(),
        writes_to_watched_page(before, page, cs, fs_base),
        cs & 3 == 3,
        before.watchpoint_class@.contains_key(page),
        !before.watchpoint_class@[page].confirmed,
        before.watchpoint_class@[page].first_tid != fs_base,
        before.state.devices.apic.watchpoint_dr,
        before.state.vmcs.guest_linear_addr == Some(address),
        before.state.vmcs.guest_rip == Some(rip),
        before.state.exit_stats.wp_dr_armed < u64::MAX,
        before.state.exit_stats.wp_dr_evictions < u64::MAX,
        after.cow_fault_handled(&before, page, pool_before, pool, handled),
    ensures
        ({
            let apic = before.state.devices.apic;
            let wanted = address != 0 && (apic.watchpoint_dr_rip_hi == 0
                || apic.watchpoint_dr_rip_lo <= rip < apic.watchpoint_dr_rip_hi);
            let old_slots = before.state.debug_watch.slots@;
            let slots = after.state.debug_watch.slots@;
            let known = exists|k: int|
                0 <= k < 4 && (#[trigger] old_slots[k]) is Some && old_slots[k]->0.gva == address;
            let full = old_slots[0] is Some && old_slots[1] is Some && old_slots[2] is Some
                && old_slots[3] is Some;
            let stats = after.state.exit_stats;
            &&& stats.wp_dr_armed == before.state.exit_stats.wp_dr_armed + (if wanted && !known {
                1int
            } else {
                0
            })
            &&& stats.wp_dr_evictions == before.state.exit_stats.wp_dr_evictions + (if wanted
                && !known && full {
                1int
            } else {
                0
            })
            &&& !wanted || known ==> slots == old_slots
            &&& wanted ==> exists|k: int|
                0 <= k < 4 && (#[trigger] slots[k]) is Some && slots[k]->0.gva == address
            &&& wanted && !known ==> exists|k: int|
                0 <= k < 4 && (#[trigger] slots[k]) is Some && slots[k]->0.gva == address
                    && slots[k]->0.owner_tid == fs_base && slots[k]->0.arm_epoch == switches_after(
                    before,
                    fs_base,
                ) && address as int % slots[k]->0.len as int == 0
        }),
{
    let old_slots = before.state.debug_watch.slots@;
    let slots = after.state.debug_watch.slots@;
    let cursor = before.state.debug_watch.evict_cursor;
    let w = crate::vmx::dr_watch::watcher(old_slots, address);
    if w < 4 {
        assert(old_slots[w] is Some && old_slots[w]->0.gva == address);
    }
    let target = crate::vmx::dr_watch::armed_slot(
        crate::vmx::dr_watch::arm_outcome(old_slots, cursor, address),
    );
    assert(0 <= target < 4);
    let known = exists|k: int|
        0 <= k < 4 && (#[trigger] old_slots[k]) is Some && old_slots[k]->0.gva == address;
    if known {
        let k = choose|k: int|
            0 <= k < 4 && (#[trigger] old_slots[k]) is Some && old_slots[k]->0.gva == address;
        assert(k == 0 || k == 1 || k == 2 || k == 3);
        assert(w < 4);
    }
    assert(slots[target as int] == slots[target as int]);
    let len = before.state.devices.apic.dr_len();
    assert(address as int % crate::vmx::dr_watch::watch_len(len, address) as int == 0);
}

/// On a page already known to be shared a breakpoint goes with the draw: without the
/// draw's consent no slot changes, and with it the written address is watched, if it
/// is one to be watched.
pub proof fn sampled_write_arms_a_breakpoint<'a>(
    before: ForkedVm<'a>,
    after: ForkedVm<'a>,
    page: u64,
    cs: u16,
    fs_base: u64,
    address: u64,
    rip: u64,
    pool_before: Seq<GuestPage>,
    pool: Seq<GuestPage>,
    handled: bool,
)
    requires
        before.state.debug_watch.wf(),
        writes_to_watched_page(before, page, cs, fs_base),
        cs & 3 == 3,
        before.watchpoint_class@.contains_key(page),
        before.watchpoint_class@[page].confirmed,
        before.state.vmcs.guest_linear_addr == Some(address),
        before.state.vmcs.guest_rip == Some(rip),
        after.cow_fault_handled(&before, page, pool_before, pool, handled),
    ensures
        ({
            let apic = before.state.devices.apic;
            let x1 = apic.watchpoint_seed ^ (apic.watchpoint_seed << 13);
            let x2 = x1 ^ (x1 >> 7);
            let x3 = x2 ^ (x2 << 17);
            let wanted = apic.watchpoint_dr && x3 % 100 < apic.watchpoint_pct && address != 0 && (
            apic.watchpoint_dr_rip_hi == 0 || apic.watchpoint_dr_rip_lo <= rip
                < apic.watchpoint_dr_rip_hi);
            let slots = after.state.debug_watch.slots@;
            &&& !wanted ==> after.state.debug_watch == before.state.debug_watch
            &&& wanted ==> exists|k: int|
                0 <= k < 4 && (#[trigger] slots[k]) is Some && slots[k]->0.gva == address
        }),
{
    let old_slots = before.state.debug_watch.slots@;
    let slots = after.state.debug_watch.slots@;
    let target = crate::vmx::dr_watch::armed_slot(
        crate::vmx::dr_watch::arm_outcome(
            old_slots,
            before.state.debug_watch.evict_cursor,
            address,
        ),
    );
    assert(0 <= target < 4);
    assert(slots[target as int] == slots[target as int]);
}

/// A fault from outside user mode is no evidence and no occasion: the record, the
/// APIC, the breakpoints and the thread tracking stay, and the write goes through.
pub proof fn write_outside_user_mode_goes_through<'a>(
    before: ForkedVm<'a>,
    after: ForkedVm<'a>,
    page: u64,
    cs: u16,
    fs_base: u64,
    pool_before: Seq<GuestPage>,
    pool: Seq<GuestPage>,
    handled: bool,
    other: u64,
)
    requires
        writes_to_watched_page(before, page, cs, fs_base),
        cs & 3 != 3,
        before.state.exit_stats.wp_faults < u64::MAX,
        after.cow_fault_handled(&before, page, pool_before, pool, handled),
    ensures
        handled && pool == pool_before,
        after.watchpoint_class@ == before.watchpoint_class@,
        after.state.devices == before.state.devices,
        after.state.debug_watch == before.state.debug_watch,
        after.wp_last_tid == before.wp_last_tid,
        after.wp_switch_epoch == before.wp_switch_epoch,
        after.state.ept@[page].perms == EptPermissions::ReadWriteExecute,
        after.state.exit_stats.wp_faults == before.state.exit_stats.wp_faults + 1,
        after.state.exit_stats.wp_culled == before.state.exit_stats.wp_culled,
        after.state.exit_stats.wp_confirmed == before.state.exit_stats.wp_confirmed,
        only_watch_state_changed(before, after, page, other),
{
}

/// The first write to a page that the parent maps, with a page to spare: the fork
/// gets a page of its own with the parent's contents, mapped in place of the
/// parent's frame. With watchpoints on and from user mode, the page stays read-only
/// and a fresh record holds the writer and the current thread-switch count;
/// otherwise it is writable and there is no record.
pub proof fn first_write_copies_and_may_arm<'a>(
    before: ForkedVm<'a>,
    after: ForkedVm<'a>,
    page: u64,
    cs: u16,
    fs_base: u64,
    pool_before: Seq<GuestPage>,
    pool: Seq<GuestPage>,
    handled: bool,
    other: u64,
)
    requires
        !before.cow_pages@.contains_key(page),
        before.state.ept@.contains_key(page),
        before.state.vmcs.guest_cs_selector == Some(cs),
        before.state.vmcs.guest_fs_base == Some(fs_base),
        before.state.exit_stats.wp_armed < u64::MAX,
        pool_before.len() > 0,
        page + 4096 <= before.parent.size(),
        after.cow_fault_handled(&before, page, pool_before, pool, handled),
    ensures
        ({
            let watched = before.state.devices.apic.watchpoint_pct != 0 && cs & 3 == 3;
            &&& handled
            &&& pool == pool_before.drop_last()
            &&& after.cow_pages@.contains_key(page)
            &&& after.cow_pages@[page].bytes@ == before.parent.page(page)
            &&& after.cow_pages@[page].phys == pool_before.last().phys
            &&& after.state.ept@.contains_key(page)
            &&& after.state.ept@[page].hpa == pool_before.last().phys
            &&& after.state.requests.flush_ept
            &&& watched ==> {
                &&& after.state.ept@[page].perms == EptPermissions::ReadExecute
                &&& after.watchpoint_class@.contains_key(page)
                &&& after.watchpoint_class@[page] == (WpClass {
                    first_tid: fs_base,
                    arm_epoch: before.wp_switch_epoch,
                    fault_count: 0,
                    confirmed: false,
                })
                &&& after.state.exit_stats.wp_armed == before.state.exit_stats.wp_armed + 1
            }
            &&& !watched ==> {
                &&& after.state.ept@[page].perms == EptPermissions::ReadWriteExecute
                &&& after.watchpoint_class@ == before.watchpoint_class@
                &&& after.state.exit_stats.wp_armed == before.state.exit_stats.wp_armed
            }
            &&& other != page ==> after.cow_pages@.contains_key(other)
                == before.cow_pages@.contains_key(other) && after.state.ept@.contains_key(other)
                == before.state.ept@.contains_key(other) && after.state.ept@[other]
                == before.state.ept@[other]
            &&& after.state.gprs == before.state.gprs && after.state.vmcs == before.state.vmcs
            &&& after.state.devices == before.state.devices
            &&& after.wp_switch_epoch == before.wp_switch_epoch
        }),
{
    let view = after.cow_view(pool);
    assert(view.copies == after.copies());
    assert(after.copies().contains_key(page) == after.cow_pages@.contains_key(page));
    assert(after.copies().contains_key(other) == after.cow_pages@.contains_key(other));
    assert(before.copies().contains_key(other) == before.cow_pages@.contains_key(other));
    assert(after.copies()[page].bytes == after.cow_pages@[page].bytes@);
    assert(after.copies()[page].phys == after.cow_pages@[page].phys);
}

/// A first write is not handled, and nothing is copied, mapped or recorded, where no
/// page is left or the page does not lie in guest memory.
pub proof fn first_write_without_a_page_is_not_handled<'a>(
    before: ForkedVm<'a>,
    after: ForkedVm<'a>,
    page: u64,
    pool_before: Seq<GuestPage>,
    pool: Seq<GuestPage>,
    handled: bool,
    other: u64,
)
    requires
        !before.cow_pages@.contains_key(page),
        pool_before.len() == 0 || page + 4096 > before.parent.size(),
        after.cow_fault_handled(&before, page, pool_before, pool, handled),
    ensures
        !handled,
        after.cow_pages@.contains_key(other) == before.cow_pages@.contains_key(other),
        after.state.ept@ == before.state.ept@,
        after.watchpoint_class@ == before.watchpoint_class@,
        after.state.exit_stats == before.state.exit_stats,
        after.state.devices == before.state.devices,
        pool_before.len() == 0 ==> pool == pool_before,
{
    let view = after.cow_view(pool);
    assert(view.copies == after.copies());
    assert(after.copies().contains_key(other) == after.cow_pages@.contains_key(other));
    assert(before.copies().contains_key(other) == before.cow_pages@.contains_key(other));
}

/// A fault on a page that the fork owns and that is not kept read-only, or with
/// watchpoints off, comes from a cached mapping: it is counted, and the write is
/// simply tried again.
pub proof fn stale_fault_is_only_counted<'a>(
    before: ForkedVm<'a>,
    after: ForkedVm<'a>,
    page: u64,
    pool_before: Seq<GuestPage>,
    pool: Seq<GuestPage>,
    handled: bool,
)
    requires
        before.cow_pages@.contains_key(page),
        before.state.devices.apic.watchpoint_pct == 0 || !before.state.ept@.contains_key(page)
            || before.state.ept@[page].perms != EptPermissions::ReadExecute,
        before.state.exit_stats.cow.stale_tlb_faults < u64::MAX,
        after.cow_fault_handled(&before, page, pool_before, pool, handled),
    ensures
        handled && pool == pool_before,
        after.cow_pages == before.cow_pages,
        after.watchpoint_class == before.watchpoint_class,
        after.state.ept == before.state.ept,
        after.state.devices == before.state.devices,
        after.state.gprs == before.state.gprs,
        after.state.exit_stats.cow.stale_tlb_faults
            == before.state.exit_stats.cow.stale_tlb_faults + 1,
        after.state.exit_stats.wp_faults == before.state.exit_stats.wp_faults,
{
}

/// A re-arm with watchpoints on makes exactly the watched pages that are writable
/// read-only again, counts them, and has cached mappings flushed if there were any;
/// no frame changes, and no page that is not watched is touched.
pub proof fn rearm_makes_watched_pages_read_only<'a>(
    before: ForkedVm<'a>,
    after: ForkedVm<'a>,
    page: u64,
)
    requires
        before.inv(),
        before.state.devices.apic.watchpoint_pct != 0,
        before.state.exit_stats.wp_rearms < u64::MAX,
        before.state.exit_stats.wp_rearm_pages + before.state.ept@.dom().len() <= u64::MAX,
        after.is_after_rearm(&before),
        before.state.ept@.contains_key(page),
    ensures
        ({
            let protects = before.watchpoint_class@.contains_key(page)
                && before.state.ept@[page].perms == EptPermissions::ReadWriteExecute;
            &&& after.state.ept@.contains_key(page)
            &&& after.state.ept@[page].hpa == before.state.ept@[page].hpa
            &&& after.state.ept@[page].perms == (if protects {
                EptPermissions::ReadExecute
            } else {
                before.state.ept@[page].perms
            })
            &&& protects ==> {
                &&& after.state.requests.flush_ept
                &&& after.state.exit_stats.wp_rearms == before.state.exit_stats.wp_rearms + 1
                &&& after.state.exit_stats.wp_rearm_pages
                    > before.state.exit_stats.wp_rearm_pages
            }
            &&& after.watchpoint_class == before.watchpoint_class
            &&& after.cow_pages == before.cow_pages
            &&& after.state.devices == before.state.devices
        }),
{
    before.state.ept.lemma_finite();
    assert(before.rearm_set().subset_of(before.state.ept@.dom()));
    vstd::set_lib::lemma_len_subset(before.rearm_set(), before.state.ept@.dom());
    assert(before.rearm_set().contains(page) == (before.watchpoint_class@.contains_key(page)
        && before.state.ept@[page].perms == EptPermissions::ReadWriteExecute));
    if before.rearm_set().len() == 0 {
        assert(before.rearm_set() =~= Set::<u64>::empty());
    }
}

/// Watched pages are sampled once an interval: the first pass sets the deadline an
/// interval ahead, a pass before the deadline does nothing, and one at or past it
/// re-arms and sets the next deadline an interval ahead.
pub proof fn rearm_comes_once_an_interval(vm: ForkedVm<'_>)
    requires
        vm.state.devices.apic.watchpoint_pct != 0,
        vm.state.devices.apic.wp_rearm_interval != 0,
        vm.state.emulated_tsc + vm.state.devices.apic.wp_rearm_interval <= u64::MAX,
    ensures
        ({
            let apic = vm.state.devices.apic;
            let tsc = vm.state.emulated_tsc;
            let due = crate::vmx::exits::interrupts::wp_rearm_due(apic, tsc);
            let after = vm.rearm_checked().state.devices.apic;
            &&& due == (apic.wp_rearm_deadline != 0 && apic.wp_rearm_deadline <= tsc)
            &&& after.wp_rearm_deadline == (if apic.wp_rearm_deadline > tsc {
                apic.wp_rearm_deadline as int
            } else {
                tsc + apic.wp_rearm_interval
            })
            &&& after.irr == apic.irr && after.watchpoint_seed == apic.watchpoint_seed
            &&& vm.rearm_checked().watchpoint_class == vm.watchpoint_class
        }),
{
}

// ---- Exit records ----

/// A pending exit record of a fork gets the digest of its own pages and their
/// number; with memory hashes skipped, or no exits recorded, the hash is 0.
pub proof fn fork_record_counts_its_own_pages(vm: ForkedVm<'_>, digest: u64, i: usize)
    requires
        vm.state.pending_exit_loc == Some(i),
        i < vm.state.exit_records@.len(),
        vm.cow_pages@.dom().len() <= u32::MAX,
    ensures
        ({
            let record = super::forked::forked_records_with(vm, digest)[i as int];
            &&& record.cow_page_count == vm.cow_pages@.dom().len()
            &&& record.memory_hash == (if vm.state.skip_memory_hash || vm.state.exit_trigger
                == ExitTrigger::Disabled {
                0
            } else {
                digest
            })
            &&& record.tsc == vm.state.exit_records@[i as int].tsc
        }),
{
}

/// A root VM has no pages of its own to count; its record gets the digest of its
/// memory in the same way.
pub proof fn root_record_counts_no_pages(vm: RootVm, digest: u64, i: usize)
    requires
        vm.state.pending_exit_loc == Some(i),
        i < vm.state.exit_records@.len(),
    ensures
        ({
            let record = super::root::root_records_with(vm, digest)[i as int];
            &&& record.cow_page_count == 0
            &&& record.memory_hash == (if vm.state.skip_memory_hash || vm.state.exit_trigger
                == ExitTrigger::Disabled {
                0
            } else {
                digest
            })
            &&& record.tsc == vm.state.exit_records@[i as int].tsc
        }),
{
}

/// The stream that a fork's memory hash is taken of tells its pages apart: it is
/// each page's address and contents, one after the other, lowest address first.
pub proof fn fork_stream_is_addresses_and_pages(pages: Seq<(u64, GuestPage)>, last: (u64, GuestPage))
    ensures
        super::forked::cow_stream(Seq::<(u64, GuestPage)>::empty()) == Seq::<u8>::empty(),
        super::forked::cow_stream(pages.push(last)) == super::forked::cow_stream(pages)
            + crate::bytes::le_bytes(last.0 as nat, 8) + last.1.bytes@,
{
    assert(pages.push(last).drop_last() =~= pages);
}

// ---- Feedback buffers ----

/// The pages of a registered feedback buffer are those that the guest gave, as many
/// as are in use, in order; a slot without a buffer, or behind the last one, has none.
pub proof fn feedback_pages_are_those_registered(vm: ForkedVm<'_>, index: usize, i: int)
    requires
        vm.inv(),
    ensures
        index >= 16 || vm.state.feedback_buffers@[index as int] is None ==> vm.feedback_gpas(
            index,
        ).len() == 0,
        index < 16 && vm.state.feedback_buffers@[index as int] is Some ==> vm.feedback_gpas(
            index,
        ).len() == vm.state.feedback_buffers@[index as int]->0.num_pages,
        index < 16 && vm.state.feedback_buffers@[index as int] is Some && 0 <= i
            < vm.state.feedback_buffers@[index as int]->0.num_pages ==> vm.feedback_gpas(index)[i]
            == vm.state.feedback_buffers@[index as int]->0.gpas@[i],
{
    if index < 16 && vm.state.feedback_buffers@[index as int] is Some {
        assert(vm.state.feedback_buffers@[index as int]->0.wf());
    }
}

/// Copying every buffer copies what copying one of them copies: a page that the fork
/// owns after the first `n` buffers it owns after all of them.
pub proof fn all_buffers_are_copied(vm: ForkedVm<'_>, c: CowView, n: nat, m: nat, page: u64)
    requires
        n <= m <= 16,
        vm.buffers_owned(c, n).copies.contains_key(page),
    ensures
        vm.buffers_owned(c, m).copies.contains_key(page),
        vm.buffers_owned(c, m).copies[page] == vm.buffers_owned(c, n).copies[page],
        n > 0 ==> vm.buffers_owned(c, n) == super::forked::pages_owned(
            vm.buffers_owned(c, (n - 1) as nat),
            vm.parent,
            vm.feedback_gpas((n - 1) as usize),
        ),
    decreases m,
{
    if n < m {
        all_buffers_are_copied(vm, c, n, (m - 1) as nat, page);
        owned_pages_stay(
            vm.buffers_owned(c, (m - 1) as nat),
            vm.parent,
            vm.feedback_gpas((m - 1) as usize),
            page,
        );
    }
}

/// The library's own digest is disabled: a record that it finalizes itself has a
/// memory hash of 0.
pub proof fn own_digest_is_zero(vm: ForkedVm<'_>, root: RootVm, i: usize)
    ensures
        vm.state.pending_exit_loc == Some(i) && i < vm.state.exit_records@.len()
            ==> super::forked::forked_records(vm)[i as int].memory_hash == 0,
        root.state.pending_exit_loc == Some(i) && i < root.state.exit_records@.len()
            ==> super::root::root_records(root)[i as int].memory_hash == 0,
{
}

/// Copying pages changes nothing that the guest could see of itself.
pub proof fn copying_leaves_the_guest_alone<'a>(before: ForkedVm<'a>, after: ForkedVm<'a>)
    requires
        after.only_cow_changed(&before),
    ensures
        after.state.gprs == before.state.gprs,
        after.state.vmcs == before.state.vmcs,
        after.state.devices == before.state.devices,
        after.state.msr_state == before.state.msr_state,
        after.state.emulated_tsc == before.state.emulated_tsc,
        after.state.io_channel == before.state.io_channel,
        after.state.feedback_buffers == before.state.feedback_buffers,
        after.watchpoint_class == before.watchpoint_class,
        after.parent == before.parent,
        after.children_count == before.children_count,
{
}

} // verus!
