//! State of one VM apart from its memory.

use vstd::prelude::*;

use super::devices::apic::ApicState;
use super::devices::ioapic::IoApicState;
use super::devices::mtrr::MtrrState;
use super::devices::rtc::RtcState;
use super::dr_watch::DebugWatch;
use super::ept::EptPageTable;
use super::exit_record::record::ExitRecord;
use super::memory::HostPhysAddr;
use super::registers::GeneralPurposeRegisters;
use super::vmcs::{Vmcs, VmcsError, VmcsFieldNatural};

verus! {

/// Most pages that one feedback buffer can have.
pub const FEEDBACK_BUFFER_MAX_PAGES: usize = 256;

/// Most feedback buffers that one VM can register.
pub const MAX_FEEDBACK_BUFFERS: usize = 16;

/// Emulated device state.
#[derive(Clone, Copy)]
pub struct DeviceStates {
    pub apic: ApicState,
    pub ioapic: IoApicState,
    pub mtrr: MtrrState,
    pub rtc: RtcState,
}

/// Guest values of MSRs that are emulated.
#[derive(Clone, Copy, PartialEq, Eq, Debug, Structural)]
pub struct MsrState {
    /// IA32_PAT.
    pub pat: u64,
    /// IA32_TSC_AUX.
    pub tsc_aux: u64,
}

/// Host MSR values that the guest's are derived from.
#[derive(Clone, Copy, PartialEq, Eq, Debug, Structural)]
pub struct HostState {
    /// IA32_MISC_ENABLE of the host.
    pub misc_enable: u64,
    /// MSR_PLATFORM_INFO of the host.
    pub platform_info: u64,
}

/// Guest registers that are loaded by hand around VM entry.
#[derive(Clone, Copy, PartialEq, Eq, Debug, Structural)]
pub struct VmxContext {
    /// Guest CR2.
    pub guest_cr2: u64,
}

/// The deterministic hypervisor-guest I/O channel.
#[derive(Clone, Copy, PartialEq, Eq, Debug, Structural)]
pub struct IoChannelState {
    /// Shared page that the guest registered (0 = none).
    pub page_gpa: u64,
    /// Length of the queued request (0 = none).
    pub request_len: u32,
    /// Whether the guest has been interrupted for that request.
    pub request_delivered: bool,
    /// Emulated TSC before which it must not be (0 = at once).
    pub request_target_tsc: u64,
}

/// Counters of copy-on-write faults.
#[derive(Clone, Copy, PartialEq, Eq, Debug, Structural)]
pub struct CowStats {
    /// Faults on a page that had already been copied and remapped.
    pub stale_tlb_faults: u64,
}

/// Exit counters, for observation only.
#[derive(Clone, Copy, PartialEq, Eq, Debug, Structural)]
pub struct AllExitStats {
    /// APIC timer firings past their deadline.
    pub apic_timer_late_inject: u64,
    /// Hits on armed write-watchpoints.
    pub wp_faults: u64,
    /// Thread-switch epoch of the write-watchpoint classifier.
    pub wp_epoch: u64,
    /// Pages armed as write-watchpoints.
    pub wp_armed: u64,
    /// Watched pages found to have one writer and let go.
    pub wp_culled: u64,
    /// Watched pages found to be shared.
    pub wp_confirmed: u64,
    /// Preemptions forced at watchpoint hits.
    pub wp_preempts: u64,
    /// Batch re-arms that re-protected something.
    pub wp_rearms: u64,
    /// Pages re-protected by batch re-arms.
    pub wp_rearm_pages: u64,
    /// Data breakpoints armed.
    pub wp_dr_armed: u64,
    /// Data breakpoints evicted by a newer one.
    pub wp_dr_evictions: u64,
    /// Data breakpoint hits by another thread.
    pub wp_dr_conflicts: u64,
    /// Data breakpoint hits by the owner.
    pub wp_dr_self: u64,
    /// Copy-on-write counters.
    pub cow: CowStats,
}

impl AllExitStats {
    /// Every counter at zero.
    pub open spec fn zero() -> AllExitStats {
        AllExitStats {
            apic_timer_late_inject: 0,
            wp_faults: 0,
            wp_epoch: 0,
            wp_armed: 0,
            wp_culled: 0,
            wp_confirmed: 0,
            wp_preempts: 0,
            wp_rearms: 0,
            wp_rearm_pages: 0,
            wp_dr_armed: 0,
            wp_dr_evictions: 0,
            wp_dr_conflicts: 0,
            wp_dr_self: 0,
            cow: CowStats { stale_tlb_faults: 0 },
        }
    }

    /// No counter is at its limit.
    pub open spec fn can_count(&self) -> bool {
        &&& self.apic_timer_late_inject < u64::MAX
        &&& self.wp_faults < u64::MAX
        &&& self.wp_armed < u64::MAX
        &&& self.wp_culled < u64::MAX
        &&& self.wp_confirmed < u64::MAX
        &&& self.wp_preempts < u64::MAX
        &&& self.wp_rearms < u64::MAX
        &&& self.wp_dr_armed < u64::MAX
        &&& self.wp_dr_evictions < u64::MAX
        &&& self.wp_dr_conflicts < u64::MAX
        &&& self.wp_dr_self < u64::MAX
        &&& self.cow.stale_tlb_faults < u64::MAX
    }

    /// Every counter at zero.
    pub fn new() -> (r: Self)
        ensures
            r == AllExitStats::zero(),
    {
        AllExitStats {
            apic_timer_late_inject: 0,
            wp_faults: 0,
            wp_epoch: 0,
            wp_armed: 0,
            wp_culled: 0,
            wp_confirmed: 0,
            wp_preempts: 0,
            wp_rearms: 0,
            wp_rearm_pages: 0,
            wp_dr_armed: 0,
            wp_dr_evictions: 0,
            wp_dr_conflicts: 0,
            wp_dr_self: 0,
            cow: CowStats { stale_tlb_faults: 0 },
        }
    }
}

/// A guest buffer that userspace can map, page by page.
#[derive(Clone, Copy)]
pub struct FeedbackBuffer {
    /// Guest physical addresses of its pages.
    pub gpas: [u64; 256],
    /// How many of them are in use.
    pub num_pages: usize,
}

impl FeedbackBuffer {
    pub open spec fn wf(&self) -> bool {
        self.num_pages <= 256
    }
}

/// Which exits are recorded with a memory hash.
#[derive(Clone, Copy, PartialEq, Eq, Debug, Structural)]
pub enum ExitTrigger {
    Disabled,
    AtTsc,
    AtShutdown,
    AllExits,
    Checkpoints,
    TscRange,
}

/// Hardware work that the run loop owes before the next VM entry. The handlers
/// decide that it is due; only the run loop can do it.
#[derive(Clone, Copy, PartialEq, Eq, Debug, Structural)]
pub struct HostRequests {
    /// A host NMI arrived in the guest: run the host's NMI handler (INT 2).
    pub service_nmi: bool,
    /// Re-arm PEBS for the next deadline.
    pub rearm_pebs: bool,
    /// Flush this VM's cached EPT mappings (single-context INVEPT).
    pub flush_ept: bool,
}

/// State of one VM apart from its memory.
pub struct VmState {
    /// Control structure.
    pub vmcs: Vmcs,
    /// Extended page table.
    pub ept: EptPageTable,
    /// Frame of the extended page table's root.
    pub ept_root: HostPhysAddr,
    /// General-purpose registers.
    pub gprs: GeneralPurposeRegisters,
    /// Emulated devices.
    pub devices: DeviceStates,
    /// Emulated MSRs.
    pub msr_state: MsrState,
    /// Host MSRs.
    pub host_state: HostState,
    /// Components of extended state that are saved and restored (guest XCR0).
    pub xcr0_mask: u64,
    /// Registers loaded by hand.
    pub vmx_ctx: VmxContext,
    /// Emulated TSC: retired guest instructions.
    pub emulated_tsc: u64,
    /// Emulated TSC ticks per second.
    pub tsc_frequency: u64,
    /// Whether the last VM exit happened at a reproducible instruction.
    pub last_exit_deterministic: bool,
    /// Whether guest page faults exit to the hypervisor.
    pub intercept_pf: bool,
    /// I/O channel.
    pub io_channel: IoChannelState,
    /// Counters.
    pub exit_stats: AllExitStats,
    /// Hardware data breakpoints.
    pub debug_watch: DebugWatch,
    /// Registered feedback buffers.
    pub feedback_buffers: [Option<FeedbackBuffer>; 16],
    /// Exit records taken so far.
    pub exit_records: Vec<ExitRecord>,
    /// The exit record that still lacks its memory hash.
    pub pending_exit_loc: Option<usize>,
    /// Record 0 in place of memory hashes.
    pub skip_memory_hash: bool,
    /// Which exits are recorded.
    pub exit_trigger: ExitTrigger,
    /// Work the run loop owes.
    pub requests: HostRequests,
}

/// Why the state of a new VM could not be set up.
#[derive(Debug)]
pub enum VmStateError<E> {
    /// A page could not be had.
    Alloc(E),
    /// The control structure refused a field.
    Vmcs(VmcsError),
}

/// The exit records once the pending one has its memory hash.
pub open spec fn finalized_records(
    records: Seq<ExitRecord>,
    pending: Option<usize>,
    memory_hash: u64,
    cow_page_count: u32,
) -> Seq<ExitRecord> {
    match pending {
        Some(i) => records.update(
            i as int,
            ExitRecord { memory_hash, cow_page_count, ..records[i as int] },
        ),
        None => records,
    }
}

impl VmState {
    pub open spec fn wf(&self) -> bool {
        &&& self.ept.wf()
        &&& self.debug_watch.wf()
        &&& self.pending_exit_loc is Some ==> self.pending_exit_loc->0 < self.exit_records@.len()
        &&& forall|i: int|
            0 <= i < 16 && self.feedback_buffers@[i] is Some ==> (
            #[trigger] self.feedback_buffers@[i])->0.wf()
    }

    /// What a new VM's state is: the parts it was given, devices at their defaults,
    /// nothing registered, counted or recorded.
    pub open spec fn is_new(
        &self,
        vmcs: Vmcs,
        ept: EptPageTable,
        ept_root: HostPhysAddr,
        host_state: HostState,
        tsc_frequency: u64,
    ) -> bool {
        &&& self.vmcs == vmcs && self.ept == ept && self.ept_root == ept_root
        &&& self.host_state == host_state && self.tsc_frequency == tsc_frequency
        &&& forall|i: u8| #[trigger] self.gprs.value(i) == 0
        &&& self.devices.apic.is_reset() && self.devices.ioapic.is_reset()
        &&& self.devices.mtrr.is_reset()
        &&& self.devices.rtc == (RtcState { index: 0, base_time: 1704067200 })
        &&& self.msr_state == (MsrState { pat: 0x0007_0406_0007_0406, tsc_aux: 0 })
        &&& self.xcr0_mask == 1 && self.emulated_tsc == 0
        &&& self.last_exit_deterministic && !self.intercept_pf
        &&& self.io_channel.page_gpa == 0 && self.io_channel.request_len == 0
        &&& !self.io_channel.request_delivered
        &&& self.exit_stats == AllExitStats::zero()
        &&& self.debug_watch.idle()
        &&& forall|i: int| 0 <= i < 16 ==> #[trigger] self.feedback_buffers@[i] is None
        &&& self.exit_records@.len() == 0 && self.pending_exit_loc is None
        &&& self.exit_trigger == ExitTrigger::Disabled
    }

    /// State of a new VM: devices at their defaults, nothing registered.
    pub fn new(
        vmcs: Vmcs,
        ept: EptPageTable,
        ept_root: HostPhysAddr,
        host_state: HostState,
        tsc_frequency: u64,
    ) -> (r: Self)
        requires
            ept.wf(),
        ensures
            r.wf(),
            r.vmcs == vmcs,
            r.ept == ept,
            r.ept_root == ept_root,
            r.host_state == host_state,
            r.tsc_frequency == tsc_frequency,
            forall|i: u8| #[trigger] r.gprs.value(i) == 0,
            r.devices.apic.is_reset(),
            r.devices.ioapic.is_reset(),
            r.devices.mtrr.is_reset(),
            r.devices.rtc == (RtcState { index: 0, base_time: 1704067200 }),
            r.msr_state == (MsrState { pat: 0x0007_0406_0007_0406, tsc_aux: 0 }),
            r.xcr0_mask == 1,
            r.vmx_ctx == (VmxContext { guest_cr2: 0 }),
            r.emulated_tsc == 0,
            r.last_exit_deterministic,
            !r.intercept_pf,
            r.io_channel == (IoChannelState {
                page_gpa: 0,
                request_len: 0,
                request_delivered: false,
                request_target_tsc: 0,
            }),
            r.exit_stats == AllExitStats::zero(),
            r.debug_watch.idle(),
            r.debug_watch.evict_cursor == 0,
            r.debug_watch.evictions == 0,
            forall|i: int| 0 <= i < 16 ==> #[trigger] r.feedback_buffers@[i] is None,
            r.exit_records@.len() == 0,
            r.pending_exit_loc is None,
            !r.skip_memory_hash,
            r.exit_trigger == ExitTrigger::Disabled,
            r.requests == (HostRequests { service_nmi: false, rearm_pebs: false, flush_ept: false }),
            r.is_new(vmcs, ept, ept_root, host_state, tsc_frequency),
    {
        VmState {
            vmcs,
            ept,
            ept_root,
            gprs: GeneralPurposeRegisters::new(),
            devices: DeviceStates {
                apic: ApicState::default(),
                ioapic: IoApicState::default(),
                mtrr: MtrrState::default(),
                rtc: RtcState::default(),
            },
            msr_state: MsrState { pat: 0x0007_0406_0007_0406, tsc_aux: 0 },
            host_state,
            xcr0_mask: 1,
            vmx_ctx: VmxContext { guest_cr2: 0 },
            emulated_tsc: 0,
            tsc_frequency,
            last_exit_deterministic: true,
            intercept_pf: false,
            io_channel: IoChannelState {
                page_gpa: 0,
                request_len: 0,
                request_delivered: false,
                request_target_tsc: 0,
            },
            exit_stats: AllExitStats::new(),
            debug_watch: DebugWatch::new(),
            feedback_buffers: [
                None,
                None,
                None,
                None,
                None,
                None,
                None,
                None,
                None,
                None,
                None,
                None,
                None,
                None,
                None,
                None,
            ],
            exit_records: Vec::new(),
            pending_exit_loc: None,
            skip_memory_hash: false,
            exit_trigger: ExitTrigger::Disabled,
            requests: HostRequests { service_nmi: false, rearm_pebs: false, flush_ept: false },
        }
    }

    /// The state that a fork of `parent` starts from, with page table `ept` rooted at
    /// `ept_root`:
    /// the parent's registers, devices, MSRs and configuration as they stand,
    /// and counters, data breakpoints and exit records of its own. The guest
    /// part of the control structure is the parent's; VM exits continue at
    /// `exit_handler_rip`, which `vmcs` has to have a field for.
    pub fn new_for_fork<E>(
        vmcs: Vmcs,
        ept: EptPageTable,
        ept_root: HostPhysAddr,
        parent: &VmState,
        exit_handler_rip: u64,
    ) -> (r: Result<Self, VmStateError<E>>)
        requires
            ept.wf(),
            parent.wf(),
        ensures
            match vmcs.write_error_natural(VmcsFieldNatural::HostRip) {
                Some(e) => r == Err::<VmState, VmStateError<E>>(VmStateError::Vmcs(e)),
                None => r is Ok && r->Ok_0.wf() && r->Ok_0.is_fork_of(
                    parent,
                    ept,
                    ept_root,
                    exit_handler_rip,
                ) && r->Ok_0.requests == (HostRequests {
                    service_nmi: false,
                    rearm_pebs: false,
                    flush_ept: false,
                }),
            },
            r is Ok <==> vmcs.host_rip is Some && vmcs.write_faults.host_rip is None,
            r is Ok ==> {
                let state = r->Ok_0;
                &&& forall|i: u8| #[trigger] state.gprs.value(i) == parent.gprs.value(i)
                &&& state.devices == parent.devices
                &&& state.msr_state == parent.msr_state
                &&& state.emulated_tsc == parent.emulated_tsc
                &&& state.tsc_frequency == parent.tsc_frequency
                &&& state.vmcs == (Vmcs { host_rip: Some(exit_handler_rip), ..parent.vmcs })
                &&& state.ept == ept
            },
    {
        let mut own = vmcs;
        if let Err(e) = own.write_natural(VmcsFieldNatural::HostRip, exit_handler_rip) {
            return Err(VmStateError::Vmcs(e));
        }
        let mut guest = parent.vmcs;
        guest.host_rip = own.host_rip;
        Ok(
            VmState {
                vmcs: guest,
                ept,
                ept_root,
                gprs: parent.gprs,
                devices: parent.devices,
                msr_state: parent.msr_state,
                host_state: parent.host_state,
                xcr0_mask: parent.xcr0_mask,
                vmx_ctx: parent.vmx_ctx,
                emulated_tsc: parent.emulated_tsc,
                tsc_frequency: parent.tsc_frequency,
                last_exit_deterministic: parent.last_exit_deterministic,
                intercept_pf: parent.intercept_pf,
                io_channel: parent.io_channel,
                exit_stats: AllExitStats::new(),
                debug_watch: DebugWatch::new(),
                feedback_buffers: parent.feedback_buffers,
                exit_records: Vec::new(),
                pending_exit_loc: None,
                skip_memory_hash: parent.skip_memory_hash,
                exit_trigger: parent.exit_trigger,
                requests: HostRequests { service_nmi: false, rearm_pebs: false, flush_ept: false },
            },
        )
    }

    /// What `new_for_fork` sets up, apart from the work the run loop owes.
    pub open spec fn is_fork_of(
        &self,
        parent: &VmState,
        ept: EptPageTable,
        ept_root: HostPhysAddr,
        exit_handler_rip: u64,
    ) -> bool {
        &&& self.vmcs == (Vmcs { host_rip: Some(exit_handler_rip), ..parent.vmcs })
        &&& self.ept == ept
        &&& self.ept_root == ept_root
        &&& self.gprs == parent.gprs
        &&& self.devices == parent.devices
        &&& self.msr_state == parent.msr_state
        &&& self.host_state == parent.host_state
        &&& self.xcr0_mask == parent.xcr0_mask
        &&& self.vmx_ctx == parent.vmx_ctx
        &&& self.emulated_tsc == parent.emulated_tsc
        &&& self.tsc_frequency == parent.tsc_frequency
        &&& self.last_exit_deterministic == parent.last_exit_deterministic
        &&& self.intercept_pf == parent.intercept_pf
        &&& self.io_channel == parent.io_channel
        &&& self.feedback_buffers == parent.feedback_buffers
        &&& self.skip_memory_hash == parent.skip_memory_hash
        &&& self.exit_trigger == parent.exit_trigger
        &&& self.exit_stats == AllExitStats::zero()
        &&& self.debug_watch.idle()
        &&& self.debug_watch.evict_cursor == 0
        &&& self.debug_watch.evictions == 0
        &&& self.exit_records@.len() == 0
        &&& self.pending_exit_loc is None
    }

    /// Whether exit records carry a memory hash.
    pub open spec fn hashes_memory(&self) -> bool {
        !self.skip_memory_hash && self.exit_trigger != ExitTrigger::Disabled
    }

    /// Whether an exit record awaits its memory hash.
    pub open spec fn awaits_memory_hash(&self) -> bool {
        self.pending_exit_loc is Some && self.hashes_memory()
    }

    /// Whether an exit record awaits its memory hash.
    pub fn needs_memory_hash(&self) -> (r: bool)
        ensures
            r == self.awaits_memory_hash(),
    {
        if self.pending_exit_loc.is_none() || self.skip_memory_hash {
            return false;
        }
        match self.exit_trigger {
            ExitTrigger::Disabled => false,
            _ => true,
        }
    }

    /// Fill the pending exit record's memory hash and page count in. It is then
    /// no longer pending. Does nothing if none is.
    pub fn finalize_exit_memory_hash(&mut self, memory_hash: u64, cow_page_count: u32)
        requires
            old(self).wf(),
        ensures
            final(self).wf(),
            *final(self) == (VmState {
                exit_records: final(self).exit_records,
                pending_exit_loc: None,
                ..*old(self)
            }),
            final(self).exit_records@ == finalized_records(
                old(self).exit_records@,
                old(self).pending_exit_loc,
                memory_hash,
                cow_page_count,
            ),
    {
        if let Some(i) = self.pending_exit_loc {
            let mut record = self.exit_records[i];
            record.memory_hash = memory_hash;
            record.cow_page_count = cow_page_count;
            self.exit_records.set(i, record);
            self.pending_exit_loc = None;
        }
    }
}

/// Finalizing fills the pending record's memory hash and page count in and leaves
/// the rest of it, and every other record, as they were; with none pending nothing
/// changes.
pub proof fn finalizing_fills_the_pending_record(
    records: Seq<ExitRecord>,
    pending: Option<usize>,
    memory_hash: u64,
    cow_page_count: u32,
    i: usize,
)
    requires
        i < records.len(),
        pending is Some ==> pending->0 < records.len(),
    ensures
        ({
            let after = finalized_records(records, pending, memory_hash, cow_page_count);
            &&& after.len() == records.len()
            &&& pending != Some(i) ==> after[i as int] == records[i as int]
            &&& pending == Some(i) ==> {
                &&& after[i as int].memory_hash == memory_hash
                &&& after[i as int].cow_page_count == cow_page_count
                &&& after[i as int].tsc == records[i as int].tsc
                &&& after[i as int].exit_reason == records[i as int].exit_reason
                &&& after[i as int].exit_qualification == records[i as int].exit_qualification
                &&& after[i as int].flags == records[i as int].flags
                &&& after[i as int].gprs == records[i as int].gprs
                &&& after[i as int].rip == records[i as int].rip
                &&& after[i as int].rflags == records[i as int].rflags
                &&& after[i as int].apic_hash == records[i as int].apic_hash
                &&& after[i as int].serial_hash == records[i as int].serial_hash
                &&& after[i as int].ioapic_hash == records[i as int].ioapic_hash
                &&& after[i as int].rtc_hash == records[i as int].rtc_hash
                &&& after[i as int].mtrr_hash == records[i as int].mtrr_hash
                &&& after[i as int].rdrand_hash == records[i as int].rdrand_hash
            }
        }),
{
}

/// A new VM has nothing to deliver and nothing to say: its registers are zero, its
/// interrupt controllers quiet, its clock at the beginning of 2024, and no counter,
/// breakpoint, buffer or record is left of anything.
pub proof fn new_vm_starts_from_nothing(
    s: VmState,
    vmcs: Vmcs,
    ept: EptPageTable,
    ept_root: HostPhysAddr,
    host_state: HostState,
    tsc_frequency: u64,
    i: u8,
)
    requires
        s.is_new(vmcs, ept, ept_root, host_state, tsc_frequency),
    ensures
        s.vmcs == vmcs && s.ept == ept && s.ept_root == ept_root,
        s.tsc_frequency == tsc_frequency && s.host_state == host_state,
        s.gprs.value(i) == 0,
        s.emulated_tsc == 0 && s.devices.apic.timer_deadline == 0,
        s.devices.apic.svr < 0x100,
        s.devices.ioapic.redtbl@[9] == 0x1_0000,
        s.devices.mtrr.def_type == 6,
        crate::vmx::devices::rtc::rtc_seconds(s.devices.rtc.base_time, 0, tsc_frequency)
            == 1704067200,
        s.msr_state.pat == 0x0007_0406_0007_0406 && s.msr_state.tsc_aux == 0,
        s.xcr0_mask == 1,
        s.io_channel.page_gpa == 0 && s.io_channel.request_len == 0,
        s.exit_stats.wp_faults == 0 && s.exit_stats.apic_timer_late_inject == 0,
        s.debug_watch.slots@[0] is None && s.debug_watch.slots@[3] is None,
        s.feedback_buffers@[0] is None && s.feedback_buffers@[15] is None,
        s.exit_records@.len() == 0,
{
    if tsc_frequency != 0 {
        vstd::arithmetic::div_mod::lemma_div_basics(tsc_frequency as int);
    }
}

/// A record waits for its memory hash while it is pending, exits are recorded, and
/// memory hashes are not skipped.
pub proof fn pending_record_awaits_its_hash(s: VmState)
    ensures
        s.awaits_memory_hash() == (s.pending_exit_loc is Some && !s.skip_memory_hash
            && s.exit_trigger != ExitTrigger::Disabled),
{
}

} // verus!
