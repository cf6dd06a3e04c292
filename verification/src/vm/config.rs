//! Configuration types for VM ioctls.

use vstd::prelude::*;

use crate::vmx::events::EventCategories;
use crate::vmx::state::ExitTrigger;

verus! {

/// Single-step configuration for MTF (Monitor Trap Flag) mode.
///
/// Configures the VM to single-step (exit after each instruction) within
/// a specified emulated TSC range. This is useful for debugging determinism
/// issues by tracing every instruction in a specific region.
#[derive(Clone, Copy, PartialEq, Eq, Debug, Structural)]
pub struct SingleStepConfig {
    /// Whether single-stepping is enabled.
    /// 0 = disabled, non-zero = enabled.
    pub enabled: u64,
    /// Start of TSC range (inclusive).
    pub tsc_start: u64,
    /// End of TSC range (exclusive).
    pub tsc_end: u64,
}

impl Default for SingleStepConfig {
    fn default() -> (r: Self)
        ensures
            r == (SingleStepConfig { enabled: 0, tsc_start: 0, tsc_end: 0 }),
    {
        SingleStepConfig { enabled: 0, tsc_start: 0, tsc_end: 0 }
    }
}

/// Synthetic exit reason for checkpoint records.
/// This value identifies an `Exit` record that is a periodic state snapshot
/// rather than an actual VM exit.
pub const EXIT_REASON_CHECKPOINT: u32 = 0xFFFF_FFFF;

/// Bit flag: skip memory hashing in exit records (set `memory_hash` to 0).
pub const EXIT_FLAG_NO_MEMORY_HASH: u32 = 0x1;

/// Bit flag: intercept guest #PF exceptions for determinism analysis.
pub const EXIT_FLAG_INTERCEPT_PF: u32 = 0x2;

/// Bit flag: tolerate a PEBS skid larger than the host margin instead of
/// aborting the run. Absent (the default) means a skid past the margin is
/// fatal, since the armed deadline would be delivered late and break
/// determinism.
pub const EXIT_FLAG_IGNORE_PEBS_MARGIN: u32 = 0x4;

/// Bit flag: tolerate a late APIC-timer injection (the interrupt delivered on
/// an exit past its deadline) instead of aborting the run. Absent (the default)
/// means a late inject is fatal, since it means the timer landed at a different
/// instruction than the deadline and guest execution diverges. Separate from
/// [`EXIT_FLAG_IGNORE_PEBS_MARGIN`]: a skid past the margin is one cause of a
/// late inject, but the timer can also arrive late through other misses.
pub const EXIT_FLAG_IGNORE_LATE_INJECT: u32 = 0x8;

/// Unified event-stream configuration passed to the kernel via ioctl.
///
/// One struct configures the whole stream: enabling it allocates the 1 MB event
/// buffer (mmap'd to userspace) and installs the category mask, while the
/// `exit_*` fields carry the trigger policy for `Exit` records. The mask filters
/// records at emit time, so a disabled category costs a single bit test in the
/// hypervisor. The stream is fully opt-in: with `enabled = 0` (the default)
/// nothing is allocated and the hypervisor emits no events.
///
/// The category mask and the exit trigger are orthogonal dimensions: for `Exit`
/// records to appear, the [`EventCategories::EXIT`] bit must be set *and*
/// `exit_trigger` must be something other than [`ExitTrigger::Disabled`].
#[derive(Clone, Copy, PartialEq, Eq, Debug, Structural)]
pub struct EventConfig {
    /// Whether the event stream is enabled. The disabled->enabled transition
    /// allocates the event buffer; enabled->disabled frees it.
    pub enabled: u32,
    /// Category include mask (see [`EventCategories`]). Records whose category
    /// bit is clear are dropped at emit time.
    pub categories: u32,
    /// `Exit`-record trigger policy ([`ExitTrigger`] as u32).
    pub exit_trigger: u32,
    /// Exit flags bitfield (see `EXIT_FLAG_*` constants).
    pub exit_flags: u32,
    /// Mode-specific TSC for the exit trigger:
    /// - `AtTsc`: emit once when emulated_tsc >= this value
    /// - `Checkpoints`: interval between checkpoint records
    /// - others: ignored
    pub exit_target_tsc: u64,
    /// Universal start threshold - no `Exit` records until emulated_tsc reaches
    /// this value. 0 = capture from the start.
    pub exit_start_tsc: u64,
    /// Instruction-granular preemption period: retired instructions between
    /// deterministic forced preemptions. 0 (the default) disables the feature.
    /// See `ApicState::configure_preempt`.
    pub preempt_period: u64,
    /// Seed for the preemption-interval jitter PRNG (only meaningful when
    /// `preempt_period != 0`). A dedicated stream, separate from RDRAND.
    pub preempt_seed: u64,
    /// EPT write-watchpoint directed preemption: percent chance [0, 100) of
    /// forcing a preemption at each watched shared-memory write. 0 (the default)
    /// disables the feature. See `ApicState::configure_watchpoints`.
    pub watchpoint_pct: u32,
    /// Seed for the per-hit watchpoint decision PRNG (only meaningful when
    /// `watchpoint_pct != 0`). A dedicated stream, separate from RDRAND.
    pub watchpoint_seed: u64,
    /// Arm-then-cull: thread switches a single-writer watched page must survive
    /// before culling (0 = use default). See `ApicState::configure_watchpoints`.
    pub watchpoint_cull_epochs: u32,
    /// Arm-then-cull: fault-count backstop for a page that never spans a switch
    /// (0 = use default). See `ApicState::configure_watchpoints`.
    pub watchpoint_cull_cap: u32,
    /// Sampling re-arm interval in emulated-TSC ticks: how often let-through
    /// watchpoints are batch re-protected to R+E (0 = use default). See
    /// `ApicState::configure_watchpoints`.
    pub watchpoint_rearm: u64,
    /// Enable the hardware data-breakpoint race detector (DataCollider-style):
    /// confirmed-shared writes arm a `DR` on the exact address, and a `#DB` from
    /// a different thread is a realized race. Requires `watchpoint_pct != 0` for
    /// candidates. See `ApicState::configure_watchpoint_dr`.
    pub watchpoint_dr: bool,
    /// Watch length in bytes for `DR` slots (0 = default 4).
    pub watchpoint_dr_len: u8,
    /// Disarm a `DR` slot on its first conflict (default true).
    pub watchpoint_dr_oneshot: bool,
    /// Low bound (inclusive) of the RIP window a `DR` candidate must fault from
    /// to be armed (0 with `watchpoint_dr_rip_hi == 0` disables the filter). See
    /// `ApicState::watchpoint_dr_rip_allowed`.
    pub watchpoint_dr_rip_lo: u64,
    /// High bound (exclusive) of the `DR`-candidate RIP window (0 = filter off).
    pub watchpoint_dr_rip_hi: u64,
}

/// Every feature off, and every tuning value at its default.
pub open spec fn all_off() -> EventConfig {
    EventConfig {
        enabled: 0,
        categories: 0,
        exit_trigger: 0,
        exit_flags: 0,
        exit_target_tsc: 0,
        exit_start_tsc: 0,
        preempt_period: 0,
        preempt_seed: 0,
        watchpoint_pct: 0,
        watchpoint_seed: 0,
        watchpoint_cull_epochs: 0,
        watchpoint_cull_cap: 0,
        watchpoint_rearm: 0,
        watchpoint_dr: false,
        watchpoint_dr_len: 0,
        watchpoint_dr_oneshot: true,
        watchpoint_dr_rip_lo: 0,
        watchpoint_dr_rip_hi: 0,
    }
}

impl Default for EventConfig {
    fn default() -> (r: Self)
        ensures
            r == all_off(),
    {
        EventConfig {
            enabled: 0,
            categories: 0,
            exit_trigger: 0,
            exit_flags: 0,
            exit_target_tsc: 0,
            exit_start_tsc: 0,
            preempt_period: 0,
            preempt_seed: 0,
            watchpoint_pct: 0,
            watchpoint_seed: 0,
            watchpoint_cull_epochs: 0,
            watchpoint_cull_cap: 0,
            watchpoint_rearm: 0,
            watchpoint_dr: false,
            watchpoint_dr_len: 0,
            watchpoint_dr_oneshot: true,
            watchpoint_dr_rip_lo: 0,
            watchpoint_dr_rip_hi: 0,
        }
    }
}

/// A trigger policy's number.
pub open spec fn trigger_number(trigger: ExitTrigger) -> u32 {
    match trigger {
        ExitTrigger::Disabled => 0,
        ExitTrigger::AtTsc => 1,
        ExitTrigger::AtShutdown => 2,
        ExitTrigger::AllExits => 3,
        ExitTrigger::Checkpoints => 4,
        ExitTrigger::TscRange => 5,
    }
}

impl EventConfig {
    /// Disabled config (frees the buffer, emits nothing).
    pub fn disabled() -> (r: Self)
        ensures
            r == all_off(),
    {
        Self::default()
    }

    /// Enable the event stream with the given category mask. The exit trigger
    /// starts [`ExitTrigger::Disabled`]; add one with [`with_exit_trigger`](Self::with_exit_trigger).
    pub fn enabled(categories: EventCategories) -> (r: Self)
        ensures
            r == (EventConfig { enabled: 1, categories: categories.0, ..all_off() }),
    {
        let mut config = Self::default();
        config.enabled = 1;
        config.categories = categories.0;
        config
    }

    /// Set the `Exit`-record trigger policy and its mode-specific TSC value
    /// (`AtTsc` threshold / `Checkpoints` interval; pass 0 for the others).
    pub fn with_exit_trigger(self, trigger: ExitTrigger, target_tsc: u64) -> (r: Self)
        ensures
            r == (EventConfig {
                exit_trigger: trigger_number(trigger),
                exit_target_tsc: target_tsc,
                ..self
            }),
    {
        let mut config = self;
        config.exit_trigger = match trigger {
            ExitTrigger::Disabled => 0,
            ExitTrigger::AtTsc => 1,
            ExitTrigger::AtShutdown => 2,
            ExitTrigger::AllExits => 3,
            ExitTrigger::Checkpoints => 4,
            ExitTrigger::TscRange => 5,
        };
        config.exit_target_tsc = target_tsc;
        config
    }

    /// Set the universal start threshold - no `Exit` records until the emulated
    /// TSC reaches this value.
    pub fn with_exit_start_tsc(self, start_tsc: u64) -> (r: Self)
        ensures
            r == (EventConfig { exit_start_tsc: start_tsc, ..self }),
    {
        let mut config = self;
        config.exit_start_tsc = start_tsc;
        config
    }

    /// Skip memory hashing in exit records (`memory_hash` stays 0).
    pub fn with_no_memory_hash(self) -> (r: Self)
        ensures
            r == (EventConfig {
                exit_flags: self.exit_flags | EXIT_FLAG_NO_MEMORY_HASH,
                ..self
            }),
            r.exit_flags & 1u32 == 1,
    {
        proof {
            exit_flags_are_independent(self.exit_flags, EXIT_FLAG_NO_MEMORY_HASH, 0);
        }
        let mut config = self;
        config.exit_flags = self.exit_flags | EXIT_FLAG_NO_MEMORY_HASH;
        config
    }

    /// Intercept guest #PF exceptions for determinism analysis.
    pub fn with_intercept_pf(self) -> (r: Self)
        ensures
            r == (EventConfig { exit_flags: self.exit_flags | EXIT_FLAG_INTERCEPT_PF, ..self }),
            r.exit_flags & 2u32 == 2,
    {
        proof {
            exit_flags_are_independent(self.exit_flags, EXIT_FLAG_INTERCEPT_PF, 0);
        }
        let mut config = self;
        config.exit_flags = self.exit_flags | EXIT_FLAG_INTERCEPT_PF;
        config
    }

    /// Tolerate a PEBS skid larger than the host margin (best effort). Without
    /// this, such a skid aborts the run immediately.
    pub fn with_ignore_pebs_margin(self) -> (r: Self)
        ensures
            r == (EventConfig {
                exit_flags: self.exit_flags | EXIT_FLAG_IGNORE_PEBS_MARGIN,
                ..self
            }),
            r.exit_flags & 4u32 == 4,
    {
        proof {
            exit_flags_are_independent(self.exit_flags, EXIT_FLAG_IGNORE_PEBS_MARGIN, 0);
        }
        let mut config = self;
        config.exit_flags = self.exit_flags | EXIT_FLAG_IGNORE_PEBS_MARGIN;
        config
    }

    /// Tolerate a late APIC-timer injection (best effort). Without this, a timer
    /// delivered past its deadline aborts the run immediately.
    pub fn with_ignore_late_inject(self) -> (r: Self)
        ensures
            r == (EventConfig {
                exit_flags: self.exit_flags | EXIT_FLAG_IGNORE_LATE_INJECT,
                ..self
            }),
            r.exit_flags & 8u32 == 8,
    {
        proof {
            exit_flags_are_independent(self.exit_flags, EXIT_FLAG_IGNORE_LATE_INJECT, 0);
        }
        let mut config = self;
        config.exit_flags = self.exit_flags | EXIT_FLAG_IGNORE_LATE_INJECT;
        config
    }

    /// Enable deterministic instruction-granular preemption: inject an extra
    /// interrupt roughly every `period` retired instructions (0 = disabled),
    /// with per-interval jitter drawn from `seed`. See
    /// `ApicState::configure_preempt`.
    pub fn with_preempt(self, period: u64, seed: u64) -> (r: Self)
        ensures
            r == (EventConfig { preempt_period: period, preempt_seed: seed, ..self }),
    {
        let mut config = self;
        config.preempt_period = period;
        config.preempt_seed = seed;
        config
    }

    /// Enable EPT write-watchpoint directed preemption: force a preemption at
    /// each watched shared-memory write with probability `pct` percent (0 =
    /// disabled), using `seed` for the per-hit decision PRNG. See
    /// `ApicState::configure_watchpoints`.
    pub fn with_watchpoints(
        self,
        pct: u32,
        seed: u64,
        cull_epochs: u32,
        cull_cap: u32,
        rearm: u64,
    ) -> (r: Self)
        ensures
            r == (EventConfig {
                watchpoint_pct: pct,
                watchpoint_seed: seed,
                watchpoint_cull_epochs: cull_epochs,
                watchpoint_cull_cap: cull_cap,
                watchpoint_rearm: rearm,
                ..self
            }),
    {
        let mut config = self;
        config.watchpoint_pct = pct;
        config.watchpoint_seed = seed;
        config.watchpoint_cull_epochs = cull_epochs;
        config.watchpoint_cull_cap = cull_cap;
        config.watchpoint_rearm = rearm;
        config
    }

    /// Enable the hardware data-breakpoint race detector. `len` is the watch
    /// width in bytes (0 = default 4); `oneshot` disarms a slot on its first
    /// conflict. `rip_lo`/`rip_hi` bound the RIP window a candidate must fault
    /// from to be armed (`rip_hi == 0` disables the filter). Only effective
    /// alongside `with_watchpoints` (which supplies the candidate addresses).
    /// See `ApicState::configure_watchpoint_dr`.
    pub fn with_watchpoint_dr(self, len: u8, oneshot: bool, rip_lo: u64, rip_hi: u64) -> (r: Self)
        ensures
            r == (EventConfig {
                watchpoint_dr: true,
                watchpoint_dr_len: len,
                watchpoint_dr_oneshot: oneshot,
                watchpoint_dr_rip_lo: rip_lo,
                watchpoint_dr_rip_hi: rip_hi,
                ..self
            }),
    {
        let mut config = self;
        config.watchpoint_dr = true;
        config.watchpoint_dr_len = len;
        config.watchpoint_dr_oneshot = oneshot;
        config.watchpoint_dr_rip_lo = rip_lo;
        config.watchpoint_dr_rip_hi = rip_hi;
        config
    }

    /// The configured category mask as an [`EventCategories`].
    pub fn categories(&self) -> (r: EventCategories)
        ensures
            r == EventCategories(self.categories),
    {
        EventCategories(self.categories)
    }
}

/// The exit flags are independent: setting one keeps every other one, and
/// setting it again changes nothing.
pub proof fn exit_flags_are_independent(flags: u32, flag: u32, other: u32)
    requires
        other == 0 || flag & other == 0,
    ensures
        (flags | flag) & flag == flag,
        (flags | flag) & other == flags & other,
        (flags | flag) | flag == flags | flag,
{
    assert((flags | flag) & flag == flag && (flags | flag) & other == flags & other && (flags
        | flag) | flag == flags | flag) by (bit_vector)
        requires
            other == 0 || flag & other == 0,
    ;
}

/// A configuration that says nothing asks for nothing: no buffer, no category, no
/// exit record, no preemption, no watchpoint; a breakpoint, once asked for, is
/// one-shot.
pub proof fn default_asks_for_nothing()
    ensures
        ({
            let c = all_off();
            &&& c.enabled == 0 && c.categories == 0
            &&& c.exit_trigger == trigger_number(ExitTrigger::Disabled) && c.exit_flags == 0
            &&& c.exit_target_tsc == 0 && c.exit_start_tsc == 0
            &&& c.preempt_period == 0 && c.preempt_seed == 0
            &&& c.watchpoint_pct == 0 && c.watchpoint_seed == 0
            &&& c.watchpoint_cull_epochs == 0 && c.watchpoint_cull_cap == 0
            &&& c.watchpoint_rearm == 0
            &&& !c.watchpoint_dr && c.watchpoint_dr_len == 0 && c.watchpoint_dr_oneshot
            &&& c.watchpoint_dr_rip_lo == 0 && c.watchpoint_dr_rip_hi == 0
        }),
{
}

/// The trigger policies have these numbers, and no two the same.
pub proof fn triggers_have_their_numbers(a: ExitTrigger, b: ExitTrigger)
    ensures
        trigger_number(ExitTrigger::Disabled) == 0 && trigger_number(ExitTrigger::AtTsc) == 1,
        trigger_number(ExitTrigger::AtShutdown) == 2 && trigger_number(ExitTrigger::AllExits) == 3,
        trigger_number(ExitTrigger::Checkpoints) == 4 && trigger_number(ExitTrigger::TscRange)
            == 5,
        trigger_number(a) == trigger_number(b) ==> a == b,
{
}

} // verus!
