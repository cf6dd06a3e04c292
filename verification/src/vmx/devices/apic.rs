//! Local APIC (Advanced Programmable Interrupt Controller) emulation.
//!
//! The local APIC is accessed by the guest at physical address
//! 0xFEE00000-0xFEE01000. All registers are 32-bit aligned at 16-byte
//! boundaries per Intel SDM Vol 3A, Table 12-1.

use vstd::prelude::*;

use crate::vmx::exit_record::hash::{StateHash, Xxh64Hasher};

verus! {

/// Default IA32_APIC_BASE value: APIC enabled, BSP, base at 0xFEE00000.
pub const APIC_BASE_DEFAULT: u64 = 0xFEE0_0900;

/// One step of the 64-bit xorshift generator.
pub open spec fn xorshift64(x: u64) -> u64 {
    let a = x ^ (x << 13);
    let b = a ^ (a >> 7);
    b ^ (b << 17)
}

/// APIC timer divisor from the Divide Configuration Register, whose bits 3, 1
/// and 0 encode it.
pub open spec fn timer_divisor(dcr: u32) -> u32 {
    let encoded = ((dcr >> 1) & 0b100) | (dcr & 0b11);
    if encoded == 0b000 {
        2
    } else if encoded == 0b001 {
        4
    } else if encoded == 0b010 {
        8
    } else if encoded == 0b011 {
        16
    } else if encoded == 0b100 {
        32
    } else if encoded == 0b101 {
        64
    } else if encoded == 0b110 {
        128
    } else {
        1
    }
}

/// Calculate APIC timer divisor from the Divide Configuration Register (DCR).
/// DCR bits [3,1:0] encode the divisor.
pub fn apic_timer_divisor(dcr: u32) -> (r: u32)
    ensures
        r == timer_divisor(dcr),
        1 <= r <= 128,
{
    let encoded: u32 = ((dcr >> 1) & 0b100) | (dcr & 0b11);
    match encoded {
        0b000 => 2,
        0b001 => 4,
        0b010 => 8,
        0b011 => 16,
        0b100 => 32,
        0b101 => 64,
        0b110 => 128,
        _ => 1,
    }
}

/// Local APIC register state for software emulation.
#[derive(Clone, Copy)]
pub struct ApicState {
    /// IA32_APIC_BASE MSR (0x1B) - APIC base address and enable bits.
    /// Bit 8: BSP flag, Bit 10: x2APIC enable, Bit 11: APIC enable.
    pub base: u64,
    /// APIC ID (offset 0x020) - bits 31:24 contain the ID
    pub id: u32,
    /// Version register (offset 0x030)
    pub version: u32,
    /// Task Priority Register (offset 0x080)
    pub tpr: u32,
    /// Logical Destination Register (offset 0x0D0)
    pub ldr: u32,
    /// Destination Format Register (offset 0x0E0)
    pub dfr: u32,
    /// Spurious Interrupt Vector Register (offset 0x0F0)
    pub svr: u32,
    /// In-Service Register (offsets 0x100-0x170, 8 x 32-bit)
    pub isr: [u32; 8],
    /// Trigger Mode Register (offsets 0x180-0x1F0, 8 x 32-bit)
    pub tmr: [u32; 8],
    /// Interrupt Request Register (offsets 0x200-0x270, 8 x 32-bit)
    pub irr: [u32; 8],
    /// Error Status Register (offset 0x280)
    pub esr: u32,
    /// Interrupt Command Register low (offset 0x300)
    pub icr_lo: u32,
    /// Interrupt Command Register high (offset 0x310)
    pub icr_hi: u32,
    /// LVT Timer Register (offset 0x320)
    pub lvt_timer: u32,
    /// LVT Thermal Sensor Register (offset 0x330)
    pub lvt_thermal: u32,
    /// LVT Performance Monitoring Register (offset 0x340)
    pub lvt_perf: u32,
    /// LVT LINT0 Register (offset 0x350)
    pub lvt_lint0: u32,
    /// LVT LINT1 Register (offset 0x360)
    pub lvt_lint1: u32,
    /// LVT Error Register (offset 0x370)
    pub lvt_error: u32,
    /// Timer Initial Count Register (offset 0x380)
    pub timer_initial: u32,
    /// Timer Divide Configuration Register (offset 0x3E0)
    pub timer_divide: u32,
    /// TSC value when timer should fire (0 = timer not running).
    /// This is internal state, not a real APIC register.
    pub timer_deadline: u64,
    /// Instructions between deterministic forced preemptions (0 = disabled).
    ///
    /// Not a real APIC register. Drives *instruction-granular preemption*: an
    /// extra interrupt (the LVT timer vector) is injected roughly every
    /// `preempt_period` retired instructions, giving the guest scheduler a
    /// preemption point at an arbitrary instruction rather than only at its
    /// natural entries (timer tick / syscall / yield).
    pub preempt_period: u64,
    /// Dedicated xorshift64 stream for per-interval preemption jitter, kept
    /// separate from the RDRAND PRNG so forcing preemptions never perturbs the
    /// randomness the guest observes.
    pub preempt_seed: u64,
    /// Emulated-TSC (retired-instruction) count of the next forced preemption
    /// (0 = not yet armed). Fired on the first deterministic exit at or after
    /// this count.
    pub preempt_deadline: u64,
    /// Percentage chance of forcing a preemption at each EPT write-watchpoint
    /// hit (0 = feature disabled).
    pub watchpoint_pct: u32,
    /// Dedicated xorshift64 stream for the per-hit watchpoint preemption
    /// decision, kept separate from the RDRAND PRNG and the preemption-jitter
    /// PRNG so it never perturbs the randomness the guest observes.
    pub watchpoint_seed: u64,
    /// Arm-then-cull: number of observed userspace thread switches a
    /// single-writer watched page must survive before it is culled.
    pub watchpoint_cull_epochs: u32,
    /// Arm-then-cull: fault-count backstop for culling a page that never spans a
    /// thread switch (e.g. a single-threaded phase).
    pub watchpoint_cull_cap: u32,
    /// Sampling re-arm interval, in emulated-TSC (retired-instruction) ticks:
    /// how often confirmed watchpoints that were let through (granted RWX) are
    /// batch re-protected back to R+E so they can fault (and preempt) again.
    pub wp_rearm_interval: u64,
    /// Emulated-TSC of the next batch re-arm (0 = not yet armed). Lazily armed on
    /// the first eligible pass (see `check_wp_rearm`), then advanced from the
    /// current TSC after each fire.
    pub wp_rearm_deadline: u64,
    /// Whether the hardware data-breakpoint race detector is on.
    pub watchpoint_dr: bool,
    /// Watch length in bytes for breakpoint slots (0 = default 4).
    pub wp_dr_len: u8,
    /// Disarm a breakpoint slot on its first conflict.
    pub watchpoint_dr_oneshot: bool,
    /// Low bound (inclusive) of the RIP window a breakpoint candidate must
    /// fault from to be armed.
    pub watchpoint_dr_rip_lo: u64,
    /// High bound (exclusive) of the RIP window (0 = filter off).
    pub watchpoint_dr_rip_hi: u64,
}

impl ApicState {
    /// The gap to the forced preemption that is scheduled next.
    pub open spec fn next_interval(&self) -> int {
        self.preempt_period + xorshift64(self.preempt_seed) as int % self.preempt_period as int
    }

    /// Whether this watchpoint hit would force a preemption.
    pub open spec fn coin(&self) -> bool {
        xorshift64(self.watchpoint_seed) % 100 < self.watchpoint_pct
    }

    /// Power-on state: software-disabled, every LVT entry masked, nothing
    /// pending, and all preemption features off.
    pub open spec fn is_reset(&self) -> bool {
        &&& self.base == 0xFEE0_0900
        &&& self.id == 0
        &&& self.version == 0x0005_0014
        &&& self.tpr == 0
        &&& self.ldr == 0
        &&& self.dfr == 0xFFFF_FFFF
        &&& self.svr == 0xFF
        &&& forall|i: int| 0 <= i < 8 ==> #[trigger] self.isr@[i] == 0
        &&& forall|i: int| 0 <= i < 8 ==> #[trigger] self.tmr@[i] == 0
        &&& forall|i: int| 0 <= i < 8 ==> #[trigger] self.irr@[i] == 0
        &&& self.esr == 0
        &&& self.icr_lo == 0
        &&& self.icr_hi == 0
        &&& self.lvt_timer == 0x1_0000
        &&& self.lvt_thermal == 0x1_0000
        &&& self.lvt_perf == 0x1_0000
        &&& self.lvt_lint0 == 0x1_0000
        &&& self.lvt_lint1 == 0x1_0000
        &&& self.lvt_error == 0x1_0000
        &&& self.timer_initial == 0
        &&& self.timer_divide == 0
        &&& self.timer_deadline == 0
        &&& self.preempt_period == 0
        &&& self.preempt_seed == 0
        &&& self.preempt_deadline == 0
        &&& self.watchpoint_pct == 0
        &&& self.watchpoint_seed == 0
        &&& self.watchpoint_cull_epochs == 0
        &&& self.watchpoint_cull_cap == 0
        &&& self.wp_rearm_interval == 0
        &&& self.wp_rearm_deadline == 0
        &&& !self.watchpoint_dr
        &&& self.wp_dr_len == 0
        &&& !self.watchpoint_dr_oneshot
        &&& self.watchpoint_dr_rip_lo == 0
        &&& self.watchpoint_dr_rip_hi == 0
    }
}

impl Default for ApicState {
    fn default() -> (r: Self)
        ensures
            r.is_reset(),
    {
        ApicState {
            base: APIC_BASE_DEFAULT,
            id: 0,
            // Version: bits 7:0 = version (0x14), bits 23:16 = max LVT entry (5)
            version: 0x0005_0014,
            tpr: 0,
            ldr: 0,
            dfr: 0xFFFF_FFFF,
            // SVR: APIC disabled (bit 8 = 0), vector = 0xFF
            svr: 0x0000_00FF,
            isr: [0u32;8],
            tmr: [0u32;8],
            irr: [0u32;8],
            esr: 0,
            icr_lo: 0,
            icr_hi: 0,
            // LVT registers: masked (bit 16 = 1)
            lvt_timer: 0x0001_0000,
            lvt_thermal: 0x0001_0000,
            lvt_perf: 0x0001_0000,
            lvt_lint0: 0x0001_0000,
            lvt_lint1: 0x0001_0000,
            lvt_error: 0x0001_0000,
            timer_initial: 0,
            timer_divide: 0,
            timer_deadline: 0,
            preempt_period: 0,
            preempt_seed: 0,
            preempt_deadline: 0,
            watchpoint_pct: 0,
            watchpoint_seed: 0,
            watchpoint_cull_epochs: 0,
            watchpoint_cull_cap: 0,
            wp_rearm_interval: 0,
            wp_rearm_deadline: 0,
            watchpoint_dr: false,
            wp_dr_len: 0,
            watchpoint_dr_oneshot: false,
            watchpoint_dr_rip_lo: 0,
            watchpoint_dr_rip_hi: 0,
        }
    }
}

impl ApicState {
    /// This APIC with forced preemption configured.
    pub open spec fn preempt_configured(self, period: u64, seed: u64) -> ApicState {
        ApicState {
            preempt_period: period,
            preempt_seed: if seed == 0 {
                1
            } else {
                seed
            },
            preempt_deadline: 0,
            ..self
        }
    }

    /// This APIC with write-watchpoints configured.
    pub open spec fn watchpoints_configured(
        self,
        pct: u32,
        seed: u64,
        cull_epochs: u32,
        cull_cap: u32,
        rearm_interval: u64,
    ) -> ApicState {
        ApicState {
            watchpoint_pct: pct,
            watchpoint_seed: if seed == 0 {
                1
            } else {
                seed
            },
            watchpoint_cull_epochs: if cull_epochs == 0 {
                2
            } else {
                cull_epochs
            },
            watchpoint_cull_cap: if cull_cap == 0 {
                256
            } else {
                cull_cap
            },
            wp_rearm_interval: if rearm_interval == 0 {
                100_000
            } else {
                rearm_interval
            },
            wp_rearm_deadline: 0,
            ..self
        }
    }

    /// This APIC with data breakpoints configured.
    pub open spec fn breakpoints_configured(
        self,
        enabled: bool,
        len: u8,
        oneshot: bool,
        rip_lo: u64,
        rip_hi: u64,
    ) -> ApicState {
        ApicState {
            watchpoint_dr: enabled,
            wp_dr_len: len,
            watchpoint_dr_oneshot: oneshot,
            watchpoint_dr_rip_lo: rip_lo,
            watchpoint_dr_rip_hi: rip_hi,
            ..self
        }
    }

    /// Enable deterministic instruction-granular preemption: inject an extra
    /// interrupt (the LVT timer vector) roughly every `period` retired
    /// instructions, with per-interval jitter drawn from `seed`. `period == 0`
    /// disables the feature. A zero `seed` is forced to 1, since 0 is a fixed
    /// point of the xorshift PRNG. The first deadline is armed lazily on the
    /// next injection pass, so this needn't know the current emulated TSC.
    pub fn configure_preempt(&mut self, period: u64, seed: u64)
        ensures
            *final(self) == (ApicState {
                preempt_period: period,
                preempt_seed: if seed == 0 {
                    1
                } else {
                    seed
                },
                preempt_deadline: 0,
                ..*old(self)
            }),
            *final(self) == old(self).preempt_configured(period, seed),
    {
        self.preempt_period = period;
        self.preempt_seed = if seed == 0 {
            1
        } else {
            seed
        };
        self.preempt_deadline = 0;
    }

    /// Advance the preemption-interval PRNG and return the gap, in retired
    /// instructions, until the next forced preemption. Range `[period,
    /// 2*period)`.
    pub fn next_preempt_interval(&mut self) -> (r: u64)
        requires
            old(self).preempt_period != 0,
            old(self).next_interval() <= u64::MAX,
        ensures
            *final(self) == (ApicState {
                preempt_seed: xorshift64(old(self).preempt_seed),
                ..*old(self)
            }),
            r == old(self).next_interval(),
            old(self).preempt_period <= r < 2 * old(self).preempt_period,
    {
        let mut x: u64 = self.preempt_seed;
        x ^= x << 13;
        x ^= x >> 7;
        x ^= x << 17;
        self.preempt_seed = x;
        self.preempt_period + (x % self.preempt_period)
    }

    /// Enable EPT write-watchpoint directed preemption: at each watchpoint hit,
    /// force a preemption with probability `pct` percent, using `seed` to drive
    /// the per-hit decision PRNG. `pct == 0` disables the feature. A zero `seed`
    /// is forced to 1, since 0 is a fixed point of the xorshift PRNG. A zero in
    /// any of the three tuning values means "use the default": 2 thread
    /// switches, 256 faults, 100000 ticks.
    pub fn configure_watchpoints(
        &mut self,
        pct: u32,
        seed: u64,
        cull_epochs: u32,
        cull_cap: u32,
        rearm_interval: u64,
    )
        ensures
            *final(self) == (ApicState {
                watchpoint_pct: pct,
                watchpoint_seed: if seed == 0 {
                    1
                } else {
                    seed
                },
                watchpoint_cull_epochs: if cull_epochs == 0 {
                    2
                } else {
                    cull_epochs
                },
                watchpoint_cull_cap: if cull_cap == 0 {
                    256
                } else {
                    cull_cap
                },
                wp_rearm_interval: if rearm_interval == 0 {
                    100_000
                } else {
                    rearm_interval
                },
                wp_rearm_deadline: 0,
                ..*old(self)
            }),
            *final(self) == old(self).watchpoints_configured(
                pct,
                seed,
                cull_epochs,
                cull_cap,
                rearm_interval,
            ),
    {
        self.watchpoint_pct = pct;
        self.watchpoint_seed = if seed == 0 {
            1
        } else {
            seed
        };
        // A zero from an unset config field means "use the default", never
        // "cull instantly".
        self.watchpoint_cull_epochs = if cull_epochs == 0 {
            2
        } else {
            cull_epochs
        };
        self.watchpoint_cull_cap = if cull_cap == 0 {
            256
        } else {
            cull_cap
        };
        // A re-arm interval of 0 would never re-arm, so a let-through page would
        // stay writable forever and only fault once.
        self.wp_rearm_interval = if rearm_interval == 0 {
            100_000
        } else {
            rearm_interval
        };
        // Re-arm afresh: any inherited deadline is meaningless under a new config.
        self.wp_rearm_deadline = 0;
    }

    /// Advance the watchpoint-decision PRNG and return whether this hit should
    /// force a preemption: true with probability `watchpoint_pct` percent. A
    /// dedicated xorshift64 stream, so drawing it never perturbs guest-observed
    /// randomness.
    pub fn watchpoint_should_preempt(&mut self) -> (r: bool)
        ensures
            *final(self) == (ApicState {
                watchpoint_seed: xorshift64(old(self).watchpoint_seed),
                ..*old(self)
            }),
            r == old(self).coin(),
    {
        let mut x: u64 = self.watchpoint_seed;
        x ^= x << 13;
        x ^= x >> 7;
        x ^= x << 17;
        self.watchpoint_seed = x;
        (x % 100) < self.watchpoint_pct as u64
    }

    /// Turn the hardware data-breakpoint race detector on or off. `len` is the
    /// watch width in bytes (0 = default 4); `oneshot` disarms a slot on its
    /// first conflict; `rip_lo`/`rip_hi` bound the RIP window a candidate must
    /// fault from to be armed (`rip_hi == 0` disables the filter).
    pub fn configure_watchpoint_dr(
        &mut self,
        enabled: bool,
        len: u8,
        oneshot: bool,
        rip_lo: u64,
        rip_hi: u64,
    )
        ensures
            *final(self) == (ApicState {
                watchpoint_dr: enabled,
                wp_dr_len: len,
                watchpoint_dr_oneshot: oneshot,
                watchpoint_dr_rip_lo: rip_lo,
                watchpoint_dr_rip_hi: rip_hi,
                ..*old(self)
            }),
            *final(self) == old(self).breakpoints_configured(enabled, len, oneshot, rip_lo, rip_hi),
    {
        self.watchpoint_dr = enabled;
        self.wp_dr_len = len;
        self.watchpoint_dr_oneshot = oneshot;
        self.watchpoint_dr_rip_lo = rip_lo;
        self.watchpoint_dr_rip_hi = rip_hi;
    }

    /// Watch length in bytes for breakpoint slots.
    pub open spec fn dr_len(&self) -> u8 {
        if self.wp_dr_len == 0 {
            4
        } else {
            self.wp_dr_len
        }
    }

    /// Watch length in bytes for breakpoint slots.
    pub fn watchpoint_dr_len(&self) -> (r: u8)
        ensures
            r == self.dr_len(),
    {
        if self.wp_dr_len == 0 {
            4
        } else {
            self.wp_dr_len
        }
    }

    /// Whether a candidate that faulted at `rip` may be armed.
    pub open spec fn rip_allowed(&self, rip: u64) -> bool {
        self.watchpoint_dr_rip_hi == 0 || self.watchpoint_dr_rip_lo <= rip
            < self.watchpoint_dr_rip_hi
    }

    /// Whether a candidate that faulted at `rip` may be armed: the filter is
    /// off, or `rip` lies in the window.
    pub fn watchpoint_dr_rip_allowed(&self, rip: u64) -> (r: bool)
        ensures
            r == self.rip_allowed(rip),
    {
        self.watchpoint_dr_rip_hi == 0 || (self.watchpoint_dr_rip_lo <= rip && rip
            < self.watchpoint_dr_rip_hi)
    }
}

impl StateHash for ApicState {
    open spec fn fed(&self, stream: Seq<u8>) -> Seq<u8> {
        let s = crate::vmx::exit_record::hash::fed_u64(stream, self.base);
        let s = crate::vmx::exit_record::hash::fed_u32(s, self.id);
        let s = crate::vmx::exit_record::hash::fed_u32(s, self.version);
        let s = crate::vmx::exit_record::hash::fed_u32(s, self.tpr);
        let s = crate::vmx::exit_record::hash::fed_u32(s, self.ldr);
        let s = crate::vmx::exit_record::hash::fed_u32(s, self.dfr);
        let s = crate::vmx::exit_record::hash::fed_u32(s, self.svr);
        let s = crate::vmx::exit_record::hash::fed_u32s(s, self.isr@);
        let s = crate::vmx::exit_record::hash::fed_u32s(s, self.tmr@);
        let s = crate::vmx::exit_record::hash::fed_u32s(s, self.irr@);
        let s = crate::vmx::exit_record::hash::fed_u32(s, self.esr);
        let s = crate::vmx::exit_record::hash::fed_u32(s, self.icr_lo);
        let s = crate::vmx::exit_record::hash::fed_u32(s, self.icr_hi);
        let s = crate::vmx::exit_record::hash::fed_u32(s, self.lvt_timer);
        let s = crate::vmx::exit_record::hash::fed_u32(s, self.lvt_thermal);
        let s = crate::vmx::exit_record::hash::fed_u32(s, self.lvt_perf);
        let s = crate::vmx::exit_record::hash::fed_u32(s, self.lvt_lint0);
        let s = crate::vmx::exit_record::hash::fed_u32(s, self.lvt_lint1);
        let s = crate::vmx::exit_record::hash::fed_u32(s, self.lvt_error);
        let s = crate::vmx::exit_record::hash::fed_u32(s, self.timer_initial);
        let s = crate::vmx::exit_record::hash::fed_u32(s, self.timer_divide);
        let s = crate::vmx::exit_record::hash::fed_u64(s, self.timer_deadline);
        let s = crate::vmx::exit_record::hash::fed_u64(s, self.preempt_period);
        let s = crate::vmx::exit_record::hash::fed_u64(s, self.preempt_seed);
        let s = crate::vmx::exit_record::hash::fed_u64(s, self.preempt_deadline);
        let s = crate::vmx::exit_record::hash::fed_u32(s, self.watchpoint_pct);
        crate::vmx::exit_record::hash::fed_u64(s, self.watchpoint_seed)
    }

    fn feed(&self, hasher: &mut Xxh64Hasher) {
        hasher.write_u64(self.base);
        hasher.write_u32(self.id);
        hasher.write_u32(self.version);
        hasher.write_u32(self.tpr);
        hasher.write_u32(self.ldr);
        hasher.write_u32(self.dfr);
        hasher.write_u32(self.svr);
        hasher.write_u32s(self.isr.as_slice());
        hasher.write_u32s(self.tmr.as_slice());
        hasher.write_u32s(self.irr.as_slice());
        hasher.write_u32(self.esr);
        hasher.write_u32(self.icr_lo);
        hasher.write_u32(self.icr_hi);
        hasher.write_u32(self.lvt_timer);
        hasher.write_u32(self.lvt_thermal);
        hasher.write_u32(self.lvt_perf);
        hasher.write_u32(self.lvt_lint0);
        hasher.write_u32(self.lvt_lint1);
        hasher.write_u32(self.lvt_error);
        hasher.write_u32(self.timer_initial);
        hasher.write_u32(self.timer_divide);
        hasher.write_u64(self.timer_deadline);
        hasher.write_u64(self.preempt_period);
        hasher.write_u64(self.preempt_seed);
        hasher.write_u64(self.preempt_deadline);
        hasher.write_u32(self.watchpoint_pct);
        hasher.write_u64(self.watchpoint_seed);
    }
}

/// Zero is the one fixed point that a seed must avoid: the generator never
/// reaches it from a nonzero seed, and never leaves it.
pub proof fn xorshift64_keeps_nonzero(x: u64)
    ensures
        xorshift64(x) == 0 <==> x == 0,
{
    assert(((x ^ (x << 13)) ^ ((x ^ (x << 13)) >> 7)) ^ (((x ^ (x << 13)) ^ ((x ^ (x << 13)) >> 7))
        << 17) == 0 <==> x == 0) by (bit_vector);
}

/// No two seeds lead to the same next state.
pub proof fn xorshift64_is_injective(x: u64, y: u64)
    requires
        xorshift64(x) == xorshift64(y),
    ensures
        x == y,
{
    lemma_left_step(x ^ (x << 13) ^ ((x ^ (x << 13)) >> 7), y ^ (y << 13) ^ ((y ^ (y << 13)) >> 7));
    lemma_right_step(x ^ (x << 13), y ^ (y << 13));
    assert(x ^ (x << 13) == y ^ (y << 13) ==> x == y) by (bit_vector);
}

proof fn lemma_left_step(a: u64, b: u64)
    by (bit_vector)
    requires
        a ^ (a << 17) == b ^ (b << 17),
    ensures
        a == b,
{
}

proof fn lemma_right_step(a: u64, b: u64)
    by (bit_vector)
    requires
        a ^ (a >> 7) == b ^ (b >> 7),
    ensures
        a == b,
{
}

/// A percentage of 0 never preempts and one of 100 or more always does,
/// whatever the seed.
pub proof fn watchpoint_percentage_extremes(apic: ApicState)
    ensures
        apic.watchpoint_pct == 0 ==> !apic.coin(),
        apic.watchpoint_pct >= 100 ==> apic.coin(),
{
}

/// The seed after `n` draws.
pub open spec fn xorshift64_stream(seed: u64, n: nat) -> u64
    decreases n,
{
    if n == 0 {
        seed
    } else {
        xorshift64(xorshift64_stream(seed, (n - 1) as nat))
    }
}

/// A configured seed drives a stream that never degenerates to zero.
pub proof fn configured_stream_never_degenerates(seed: u64, n: nat)
    requires
        seed != 0,
    ensures
        xorshift64_stream(seed, n) != 0,
    decreases n,
{
    if n > 0 {
        configured_stream_never_degenerates(seed, (n - 1) as nat);
        xorshift64_keeps_nonzero(xorshift64_stream(seed, (n - 1) as nat));
    }
}

/// The stream that the APIC's hash is taken of leaves nothing out: two APICs with
/// the same stream agree on every register, on what is requested and in service, on
/// the timer and on the preemption streams.
#[verifier::rlimit(40)]
pub proof fn hashed_stream_tells_apics_apart(a: ApicState, b: ApicState, s: Seq<u8>, t: Seq<u8>)
    requires
        a.fed(s) == b.fed(t),
    ensures
        s == t,
        a.base == b.base,
        a.id == b.id,
        a.version == b.version,
        a.tpr == b.tpr,
        a.ldr == b.ldr,
        a.dfr == b.dfr,
        a.svr == b.svr,
        a.isr@ == b.isr@,
        a.tmr@ == b.tmr@,
        a.irr@ == b.irr@,
        a.esr == b.esr,
        a.icr_lo == b.icr_lo,
        a.icr_hi == b.icr_hi,
        a.lvt_timer == b.lvt_timer,
        a.lvt_thermal == b.lvt_thermal,
        a.lvt_perf == b.lvt_perf,
        a.lvt_lint0 == b.lvt_lint0,
        a.lvt_lint1 == b.lvt_lint1,
        a.lvt_error == b.lvt_error,
        a.timer_initial == b.timer_initial,
        a.timer_divide == b.timer_divide,
        a.timer_deadline == b.timer_deadline,
        a.preempt_period == b.preempt_period,
        a.preempt_seed == b.preempt_seed,
        a.preempt_deadline == b.preempt_deadline,
        a.watchpoint_pct == b.watchpoint_pct,
        a.watchpoint_seed == b.watchpoint_seed,
{
    let a0 = crate::vmx::exit_record::hash::fed_u64(s, a.base);
    let b0 = crate::vmx::exit_record::hash::fed_u64(t, b.base);
    let a1 = crate::vmx::exit_record::hash::fed_u32(a0, a.id);
    let b1 = crate::vmx::exit_record::hash::fed_u32(b0, b.id);
    let a2 = crate::vmx::exit_record::hash::fed_u32(a1, a.version);
    let b2 = crate::vmx::exit_record::hash::fed_u32(b1, b.version);
    let a3 = crate::vmx::exit_record::hash::fed_u32(a2, a.tpr);
    let b3 = crate::vmx::exit_record::hash::fed_u32(b2, b.tpr);
    let a4 = crate::vmx::exit_record::hash::fed_u32(a3, a.ldr);
    let b4 = crate::vmx::exit_record::hash::fed_u32(b3, b.ldr);
    let a5 = crate::vmx::exit_record::hash::fed_u32(a4, a.dfr);
    let b5 = crate::vmx::exit_record::hash::fed_u32(b4, b.dfr);
    let a6 = crate::vmx::exit_record::hash::fed_u32(a5, a.svr);
    let b6 = crate::vmx::exit_record::hash::fed_u32(b5, b.svr);
    let a7 = crate::vmx::exit_record::hash::fed_u32s(a6, a.isr@);
    let b7 = crate::vmx::exit_record::hash::fed_u32s(b6, b.isr@);
    let a8 = crate::vmx::exit_record::hash::fed_u32s(a7, a.tmr@);
    let b8 = crate::vmx::exit_record::hash::fed_u32s(b7, b.tmr@);
    let a9 = crate::vmx::exit_record::hash::fed_u32s(a8, a.irr@);
    let b9 = crate::vmx::exit_record::hash::fed_u32s(b8, b.irr@);
    let a10 = crate::vmx::exit_record::hash::fed_u32(a9, a.esr);
    let b10 = crate::vmx::exit_record::hash::fed_u32(b9, b.esr);
    let a11 = crate::vmx::exit_record::hash::fed_u32(a10, a.icr_lo);
    let b11 = crate::vmx::exit_record::hash::fed_u32(b10, b.icr_lo);
    let a12 = crate::vmx::exit_record::hash::fed_u32(a11, a.icr_hi);
    let b12 = crate::vmx::exit_record::hash::fed_u32(b11, b.icr_hi);
    let a13 = crate::vmx::exit_record::hash::fed_u32(a12, a.lvt_timer);
    let b13 = crate::vmx::exit_record::hash::fed_u32(b12, b.lvt_timer);
    let a14 = crate::vmx::exit_record::hash::fed_u32(a13, a.lvt_thermal);
    let b14 = crate::vmx::exit_record::hash::fed_u32(b13, b.lvt_thermal);
    let a15 = crate::vmx::exit_record::hash::fed_u32(a14, a.lvt_perf);
    let b15 = crate::vmx::exit_record::hash::fed_u32(b14, b.lvt_perf);
    let a16 = crate::vmx::exit_record::hash::fed_u32(a15, a.lvt_lint0);
    let b16 = crate::vmx::exit_record::hash::fed_u32(b15, b.lvt_lint0);
    let a17 = crate::vmx::exit_record::hash::fed_u32(a16, a.lvt_lint1);
    let b17 = crate::vmx::exit_record::hash::fed_u32(b16, b.lvt_lint1);
    let a18 = crate::vmx::exit_record::hash::fed_u32(a17, a.lvt_error);
    let b18 = crate::vmx::exit_record::hash::fed_u32(b17, b.lvt_error);
    let a19 = crate::vmx::exit_record::hash::fed_u32(a18, a.timer_initial);
    let b19 = crate::vmx::exit_record::hash::fed_u32(b18, b.timer_initial);
    let a20 = crate::vmx::exit_record::hash::fed_u32(a19, a.timer_divide);
    let b20 = crate::vmx::exit_record::hash::fed_u32(b19, b.timer_divide);
    let a21 = crate::vmx::exit_record::hash::fed_u64(a20, a.timer_deadline);
    let b21 = crate::vmx::exit_record::hash::fed_u64(b20, b.timer_deadline);
    let a22 = crate::vmx::exit_record::hash::fed_u64(a21, a.preempt_period);
    let b22 = crate::vmx::exit_record::hash::fed_u64(b21, b.preempt_period);
    let a23 = crate::vmx::exit_record::hash::fed_u64(a22, a.preempt_seed);
    let b23 = crate::vmx::exit_record::hash::fed_u64(b22, b.preempt_seed);
    let a24 = crate::vmx::exit_record::hash::fed_u64(a23, a.preempt_deadline);
    let b24 = crate::vmx::exit_record::hash::fed_u64(b23, b.preempt_deadline);
    let a25 = crate::vmx::exit_record::hash::fed_u32(a24, a.watchpoint_pct);
    let b25 = crate::vmx::exit_record::hash::fed_u32(b24, b.watchpoint_pct);
    let a26 = crate::vmx::exit_record::hash::fed_u64(a25, a.watchpoint_seed);
    let b26 = crate::vmx::exit_record::hash::fed_u64(b25, b.watchpoint_seed);
    assert(a26 == a.fed(s) && b26 == b.fed(t));
    crate::vmx::exit_record::hash::last_value_can_be_told(a25, b25);
    assert(a25 == b25 && a.watchpoint_seed == b.watchpoint_seed);
    crate::vmx::exit_record::hash::last_value_can_be_told(a24, b24);
    assert(a24 == b24 && a.watchpoint_pct == b.watchpoint_pct);
    crate::vmx::exit_record::hash::last_value_can_be_told(a23, b23);
    assert(a23 == b23 && a.preempt_deadline == b.preempt_deadline);
    crate::vmx::exit_record::hash::last_value_can_be_told(a22, b22);
    assert(a22 == b22 && a.preempt_seed == b.preempt_seed);
    crate::vmx::exit_record::hash::last_value_can_be_told(a21, b21);
    assert(a21 == b21 && a.preempt_period == b.preempt_period);
    crate::vmx::exit_record::hash::last_value_can_be_told(a20, b20);
    assert(a20 == b20 && a.timer_deadline == b.timer_deadline);
    crate::vmx::exit_record::hash::last_value_can_be_told(a19, b19);
    assert(a19 == b19 && a.timer_divide == b.timer_divide);
    crate::vmx::exit_record::hash::last_value_can_be_told(a18, b18);
    assert(a18 == b18 && a.timer_initial == b.timer_initial);
    crate::vmx::exit_record::hash::last_value_can_be_told(a17, b17);
    assert(a17 == b17 && a.lvt_error == b.lvt_error);
    crate::vmx::exit_record::hash::last_value_can_be_told(a16, b16);
    assert(a16 == b16 && a.lvt_lint1 == b.lvt_lint1);
    crate::vmx::exit_record::hash::last_value_can_be_told(a15, b15);
    assert(a15 == b15 && a.lvt_lint0 == b.lvt_lint0);
    crate::vmx::exit_record::hash::last_value_can_be_told(a14, b14);
    assert(a14 == b14 && a.lvt_perf == b.lvt_perf);
    crate::vmx::exit_record::hash::last_value_can_be_told(a13, b13);
    assert(a13 == b13 && a.lvt_thermal == b.lvt_thermal);
    crate::vmx::exit_record::hash::last_value_can_be_told(a12, b12);
    assert(a12 == b12 && a.lvt_timer == b.lvt_timer);
    crate::vmx::exit_record::hash::last_value_can_be_told(a11, b11);
    assert(a11 == b11 && a.icr_hi == b.icr_hi);
    crate::vmx::exit_record::hash::last_value_can_be_told(a10, b10);
    assert(a10 == b10 && a.icr_lo == b.icr_lo);
    crate::vmx::exit_record::hash::last_value_can_be_told(a9, b9);
    assert(a9 == b9 && a.esr == b.esr);
    crate::vmx::exit_record::hash::last_words32_can_be_told(a8, b8, a.irr@, b.irr@);
    crate::vmx::exit_record::hash::last_words32_can_be_told(a7, b7, a.tmr@, b.tmr@);
    crate::vmx::exit_record::hash::last_words32_can_be_told(a6, b6, a.isr@, b.isr@);
    crate::vmx::exit_record::hash::last_value_can_be_told(a5, b5);
    assert(a5 == b5 && a.svr == b.svr);
    crate::vmx::exit_record::hash::last_value_can_be_told(a4, b4);
    assert(a4 == b4 && a.dfr == b.dfr);
    crate::vmx::exit_record::hash::last_value_can_be_told(a3, b3);
    assert(a3 == b3 && a.ldr == b.ldr);
    crate::vmx::exit_record::hash::last_value_can_be_told(a2, b2);
    assert(a2 == b2 && a.tpr == b.tpr);
    crate::vmx::exit_record::hash::last_value_can_be_told(a1, b1);
    assert(a1 == b1 && a.version == b.version);
    crate::vmx::exit_record::hash::last_value_can_be_told(a0, b0);
    assert(a0 == b0 && a.id == b.id);
    crate::vmx::exit_record::hash::last_value_can_be_told(s, t);
    assert(s == t && a.base == b.base);
}

/// The next number of a stream is made by three shifts: left by 13, right by 7, left
/// by 17, each combined with what was there. The gap to the next forced preemption
/// is that number's remainder added to the period.
pub proof fn preemption_gap_follows_the_stream(apic: ApicState)
    requires
        apic.preempt_period != 0,
    ensures
        ({
            let x1 = apic.preempt_seed ^ (apic.preempt_seed << 13);
            let x2 = x1 ^ (x1 >> 7);
            let x3 = x2 ^ (x2 << 17);
            &&& xorshift64(apic.preempt_seed) == x3
            &&& apic.next_interval() == apic.preempt_period + x3 as int
                % apic.preempt_period as int
        }),
{
}

/// The percentage decides by the remainder of the next number by 100.
pub proof fn watchpoint_coin_follows_the_stream(apic: ApicState)
    ensures
        ({
            let x1 = apic.watchpoint_seed ^ (apic.watchpoint_seed << 13);
            let x2 = x1 ^ (x1 >> 7);
            let x3 = x2 ^ (x2 << 17);
            apic.coin() == (x3 % 100 < apic.watchpoint_pct)
        }),
{
}

/// Forced preemption as configured: the period is the one given, the stream starts
/// from the seed, or from 1 where the seed would never leave zero, and the first
/// deadline is still to be set. Nothing that the guest sees changes.
pub proof fn configured_preemption_starts_afresh(apic: ApicState, period: u64, seed: u64, n: nat)
    ensures
        ({
            let after = apic.preempt_configured(period, seed);
            &&& after.preempt_period == period
            &&& seed != 0 ==> after.preempt_seed == seed
            &&& seed == 0 ==> after.preempt_seed == 1
            &&& xorshift64_stream(after.preempt_seed, n) != 0
            &&& after.preempt_deadline == 0
            &&& after.irr == apic.irr && after.isr == apic.isr
            &&& after.lvt_timer == apic.lvt_timer && after.timer_deadline == apic.timer_deadline
            &&& after.watchpoint_seed == apic.watchpoint_seed
            &&& after.watchpoint_pct == apic.watchpoint_pct
        }),
{
    configured_stream_never_degenerates(apic.preempt_configured(period, seed).preempt_seed, n);
}

/// Watchpoints as configured: what is given is taken as it is, and what is not given
/// is 2 thread switches, 256 faults and 100000 ticks; no limit is zero, so that no
/// page is let go at its first fault for want of a limit, and re-arming does happen.
pub proof fn configured_watchpoints_have_limits(
    apic: ApicState,
    pct: u32,
    seed: u64,
    cull_epochs: u32,
    cull_cap: u32,
    rearm: u64,
)
    ensures
        ({
            let after = apic.watchpoints_configured(pct, seed, cull_epochs, cull_cap, rearm);
            &&& after.watchpoint_pct == pct
            &&& after.watchpoint_seed != 0 && (seed != 0 ==> after.watchpoint_seed == seed)
            &&& after.watchpoint_cull_epochs == (if cull_epochs != 0 {
                cull_epochs as int
            } else {
                2
            })
            &&& after.watchpoint_cull_cap == (if cull_cap != 0 {
                cull_cap as int
            } else {
                256
            })
            &&& after.wp_rearm_interval == (if rearm != 0 {
                rearm as int
            } else {
                100000
            })
            &&& after.wp_rearm_deadline == 0
            &&& after.irr == apic.irr && after.isr == apic.isr
            &&& after.preempt_period == apic.preempt_period
            &&& after.preempt_seed == apic.preempt_seed
            &&& after.watchpoint_dr == apic.watchpoint_dr
        }),
{
}

/// Data breakpoints as configured: the length is the one given or 4, and a candidate
/// is armed if its code lies in the window, whose end is not in it, or if there is
/// no window.
pub proof fn configured_breakpoints_have_a_window(
    apic: ApicState,
    enabled: bool,
    len: u8,
    oneshot: bool,
    rip_lo: u64,
    rip_hi: u64,
    rip: u64,
)
    ensures
        ({
            let after = apic.breakpoints_configured(enabled, len, oneshot, rip_lo, rip_hi);
            &&& after.watchpoint_dr == enabled
            &&& after.watchpoint_dr_oneshot == oneshot
            &&& after.dr_len() == (if len == 0 {
                4
            } else {
                len as int
            })
            &&& after.rip_allowed(rip) == (rip_hi == 0 || (rip >= rip_lo && rip < rip_hi))
            &&& after.watchpoint_pct == apic.watchpoint_pct
            &&& after.watchpoint_seed == apic.watchpoint_seed
        }),
{
}

/// After reset the APIC is off: software-disabled, at its usual place as the boot
/// processor's, with every local vector masked, nothing requested or in service, no
/// timer running, and nothing forced or watched.
pub proof fn reset_apic_is_quiet(apic: ApicState, vector: u8)
    requires
        apic.is_reset(),
    ensures
        apic.base == 0xFEE0_0900,
        apic.svr < 0x100,
        apic.id == 0 && apic.tpr == 0,
        apic.version % 0x100 == 0x14 && apic.version / 0x1_0000 == 5,
        apic.lvt_timer == 0x1_0000 && apic.lvt_lint0 == 0x1_0000 && apic.lvt_lint1 == 0x1_0000,
        apic.lvt_error == 0x1_0000 && apic.lvt_perf == 0x1_0000 && apic.lvt_thermal == 0x1_0000,
        apic.timer_deadline == 0 && apic.timer_initial == 0,
        apic.preempt_period == 0 && apic.watchpoint_pct == 0 && !apic.watchpoint_dr,
        !super::vectors::has_vector(apic.irr@, vector),
        !super::vectors::has_vector(apic.isr@, vector),
{
    let b = (vector % 32) as u32;
    assert(apic.irr@[vector as int / 32] == 0 && apic.isr@[vector as int / 32] == 0);
    assert((0u32 >> b) & 1 == 0) by (bit_vector);
}

} // verus!
