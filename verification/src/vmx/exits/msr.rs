//! MSR read/write exit handlers.

use vstd::prelude::*;

use super::helpers::{finish_instruction, ExitHandlerResult};
use super::reasons::ExitReason;
use crate::vmx::devices::mtrr::{MtrrState, MTRR_VAR_MAX};
use crate::vmx::msr;
use crate::vmx::registers::GeneralPurposeRegisters;
use crate::vmx::state::{DeviceStates, MsrState, VmState};
use crate::vmx::traits::context::VmContext;

verus! {

/// Fake microcode version to report to guest (matches KVM's default).
pub const FAKE_MICROCODE_VERSION: u64 = 0x1_0000_0000;

/// Features that are not offered to the guest: their registers read 0 and
/// ignore writes.
pub open spec fn is_absent_feature(n: u32) -> bool {
    // Machine check, speculation control, TSC adjustment and deadline
    ||| n == msr::IA32_MCG_CAP
    ||| n == msr::IA32_MCG_STATUS
    ||| n == msr::IA32_SPEC_CTRL
    ||| n == msr::IA32_PRED_CMD
    ||| n == msr::IA32_TSC_ADJUST
    ||| n == msr::IA32_TSC_DEADLINE
    // Thermal monitoring and processor inventory number
    ||| n == msr::IA32_THERM_INTERRUPT
    ||| n == msr::IA32_THERM_STATUS
    ||| n == msr::IA32_PACKAGE_THERM_STATUS
    ||| n == msr::IA32_PACKAGE_THERM_INTERRUPT
    ||| n == msr::IA32_PPIN_CTL
    // Performance monitoring
    ||| n == msr::IA32_PERF_CAPABILITIES
    ||| n == msr::IA32_LBR_TOS
    ||| n == msr::IA32_OFFCORE_RSP_0
    ||| n == msr::IA32_OFFCORE_RSP_1
    ||| n == msr::IA32_PEBS_LD_LAT_THRESHOLD
    ||| n == msr::IA32_PEBS_FRONTEND
    ||| msr::IA32_PERFEVTSEL0 <= n <= msr::IA32_PERFEVTSEL7
    ||| n == msr::IA32_FIXED_CTR_CTRL
    ||| msr::IA32_PMC0 <= n <= msr::IA32_PMC7
    ||| n == msr::IA32_MPERF
    ||| n == msr::IA32_APERF
    ||| n == msr::MSR_ATOM_CORE_RATIOS
    ||| n == msr::MSR_ATOM_CORE_VIDS
    ||| n == msr::MSR_ATOM_CORE_TURBO_RATIOS
    // CPUID faulting and processor trace
    ||| n == msr::IA32_MISC_FEATURES_ENABLES
    ||| n == msr::IA32_RTIT_CTL
    // Running average power limits
    ||| n == msr::MSR_PKG_POWER_LIMIT
    ||| n == msr::MSR_PKG_ENERGY_STATUS
    ||| n == msr::MSR_PKG_POWER_INFO
    ||| n == msr::MSR_DRAM_POWER_LIMIT
    ||| n == msr::MSR_DRAM_ENERGY_STATUS
    ||| n == msr::MSR_DRAM_POWER_INFO
    ||| n == msr::MSR_PP0_POWER_LIMIT
    ||| n == msr::MSR_PP0_ENERGY_STATUS
    ||| n == msr::MSR_PP1_POWER_LIMIT
    ||| n == msr::MSR_PP1_ENERGY_STATUS
    // Power management
    ||| n == msr::MSR_PKG_CST_CONFIG_CONTROL
    ||| n == msr::MSR_POWER_CTL
    ||| n == msr::MSR_PPERF
    ||| n == msr::MSR_MISC_PWR_MGMT
    ||| n == msr::IA32_PM_ENABLE
    ||| n == msr::IA32_HWP_CAPABILITIES
    ||| n == msr::IA32_HWP_INTERRUPT
    ||| n == msr::IA32_HWP_REQUEST
    ||| n == msr::IA32_HWP_STATUS
    ||| n == msr::IA32_PERF_STATUS
    ||| n == msr::IA32_PERF_CTL
    ||| n == msr::IA32_ENERGY_PERF_BIAS
    ||| n == msr::MSR_OC_MAILBOX
}

/// Registers that read 0 but are not known for writing.
pub open spec fn is_probed_only(n: u32) -> bool {
    n == msr::MSR_SMI_COUNT || n == msr::MSR_AMD64_DE_CFG || n
        == msr::IA32_MKTME_KEYID_PARTITIONING
}

/// Registers with a value of their own that ignore writes.
pub open spec fn is_read_only(n: u32) -> bool {
    n == msr::IA32_MISC_ENABLE || n == msr::IA32_BIOS_SIGN_ID || n == msr::IA32_MTRRCAP || n
        == msr::IA32_FEATURE_CONTROL || n == msr::IA32_PLATFORM_INFO || n
        == msr::MSR_RAPL_POWER_UNIT
}

/// A memory type range register, if `n` is one.
pub open spec fn mtrr_value(mtrr: MtrrState, n: u32) -> Option<u64> {
    if n == msr::IA32_MTRR_DEF_TYPE {
        Some(mtrr.def_type)
    } else if msr::IA32_MTRR_PHYSBASE0 <= n <= msr::IA32_MTRR_PHYSMASK9 {
        let offset = n - msr::IA32_MTRR_PHYSBASE0;
        Some(
            if offset % 2 == 0 {
                mtrr.var@[offset / 2].0
            } else {
                mtrr.var@[offset / 2].1
            },
        )
    } else if n == msr::IA32_MTRR_FIX64K_00000 {
        Some(mtrr.fixed_64k)
    } else if msr::IA32_MTRR_FIX16K_80000 <= n <= msr::IA32_MTRR_FIX16K_A0000 {
        Some(mtrr.fixed_16k@[n - msr::IA32_MTRR_FIX16K_80000])
    } else if msr::IA32_MTRR_FIX4K_C0000 <= n <= msr::IA32_MTRR_FIX4K_F8000 {
        Some(mtrr.fixed_4k@[n - msr::IA32_MTRR_FIX4K_C0000])
    } else {
        None
    }
}

/// The memory type range registers with register `n` set, if it is one.
pub open spec fn mtrr_written(mtrr: MtrrState, n: u32, value: u64) -> MtrrState {
    if n == msr::IA32_MTRR_DEF_TYPE {
        MtrrState { def_type: value, ..mtrr }
    } else if msr::IA32_MTRR_PHYSBASE0 <= n <= msr::IA32_MTRR_PHYSMASK9 {
        let offset = n - msr::IA32_MTRR_PHYSBASE0;
        MtrrState {
            var: vstd::array::spec_array_update(
                mtrr.var,
                offset / 2,
                if offset % 2 == 0 {
                    (value, mtrr.var@[offset / 2].1)
                } else {
                    (mtrr.var@[offset / 2].0, value)
                },
            ),
            ..mtrr
        }
    } else if n == msr::IA32_MTRR_FIX64K_00000 {
        MtrrState { fixed_64k: value, ..mtrr }
    } else if msr::IA32_MTRR_FIX16K_80000 <= n <= msr::IA32_MTRR_FIX16K_A0000 {
        MtrrState {
            fixed_16k: vstd::array::spec_array_update(
                mtrr.fixed_16k,
                n - msr::IA32_MTRR_FIX16K_80000,
                value,
            ),
            ..mtrr
        }
    } else if msr::IA32_MTRR_FIX4K_C0000 <= n <= msr::IA32_MTRR_FIX4K_F8000 {
        MtrrState {
            fixed_4k: vstd::array::spec_array_update(
                mtrr.fixed_4k,
                n - msr::IA32_MTRR_FIX4K_C0000,
                value,
            ),
            ..mtrr
        }
    } else {
        mtrr
    }
}

/// IA32_MISC_ENABLE as the guest sees it: branch trace and PEBS reported as
/// unavailable (bits 11 and 12), MWAIT off (bit 18) to match CPUID, and the
/// host's value elsewhere.
pub open spec fn guest_misc_enable(host: u64) -> u64 {
    (host | (1u64 << 11) | (1u64 << 12)) & !(1u64 << 18)
}

/// What an MSR reads as, if it is known.
pub open spec fn msr_value(s: VmState, n: u32) -> Option<u64> {
    if is_absent_feature(n) || is_probed_only(n) {
        Some(0)
    } else if mtrr_value(s.devices.mtrr, n) is Some {
        mtrr_value(s.devices.mtrr, n)
    } else if n == msr::IA32_MISC_ENABLE {
        Some(guest_misc_enable(s.host_state.misc_enable))
    } else if n == msr::IA32_BIOS_SIGN_ID {
        Some(FAKE_MICROCODE_VERSION)
    } else if n == msr::IA32_MTRRCAP {
        // 10 variable ranges, fixed ranges (bit 8), write-combining (bit 10)
        Some(0x50A)
    } else if n == msr::IA32_PAT {
        Some(s.msr_state.pat)
    } else if n == msr::IA32_APIC_BASE {
        Some(s.devices.apic.base)
    } else if n == msr::IA32_TSC_AUX {
        Some(s.msr_state.tsc_aux)
    } else if n == msr::IA32_FEATURE_CONTROL {
        // Locked, VMX not enabled
        Some(1)
    } else if n == msr::IA32_PLATFORM_INFO {
        Some(s.host_state.platform_info)
    } else if n == msr::MSR_RAPL_POWER_UNIT {
        // Power 1/8 W, energy 1/65536 J, time 1/1024 s
        Some(0x000A_1003)
    } else {
        None
    }
}

/// The MSR that RDMSR or WRMSR names.
pub open spec fn named_msr(s: VmState) -> u32 {
    s.gprs.rcx as u32
}

/// The value that WRMSR writes: EDX:EAX.
pub open spec fn written_value(s: VmState) -> u64 {
    ((s.gprs.rdx & 0xFFFF_FFFF) << 32) | (s.gprs.rax & 0xFFFF_FFFF)
}

/// The state with EDX:EAX holding `value`.
pub open spec fn with_result(s: VmState, value: u64) -> VmState {
    VmState {
        gprs: GeneralPurposeRegisters { rax: value & 0xFFFF_FFFF, rdx: value >> 32, ..s.gprs },
        ..s
    }
}

/// The state after an RDMSR exit, and what handling it returns.
pub open spec fn msr_read_handled(s: VmState) -> (VmState, ExitHandlerResult) {
    match msr_value(s, named_msr(s)) {
        Some(value) => (
            super::helpers::advanced(with_result(s, value)),
            super::helpers::advanced_result(s, ExitHandlerResult::Continue),
        ),
        None => (
            super::helpers::advanced(s),
            super::helpers::advanced_result(
                s,
                ExitHandlerResult::ExitToUserspace(ExitReason::MsrRead),
            ),
        ),
    }
}

/// Handle MSR read (RDMSR) exit.
#[verifier::rlimit(40)]
pub fn handle_msr_read<C: VmContext>(ctx: &mut C) -> (r: ExitHandlerResult)
    ensures
        match msr_value(old(ctx).vm(), named_msr(old(ctx).vm())) {
            Some(value) => final(ctx).vm() == super::helpers::advanced(
                with_result(old(ctx).vm(), value),
            ) && r == super::helpers::advanced_result(
                old(ctx).vm(),
                ExitHandlerResult::Continue,
            ),
            // Unknown MSR - exit to userspace
            None => final(ctx).vm() == super::helpers::advanced(old(ctx).vm()) && r
                == super::helpers::advanced_result(
                old(ctx).vm(),
                ExitHandlerResult::ExitToUserspace(ExitReason::MsrRead),
            ),
        },
        final(ctx).vm() == msr_read_handled(old(ctx).vm()).0,
        r == msr_read_handled(old(ctx).vm()).1,
        final(ctx).frame() == old(ctx).frame(),
{
    let state = ctx.state_mut();
    let msr_num: u32 = state.gprs.rcx as u32;

    let value: u64 = match msr_num {
        msr::IA32_MISC_ENABLE => {
            // Return guest-safe value derived from host:
            // - Sets BTS/PEBS unavailable (bits 11, 12)
            // - Clears MWAIT (bit 18) to match CPUID
            (state.host_state.misc_enable | (1u64 << 11) | (1u64 << 12)) & !(1u64 << 18)
        },
        // Return fake microcode version (upper 32 bits).
        // Guest writes 0 then executes CPUID then reads this.
        msr::IA32_BIOS_SIGN_ID => FAKE_MICROCODE_VERSION,
        // MTRR capabilities:
        // - VCNT = 10 (10 variable range MTRRs)
        // - FIX = 1 (fixed range MTRRs supported, bit 8)
        // - WC = 1 (write-combining supported, bit 10)
        msr::IA32_MTRRCAP => 0x50A,
        msr::IA32_MTRR_DEF_TYPE => state.devices.mtrr.def_type,
        msr::IA32_MTRR_PHYSBASE0..=msr::IA32_MTRR_PHYSMASK9 => {
            let offset: usize = (msr_num - msr::IA32_MTRR_PHYSBASE0) as usize;
            let (base, mask) = state.devices.mtrr.var[offset / 2];
            if offset % 2 == 0 {
                base
            } else {
                mask
            }
        },
        msr::IA32_MTRR_FIX64K_00000 => state.devices.mtrr.fixed_64k,
        msr::IA32_MTRR_FIX16K_80000 | msr::IA32_MTRR_FIX16K_A0000 => {
            state.devices.mtrr.fixed_16k[(msr_num - msr::IA32_MTRR_FIX16K_80000) as usize]
        },
        msr::IA32_MTRR_FIX4K_C0000..=msr::IA32_MTRR_FIX4K_F8000 => {
            state.devices.mtrr.fixed_4k[(msr_num - msr::IA32_MTRR_FIX4K_C0000) as usize]
        },
        msr::IA32_PAT => state.msr_state.pat,
        msr::IA32_APIC_BASE => state.devices.apic.base,
        msr::IA32_TSC_AUX => state.msr_state.tsc_aux,
        // Return "locked, VMX not enabled" - we don't support nested virt.
        // Bit 0 = Lock, Bit 2 = VMX outside SMX enable.
        msr::IA32_FEATURE_CONTROL => 0x1,
        // Return host platform info.
        // Contains max non-turbo ratio in bits 15:8.
        msr::IA32_PLATFORM_INFO => state.host_state.platform_info,
        // Fixed RAPL unit multipliers for determinism:
        //   Power units  (bits 3:0)  = 0x3 -> 1/8 Watts
        //   Energy units (bits 12:8) = 0x10 -> 1/65536 Joules
        //   Time units   (bits 19:16) = 0xA -> 1/1024 seconds
        msr::MSR_RAPL_POWER_UNIT => 0x000A_1003,
        _ => {
            if absent_feature(msr_num) || msr_num == msr::MSR_SMI_COUNT || msr_num
                == msr::MSR_AMD64_DE_CFG || msr_num == msr::IA32_MKTME_KEYID_PARTITIONING {
                0
            } else {
                // SYSCALL MSRs (STAR, LSTAR, CSTAR, FMASK) use passthrough - no
                // VM exit. Unknown MSR - exit to userspace.
                return finish_instruction(
                    state,
                    ExitHandlerResult::ExitToUserspace(ExitReason::MsrRead),
                );
            }
        },
    };

    // Write value to EAX:EDX (RDMSR result format)
    state.gprs.rax = value & 0xFFFF_FFFF;
    state.gprs.rdx = value >> 32;
    finish_instruction(state, ExitHandlerResult::Continue)
}

/// The state after `value` was written to MSR `n`; `None` where the write goes
/// to userspace, which is for an unknown MSR and for an attempt to move the
/// APIC.
pub open spec fn msr_written(s: VmState, n: u32, value: u64) -> Option<VmState> {
    if is_absent_feature(n) || is_read_only(n) {
        Some(s)
    } else if mtrr_value(s.devices.mtrr, n) is Some {
        Some(
            VmState {
                devices: DeviceStates {
                    mtrr: mtrr_written(s.devices.mtrr, n, value),
                    ..s.devices
                },
                ..s
            },
        )
    } else if n == msr::IA32_PAT {
        Some(VmState { msr_state: MsrState { pat: value, ..s.msr_state }, ..s })
    } else if n == msr::IA32_TSC_AUX {
        Some(VmState { msr_state: MsrState { tsc_aux: value, ..s.msr_state }, ..s })
    } else if n == msr::IA32_APIC_BASE && value == s.devices.apic.base {
        Some(s)
    } else {
        None
    }
}

/// The state after a WRMSR exit, and what handling it returns.
pub open spec fn msr_write_handled(s: VmState) -> (VmState, ExitHandlerResult) {
    match msr_written(s, named_msr(s), written_value(s)) {
        Some(after) => (
            super::helpers::advanced(after),
            super::helpers::advanced_result(s, ExitHandlerResult::Continue),
        ),
        None => (
            super::helpers::advanced(s),
            super::helpers::advanced_result(
                s,
                ExitHandlerResult::ExitToUserspace(ExitReason::MsrWrite),
            ),
        ),
    }
}

/// Handle MSR write (WRMSR) exit.
pub fn handle_msr_write<C: VmContext>(ctx: &mut C) -> (r: ExitHandlerResult)
    ensures
        match msr_written(old(ctx).vm(), named_msr(old(ctx).vm()), written_value(old(ctx).vm())) {
            Some(after) => final(ctx).vm() == super::helpers::advanced(after) && r
                == super::helpers::advanced_result(old(ctx).vm(), ExitHandlerResult::Continue),
            None => final(ctx).vm() == super::helpers::advanced(old(ctx).vm()) && r
                == super::helpers::advanced_result(
                old(ctx).vm(),
                ExitHandlerResult::ExitToUserspace(ExitReason::MsrWrite),
            ),
        },
        final(ctx).vm() == msr_write_handled(old(ctx).vm()).0,
        r == msr_write_handled(old(ctx).vm()).1,
        final(ctx).frame() == old(ctx).frame(),
{
    let state = ctx.state_mut();
    let msr_num: u32 = state.gprs.rcx as u32;
    // WRMSR value is in EDX:EAX
    let value: u64 = ((state.gprs.rdx & 0xFFFF_FFFF) << 32) | (state.gprs.rax & 0xFFFF_FFFF);

    match msr_num {
        // Ignore writes - guest can't change these features
        msr::IA32_MISC_ENABLE => {},
        // Ignore writes - guest writes 0 before CPUID to trigger microcode
        // version update, but we just return a fake version
        msr::IA32_BIOS_SIGN_ID => {},
        // MTRRcap is read-only, ignore writes
        msr::IA32_MTRRCAP => {},
        // Store def_type; reserved bits are not validated
        msr::IA32_MTRR_DEF_TYPE => state.devices.mtrr.def_type = value,
        msr::IA32_MTRR_PHYSBASE0..=msr::IA32_MTRR_PHYSMASK9 => {
            let offset: usize = (msr_num - msr::IA32_MTRR_PHYSBASE0) as usize;
            let index: usize = offset / 2;
            assert(index < MTRR_VAR_MAX);
            let (base, mask) = state.devices.mtrr.var[index];
            if offset % 2 == 0 {
                state.devices.mtrr.var[index] = (value, mask);
            } else {
                state.devices.mtrr.var[index] = (base, value);
            }
        },
        msr::IA32_MTRR_FIX64K_00000 => state.devices.mtrr.fixed_64k = value,
        msr::IA32_MTRR_FIX16K_80000 | msr::IA32_MTRR_FIX16K_A0000 => {
            state.devices.mtrr.fixed_16k[(msr_num - msr::IA32_MTRR_FIX16K_80000) as usize] = value;
        },
        msr::IA32_MTRR_FIX4K_C0000..=msr::IA32_MTRR_FIX4K_F8000 => {
            state.devices.mtrr.fixed_4k[(msr_num - msr::IA32_MTRR_FIX4K_C0000) as usize] = value;
        },
        msr::IA32_PAT => state.msr_state.pat = value,
        msr::IA32_APIC_BASE => {
            // Reject any attempt to change APIC_BASE: APIC MMIO emulation is
            // hardcoded to 0xFEE00000.
            if state.devices.apic.base != value {
                return finish_instruction(
                    state,
                    ExitHandlerResult::ExitToUserspace(ExitReason::MsrWrite),
                );
            }
        },
        msr::IA32_TSC_AUX => state.msr_state.tsc_aux = value,
        // Ignore writes - MSR is locked (bit 0 = 1).
        msr::IA32_FEATURE_CONTROL => {},
        // Ignore writes - MSR is read-only.
        msr::IA32_PLATFORM_INFO => {},
        // Ignore writes - RAPL not supported.
        msr::MSR_RAPL_POWER_UNIT => {},
        _ => {
            if !absent_feature(msr_num) {
                // SYSCALL MSRs (STAR, LSTAR, CSTAR, FMASK) use passthrough - no
                // VM exit. Unknown MSR - exit to userspace.
                return finish_instruction(
                    state,
                    ExitHandlerResult::ExitToUserspace(ExitReason::MsrWrite),
                );
            }
        },
    }
    finish_instruction(state, ExitHandlerResult::Continue)
}

/// Whether an MSR belongs to a feature that is not offered to the guest.
fn absent_feature(msr_num: u32) -> (r: bool)
    ensures
        r == is_absent_feature(msr_num),
{
    match msr_num {
        // No machine check support
        msr::IA32_MCG_CAP | msr::IA32_MCG_STATUS => true,
        // No speculation mitigations (deterministic guest)
        msr::IA32_SPEC_CTRL | msr::IA32_PRED_CMD => true,
        // No TSC adjustment, no TSC-deadline mode (CPUID bit 24 is cleared, guest
        // uses regular APIC timer instead)
        msr::IA32_TSC_ADJUST | msr::IA32_TSC_DEADLINE => true,
        // No thermal monitoring
        msr::IA32_THERM_INTERRUPT
        | msr::IA32_THERM_STATUS
        | msr::IA32_PACKAGE_THERM_STATUS
        | msr::IA32_PACKAGE_THERM_INTERRUPT => true,
        // No PPIN, LBR, off-core response or PEBS, and no PMU
        msr::IA32_PPIN_CTL
        | msr::IA32_PERF_CAPABILITIES
        | msr::IA32_LBR_TOS
        | msr::IA32_OFFCORE_RSP_0
        | msr::IA32_OFFCORE_RSP_1
        | msr::IA32_PEBS_LD_LAT_THRESHOLD
        | msr::IA32_PEBS_FRONTEND
        | msr::IA32_FIXED_CTR_CTRL
        | msr::IA32_MPERF
        | msr::IA32_APERF => true,
        msr::IA32_PERFEVTSEL0..=msr::IA32_PERFEVTSEL7 => true,
        msr::IA32_PMC0..=msr::IA32_PMC7 => true,
        // Model-specific MSRs not supported
        msr::MSR_ATOM_CORE_RATIOS | msr::MSR_ATOM_CORE_VIDS | msr::MSR_ATOM_CORE_TURBO_RATIOS => true,
        // CPUID faulting not enabled, Intel PT not supported
        msr::IA32_MISC_FEATURES_ENABLES | msr::IA32_RTIT_CTL => true,
        // No energy consumption visible to guest, power limits not supported
        msr::MSR_PKG_POWER_LIMIT
        | msr::MSR_PKG_ENERGY_STATUS
        | msr::MSR_PKG_POWER_INFO
        | msr::MSR_DRAM_POWER_LIMIT
        | msr::MSR_DRAM_ENERGY_STATUS
        | msr::MSR_DRAM_POWER_INFO
        | msr::MSR_PP0_POWER_LIMIT
        | msr::MSR_PP0_ENERGY_STATUS
        | msr::MSR_PP1_POWER_LIMIT
        | msr::MSR_PP1_ENERGY_STATUS => true,
        // Power management not supported
        msr::MSR_PKG_CST_CONFIG_CONTROL
        | msr::MSR_POWER_CTL
        | msr::MSR_PPERF
        | msr::MSR_MISC_PWR_MGMT
        | msr::IA32_PM_ENABLE
        | msr::IA32_HWP_CAPABILITIES
        | msr::IA32_HWP_INTERRUPT
        | msr::IA32_HWP_REQUEST
        | msr::IA32_HWP_STATUS
        | msr::IA32_PERF_STATUS
        | msr::IA32_PERF_CTL
        | msr::IA32_ENERGY_PERF_BIAS
        | msr::MSR_OC_MAILBOX => true,
        _ => false,
    }
}

/// Registers that store what is written to them.
pub open spec fn is_stored(s: VmState, n: u32) -> bool {
    mtrr_value(s.devices.mtrr, n) is Some || n == msr::IA32_PAT || n == msr::IA32_TSC_AUX
}

/// A stored MSR reads back what was written, and no other MSR changes.
pub proof fn stored_msr_reads_back(s: VmState, n: u32, value: u64, other: u32)
    requires
        is_stored(s, n),
    ensures
        msr_written(s, n, value) is Some,
        msr_value(msr_written(s, n, value)->0, n) == Some(value),
        other != n ==> msr_value(msr_written(s, n, value)->0, other) == msr_value(s, other),
{
}

/// A write that succeeds to an MSR that stores nothing changes nothing.
pub proof fn other_msr_writes_are_ignored(s: VmState, n: u32, value: u64)
    requires
        !is_stored(s, n),
    ensures
        msr_written(s, n, value) is Some ==> msr_written(s, n, value)->0 == s,
{
}

/// WRMSR followed by RDMSR of the same register gives EDX:EAX back.
pub proof fn written_value_survives_the_registers(s: VmState, value: u64)
    ensures
        written_value(with_result(s, value)) == value,
{
    assert((((value >> 32) & 0xFFFF_FFFF) << 32) | ((value & 0xFFFF_FFFF) & 0xFFFF_FFFF) == value)
        by (bit_vector);
}

/// The features that are hidden from the guest in IA32_MISC_ENABLE are hidden
/// whatever the host has, and every other bit is the host's.
pub proof fn guest_misc_enable_hides_features(host: u64)
    ensures
        guest_misc_enable(host) & (1u64 << 11) != 0,
        guest_misc_enable(host) & (1u64 << 12) != 0,
        guest_misc_enable(host) & (1u64 << 18) == 0,
        guest_misc_enable(host) & !((1u64 << 11) | (1u64 << 12) | (1u64 << 18)) == host & !((1u64
            << 11) | (1u64 << 12) | (1u64 << 18)),
{
    lemma_misc_enable(host, guest_misc_enable(host));
}

proof fn lemma_misc_enable(host: u64, guest: u64)
    by (bit_vector)
    requires
        guest == (host | (1u64 << 11) | (1u64 << 12)) & !(1u64 << 18),
    ensures
        guest & (1u64 << 11) != 0,
        guest & (1u64 << 12) != 0,
        guest & (1u64 << 18) == 0,
        guest & !((1u64 << 11) | (1u64 << 12) | (1u64 << 18)) == host & !((1u64 << 11) | (1u64
            << 12) | (1u64 << 18)),
{
}

/// Reading an MSR never depends on the machine, but for the platform
/// information and the enable bits that the guest is shown.
pub proof fn msr_reads_are_reproducible(a: VmState, b: VmState, n: u32)
    requires
        a.devices.mtrr == b.devices.mtrr,
        a.devices.apic.base == b.devices.apic.base,
        a.msr_state == b.msr_state,
        n != msr::IA32_PLATFORM_INFO,
        n != msr::IA32_MISC_ENABLE,
    ensures
        msr_value(a, n) == msr_value(b, n),
{
}

} // verus!
