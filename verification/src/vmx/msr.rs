//! Model-specific register numbers.

use vstd::prelude::*;

verus! {

pub const IA32_TSC_ADJUST: u32 = 0x3B;

pub const IA32_FEATURE_CONTROL: u32 = 0x3A;

pub const IA32_APIC_BASE: u32 = 0x1B;

pub const MSR_SMI_COUNT: u32 = 0x34;

pub const IA32_SPEC_CTRL: u32 = 0x48;

pub const IA32_PRED_CMD: u32 = 0x49;

pub const IA32_PPIN_CTL: u32 = 0x4E;

pub const IA32_MKTME_KEYID_PARTITIONING: u32 = 0x87;

pub const IA32_BIOS_SIGN_ID: u32 = 0x8B;

pub const IA32_PMC0: u32 = 0xC1;

pub const IA32_PMC1: u32 = 0xC2;

pub const IA32_PMC2: u32 = 0xC3;

pub const IA32_PMC3: u32 = 0xC4;

pub const IA32_PMC4: u32 = 0xC5;

pub const IA32_PMC5: u32 = 0xC6;

pub const IA32_PMC6: u32 = 0xC7;

pub const IA32_PMC7: u32 = 0xC8;

pub const IA32_PLATFORM_INFO: u32 = 0xCE;

pub const MSR_PKG_CST_CONFIG_CONTROL: u32 = 0xE2;

pub const IA32_MPERF: u32 = 0xE7;

pub const IA32_APERF: u32 = 0xE8;

pub const IA32_MTRRCAP: u32 = 0xFE;

pub const IA32_MISC_FEATURES_ENABLES: u32 = 0x140;

pub const MSR_OC_MAILBOX: u32 = 0x150;

pub const IA32_MCG_CAP: u32 = 0x179;

pub const IA32_MCG_STATUS: u32 = 0x17A;

pub const IA32_PERFEVTSEL0: u32 = 0x186;

pub const IA32_PERFEVTSEL1: u32 = 0x187;

pub const IA32_PERFEVTSEL2: u32 = 0x188;

pub const IA32_PERFEVTSEL3: u32 = 0x189;

pub const IA32_PERFEVTSEL4: u32 = 0x18A;

pub const IA32_PERFEVTSEL5: u32 = 0x18B;

pub const IA32_PERFEVTSEL6: u32 = 0x18C;

pub const IA32_PERFEVTSEL7: u32 = 0x18D;

pub const IA32_PERF_STATUS: u32 = 0x198;

pub const IA32_PERF_CTL: u32 = 0x199;

pub const IA32_THERM_INTERRUPT: u32 = 0x19B;

pub const IA32_THERM_STATUS: u32 = 0x19C;

pub const IA32_MISC_ENABLE: u32 = 0x1A0;

pub const IA32_OFFCORE_RSP_0: u32 = 0x1A6;

pub const IA32_OFFCORE_RSP_1: u32 = 0x1A7;

pub const MSR_MISC_PWR_MGMT: u32 = 0x1AA;

pub const IA32_ENERGY_PERF_BIAS: u32 = 0x1B0;

pub const IA32_PACKAGE_THERM_STATUS: u32 = 0x1B1;

pub const IA32_PACKAGE_THERM_INTERRUPT: u32 = 0x1B2;

pub const IA32_LBR_TOS: u32 = 0x1C9;

pub const MSR_POWER_CTL: u32 = 0x1FC;

pub const IA32_MTRR_PHYSBASE0: u32 = 0x200;

pub const IA32_MTRR_PHYSMASK9: u32 = 0x213;

pub const IA32_MTRR_FIX64K_00000: u32 = 0x250;

pub const IA32_MTRR_FIX16K_80000: u32 = 0x258;

pub const IA32_MTRR_FIX16K_A0000: u32 = 0x259;

pub const IA32_MTRR_FIX4K_C0000: u32 = 0x268;

pub const IA32_MTRR_FIX4K_F8000: u32 = 0x26F;

pub const IA32_PAT: u32 = 0x277;

pub const IA32_MTRR_DEF_TYPE: u32 = 0x2FF;

pub const IA32_PERF_CAPABILITIES: u32 = 0x345;

pub const IA32_FIXED_CTR_CTRL: u32 = 0x38D;

pub const IA32_PEBS_LD_LAT_THRESHOLD: u32 = 0x3F6;

pub const IA32_PEBS_FRONTEND: u32 = 0x3F7;

pub const IA32_RTIT_CTL: u32 = 0x570;

pub const MSR_RAPL_POWER_UNIT: u32 = 0x606;

pub const MSR_PKG_POWER_LIMIT: u32 = 0x610;

pub const MSR_PKG_ENERGY_STATUS: u32 = 0x611;

pub const MSR_PKG_POWER_INFO: u32 = 0x614;

pub const MSR_DRAM_POWER_LIMIT: u32 = 0x618;

pub const MSR_DRAM_ENERGY_STATUS: u32 = 0x619;

pub const MSR_DRAM_POWER_INFO: u32 = 0x61C;

pub const MSR_PP0_POWER_LIMIT: u32 = 0x638;

pub const MSR_PP0_ENERGY_STATUS: u32 = 0x639;

pub const MSR_PP1_POWER_LIMIT: u32 = 0x640;

pub const MSR_PP1_ENERGY_STATUS: u32 = 0x641;

pub const MSR_PPERF: u32 = 0x64E;

pub const MSR_ATOM_CORE_RATIOS: u32 = 0x66A;

pub const MSR_ATOM_CORE_VIDS: u32 = 0x66B;

pub const MSR_ATOM_CORE_TURBO_RATIOS: u32 = 0x66C;

pub const IA32_TSC_DEADLINE: u32 = 0x6E0;

pub const IA32_PM_ENABLE: u32 = 0x770;

pub const IA32_HWP_CAPABILITIES: u32 = 0x771;

pub const IA32_HWP_INTERRUPT: u32 = 0x773;

pub const IA32_HWP_REQUEST: u32 = 0x774;

pub const IA32_HWP_STATUS: u32 = 0x777;

pub const IA32_TSC_AUX: u32 = 0xC000_0103;

pub const MSR_AMD64_DE_CFG: u32 = 0xC001_1029;

} // verus!
