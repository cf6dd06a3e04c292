//! CPUID exit handler.

use vstd::prelude::*;

use super::helpers::{finish_instruction, ExitHandlerResult};
use crate::vmx::registers::GeneralPurposeRegisters;
use crate::vmx::state::VmState;
use crate::vmx::traits::context::VmContext;

verus! {

/// The four registers that CPUID returns.
#[derive(Clone, Copy, PartialEq, Eq, Debug, Structural)]
pub struct CpuidRegs {
    pub eax: u32,
    pub ebx: u32,
    pub ecx: u32,
    pub edx: u32,
}

/// All four registers zero.
pub open spec fn cpuid_zero() -> CpuidRegs {
    CpuidRegs { eax: 0, ebx: 0, ecx: 0, edx: 0 }
}

/// Structured extended features (leaf 7, EBX) that are not offered: SGX (bit 2),
/// HLE (4), SMEP (7), RTM (11), AVX512F (16), AVX512DQ (17), RDSEED (18), ADX
/// (19), SMAP (20), AVX512_IFMA (21), AVX512PF (26), AVX512ER (27), AVX512CD
/// (28), AVX512BW (30), AVX512VL (31).
pub const UNSUPPORTED_FEATURES: u32 = 0xDC3F_0894;

/// Extended state components that are offered: x87, SSE and AVX.
pub const SUPPORTED_XCR0: u32 = 0x7;

/// Size of the XSAVE area for them: 512 (legacy) + 64 (header) + 256 (AVX).
pub const XSAVE_SIZE: u32 = 832;

/// Processor identification that the guest is shown, given what the host's
/// processor says for the same leaf and subleaf.
pub open spec fn guest_cpuid(leaf: u32, subleaf: u32, tsc_frequency: u64, host: CpuidRegs) -> CpuidRegs {
    if leaf == 0x0 {
        // Vendor from the host; highest basic leaf capped to what is handled
        CpuidRegs {
            eax: if host.eax > 0x16 {
                0x16
            } else {
                host.eax
            },
            ..host
        }
    } else if leaf == 0x1 {
        CpuidRegs {
            // Family 6, model 85, stepping 7
            eax: 0x0005_0657,
            // APIC ID 0, one logical processor
            ebx: (host.ebx & 0x0000_FFFF) | 0x0001_0000,
            // No VMX, no TSC deadline; a hypervisor is present
            ecx: (host.ecx & !(1u32 << 5) & !(1u32 << 24)) | (1u32 << 31),
            // No hyper-threading
            edx: host.edx & !(1u32 << 28),
        }
    } else if leaf == 0x4 {
        if subleaf == 0 {
            CpuidRegs { eax: host.eax & !0x3FF_C000, ..host }
        } else {
            host
        }
    } else if leaf == 0x7 {
        if subleaf == 0 {
            CpuidRegs { eax: host.eax, ebx: host.ebx & !UNSUPPORTED_FEATURES, ecx: 0, edx: 0 }
        } else {
            cpuid_zero()
        }
    } else if leaf == 0xB || leaf == 0x1F {
        if subleaf == 0 || subleaf == 1 {
            CpuidRegs {
                eax: host.eax,
                ebx: 0,
                ecx: (host.ecx & 0xFFFF_FF00) | subleaf,
                edx: 0,
            }
        } else {
            CpuidRegs { ecx: subleaf, ..cpuid_zero() }
        }
    } else if leaf == 0xD {
        if subleaf == 0 {
            CpuidRegs { eax: SUPPORTED_XCR0, ebx: XSAVE_SIZE, ecx: XSAVE_SIZE, edx: 0 }
        } else if subleaf == 2 {
            // AVX state: size and offset
            CpuidRegs { eax: 256, ebx: 576, ecx: 0, edx: 0 }
        } else {
            cpuid_zero()
        }
    } else if leaf == 0x15 {
        // TSC frequency = ECX * EBX / EAX
        CpuidRegs { eax: 1, ebx: 1, ecx: (tsc_frequency & 0xFFFF_FFFF) as u32, edx: 0 }
    } else if leaf == 0x16 {
        // Base, maximum and bus frequency in MHz
        CpuidRegs { eax: 3000, ebx: 5800, ecx: 100, edx: 0 }
    } else if leaf == 0x8000_0000 {
        CpuidRegs {
            eax: if host.eax < 0x8000_0004 {
                0x8000_0004
            } else {
                host.eax
            },
            ..host
        }
    } else if leaf == 0x8000_0002 {
        // "Bedrock VM CPU  "
        CpuidRegs { eax: 0x7264_6542, ebx: 0x206B_636F, ecx: 0x4320_4D56, edx: 0x2020_5550 }
    } else if leaf == 0x8000_0003 || leaf == 0x8000_0004 {
        CpuidRegs { eax: 0x2020_2020, ebx: 0x2020_2020, ecx: 0x2020_2020, edx: 0 }
    } else if leaf == 0x8000_0008 {
        // Address sizes from the host; a single core
        CpuidRegs { ecx: host.ecx & 0xFFFF_FF00, ..host }
    } else {
        // Thermal and power management, performance monitoring, and everything
        // that is not handled
        cpuid_zero()
    }
}

/// Filter the host's answer for the guest.
pub fn filter_cpuid(leaf: u32, subleaf: u32, tsc_frequency: u64, host: CpuidRegs) -> (r: CpuidRegs)
    ensures
        r == guest_cpuid(leaf, subleaf, tsc_frequency, host),
{
    let mut eax: u32 = host.eax;
    let mut ebx: u32 = host.ebx;
    let mut ecx: u32 = host.ecx;
    let mut edx: u32 = host.edx;
    match leaf {
        0x0 => {
            // Vendor ID - pass through "GenuineIntel" from host
            // EAX = max supported basic leaf, limit to what we handle
            if eax > 0x16 {
                eax = 0x16;
            }
        },
        0x1 => {
            // Basic CPUID information
            // Set fixed processor signature: Family 6, Model 85 (Skylake-SP), Stepping 7
            // For Family 6, Model 85: ext_model=5, model=5, family=6, stepping=7
            eax = 0x0005_0657;

            // Clear VMX (bit 5 of ECX) - guest shouldn't see VMX capability.
            // Clear TSC_DEADLINE_TIMER (bit 24 of ECX) - not supported; guest will
            // fall back to regular one-shot APIC timer.
            // Set hypervisor present bit (bit 31 of ECX).
            // XSAVE/OSXSAVE/AVX (bits 26, 27, 28) are the host's.
            ecx = (ecx & !(1u32 << 5) & !(1u32 << 24)) | (1u32 << 31);

            // Clear HTT (bit 28 of EDX) - no hyper-threading, single logical
            // processor. The APIC bit (9) stays - we handle APIC.
            edx = edx & !(1u32 << 28);

            // Set virtual APIC ID in EBX[31:24] to 0 and logical processor count
            // in EBX[23:16] to 1
            ebx = (ebx & 0x0000_FFFF) | 0x0001_0000;
        },
        0x4 => {
            // Deterministic cache parameters: report single core
            if subleaf == 0 {
                eax = eax & !0x3FF_C000;
            }
        },
        0x7 => {
            // Structured extended feature flags
            if subleaf == 0 {
                // Keep what the host supports of fsgsbase(0), bmi1(3), avx2(5),
                // bmi2(8), erms(9), invpcid(10); EDX mostly has speculation
                // control features
                ebx = ebx & !UNSUPPORTED_FEATURES;
                ecx = 0;
                edx = 0;
            } else {
                // Subleaves 1+: newer extensions not supported
                eax = 0;
                ebx = 0;
                ecx = 0;
                edx = 0;
            }
        },
        0xD => {
            // XSAVE state enumeration: must match what the hypervisor actually
            // virtualizes
            match subleaf {
                0 => {
                    // XCR0 supported bits and sizes
                    eax = SUPPORTED_XCR0;
                    ebx = XSAVE_SIZE;
                    ecx = XSAVE_SIZE;
                    edx = 0;
                },
                2 => {
                    // AVX state (YMM_Hi128): size, offset after legacy + header
                    eax = 256;
                    ebx = 576;
                    ecx = 0;
                    edx = 0;
                },
                _ => {
                    // XSAVES (subleaf 1) and other components: not supported
                    eax = 0;
                    ebx = 0;
                    ecx = 0;
                    edx = 0;
                },
            }
        },
        0xB | 0x1F => {
            // Extended topology enumeration. EDX returns the x2APIC ID (must match
            // CPUID.01H EBX[31:24]).
            edx = 0;
            ebx = 0;
            if subleaf == 0 || subleaf == 1 {
                ecx = (ecx & 0xFFFF_FF00) | subleaf;
            } else {
                // Higher subleaves: report no more levels
                eax = 0;
                ecx = subleaf;
            }
        },
        0x8000_0000 => {
            // Extended function info: support brand string
            if eax < 0x8000_0004 {
                eax = 0x8000_0004;
            }
        },
        0x8000_0002 => {
            // Processor brand string, first 16 bytes: "Bedrock VM CPU  "
            eax = 0x7264_6542;
            ebx = 0x206B_636F;
            ecx = 0x4320_4D56;
            edx = 0x2020_5550;
        },
        0x8000_0003 | 0x8000_0004 => {
            // Rest of the brand string: spaces
            eax = 0x2020_2020;
            ebx = 0x2020_2020;
            ecx = 0x2020_2020;
            edx = 0;
        },
        0x15 => {
            // Time Stamp Counter and Nominal Core Crystal Clock: report the TSC
            // frequency directly
            eax = 1;
            ebx = 1;
            ecx = (tsc_frequency & 0xFFFF_FFFF) as u32;
            edx = 0;
        },
        0x8000_0008 => {
            // Virtual/physical address sizes: report single core
            ecx = ecx & 0xFFFF_FF00;
        },
        0x16 => {
            // Processor Frequency Information: fixed, since the host's can change
            // with its power state
            eax = 3000;
            ebx = 5800;
            ecx = 100;
            edx = 0;
        },
        _ => {
            // Unhandled leaves return 0 for determinism, as do thermal and power
            // management (0x6) and performance monitoring (0xA)
            eax = 0;
            ebx = 0;
            ecx = 0;
            edx = 0;
        },
    }
    CpuidRegs { eax, ebx, ecx, edx }
}

/// The state after CPUID was answered, given what the host's processor said.
pub open spec fn cpuid_answered(s: VmState, host: CpuidRegs) -> VmState {
    let regs = guest_cpuid(s.gprs.rax as u32, s.gprs.rcx as u32, s.tsc_frequency, host);
    super::helpers::advanced(
        VmState {
            gprs: GeneralPurposeRegisters {
                rax: regs.eax as u64,
                rbx: regs.ebx as u64,
                rcx: regs.ecx as u64,
                rdx: regs.edx as u64,
                ..s.gprs
            },
            ..s
        },
    )
}

/// What the host's processor said, and what it was asked. Only executing CPUID
/// makes one.
pub struct HostCpuid {
    leaf: u32,
    subleaf: u32,
    regs: CpuidRegs,
}

impl HostCpuid {
    /// The leaf that was asked for.
    pub closed spec fn leaf(&self) -> u32 {
        self.leaf
    }

    /// The subleaf that was asked for.
    pub closed spec fn subleaf(&self) -> u32 {
        self.subleaf
    }

    /// The answer.
    pub closed spec fn regs(&self) -> CpuidRegs {
        self.regs
    }

    /// The answer's registers.
    pub fn registers(&self) -> (r: CpuidRegs)
        ensures
            r == self.regs(),
    {
        self.regs
    }
}

/// Handle CPUID exit.
///
/// Emulates CPUID by executing on the host and filtering results. The host is
/// asked for the guest's leaf and subleaf.
pub fn handle_cpuid<C: VmContext>(ctx: &mut C) -> (r: ExitHandlerResult)
    ensures
        exists|host: HostCpuid|
            host.leaf() == old(ctx).vm().gprs.rax as u32 && host.subleaf() == old(
                ctx,
            ).vm().gprs.rcx as u32 && final(ctx).vm() == cpuid_answered(
                old(ctx).vm(),
                #[trigger] host.regs(),
            ),
        r == super::helpers::advanced_result(old(ctx).vm(), ExitHandlerResult::Continue),
        final(ctx).frame() == old(ctx).frame(),
{
    let leaf: u32 = ctx.state().gprs.rax as u32;
    let subleaf: u32 = ctx.state().gprs.rcx as u32;
    let host = cpuid(leaf, subleaf);
    answer_host_cpuid(ctx, host)
}

/// Answer a CPUID exit with what the host's processor said. It must have been
/// asked for the leaf in EAX and the subleaf in ECX.
pub fn answer_host_cpuid<C: VmContext>(ctx: &mut C, host: HostCpuid) -> (r: ExitHandlerResult)
    requires
        host.leaf() == old(ctx).vm().gprs.rax as u32,
        host.subleaf() == old(ctx).vm().gprs.rcx as u32,
    ensures
        final(ctx).vm() == cpuid_answered(old(ctx).vm(), host.regs()),
        r == super::helpers::advanced_result(old(ctx).vm(), ExitHandlerResult::Continue),
        final(ctx).frame() == old(ctx).frame(),
{
    answer_cpuid(ctx, host.registers())
}

/// Answer a CPUID exit from the host registers for the leaf in EAX and the
/// subleaf in ECX.
pub fn answer_cpuid<C: VmContext>(ctx: &mut C, host: CpuidRegs) -> (r: ExitHandlerResult)
    ensures
        final(ctx).vm() == cpuid_answered(old(ctx).vm(), host),
        r == super::helpers::advanced_result(old(ctx).vm(), ExitHandlerResult::Continue),
        final(ctx).frame() == old(ctx).frame(),
{
    let state = ctx.state_mut();
    let regs = filter_cpuid(
        state.gprs.rax as u32,
        state.gprs.rcx as u32,
        state.tsc_frequency,
        host,
    );

    // Write results back
    state.gprs.rax = regs.eax as u64;
    state.gprs.rbx = regs.ebx as u64;
    state.gprs.rcx = regs.ecx as u64;
    state.gprs.rdx = regs.edx as u64;
    finish_instruction(state, ExitHandlerResult::Continue)
}

/// Execute CPUID on the host: `core::arch::x86_64::__cpuid_count`.
///
/// The result carries the leaf and the subleaf that the instruction was executed
/// with. What it answered depends on the processor that it runs on, so nothing is
/// claimed of the registers.
#[verifier::external_body]
pub(crate) fn cpuid(leaf: u32, subleaf: u32) -> (r: HostCpuid)
    ensures
        r.leaf() == leaf,
        r.subleaf() == subleaf,
{
    let r = core::arch::x86_64::__cpuid_count(leaf, subleaf);
    HostCpuid {
        leaf,
        subleaf,
        regs: CpuidRegs { eax: r.eax, ebx: r.ebx, ecx: r.ecx, edx: r.edx },
    }
}

/// The leaves whose answer takes nothing from the host.
pub open spec fn is_host_independent(leaf: u32, subleaf: u32) -> bool {
    !(leaf == 0x0 || leaf == 0x1 || leaf == 0x4 || (leaf == 0x7 && subleaf == 0) || ((leaf == 0xB
        || leaf == 0x1F) && subleaf <= 1) || leaf == 0x8000_0000 || leaf == 0x8000_0008)
}

/// Those leaves are answered the same on every machine, and a leaf that is not
/// handled is answered with zeros.
pub proof fn cpuid_is_reproducible(
    leaf: u32,
    subleaf: u32,
    tsc_frequency: u64,
    a: CpuidRegs,
    b: CpuidRegs,
)
    requires
        is_host_independent(leaf, subleaf),
    ensures
        guest_cpuid(leaf, subleaf, tsc_frequency, a) == guest_cpuid(
            leaf,
            subleaf,
            tsc_frequency,
            b,
        ),
        0x16 < leaf < 0x8000_0000 && leaf != 0x1F ==> guest_cpuid(leaf, subleaf, tsc_frequency, a)
            == cpuid_zero(),
        leaf > 0x8000_0008 ==> guest_cpuid(leaf, subleaf, tsc_frequency, a) == cpuid_zero(),
{
}

/// Whatever the host has, the guest sees no VMX, no TSC deadline timer and no
/// hyper-threading, and sees that a hypervisor is present.
pub proof fn cpuid_hides_what_is_not_emulated(subleaf: u32, tsc_frequency: u64, host: CpuidRegs)
    ensures
        ({
            let regs = guest_cpuid(0x1, subleaf, tsc_frequency, host);
            &&& regs.ecx & (1u32 << 5) == 0
            &&& regs.ecx & (1u32 << 24) == 0
            &&& regs.ecx & (1u32 << 31) != 0
            &&& regs.edx & (1u32 << 28) == 0
            &&& regs.ebx >> 24 == 0
            &&& (regs.ebx >> 16) & 0xFF == 1
        }),
        guest_cpuid(0x7, 0, tsc_frequency, host).ebx & UNSUPPORTED_FEATURES == 0,
        guest_cpuid(0x0, subleaf, tsc_frequency, host).eax <= 0x16,
        guest_cpuid(0x8000_0000, subleaf, tsc_frequency, host).eax >= 0x8000_0004,
{
    let c = host.ecx;
    let d = host.edx;
    let b = host.ebx;
    assert(((c & !(1u32 << 5) & !(1u32 << 24)) | (1u32 << 31)) & (1u32 << 5) == 0 && ((c & !(1u32
        << 5) & !(1u32 << 24)) | (1u32 << 31)) & (1u32 << 24) == 0 && ((c & !(1u32 << 5) & !(1u32
        << 24)) | (1u32 << 31)) & (1u32 << 31) != 0 && (d & !(1u32 << 28)) & (1u32 << 28) == 0 && ((
    b & 0x0000_FFFF) | 0x0001_0000) >> 24 == 0 && (((b & 0x0000_FFFF) | 0x0001_0000) >> 16) & 0xFF
        == 1 && (b & !0xDC3F_0894u32) & 0xDC3F_0894 == 0) by (bit_vector);
}

} // verus!
