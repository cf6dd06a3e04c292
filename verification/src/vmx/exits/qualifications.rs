//! Decoded forms of VM exit and VM entry information fields.

use vstd::prelude::*;

verus! {

/// Kind of an event (bits 10:8 of an interruption-information field).
#[derive(Clone, Copy, PartialEq, Eq, Debug, Structural)]
pub enum InterruptionType {
    ExternalInterrupt,
    Reserved,
    Nmi,
    HardwareException,
    SoftwareInterrupt,
    PrivilegedSoftwareException,
    SoftwareException,
    Other,
}

impl InterruptionType {
    /// The field's value for this kind.
    pub open spec fn code(&self) -> u32 {
        match *self {
            InterruptionType::ExternalInterrupt => 0,
            InterruptionType::Reserved => 1,
            InterruptionType::Nmi => 2,
            InterruptionType::HardwareException => 3,
            InterruptionType::SoftwareInterrupt => 4,
            InterruptionType::PrivilegedSoftwareException => 5,
            InterruptionType::SoftwareException => 6,
            InterruptionType::Other => 7,
        }
    }

    /// The kind that a field value stands for.
    pub open spec fn of(code: u32) -> InterruptionType {
        if code == 0 {
            InterruptionType::ExternalInterrupt
        } else if code == 1 {
            InterruptionType::Reserved
        } else if code == 2 {
            InterruptionType::Nmi
        } else if code == 3 {
            InterruptionType::HardwareException
        } else if code == 4 {
            InterruptionType::SoftwareInterrupt
        } else if code == 5 {
            InterruptionType::PrivilegedSoftwareException
        } else if code == 6 {
            InterruptionType::SoftwareException
        } else {
            InterruptionType::Other
        }
    }
}

/// Interruption information, as in the VM-exit, VM-entry and IDT-vectoring
/// fields.
#[derive(Clone, Copy, PartialEq, Eq, Debug, Structural)]
pub struct InterruptionInfo {
    /// Vector of the event.
    pub vector: u8,
    /// Kind of the event.
    pub interruption_type: InterruptionType,
    /// Whether an error code belongs to it.
    pub error_code_valid: bool,
    /// Whether it unblocked NMIs by IRET.
    pub nmi_unblocking: bool,
    /// Whether there is an event at all.
    pub valid: bool,
}

impl InterruptionInfo {
    /// The field's value.
    pub open spec fn bits(&self) -> u32 {
        (self.vector as u32) | (self.interruption_type.code() << 8) | (if self.error_code_valid {
            1u32 << 11
        } else {
            0
        }) | (if self.nmi_unblocking {
            1u32 << 12
        } else {
            0
        }) | (if self.valid {
            1u32 << 31
        } else {
            0
        })
    }

    /// What a field value says.
    pub open spec fn of(raw: u32) -> InterruptionInfo {
        InterruptionInfo {
            vector: (raw & 0xFF) as u8,
            interruption_type: InterruptionType::of((raw >> 8) & 0x7),
            error_code_valid: raw & (1u32 << 11) != 0,
            nmi_unblocking: raw & (1u32 << 12) != 0,
            valid: raw & (1u32 << 31) != 0,
        }
    }

    /// A valid external interrupt with the given vector.
    pub open spec fn external(vector: u8) -> InterruptionInfo {
        InterruptionInfo {
            vector,
            interruption_type: InterruptionType::ExternalInterrupt,
            error_code_valid: false,
            nmi_unblocking: false,
            valid: true,
        }
    }

    /// A valid external interrupt with the given vector.
    pub fn external_interrupt(vector: u8) -> (r: Self)
        ensures
            r == InterruptionInfo::external(vector),
    {
        InterruptionInfo {
            vector,
            interruption_type: InterruptionType::ExternalInterrupt,
            error_code_valid: false,
            nmi_unblocking: false,
            valid: true,
        }
    }

    /// Decode a field value.
    pub fn decode(raw: u32) -> (r: Self)
        ensures
            r == InterruptionInfo::of(raw),
    {
        InterruptionInfo {
            vector: (raw & 0xFF) as u8,
            interruption_type: match (raw >> 8) & 0x7 {
                0 => InterruptionType::ExternalInterrupt,
                1 => InterruptionType::Reserved,
                2 => InterruptionType::Nmi,
                3 => InterruptionType::HardwareException,
                4 => InterruptionType::SoftwareInterrupt,
                5 => InterruptionType::PrivilegedSoftwareException,
                6 => InterruptionType::SoftwareException,
                _ => InterruptionType::Other,
            },
            error_code_valid: raw & (1u32 << 11) != 0,
            nmi_unblocking: raw & (1u32 << 12) != 0,
            valid: raw & (1u32 << 31) != 0,
        }
    }

    /// The field's value.
    pub fn encode(&self) -> (r: u32)
        ensures
            r == self.bits(),
    {
        let code: u32 = match self.interruption_type {
            InterruptionType::ExternalInterrupt => 0,
            InterruptionType::Reserved => 1,
            InterruptionType::Nmi => 2,
            InterruptionType::HardwareException => 3,
            InterruptionType::SoftwareInterrupt => 4,
            InterruptionType::PrivilegedSoftwareException => 5,
            InterruptionType::SoftwareException => 6,
            InterruptionType::Other => 7,
        };
        let error_code: u32 = if self.error_code_valid { 1u32 << 11 } else { 0 };
        let nmi: u32 = if self.nmi_unblocking { 1u32 << 12 } else { 0 };
        let valid: u32 = if self.valid { 1u32 << 31 } else { 0 };
        (self.vector as u32) | (code << 8) | error_code | nmi | valid
    }
}

/// Decoding gives back what was encoded.
pub proof fn interruption_info_round_trip(info: InterruptionInfo)
    ensures
        InterruptionInfo::of(info.bits()) == info,
{
    let v = info.vector;
    let c = info.interruption_type.code();
    let e = info.error_code_valid;
    let n = info.nmi_unblocking;
    let p = info.valid;
    let raw = info.bits();
    assert(c <= 7);
    assert((raw & 0xFF) as u8 == v && (raw >> 8) & 0x7 == c && (raw & (1u32 << 11) != 0) == e && (
    raw & (1u32 << 12) != 0) == n && (raw & (1u32 << 31) != 0) == p) by (bit_vector)
        requires
            c <= 7,
            raw == (v as u32) | (c << 8) | (if e {
                1u32 << 11
            } else {
                0
            }) | (if n {
                1u32 << 12
            } else {
                0
            }) | (if p {
                1u32 << 31
            } else {
                0
            }),
    ;
}

/// How an EPT violation came about.
#[derive(Clone, Copy, PartialEq, Eq, Debug, Structural)]
pub struct EptViolationQualification {
    /// The access was a data read.
    pub read: bool,
    /// The access was a data write.
    pub write: bool,
    /// The access was an instruction fetch.
    pub execute: bool,
}

} // verus!
