//! Guest general-purpose registers.

use vstd::prelude::*;

verus! {

/// The general-purpose registers that the processor does not keep in the VMCS,
/// with the stack pointer beside them.
#[derive(Clone, Copy, PartialEq, Eq, Debug, Structural)]
pub struct GeneralPurposeRegisters {
    pub rax: u64,
    pub rcx: u64,
    pub rdx: u64,
    pub rbx: u64,
    pub rsp: u64,
    pub rbp: u64,
    pub rsi: u64,
    pub rdi: u64,
    pub r8: u64,
    pub r9: u64,
    pub r10: u64,
    pub r11: u64,
    pub r12: u64,
    pub r13: u64,
    pub r14: u64,
    pub r15: u64,
}

impl GeneralPurposeRegisters {
    /// The register with the given encoding; 0 for an encoding that names none.
    pub open spec fn value(&self, register: u8) -> u64 {
        if register == 0 {
            self.rax
        } else if register == 1 {
            self.rcx
        } else if register == 2 {
            self.rdx
        } else if register == 3 {
            self.rbx
        } else if register == 4 {
            self.rsp
        } else if register == 5 {
            self.rbp
        } else if register == 6 {
            self.rsi
        } else if register == 7 {
            self.rdi
        } else if register == 8 {
            self.r8
        } else if register == 9 {
            self.r9
        } else if register == 10 {
            self.r10
        } else if register == 11 {
            self.r11
        } else if register == 12 {
            self.r12
        } else if register == 13 {
            self.r13
        } else if register == 14 {
            self.r14
        } else if register == 15 {
            self.r15
        } else {
            0
        }
    }

    /// The registers with the given one set; unchanged for an encoding that
    /// names none.
    pub open spec fn with_value(self, register: u8, value: u64) -> GeneralPurposeRegisters {
        if register == 0 {
            GeneralPurposeRegisters { rax: value, ..self }
        } else if register == 1 {
            GeneralPurposeRegisters { rcx: value, ..self }
        } else if register == 2 {
            GeneralPurposeRegisters { rdx: value, ..self }
        } else if register == 3 {
            GeneralPurposeRegisters { rbx: value, ..self }
        } else if register == 4 {
            GeneralPurposeRegisters { rsp: value, ..self }
        } else if register == 5 {
            GeneralPurposeRegisters { rbp: value, ..self }
        } else if register == 6 {
            GeneralPurposeRegisters { rsi: value, ..self }
        } else if register == 7 {
            GeneralPurposeRegisters { rdi: value, ..self }
        } else if register == 8 {
            GeneralPurposeRegisters { r8: value, ..self }
        } else if register == 9 {
            GeneralPurposeRegisters { r9: value, ..self }
        } else if register == 10 {
            GeneralPurposeRegisters { r10: value, ..self }
        } else if register == 11 {
            GeneralPurposeRegisters { r11: value, ..self }
        } else if register == 12 {
            GeneralPurposeRegisters { r12: value, ..self }
        } else if register == 13 {
            GeneralPurposeRegisters { r13: value, ..self }
        } else if register == 14 {
            GeneralPurposeRegisters { r14: value, ..self }
        } else if register == 15 {
            GeneralPurposeRegisters { r15: value, ..self }
        } else {
            self
        }
    }

    /// All registers zero.
    pub fn new() -> (r: Self)
        ensures
            forall|i: u8| #[trigger] r.value(i) == 0,
    {
        GeneralPurposeRegisters {
            rax: 0,
            rcx: 0,
            rdx: 0,
            rbx: 0,
            rsp: 0,
            rbp: 0,
            rsi: 0,
            rdi: 0,
            r8: 0,
            r9: 0,
            r10: 0,
            r11: 0,
            r12: 0,
            r13: 0,
            r14: 0,
            r15: 0,
        }
    }
}

/// Read the register with the given instruction encoding.
pub fn get_gpr_value(gprs: &GeneralPurposeRegisters, register: u8) -> (r: u64)
    ensures
        r == gprs.value(register),
{
    match register {
        0 => gprs.rax,
        1 => gprs.rcx,
        2 => gprs.rdx,
        3 => gprs.rbx,
        4 => gprs.rsp,
        5 => gprs.rbp,
        6 => gprs.rsi,
        7 => gprs.rdi,
        8 => gprs.r8,
        9 => gprs.r9,
        10 => gprs.r10,
        11 => gprs.r11,
        12 => gprs.r12,
        13 => gprs.r13,
        14 => gprs.r14,
        15 => gprs.r15,
        _ => 0,
    }
}

/// Write the register with the given instruction encoding.
pub fn set_gpr_value(gprs: &mut GeneralPurposeRegisters, register: u8, value: u64)
    ensures
        *final(gprs) == old(gprs).with_value(register, value),
{
    match register {
        0 => gprs.rax = value,
        1 => gprs.rcx = value,
        2 => gprs.rdx = value,
        3 => gprs.rbx = value,
        4 => gprs.rsp = value,
        5 => gprs.rbp = value,
        6 => gprs.rsi = value,
        7 => gprs.rdi = value,
        8 => gprs.r8 = value,
        9 => gprs.r9 = value,
        10 => gprs.r10 = value,
        11 => gprs.r11 = value,
        12 => gprs.r12 = value,
        13 => gprs.r13 = value,
        14 => gprs.r14 = value,
        15 => gprs.r15 = value,
        _ => {},
    }
}

/// A register reads back what was written to it, and no other one changes.
pub proof fn register_reads_back(
    gprs: GeneralPurposeRegisters,
    register: u8,
    value: u64,
    other: u8,
)
    requires
        register < 16,
    ensures
        gprs.with_value(register, value).value(register) == value,
        other != register ==> gprs.with_value(register, value).value(other) == gprs.value(other),
{
}

/// The registers have the encodings that instructions give them.
pub proof fn registers_have_their_encodings(gprs: GeneralPurposeRegisters, other: u8)
    ensures
        gprs.value(0) == gprs.rax && gprs.value(1) == gprs.rcx,
        gprs.value(2) == gprs.rdx && gprs.value(3) == gprs.rbx,
        gprs.value(4) == gprs.rsp && gprs.value(5) == gprs.rbp,
        gprs.value(6) == gprs.rsi && gprs.value(7) == gprs.rdi,
        gprs.value(8) == gprs.r8 && gprs.value(9) == gprs.r9,
        gprs.value(10) == gprs.r10 && gprs.value(11) == gprs.r11,
        gprs.value(12) == gprs.r12 && gprs.value(13) == gprs.r13,
        gprs.value(14) == gprs.r14 && gprs.value(15) == gprs.r15,
        other >= 16 ==> gprs.value(other) == 0 && gprs.with_value(other, 1) == gprs,
{
}

} // verus!
