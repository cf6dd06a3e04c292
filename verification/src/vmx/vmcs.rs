//! The virtual-machine control structure (VMCS) as plain values.
//!
//! A VMCS is opaque to software and reached only through VMREAD and VMWRITE,
//! which fail on a field that the processor does not have; VMWRITE can also fail
//! on a field that can be read. Here a field is `Some` where the processor has it
//! and `None` where it does not, and `write_faults` tells of the fields that
//! cannot be written, so every handler's behaviour on each outcome is explicit.
//! The run loop loads this image from the hardware structure after a VM exit and
//! stores it back before the next VM entry.

use vstd::prelude::*;

verus! {

/// A VMREAD or VMWRITE failed.
#[derive(Clone, Copy, PartialEq, Eq, Debug, Structural)]
pub enum VmcsError {
    /// The processor does not have the field.
    UnsupportedField,
    /// The field can be read but not written.
    ReadOnlyField,
    /// No control structure is current on this processor.
    NoCurrentVmcs,
}

/// The 16-bit fields that the hypervisor uses.
#[derive(Clone, Copy, PartialEq, Eq, Debug, Structural)]
pub enum VmcsField16 {
    GuestCsSelector,
    GuestSsSelector,
}

/// The 32-bit fields that the hypervisor uses.
#[derive(Clone, Copy, PartialEq, Eq, Debug, Structural)]
pub enum VmcsField32 {
    PrimaryProcBasedVmExecControls,
    VmEntryInterruptionInfo,
    VmEntryExceptionErrorCode,
    VmExitInterruptionInfo,
    VmExitInterruptionErrorCode,
    IdtVectoringInfo,
    IdtVectoringErrorCode,
    VmExitInstructionLength,
    GuestGdtrLimit,
    GuestIdtrLimit,
    GuestInterruptibilityState,
    GuestActivityState,
}

/// The 64-bit fields that the hypervisor uses.
#[derive(Clone, Copy, PartialEq, Eq, Debug, Structural)]
pub enum VmcsField64 {
    GuestPhysicalAddr,
}

/// The natural-width fields that the hypervisor uses.
#[derive(Clone, Copy, PartialEq, Eq, Debug, Structural)]
pub enum VmcsFieldNatural {
    ExitQualification,
    GuestLinearAddr,
    GuestCr0,
    GuestCr3,
    GuestCr4,
    GuestFsBase,
    GuestGdtrBase,
    GuestIdtrBase,
    GuestRsp,
    GuestRip,
    GuestRflags,
    HostRip,
}

/// What VMWRITE fails with on each field, where it fails although the processor
/// has the field.
#[derive(Clone, Copy, PartialEq, Eq, Debug)]
pub struct VmcsWriteFaults {
    pub primary_proc_based_vm_exec_controls: Option<VmcsError>,
    pub vm_entry_interruption_info: Option<VmcsError>,
    pub vm_entry_exception_error_code: Option<VmcsError>,
    pub vm_exit_interruption_info: Option<VmcsError>,
    pub vm_exit_interruption_error_code: Option<VmcsError>,
    pub idt_vectoring_info: Option<VmcsError>,
    pub idt_vectoring_error_code: Option<VmcsError>,
    pub vm_exit_instruction_length: Option<VmcsError>,
    pub guest_gdtr_limit: Option<VmcsError>,
    pub guest_idtr_limit: Option<VmcsError>,
    pub guest_interruptibility_state: Option<VmcsError>,
    pub guest_activity_state: Option<VmcsError>,
    pub exit_qualification: Option<VmcsError>,
    pub guest_linear_addr: Option<VmcsError>,
    pub guest_cr0: Option<VmcsError>,
    pub guest_cr3: Option<VmcsError>,
    pub guest_cr4: Option<VmcsError>,
    pub guest_fs_base: Option<VmcsError>,
    pub guest_gdtr_base: Option<VmcsError>,
    pub guest_idtr_base: Option<VmcsError>,
    pub guest_rsp: Option<VmcsError>,
    pub guest_rip: Option<VmcsError>,
    pub guest_rflags: Option<VmcsError>,
    pub host_rip: Option<VmcsError>,
}

impl VmcsWriteFaults {
    /// Every field that the processor has can be written.
    pub open spec fn is_none(&self) -> bool {
        &&& forall|field: VmcsField32| #[trigger] self.get32(field) is None
        &&& forall|field: VmcsFieldNatural| #[trigger] self.get_natural(field) is None
    }

    /// The fault of a 32-bit field.
    pub open spec fn get32(&self, field: VmcsField32) -> Option<VmcsError> {
        match field {
            VmcsField32::PrimaryProcBasedVmExecControls => self.primary_proc_based_vm_exec_controls,
            VmcsField32::VmEntryInterruptionInfo => self.vm_entry_interruption_info,
            VmcsField32::VmEntryExceptionErrorCode => self.vm_entry_exception_error_code,
            VmcsField32::VmExitInterruptionInfo => self.vm_exit_interruption_info,
            VmcsField32::VmExitInterruptionErrorCode => self.vm_exit_interruption_error_code,
            VmcsField32::IdtVectoringInfo => self.idt_vectoring_info,
            VmcsField32::IdtVectoringErrorCode => self.idt_vectoring_error_code,
            VmcsField32::VmExitInstructionLength => self.vm_exit_instruction_length,
            VmcsField32::GuestGdtrLimit => self.guest_gdtr_limit,
            VmcsField32::GuestIdtrLimit => self.guest_idtr_limit,
            VmcsField32::GuestInterruptibilityState => self.guest_interruptibility_state,
            VmcsField32::GuestActivityState => self.guest_activity_state,
        }
    }

    /// The fault of a natural-width field.
    pub open spec fn get_natural(&self, field: VmcsFieldNatural) -> Option<VmcsError> {
        match field {
            VmcsFieldNatural::ExitQualification => self.exit_qualification,
            VmcsFieldNatural::GuestLinearAddr => self.guest_linear_addr,
            VmcsFieldNatural::GuestCr0 => self.guest_cr0,
            VmcsFieldNatural::GuestCr3 => self.guest_cr3,
            VmcsFieldNatural::GuestCr4 => self.guest_cr4,
            VmcsFieldNatural::GuestFsBase => self.guest_fs_base,
            VmcsFieldNatural::GuestGdtrBase => self.guest_gdtr_base,
            VmcsFieldNatural::GuestIdtrBase => self.guest_idtr_base,
            VmcsFieldNatural::GuestRsp => self.guest_rsp,
            VmcsFieldNatural::GuestRip => self.guest_rip,
            VmcsFieldNatural::GuestRflags => self.guest_rflags,
            VmcsFieldNatural::HostRip => self.host_rip,
        }
    }

    /// No faults.
    pub fn none() -> (r: Self)
        ensures
            r.is_none(),
    {
        VmcsWriteFaults {
            primary_proc_based_vm_exec_controls: None,
            vm_entry_interruption_info: None,
            vm_entry_exception_error_code: None,
            vm_exit_interruption_info: None,
            vm_exit_interruption_error_code: None,
            idt_vectoring_info: None,
            idt_vectoring_error_code: None,
            vm_exit_instruction_length: None,
            guest_gdtr_limit: None,
            guest_idtr_limit: None,
            guest_interruptibility_state: None,
            guest_activity_state: None,
            exit_qualification: None,
            guest_linear_addr: None,
            guest_cr0: None,
            guest_cr3: None,
            guest_cr4: None,
            guest_fs_base: None,
            guest_gdtr_base: None,
            guest_idtr_base: None,
            guest_rsp: None,
            guest_rip: None,
            guest_rflags: None,
            host_rip: None,
        }
    }
}

/// Image of one VMCS.
#[derive(Clone, Copy, PartialEq, Eq, Debug)]
pub struct Vmcs {
    /// Guest CS selector.
    pub guest_cs_selector: Option<u16>,
    /// Guest SS selector.
    pub guest_ss_selector: Option<u16>,
    /// Primary processor-based VM-execution controls.
    pub primary_proc_based_vm_exec_controls: Option<u32>,
    /// Event to inject on the next VM entry.
    pub vm_entry_interruption_info: Option<u32>,
    /// Error code of that event.
    pub vm_entry_exception_error_code: Option<u32>,
    /// Event that caused the VM exit.
    pub vm_exit_interruption_info: Option<u32>,
    /// Error code of that event.
    pub vm_exit_interruption_error_code: Option<u32>,
    /// Event whose delivery the VM exit interrupted.
    pub idt_vectoring_info: Option<u32>,
    /// Error code of that event.
    pub idt_vectoring_error_code: Option<u32>,
    /// Length of the instruction that exited.
    pub vm_exit_instruction_length: Option<u32>,
    /// Guest GDTR limit.
    pub guest_gdtr_limit: Option<u32>,
    /// Guest IDTR limit.
    pub guest_idtr_limit: Option<u32>,
    /// Guest interruptibility state.
    pub guest_interruptibility_state: Option<u32>,
    /// Guest activity state.
    pub guest_activity_state: Option<u32>,
    /// Guest-physical address of an EPT violation.
    pub guest_physical_addr: Option<u64>,
    /// Exit qualification.
    pub exit_qualification: Option<u64>,
    /// Guest-linear address of an EPT violation.
    pub guest_linear_addr: Option<u64>,
    /// Guest CR0.
    pub guest_cr0: Option<u64>,
    /// Guest CR3.
    pub guest_cr3: Option<u64>,
    /// Guest CR4.
    pub guest_cr4: Option<u64>,
    /// Guest FS base: the thread id of a userspace thread.
    pub guest_fs_base: Option<u64>,
    /// Guest GDTR base.
    pub guest_gdtr_base: Option<u64>,
    /// Guest IDTR base.
    pub guest_idtr_base: Option<u64>,
    /// Guest RSP.
    pub guest_rsp: Option<u64>,
    /// Guest RIP.
    pub guest_rip: Option<u64>,
    /// Guest RFLAGS.
    pub guest_rflags: Option<u64>,
    /// Where the processor continues after a VM exit.
    pub host_rip: Option<u64>,
    /// The fields that cannot be written.
    pub write_faults: VmcsWriteFaults,
}

impl Vmcs {
    /// The value of a 16-bit field, if the processor has it.
    pub open spec fn get16(&self, field: VmcsField16) -> Option<u16> {
        match field {
            VmcsField16::GuestCsSelector => self.guest_cs_selector,
            VmcsField16::GuestSsSelector => self.guest_ss_selector,
        }
    }

    /// Read a 16-bit field.
    pub fn read16(&self, field: VmcsField16) -> (r: Result<u16, VmcsError>)
        ensures
            r == match self.get16(field) {
                Some(v) => Ok(v),
                None => Err(VmcsError::UnsupportedField),
            },
    {
        let value: Option<u16> = match field {
            VmcsField16::GuestCsSelector => self.guest_cs_selector,
            VmcsField16::GuestSsSelector => self.guest_ss_selector,
        };
        match value {
            Some(v) => Ok(v),
            None => Err(VmcsError::UnsupportedField),
        }
    }

    /// The value of a 16-bit field, or 0 where the processor does not have it.
    pub open spec fn get16_or_zero(&self, field: VmcsField16) -> u16 {
        match self.get16(field) {
            Some(v) => v,
            None => 0,
        }
    }

    /// Read a 16-bit field, taking a missing one as 0.
    pub fn read16_or_zero(&self, field: VmcsField16) -> (r: u16)
        ensures
            r == self.get16_or_zero(field),
    {
        match self.read16(field) {
            Ok(v) => v,
            Err(_) => 0,
        }
    }

    /// The value of a 32-bit field, if the processor has it.
    pub open spec fn get32(&self, field: VmcsField32) -> Option<u32> {
        match field {
            VmcsField32::PrimaryProcBasedVmExecControls => self.primary_proc_based_vm_exec_controls,
            VmcsField32::VmEntryInterruptionInfo => self.vm_entry_interruption_info,
            VmcsField32::VmEntryExceptionErrorCode => self.vm_entry_exception_error_code,
            VmcsField32::VmExitInterruptionInfo => self.vm_exit_interruption_info,
            VmcsField32::VmExitInterruptionErrorCode => self.vm_exit_interruption_error_code,
            VmcsField32::IdtVectoringInfo => self.idt_vectoring_info,
            VmcsField32::IdtVectoringErrorCode => self.idt_vectoring_error_code,
            VmcsField32::VmExitInstructionLength => self.vm_exit_instruction_length,
            VmcsField32::GuestGdtrLimit => self.guest_gdtr_limit,
            VmcsField32::GuestIdtrLimit => self.guest_idtr_limit,
            VmcsField32::GuestInterruptibilityState => self.guest_interruptibility_state,
            VmcsField32::GuestActivityState => self.guest_activity_state,
        }
    }

    /// The image with a 32-bit field set.
    pub open spec fn set32(self, field: VmcsField32, value: u32) -> Vmcs {
        match field {
            VmcsField32::PrimaryProcBasedVmExecControls => Vmcs { primary_proc_based_vm_exec_controls: Some(value), ..self },
            VmcsField32::VmEntryInterruptionInfo => Vmcs { vm_entry_interruption_info: Some(value), ..self },
            VmcsField32::VmEntryExceptionErrorCode => Vmcs { vm_entry_exception_error_code: Some(value), ..self },
            VmcsField32::VmExitInterruptionInfo => Vmcs { vm_exit_interruption_info: Some(value), ..self },
            VmcsField32::VmExitInterruptionErrorCode => Vmcs { vm_exit_interruption_error_code: Some(value), ..self },
            VmcsField32::IdtVectoringInfo => Vmcs { idt_vectoring_info: Some(value), ..self },
            VmcsField32::IdtVectoringErrorCode => Vmcs { idt_vectoring_error_code: Some(value), ..self },
            VmcsField32::VmExitInstructionLength => Vmcs { vm_exit_instruction_length: Some(value), ..self },
            VmcsField32::GuestGdtrLimit => Vmcs { guest_gdtr_limit: Some(value), ..self },
            VmcsField32::GuestIdtrLimit => Vmcs { guest_idtr_limit: Some(value), ..self },
            VmcsField32::GuestInterruptibilityState => Vmcs { guest_interruptibility_state: Some(value), ..self },
            VmcsField32::GuestActivityState => Vmcs { guest_activity_state: Some(value), ..self },
        }
    }

    /// Read a 32-bit field.
    pub fn read32(&self, field: VmcsField32) -> (r: Result<u32, VmcsError>)
        ensures
            r == match self.get32(field) {
                Some(v) => Ok(v),
                None => Err(VmcsError::UnsupportedField),
            },
    {
        let value: Option<u32> = match field {
            VmcsField32::PrimaryProcBasedVmExecControls => self.primary_proc_based_vm_exec_controls,
            VmcsField32::VmEntryInterruptionInfo => self.vm_entry_interruption_info,
            VmcsField32::VmEntryExceptionErrorCode => self.vm_entry_exception_error_code,
            VmcsField32::VmExitInterruptionInfo => self.vm_exit_interruption_info,
            VmcsField32::VmExitInterruptionErrorCode => self.vm_exit_interruption_error_code,
            VmcsField32::IdtVectoringInfo => self.idt_vectoring_info,
            VmcsField32::IdtVectoringErrorCode => self.idt_vectoring_error_code,
            VmcsField32::VmExitInstructionLength => self.vm_exit_instruction_length,
            VmcsField32::GuestGdtrLimit => self.guest_gdtr_limit,
            VmcsField32::GuestIdtrLimit => self.guest_idtr_limit,
            VmcsField32::GuestInterruptibilityState => self.guest_interruptibility_state,
            VmcsField32::GuestActivityState => self.guest_activity_state,
        };
        match value {
            Some(v) => Ok(v),
            None => Err(VmcsError::UnsupportedField),
        }
    }

    /// Why a 32-bit field cannot be written, if it cannot: the processor does not
    /// have it, or VMWRITE fails on it.
    pub open spec fn write_error32(&self, field: VmcsField32) -> Option<VmcsError> {
        if self.get32(field) is None {
            Some(VmcsError::UnsupportedField)
        } else {
            self.write_faults.get32(field)
        }
    }

    /// Write a 32-bit field.
    pub fn write32(&mut self, field: VmcsField32, value: u32) -> (r: Result<(), VmcsError>)
        ensures
            match old(self).write_error32(field) {
                None => r is Ok && *final(self) == old(self).set32(field, value),
                Some(e) => r == Err::<(), VmcsError>(e) && *final(self) == *old(self),
            },
    {
        if let Err(e) = self.read32(field) {
            return Err(e);
        }
        let fault: Option<VmcsError> = match field {
            VmcsField32::PrimaryProcBasedVmExecControls => self.write_faults.primary_proc_based_vm_exec_controls,
            VmcsField32::VmEntryInterruptionInfo => self.write_faults.vm_entry_interruption_info,
            VmcsField32::VmEntryExceptionErrorCode => self.write_faults.vm_entry_exception_error_code,
            VmcsField32::VmExitInterruptionInfo => self.write_faults.vm_exit_interruption_info,
            VmcsField32::VmExitInterruptionErrorCode => self.write_faults.vm_exit_interruption_error_code,
            VmcsField32::IdtVectoringInfo => self.write_faults.idt_vectoring_info,
            VmcsField32::IdtVectoringErrorCode => self.write_faults.idt_vectoring_error_code,
            VmcsField32::VmExitInstructionLength => self.write_faults.vm_exit_instruction_length,
            VmcsField32::GuestGdtrLimit => self.write_faults.guest_gdtr_limit,
            VmcsField32::GuestIdtrLimit => self.write_faults.guest_idtr_limit,
            VmcsField32::GuestInterruptibilityState => self.write_faults.guest_interruptibility_state,
            VmcsField32::GuestActivityState => self.write_faults.guest_activity_state,
        };
        if let Some(e) = fault {
            return Err(e);
        }
        match field {
            VmcsField32::PrimaryProcBasedVmExecControls => self.primary_proc_based_vm_exec_controls = Some(value),
            VmcsField32::VmEntryInterruptionInfo => self.vm_entry_interruption_info = Some(value),
            VmcsField32::VmEntryExceptionErrorCode => self.vm_entry_exception_error_code = Some(value),
            VmcsField32::VmExitInterruptionInfo => self.vm_exit_interruption_info = Some(value),
            VmcsField32::VmExitInterruptionErrorCode => self.vm_exit_interruption_error_code = Some(value),
            VmcsField32::IdtVectoringInfo => self.idt_vectoring_info = Some(value),
            VmcsField32::IdtVectoringErrorCode => self.idt_vectoring_error_code = Some(value),
            VmcsField32::VmExitInstructionLength => self.vm_exit_instruction_length = Some(value),
            VmcsField32::GuestGdtrLimit => self.guest_gdtr_limit = Some(value),
            VmcsField32::GuestIdtrLimit => self.guest_idtr_limit = Some(value),
            VmcsField32::GuestInterruptibilityState => self.guest_interruptibility_state = Some(value),
            VmcsField32::GuestActivityState => self.guest_activity_state = Some(value),
        }
        Ok(())
    }

    /// The value of a 32-bit field, or 0 where the processor does not have it.
    pub open spec fn get32_or_zero(&self, field: VmcsField32) -> u32 {
        match self.get32(field) {
            Some(v) => v,
            None => 0,
        }
    }

    /// Read a 32-bit field, taking a missing one as 0.
    pub fn read32_or_zero(&self, field: VmcsField32) -> (r: u32)
        ensures
            r == self.get32_or_zero(field),
    {
        match self.read32(field) {
            Ok(v) => v,
            Err(_) => 0,
        }
    }

    /// The value of a 64-bit field, if the processor has it.
    pub open spec fn get64(&self, field: VmcsField64) -> Option<u64> {
        match field {
            VmcsField64::GuestPhysicalAddr => self.guest_physical_addr,
        }
    }

    /// Read a 64-bit field.
    pub fn read64(&self, field: VmcsField64) -> (r: Result<u64, VmcsError>)
        ensures
            r == match self.get64(field) {
                Some(v) => Ok(v),
                None => Err(VmcsError::UnsupportedField),
            },
    {
        let value: Option<u64> = match field {
            VmcsField64::GuestPhysicalAddr => self.guest_physical_addr,
        };
        match value {
            Some(v) => Ok(v),
            None => Err(VmcsError::UnsupportedField),
        }
    }

    /// The value of a natural-width field, if the processor has it.
    pub open spec fn get_natural(&self, field: VmcsFieldNatural) -> Option<u64> {
        match field {
            VmcsFieldNatural::ExitQualification => self.exit_qualification,
            VmcsFieldNatural::GuestLinearAddr => self.guest_linear_addr,
            VmcsFieldNatural::GuestCr0 => self.guest_cr0,
            VmcsFieldNatural::GuestCr3 => self.guest_cr3,
            VmcsFieldNatural::GuestCr4 => self.guest_cr4,
            VmcsFieldNatural::GuestFsBase => self.guest_fs_base,
            VmcsFieldNatural::GuestGdtrBase => self.guest_gdtr_base,
            VmcsFieldNatural::GuestIdtrBase => self.guest_idtr_base,
            VmcsFieldNatural::GuestRsp => self.guest_rsp,
            VmcsFieldNatural::GuestRip => self.guest_rip,
            VmcsFieldNatural::GuestRflags => self.guest_rflags,
            VmcsFieldNatural::HostRip => self.host_rip,
        }
    }

    /// The image with a natural-width field set.
    pub open spec fn set_natural(self, field: VmcsFieldNatural, value: u64) -> Vmcs {
        match field {
            VmcsFieldNatural::ExitQualification => Vmcs { exit_qualification: Some(value), ..self },
            VmcsFieldNatural::GuestLinearAddr => Vmcs { guest_linear_addr: Some(value), ..self },
            VmcsFieldNatural::GuestCr0 => Vmcs { guest_cr0: Some(value), ..self },
            VmcsFieldNatural::GuestCr3 => Vmcs { guest_cr3: Some(value), ..self },
            VmcsFieldNatural::GuestCr4 => Vmcs { guest_cr4: Some(value), ..self },
            VmcsFieldNatural::GuestFsBase => Vmcs { guest_fs_base: Some(value), ..self },
            VmcsFieldNatural::GuestGdtrBase => Vmcs { guest_gdtr_base: Some(value), ..self },
            VmcsFieldNatural::GuestIdtrBase => Vmcs { guest_idtr_base: Some(value), ..self },
            VmcsFieldNatural::GuestRsp => Vmcs { guest_rsp: Some(value), ..self },
            VmcsFieldNatural::GuestRip => Vmcs { guest_rip: Some(value), ..self },
            VmcsFieldNatural::GuestRflags => Vmcs { guest_rflags: Some(value), ..self },
            VmcsFieldNatural::HostRip => Vmcs { host_rip: Some(value), ..self },
        }
    }

    /// Read a natural-width field.
    pub fn read_natural(&self, field: VmcsFieldNatural) -> (r: Result<u64, VmcsError>)
        ensures
            r == match self.get_natural(field) {
                Some(v) => Ok(v),
                None => Err(VmcsError::UnsupportedField),
            },
    {
        let value: Option<u64> = match field {
            VmcsFieldNatural::ExitQualification => self.exit_qualification,
            VmcsFieldNatural::GuestLinearAddr => self.guest_linear_addr,
            VmcsFieldNatural::GuestCr0 => self.guest_cr0,
            VmcsFieldNatural::GuestCr3 => self.guest_cr3,
            VmcsFieldNatural::GuestCr4 => self.guest_cr4,
            VmcsFieldNatural::GuestFsBase => self.guest_fs_base,
            VmcsFieldNatural::GuestGdtrBase => self.guest_gdtr_base,
            VmcsFieldNatural::GuestIdtrBase => self.guest_idtr_base,
            VmcsFieldNatural::GuestRsp => self.guest_rsp,
            VmcsFieldNatural::GuestRip => self.guest_rip,
            VmcsFieldNatural::GuestRflags => self.guest_rflags,
            VmcsFieldNatural::HostRip => self.host_rip,
        };
        match value {
            Some(v) => Ok(v),
            None => Err(VmcsError::UnsupportedField),
        }
    }

    /// Why a natural-width field cannot be written, if it cannot: the processor does not
    /// have it, or VMWRITE fails on it.
    pub open spec fn write_error_natural(&self, field: VmcsFieldNatural) -> Option<VmcsError> {
        if self.get_natural(field) is None {
            Some(VmcsError::UnsupportedField)
        } else {
            self.write_faults.get_natural(field)
        }
    }

    /// Write a natural-width field.
    pub fn write_natural(&mut self, field: VmcsFieldNatural, value: u64) -> (r: Result<(), VmcsError>)
        ensures
            match old(self).write_error_natural(field) {
                None => r is Ok && *final(self) == old(self).set_natural(field, value),
                Some(e) => r == Err::<(), VmcsError>(e) && *final(self) == *old(self),
            },
    {
        if let Err(e) = self.read_natural(field) {
            return Err(e);
        }
        let fault: Option<VmcsError> = match field {
            VmcsFieldNatural::ExitQualification => self.write_faults.exit_qualification,
            VmcsFieldNatural::GuestLinearAddr => self.write_faults.guest_linear_addr,
            VmcsFieldNatural::GuestCr0 => self.write_faults.guest_cr0,
            VmcsFieldNatural::GuestCr3 => self.write_faults.guest_cr3,
            VmcsFieldNatural::GuestCr4 => self.write_faults.guest_cr4,
            VmcsFieldNatural::GuestFsBase => self.write_faults.guest_fs_base,
            VmcsFieldNatural::GuestGdtrBase => self.write_faults.guest_gdtr_base,
            VmcsFieldNatural::GuestIdtrBase => self.write_faults.guest_idtr_base,
            VmcsFieldNatural::GuestRsp => self.write_faults.guest_rsp,
            VmcsFieldNatural::GuestRip => self.write_faults.guest_rip,
            VmcsFieldNatural::GuestRflags => self.write_faults.guest_rflags,
            VmcsFieldNatural::HostRip => self.write_faults.host_rip,
        };
        if let Some(e) = fault {
            return Err(e);
        }
        match field {
            VmcsFieldNatural::ExitQualification => self.exit_qualification = Some(value),
            VmcsFieldNatural::GuestLinearAddr => self.guest_linear_addr = Some(value),
            VmcsFieldNatural::GuestCr0 => self.guest_cr0 = Some(value),
            VmcsFieldNatural::GuestCr3 => self.guest_cr3 = Some(value),
            VmcsFieldNatural::GuestCr4 => self.guest_cr4 = Some(value),
            VmcsFieldNatural::GuestFsBase => self.guest_fs_base = Some(value),
            VmcsFieldNatural::GuestGdtrBase => self.guest_gdtr_base = Some(value),
            VmcsFieldNatural::GuestIdtrBase => self.guest_idtr_base = Some(value),
            VmcsFieldNatural::GuestRsp => self.guest_rsp = Some(value),
            VmcsFieldNatural::GuestRip => self.guest_rip = Some(value),
            VmcsFieldNatural::GuestRflags => self.guest_rflags = Some(value),
            VmcsFieldNatural::HostRip => self.host_rip = Some(value),
        }
        Ok(())
    }

    /// The value of a natural-width field, or 0 where the processor does not have it.
    pub open spec fn get_natural_or_zero(&self, field: VmcsFieldNatural) -> u64 {
        match self.get_natural(field) {
            Some(v) => v,
            None => 0,
        }
    }

    /// Read a natural-width field, taking a missing one as 0.
    pub fn read_natural_or_zero(&self, field: VmcsFieldNatural) -> (r: u64)
        ensures
            r == self.get_natural_or_zero(field),
    {
        match self.read_natural(field) {
            Ok(v) => v,
            Err(_) => 0,
        }
    }
}

/// Why a register access between loading and clearing the control structure
/// failed.
#[derive(Clone, Copy, PartialEq, Eq, Debug)]
pub enum RegistersError<E> {
    /// The control structure could not be loaded or cleared.
    VmcsGuard(VmcsError),
    /// The access itself failed.
    Access(E),
}

/// What comes of a register access between loading and clearing.
pub open spec fn guarded_outcome<T, E>(
    loaded: Result<(), VmcsError>,
    accessed: Result<T, E>,
    cleared: Result<(), VmcsError>,
) -> Result<T, RegistersError<E>> {
    match (loaded, cleared, accessed) {
        (Err(e), _, _) => Err(RegistersError::VmcsGuard(e)),
        (Ok(_), Err(e), _) => Err(RegistersError::VmcsGuard(e)),
        (Ok(_), Ok(_), Err(e)) => Err(RegistersError::Access(e)),
        (Ok(_), Ok(_), Ok(v)) => Ok(v),
    }
}

/// The outcome of a register access that was made between loading and clearing
/// the control structure. A structure that could not be cleared is told of before
/// anything that went wrong with the access.
pub fn registers_guarded<T, E>(
    loaded: Result<(), VmcsError>,
    accessed: Result<T, E>,
    cleared: Result<(), VmcsError>,
) -> (r: Result<T, RegistersError<E>>)
    ensures
        r == (match (loaded, cleared, accessed) {
            (Err(e), _, _) => Err(RegistersError::VmcsGuard(e)),
            (Ok(_), Err(e), _) => Err(RegistersError::VmcsGuard(e)),
            (Ok(_), Ok(_), Err(e)) => Err(RegistersError::Access(e)),
            (Ok(_), Ok(_), Ok(v)) => Ok(v),
        }),
        r == guarded_outcome(loaded, accessed, cleared),
{
    if let Err(e) = loaded {
        return Err(RegistersError::VmcsGuard(e));
    }
    if let Err(e) = cleared {
        return Err(RegistersError::VmcsGuard(e));
    }
    match accessed {
        Ok(v) => Ok(v),
        Err(e) => Err(RegistersError::Access(e)),
    }
}

/// A value is handed out only if loading, access and clearing all went well; the
/// guard's failure is told of before the access's.
pub proof fn guard_failures_come_first<T, E>(
    loaded: Result<(), VmcsError>,
    accessed: Result<T, E>,
    cleared: Result<(), VmcsError>,
)
    ensures
        ({
            let r = guarded_outcome(loaded, accessed, cleared);
            &&& r is Ok <==> loaded is Ok && accessed is Ok && cleared is Ok
            &&& r is Ok ==> r->Ok_0 == accessed->Ok_0
            &&& loaded is Err ==> r == Err::<T, RegistersError<E>>(
                RegistersError::VmcsGuard(loaded->Err_0),
            )
            &&& loaded is Ok && cleared is Err ==> r == Err::<T, RegistersError<E>>(
                RegistersError::VmcsGuard(cleared->Err_0),
            )
            &&& loaded is Ok && cleared is Ok && accessed is Err ==> r == Err::<
                T,
                RegistersError<E>,
            >(RegistersError::Access(accessed->Err_0))
        }),
{
}

/// Each field is reached by its own name.
pub proof fn fields_are_reached_by_their_names(vmcs: Vmcs)
    ensures
        vmcs.get16(VmcsField16::GuestCsSelector) == vmcs.guest_cs_selector,
        vmcs.get16(VmcsField16::GuestSsSelector) == vmcs.guest_ss_selector,
        vmcs.get32(VmcsField32::PrimaryProcBasedVmExecControls)
            == vmcs.primary_proc_based_vm_exec_controls,
        vmcs.get32(VmcsField32::VmEntryInterruptionInfo) == vmcs.vm_entry_interruption_info,
        vmcs.get32(VmcsField32::VmEntryExceptionErrorCode) == vmcs.vm_entry_exception_error_code,
        vmcs.get32(VmcsField32::VmExitInterruptionInfo) == vmcs.vm_exit_interruption_info,
        vmcs.get32(VmcsField32::VmExitInterruptionErrorCode)
            == vmcs.vm_exit_interruption_error_code,
        vmcs.get32(VmcsField32::IdtVectoringInfo) == vmcs.idt_vectoring_info,
        vmcs.get32(VmcsField32::IdtVectoringErrorCode) == vmcs.idt_vectoring_error_code,
        vmcs.get32(VmcsField32::VmExitInstructionLength) == vmcs.vm_exit_instruction_length,
        vmcs.get32(VmcsField32::GuestGdtrLimit) == vmcs.guest_gdtr_limit,
        vmcs.get32(VmcsField32::GuestIdtrLimit) == vmcs.guest_idtr_limit,
        vmcs.get32(VmcsField32::GuestInterruptibilityState) == vmcs.guest_interruptibility_state,
        vmcs.get32(VmcsField32::GuestActivityState) == vmcs.guest_activity_state,
        vmcs.get64(VmcsField64::GuestPhysicalAddr) == vmcs.guest_physical_addr,
        vmcs.get_natural(VmcsFieldNatural::ExitQualification) == vmcs.exit_qualification,
        vmcs.get_natural(VmcsFieldNatural::GuestLinearAddr) == vmcs.guest_linear_addr,
        vmcs.get_natural(VmcsFieldNatural::GuestCr0) == vmcs.guest_cr0,
        vmcs.get_natural(VmcsFieldNatural::GuestCr3) == vmcs.guest_cr3,
        vmcs.get_natural(VmcsFieldNatural::GuestCr4) == vmcs.guest_cr4,
        vmcs.get_natural(VmcsFieldNatural::GuestFsBase) == vmcs.guest_fs_base,
        vmcs.get_natural(VmcsFieldNatural::GuestGdtrBase) == vmcs.guest_gdtr_base,
        vmcs.get_natural(VmcsFieldNatural::GuestIdtrBase) == vmcs.guest_idtr_base,
        vmcs.get_natural(VmcsFieldNatural::GuestRsp) == vmcs.guest_rsp,
        vmcs.get_natural(VmcsFieldNatural::GuestRip) == vmcs.guest_rip,
        vmcs.get_natural(VmcsFieldNatural::GuestRflags) == vmcs.guest_rflags,
        vmcs.get_natural(VmcsFieldNatural::HostRip) == vmcs.host_rip,
{
}

/// A field reads back what was written to it, every other field keeps what it had,
/// and what can be written does not change.
pub proof fn written_field_reads_back(
    vmcs: Vmcs,
    field: VmcsField32,
    other: VmcsField32,
    value: u32,
    wide: VmcsFieldNatural,
    other_wide: VmcsFieldNatural,
    wide_value: u64,
)
    ensures
        vmcs.set32(field, value).get32(field) == Some(value),
        other != field ==> vmcs.set32(field, value).get32(other) == vmcs.get32(other),
        vmcs.set32(field, value).get_natural(wide) == vmcs.get_natural(wide),
        vmcs.set32(field, value).write_faults == vmcs.write_faults,
        vmcs.set_natural(wide, wide_value).get_natural(wide) == Some(wide_value),
        other_wide != wide ==> vmcs.set_natural(wide, wide_value).get_natural(other_wide)
            == vmcs.get_natural(other_wide),
        vmcs.set_natural(wide, wide_value).get32(field) == vmcs.get32(field),
        vmcs.set_natural(wide, wide_value).write_faults == vmcs.write_faults,
{
}

/// Writing fails on a field that is not there, whatever else, and on one that is
/// there exactly if the processor refuses it; a field that cannot be read counts as
/// 0 where a value is needed anyway.
pub proof fn write_fails_where_it_must(vmcs: Vmcs, field: VmcsField32, wide: VmcsFieldNatural)
    ensures
        vmcs.get32(field) is None ==> vmcs.write_error32(field) == Some(
            VmcsError::UnsupportedField,
        ) && vmcs.get32_or_zero(field) == 0,
        vmcs.get32(field) is Some ==> vmcs.write_error32(field) == vmcs.write_faults.get32(field)
            && vmcs.get32_or_zero(field) == vmcs.get32(field)->0,
        vmcs.get_natural(wide) is None ==> vmcs.write_error_natural(wide) == Some(
            VmcsError::UnsupportedField,
        ) && vmcs.get_natural_or_zero(wide) == 0,
        vmcs.get_natural(wide) is Some ==> vmcs.write_error_natural(wide)
            == vmcs.write_faults.get_natural(wide) && vmcs.get_natural_or_zero(wide)
            == vmcs.get_natural(wide)->0,
{
}

} // verus!
