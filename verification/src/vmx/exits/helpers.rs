//! Results of exit handlers and the steps that several of them share.

use vstd::prelude::*;

use super::qualifications::InterruptionInfo;
use super::reasons::ExitReason;
use crate::vmx::state::VmState;
use crate::vmx::vmcs::{Vmcs, VmcsError, VmcsField32, VmcsFieldNatural};

verus! {

/// A VM exit could not be handled.
#[derive(Clone, Copy, PartialEq, Eq, Debug)]
pub enum ExitError {
    /// A VMCS field could not be read.
    VmcsReadError(VmcsError),
    /// A VMCS field could not be written.
    VmcsWriteError(VmcsError),
    /// Anything else.
    Fatal(&'static str),
}

/// What to do after a VM exit.
#[derive(Clone, Copy, PartialEq, Eq, Debug)]
pub enum ExitHandlerResult {
    /// Re-enter the guest.
    Continue,
    /// Hand the exit to userspace.
    ExitToUserspace(ExitReason),
    /// Stop the VM.
    Error(ExitError),
}

/// The control structure with RIP past the instruction that exited.
pub open spec fn past_instruction(vmcs: Vmcs) -> Result<Vmcs, ExitError> {
    match vmcs.get_natural(VmcsFieldNatural::GuestRip) {
        None => Err(ExitError::VmcsReadError(VmcsError::UnsupportedField)),
        Some(rip) => match vmcs.get32(VmcsField32::VmExitInstructionLength) {
            None => Err(ExitError::VmcsReadError(VmcsError::UnsupportedField)),
            Some(len) => match vmcs.write_error_natural(VmcsFieldNatural::GuestRip) {
                Some(e) => Err(ExitError::VmcsWriteError(e)),
                None => Ok(
                    vmcs.set_natural(
                        VmcsFieldNatural::GuestRip,
                        ((rip + len) % 0x1_0000_0000_0000_0000) as u64,
                    ),
                ),
            },
        },
    }
}

/// The state with RIP past the instruction that exited; unchanged where the
/// processor does not report the instruction or RIP cannot be written.
pub open spec fn advanced(state: VmState) -> VmState {
    match past_instruction(state.vmcs) {
        Ok(vmcs) => VmState { vmcs, ..state },
        Err(_) => state,
    }
}

/// `result`, unless RIP could not be moved past the instruction that exited.
pub open spec fn advanced_result(state: VmState, result: ExitHandlerResult) -> ExitHandlerResult {
    match past_instruction(state.vmcs) {
        Ok(_) => result,
        Err(e) => ExitHandlerResult::Error(e),
    }
}

/// Move RIP past the instruction that exited.
pub fn advance_rip(state: &mut VmState) -> (r: Result<(), ExitError>)
    ensures
        *final(state) == advanced(*old(state)),
        match past_instruction(old(state).vmcs) {
            Ok(_) => r is Ok,
            Err(e) => r == Err::<(), ExitError>(e),
        },
{
    let rip: u64 = match state.vmcs.read_natural(VmcsFieldNatural::GuestRip) {
        Ok(v) => v,
        Err(e) => return Err(ExitError::VmcsReadError(e)),
    };
    let len: u32 = match state.vmcs.read32(VmcsField32::VmExitInstructionLength) {
        Ok(v) => v,
        Err(e) => return Err(ExitError::VmcsReadError(e)),
    };
    match state.vmcs.write_natural(VmcsFieldNatural::GuestRip, rip.wrapping_add(len as u64)) {
        Ok(()) => Ok(()),
        Err(e) => Err(ExitError::VmcsWriteError(e)),
    }
}

/// Move RIP past the instruction that exited, then return `result`.
pub fn finish_instruction(state: &mut VmState, result: ExitHandlerResult) -> (r: ExitHandlerResult)
    ensures
        *final(state) == advanced(*old(state)),
        r == advanced_result(*old(state), result),
{
    match advance_rip(state) {
        Ok(()) => result,
        Err(e) => ExitHandlerResult::Error(e),
    }
}

/// The control structure with an event to inject, and what setting it up
/// returns. A field that cannot be written stops it where it stands.
pub open spec fn event_injected(
    vmcs: Vmcs,
    info: InterruptionInfo,
    error_code: Option<u32>,
) -> (Vmcs, Result<(), ExitError>) {
    match vmcs.write_error32(VmcsField32::VmEntryInterruptionInfo) {
        Some(e) => (vmcs, Err(ExitError::VmcsWriteError(e))),
        None => {
            let with_info = vmcs.set32(VmcsField32::VmEntryInterruptionInfo, info.bits());
            match error_code {
                None => (with_info, Ok(())),
                Some(code) => match vmcs.write_error32(VmcsField32::VmEntryExceptionErrorCode) {
                    Some(e) => (with_info, Err(ExitError::VmcsWriteError(e))),
                    None => (with_info.set32(VmcsField32::VmEntryExceptionErrorCode, code), Ok(())),
                },
            }
        },
    }
}

/// Have the next VM entry inject an event.
pub fn inject_exception(
    state: &mut VmState,
    info: InterruptionInfo,
    error_code: Option<u32>,
) -> (r: Result<(), ExitError>)
    ensures
        *final(state) == (VmState {
            vmcs: event_injected(old(state).vmcs, info, error_code).0,
            ..*old(state)
        }),
        r == event_injected(old(state).vmcs, info, error_code).1,
{
    if let Err(e) = state.vmcs.write32(VmcsField32::VmEntryInterruptionInfo, info.encode()) {
        return Err(ExitError::VmcsWriteError(e));
    }
    if let Some(code) = error_code {
        if let Err(e) = state.vmcs.write32(VmcsField32::VmEntryExceptionErrorCode, code) {
            return Err(ExitError::VmcsWriteError(e));
        }
    }
    Ok(())
}

} // verus!
