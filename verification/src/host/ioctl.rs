//! Which commands a VM's file accepts.

use vstd::prelude::*;

use crate::host::mmap::EINVAL;
use crate::vm::serial::{SerialInput, SERIAL_INPUT_MAX_SIZE};

verus! {

/// `ENOTTY`: the file does not know the command.
pub const ENOTTY: i32 = 25;

/// Commands on a VM's file.
#[derive(Clone, Copy, PartialEq, Eq, Debug, Structural)]
pub enum VmCommand {
    GetRegs,
    SetRegs,
    Run,
    SetInput,
    SetRdrandConfig,
    SetRdrandValue,
    SetLogConfig,
    SetSingleStep,
    GetExitStats,
    SetStopTsc,
    GetVmId,
    GetFeedbackBufferInfo,
    QueueIoAction,
    DrainIoResponse,
}

/// Serial input goes to root VMs only.
pub open spec fn root_only(cmd: VmCommand) -> bool {
    cmd == VmCommand::SetInput
}

/// The I/O channel is driven from outside on forks only.
pub open spec fn fork_only(cmd: VmCommand) -> bool {
    cmd == VmCommand::QueueIoAction || cmd == VmCommand::DrainIoResponse
}

/// What a root VM's file makes of a command.
pub open spec fn root_answer(cmd: Option<VmCommand>) -> Result<VmCommand, i32> {
    match cmd {
        Some(cmd) if !fork_only(cmd) => Ok(cmd),
        _ => Err(ENOTTY),
    }
}

/// What a fork's file makes of a command.
pub open spec fn fork_answer(cmd: Option<VmCommand>) -> Result<VmCommand, i32> {
    match cmd {
        Some(cmd) if !root_only(cmd) => Ok(cmd),
        _ => Err(ENOTTY),
    }
}

/// What a `SetInput` hands to the guest's serial port.
pub open spec fn input_taken(input: SerialInput) -> Result<Seq<u8>, i32> {
    if input.len <= SERIAL_INPUT_MAX_SIZE {
        Ok(input.buf@.take(input.len as int))
    } else {
        Err(EINVAL)
    }
}

/// The command that a root VM's file carries out; `None` is a command that no
/// file knows.
pub fn bedrock_vm_ioctl(cmd: Option<VmCommand>) -> (r: Result<VmCommand, i32>)
    ensures
        r == (match cmd {
            Some(cmd) if !fork_only(cmd) => Ok(cmd),
            _ => Err(ENOTTY),
        }),
        r == root_answer(cmd),
{
    match cmd {
        None => Err(ENOTTY),
        Some(VmCommand::QueueIoAction) => Err(ENOTTY),
        Some(VmCommand::DrainIoResponse) => Err(ENOTTY),
        Some(cmd) => Ok(cmd),
    }
}

/// The command that a fork's file carries out; `None` is a command that no file
/// knows.
pub fn bedrock_forked_vm_ioctl(cmd: Option<VmCommand>) -> (r: Result<VmCommand, i32>)
    ensures
        r == (match cmd {
            Some(cmd) if !root_only(cmd) => Ok(cmd),
            _ => Err(ENOTTY),
        }),
        r == fork_answer(cmd),
{
    match cmd {
        None => Err(ENOTTY),
        Some(VmCommand::SetInput) => Err(ENOTTY),
        Some(cmd) => Ok(cmd),
    }
}

/// The bytes that a `SetInput` hands to the guest's serial port.
pub fn handle_set_input(input: &SerialInput) -> (r: Result<Vec<u8>, i32>)
    ensures
        match r {
            Ok(bytes) => input.len <= SERIAL_INPUT_MAX_SIZE && bytes@ == input.buf@.take(
                input.len as int,
            ),
            Err(e) => input.len > SERIAL_INPUT_MAX_SIZE && e == EINVAL,
        },
        match input_taken(*input) {
            Ok(bytes) => r is Ok && r->Ok_0@ == bytes,
            Err(e) => r == Err::<Vec<u8>, i32>(e),
        },
{
    let len: usize = input.len as usize;
    if len > SERIAL_INPUT_MAX_SIZE {
        return Err(EINVAL);
    }
    let mut bytes: Vec<u8> = Vec::new();
    let mut i: usize = 0;
    while i < len
        invariant
            i <= len <= 256,
            bytes@.len() == i,
            forall|j: int| 0 <= j < i ==> #[trigger] bytes@[j] == input.buf@[j],
        decreases len - i,
    {
        bytes.push(input.buf[i]);
        i += 1;
    }
    assert(bytes@ =~= input.buf@.take(len as int));
    Ok(bytes)
}

/// Root VMs and forks know the same commands, but for serial input, which only a
/// root VM takes, and the two of the I/O channel, which only a fork does.
pub proof fn commands_are_shared_but_for_three(cmd: VmCommand)
    ensures
        root_only(cmd) <==> cmd == VmCommand::SetInput,
        fork_only(cmd) <==> cmd == VmCommand::QueueIoAction || cmd == VmCommand::DrainIoResponse,
        !(root_only(cmd) && fork_only(cmd)),
        root_answer(Some(cmd)) == (if cmd == VmCommand::QueueIoAction || cmd
            == VmCommand::DrainIoResponse {
            Err::<VmCommand, i32>(25i32)
        } else {
            Ok(cmd)
        }),
        fork_answer(Some(cmd)) == (if cmd == VmCommand::SetInput {
            Err::<VmCommand, i32>(25i32)
        } else {
            Ok(cmd)
        }),
        root_answer(None) == Err::<VmCommand, i32>(25i32),
        fork_answer(None) == Err::<VmCommand, i32>(25i32),
{
}

/// Serial input is what the buffer holds up to its length, byte for byte; a length
/// beyond the buffer is refused.
pub proof fn serial_input_is_taken_whole(input: SerialInput, i: int)
    ensures
        input.len > 256 ==> input_taken(input) == Err::<Seq<u8>, i32>(22i32),
        input.len <= 256 ==> input_taken(input) is Ok && input_taken(input)->Ok_0.len()
            == input.len,
        input.len <= 256 && 0 <= i < input.len ==> input_taken(input)->Ok_0[i] == input.buf@[i],
{
}

} // verus!
