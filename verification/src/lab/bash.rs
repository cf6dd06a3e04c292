//! I/O channel bash execution.
//!
//! The hypervisor exposes a deterministic guest-host I/O channel; in
//! combination with an in-guest kernel module it lets the lab run a shell
//! command on the guest host or inside a container. This module wraps the wire
//! protocol (defined once in `vm::io_channel`) in the lab's `BashTarget` /
//! [`BashOutput`] types.

use vstd::prelude::*;
use vstd::string::StringSliceAdditionalSpecFns;

use crate::text::utf8_lossy;
use crate::vm::io_channel;
use crate::vm::io_channel::RequestView;

verus! {

/// Where a bash command runs.
#[derive(Debug, Clone, PartialEq, Eq)]
pub enum BashTarget {
    /// Run on the guest host (outside any container).
    Host,
    /// Run inside the named container.
    Container(String),
}

impl BashTarget {
    /// Construct a [`BashTarget::Host`].
    pub fn host() -> (r: Self)
        ensures
            r == BashTarget::Host,
    {
        BashTarget::Host
    }

    /// Construct a [`BashTarget::Container`].
    pub fn container(name: &str) -> (r: Self)
        ensures
            r is Container,
            r->Container_0@ == name@,
    {
        BashTarget::Container(name.to_owned())
    }

    /// The container name, or `None` for the host.
    pub fn container_name(&self) -> (r: Option<&str>)
        ensures
            match *self {
                BashTarget::Host => r is None,
                BashTarget::Container(name) => r is Some && r->0@ == name@,
            },
    {
        match self {
            BashTarget::Host => None,
            BashTarget::Container(name) => Some(name.as_str()),
        }
    }
}

/// Result of a bash command.
#[derive(Debug, Clone)]
pub struct BashOutput {
    /// Action-level status from the guest module. `0` means the command was
    /// dispatched and run; a negative value is an errno from the module before
    /// the command could run (e.g. a malformed request).
    pub status: i32,
    /// Exit code of the bash command itself.
    pub exit_code: i32,
    /// The command's combined stdout+stderr, captured from the output feedback
    /// buffer - non-empty only when the invocation requested recording. The
    /// output always also streams to the guest journal regardless.
    pub output: Vec<u8>,
}

impl BashOutput {
    /// Returns `true` iff the action dispatched and bash exited with 0.
    pub fn success(&self) -> (r: bool)
        ensures
            r == (self.status == 0 && self.exit_code == 0),
    {
        self.status == 0 && self.exit_code == 0
    }

    /// The recorded output as a utf8-lossy string (empty if not recorded).
    pub fn output_lossy(&self) -> (r: String)
        ensures
            crate::vm::io_channel::is_text_of(r@, self.output@),
    {
        utf8_lossy(self.output.as_slice())
    }
}

/// What a bash request says.
pub open spec fn request_view(target: BashTarget, cmd: Seq<char>, record_output: bool) -> RequestView {
    RequestView {
        container: match target {
            BashTarget::Host => None,
            BashTarget::Container(name) => Some(vstd::utf8::encode_utf8(name@)),
        },
        command: vstd::utf8::encode_utf8(cmd),
        record_output,
    }
}

/// Encode a bash request for `target`/`cmd`, optionally recording its output.
pub fn encode_request(target: &BashTarget, cmd: &str, record_output: bool) -> (r: Vec<u8>)
    requires
        target is Container ==> vstd::utf8::encode_utf8(target->Container_0@).len() <= u32::MAX,
    ensures
        r@ == crate::vm::io_channel::request_bytes(request_view(*target, cmd@, record_output)),
{
    io_channel::encode_request(target.container_name(), cmd, record_output)
}

/// A bash request reads back as what was asked for: on the host or in the named
/// container, the command, and whether to record the output.
pub proof fn bash_request_is_read_back(
    target: BashTarget,
    cmd: Seq<char>,
    record_output: bool,
    request: RequestView,
)
    requires
        target is Container ==> vstd::utf8::encode_utf8(target->Container_0@).len() <= u32::MAX,
        crate::vm::io_channel::parsed_request(
            crate::vm::io_channel::request_bytes(request_view(target, cmd, record_output)),
        ) == Some(request),
    ensures
        request.record_output == record_output,
        request.command == vstd::utf8::encode_utf8(cmd),
        target is Host <==> request.container is None,
        target is Container ==> request.container == Some(
            vstd::utf8::encode_utf8(target->Container_0@),
        ),
{
    crate::vm::io_channel::request_round_trip(request_view(target, cmd, record_output));
}

} // verus!
