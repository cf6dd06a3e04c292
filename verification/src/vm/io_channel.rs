//! Wire protocol of the deterministic hypervisor-guest I/O channel.
//!
//! A request asks the guest to run a shell command, on the guest host or in a
//! container, and optionally to record its output:
//!
//! - 1 byte of flags: bit 0 = record the output, bit 1 = run in a container
//! - with bit 1: 4 bytes of little-endian length and that many bytes of UTF-8,
//!   the container's name
//! - the rest: the command, in UTF-8

use vstd::prelude::*;
use vstd::slice::slice_subrange;
use vstd::string::StringSliceAdditionalSpecFns;

use crate::bytes::{push_le, read_le};
use crate::text::utf8_lossy;

verus! {

/// Where a request's command runs.
#[derive(Debug, PartialEq, Eq)]
pub enum IoTarget {
    /// On the guest host.
    Host,
    /// In the named container.
    Container(String),
}

/// A decoded request.
#[derive(Debug, PartialEq, Eq)]
pub struct IoRequest {
    /// Where the command runs.
    pub target: IoTarget,
    /// The command.
    pub command: String,
    /// Whether its output is recorded.
    pub record_output: bool,
}

/// A request as bytes: the container's name, if any, the command, and whether
/// the output is recorded.
pub struct RequestView {
    pub container: Option<Seq<u8>>,
    pub command: Seq<u8>,
    pub record_output: bool,
}

/// The flags byte of a request.
pub open spec fn request_flags(container: bool, record_output: bool) -> u8 {
    if container {
        if record_output {
            3
        } else {
            2
        }
    } else if record_output {
        1
    } else {
        0
    }
}

/// A request on the wire.
pub open spec fn request_bytes(v: RequestView) -> Seq<u8> {
    seq![request_flags(v.container is Some, v.record_output)] + (match v.container {
        Some(name) => crate::bytes::le_bytes(name.len(), 4) + name,
        None => Seq::empty(),
    }) + v.command
}

/// What bytes say as a request. `None` for no bytes, unknown flags, or a
/// container's name that is cut off.
pub open spec fn parsed_request(data: Seq<u8>) -> Option<RequestView> {
    if data.len() == 0 || data[0] > 3 {
        None
    } else {
        let record_output = data[0] % 2 == 1;
        if data[0] < 2 {
            Some(RequestView { container: None, command: data.skip(1), record_output })
        } else if data.len() < 5 {
            None
        } else {
            let n = crate::bytes::le_value(data.subrange(1, 5));
            if data.len() < 5 + n {
                None
            } else {
                Some(
                    RequestView {
                        container: Some(data.subrange(5, (5 + n) as int)),
                        command: data.skip((5 + n) as int),
                        record_output,
                    },
                )
            }
        }
    }
}

/// Encode a request to run `command`, in `container` or on the guest host.
pub fn encode_request(container: Option<&str>, command: &str, record_output: bool) -> (r: Vec<u8>)
    requires
        container is Some ==> container->0.spec_bytes().len() <= u32::MAX,
    ensures
        r@ == request_bytes(
            RequestView {
                container: match container {
                    Some(name) => Some(name.spec_bytes()),
                    None => None,
                },
                command: command.spec_bytes(),
                record_output,
            },
        ),
{
    let mut out: Vec<u8> = Vec::new();
    match container {
        Some(name) => {
            out.push(if record_output { 3 } else { 2 });
            push_le(&mut out, name.as_bytes().len() as u64, 4);
            out.extend_from_slice(name.as_bytes());
        },
        None => {
            out.push(if record_output { 1 } else { 0 });
        },
    }
    out.extend_from_slice(command.as_bytes());
    assert(out@ =~= request_bytes(
        RequestView {
            container: match container {
                Some(name) => Some(name.spec_bytes()),
                None => None,
            },
            command: command.spec_bytes(),
            record_output,
        },
    ));
    out
}

/// Whether a string is the text of some bytes, bytes that are not UTF-8 decoded
/// with replacement characters.
pub open spec fn is_text_of(s: Seq<char>, bytes: Seq<u8>) -> bool {
    &&& s == crate::text::lossy_text(bytes)
    &&& vstd::utf8::valid_utf8(bytes) ==> s == vstd::utf8::decode_utf8(bytes)
}

/// Whether a decoded request is what `v` says.
pub open spec fn is_request(r: IoRequest, v: RequestView) -> bool {
    &&& r.record_output == v.record_output
    &&& is_text_of(r.command@, v.command)
    &&& match v.container {
        None => r.target == IoTarget::Host,
        Some(name) => r.target is Container && is_text_of(r.target->Container_0@, name),
    }
}

/// Decode a request.
pub fn decode_request(data: &[u8]) -> (r: Option<IoRequest>)
    ensures
        match parsed_request(data@) {
            None => r is None,
            Some(v) => r is Some && is_request(r->0, v),
        },
{
    if data.len() == 0 || data[0] > 3 {
        return None;
    }
    let record_output = data[0] % 2 == 1;
    if data[0] < 2 {
        let command = slice_subrange(data, 1, data.len());
        assert(command@ =~= data@.skip(1));
        return Some(
            IoRequest { target: IoTarget::Host, command: utf8_lossy(command), record_output },
        );
    }
    if data.len() < 5 {
        return None;
    }
    let n: u64 = read_le(data, 1, 4);
    if n > (data.len() - 5) as u64 {
        return None;
    }
    let end: usize = 5 + n as usize;
    let name = slice_subrange(data, 5, end);
    let command = slice_subrange(data, end, data.len());
    assert(command@ =~= data@.skip(end as int));
    Some(
        IoRequest {
            target: IoTarget::Container(utf8_lossy(name)),
            command: utf8_lossy(command),
            record_output,
        },
    )
}

/// A request decodes to what was encoded.
pub proof fn request_round_trip(v: RequestView)
    requires
        v.container is Some ==> v.container->0.len() <= u32::MAX,
    ensures
        parsed_request(request_bytes(v)) == Some(v),
{
    let data = request_bytes(v);
    match v.container {
        None => {
            assert(data.skip(1) =~= v.command);
        },
        Some(name) => {
            crate::bytes::capacities();
            crate::bytes::le_round_trip(name.len(), 4);
            assert(data.subrange(1, 5) =~= crate::bytes::le_bytes(name.len(), 4));
            assert(data.subrange(5, (5 + name.len()) as int) =~= name);
            assert(data.skip((5 + name.len()) as int) =~= v.command);
        },
    }
}

/// Text that was encoded is the text that is decoded.
pub proof fn encoded_text_survives(text: Seq<char>, decoded: Seq<char>)
    requires
        is_text_of(decoded, vstd::utf8::encode_utf8(text)),
    ensures
        decoded == text,
{
    vstd::utf8::encode_utf8_valid_utf8(text);
    vstd::utf8::encode_utf8_decode_utf8(text);
}

/// A request on the wire: bit 0 of the first byte asks for the output, bit 1 says
/// that a container's name follows, with its length in front; the command is the
/// rest.
pub proof fn request_is_laid_out_for_the_guest(v: RequestView)
    requires
        v.container is Some ==> v.container->0.len() <= u32::MAX,
    ensures
        ({
            let b = request_bytes(v);
            let start = match v.container {
                Some(name) => 5 + name.len(),
                None => 1,
            };
            &&& b.len() == start + v.command.len()
            &&& b[0] < 4
            &&& (b[0] % 2 == 1) == v.record_output
            &&& (b[0] / 2 == 1) == v.container is Some
            &&& v.container is Some ==> crate::bytes::le_value(b.subrange(1, 5))
                == v.container->0.len() && b.subrange(5, start as int) == v.container->0
            &&& b.skip(start as int) == v.command
        }),
{
    let b = request_bytes(v);
    match v.container {
        None => {
            assert(b.skip(1) =~= v.command);
        },
        Some(name) => {
            crate::bytes::capacities();
            crate::bytes::le_round_trip(name.len(), 4);
            assert(b.subrange(1, 5) =~= crate::bytes::le_bytes(name.len(), 4));
            assert(b.subrange(5, (5 + name.len()) as int) =~= name);
            assert(b.skip((5 + name.len()) as int) =~= v.command);
        },
    }
}

/// What is no request: no bytes, a flag that is not known, or a name that is cut
/// off. Everything else is one.
pub proof fn only_malformed_bytes_are_refused(data: Seq<u8>)
    ensures
        (parsed_request(data) is None) == (data.len() == 0 || data[0] >= 4 || (data[0] >= 2 && (
        data.len() < 5 || data.len() < 5 + crate::bytes::le_value(data.subrange(1, 5))))),
{
}

/// A decoded request says what was encoded: where the command runs, the command's
/// text, and whether its output is recorded.
pub proof fn decoded_request_says_what_was_encoded(
    r: IoRequest,
    container: Option<Seq<char>>,
    command: Seq<char>,
    record_output: bool,
    v: RequestView,
)
    requires
        is_request(r, v),
        v.record_output == record_output,
        v.command == vstd::utf8::encode_utf8(command),
        v.container is Some <==> container is Some,
        container is Some ==> v.container->0 == vstd::utf8::encode_utf8(container->0),
    ensures
        r.record_output == record_output,
        r.command@ == command,
        container is None ==> r.target is Host,
        container is Some ==> r.target is Container && r.target->Container_0@ == container->0,
{
    encoded_text_survives(command, r.command@);
    if container is Some {
        encoded_text_survives(container->0, r.target->Container_0@);
    }
}

} // verus!
