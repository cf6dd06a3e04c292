//! Unified event stream: a single time-ordered, userspace-configurable log that
//! merges serial output, injected interrupts, served randomness, I/O channel
//! transactions, and exit records into one TLV byte stream.
//!
//! This module holds the **wire-format types**, defined once so that the
//! producer (the hypervisor) and the userspace reader share one layout. All
//! integers are little-endian; every record is padded to a multiple of 8 bytes.

use vstd::prelude::*;

use crate::bytes::{push_le, read_le};

verus! {

/// Size of the header of every record.
pub const EVENT_HEADER_SIZE: usize = 32;

/// Size of the event buffer in pages.
pub const EVENT_BUFFER_PAGES: usize = 256;

/// Size of the event buffer in bytes.
pub const EVENT_BUFFER_SIZE: usize = 0x10_0000;

/// Set on records that are reproducible from run to run.
pub const EVENT_FLAG_DETERMINISTIC: u16 = 1;

/// A set of event categories.
#[derive(Clone, Copy, PartialEq, Eq, Debug, Structural)]
pub struct EventCategories(pub u32);

impl EventCategories {
    /// Whether every category of `other` is in this set.
    pub open spec fn includes(self, other: EventCategories) -> bool {
        self.0 & other.0 == other.0
    }

    /// The categories of both sets.
    pub open spec fn joined(self, other: EventCategories) -> EventCategories {
        EventCategories(self.0 | other.0)
    }

    /// Bit of exit records.
    pub const EXIT: u32 = 0x01;

    /// Bit of serial output.
    pub const SERIAL: u32 = 0x02;

    /// Bit of injected interrupts.
    pub const INJECT: u32 = 0x04;

    /// Bit of values served to RDRAND and RDSEED.
    pub const RANDOMNESS: u32 = 0x08;

    /// Bit of I/O channel requests and responses.
    pub const IO_CHANNEL: u32 = 0x10;

    /// Bit of diagnostics.
    pub const DIAGNOSTIC: u32 = 0x20;

    /// No category.
    pub fn empty() -> (r: Self)
        ensures
            r == EventCategories(0),
    {
        EventCategories(0)
    }

    /// Whether every category of `other` is in this set.
    pub fn contains(&self, other: EventCategories) -> (r: bool)
        ensures
            r == (self.0 & other.0 == other.0),
            r == self.includes(other),
    {
        self.0 & other.0 == other.0
    }

    /// The categories of both sets.
    pub fn union(&self, other: EventCategories) -> (r: EventCategories)
        ensures
            r == EventCategories(self.0 | other.0),
            r == self.joined(other),
    {
        EventCategories(self.0 | other.0)
    }
}

/// A union contains both of its parts, and exactly their categories; every set
/// contains the empty one.
pub proof fn union_contains_its_parts(a: EventCategories, b: EventCategories, c: EventCategories)
    ensures
        (a.0 | b.0) & a.0 == a.0,
        (a.0 | b.0) & b.0 == b.0,
        a.0 & c.0 == 0 && b.0 & c.0 == 0 ==> (a.0 | b.0) & c.0 == 0,
        a.0 & 0 == 0,
{
    let x = a.0;
    let y = b.0;
    let z = c.0;
    assert((x | y) & x == x && (x | y) & y == y && (x & z == 0 && y & z == 0 ==> (x | y) & z == 0)
        && x & 0 == 0) by (bit_vector);
}

/// Kind of a record.
#[derive(Clone, Copy, PartialEq, Eq, Debug, Structural)]
pub enum EventKind {
    /// A VM exit.
    Exit,
    /// A line of serial output.
    Serial,
    /// An injected interrupt.
    Inject,
    /// A value served to RDRAND or RDSEED.
    Randomness,
    /// An I/O channel request or response.
    IoChannel,
    /// A diagnostic.
    Diagnostic,
}

impl EventKind {
    /// The kind's number on the wire.
    pub open spec fn number(&self) -> u16 {
        match *self {
            EventKind::Exit => 0,
            EventKind::Serial => 1,
            EventKind::Inject => 2,
            EventKind::Randomness => 3,
            EventKind::IoChannel => 4,
            EventKind::Diagnostic => 5,
        }
    }

    /// The kind with the given number.
    pub open spec fn of(number: u16) -> Option<EventKind> {
        if number == 0 {
            Some(EventKind::Exit)
        } else if number == 1 {
            Some(EventKind::Serial)
        } else if number == 2 {
            Some(EventKind::Inject)
        } else if number == 3 {
            Some(EventKind::Randomness)
        } else if number == 4 {
            Some(EventKind::IoChannel)
        } else if number == 5 {
            Some(EventKind::Diagnostic)
        } else {
            None
        }
    }

    /// The kind's number on the wire.
    pub fn as_u16(&self) -> (r: u16)
        ensures
            r == self.number(),
    {
        match self {
            EventKind::Exit => 0,
            EventKind::Serial => 1,
            EventKind::Inject => 2,
            EventKind::Randomness => 3,
            EventKind::IoChannel => 4,
            EventKind::Diagnostic => 5,
        }
    }

    /// The kind with the given number, if there is one.
    pub fn from_u16(number: u16) -> (r: Option<EventKind>)
        ensures
            r == EventKind::of(number),
    {
        match number {
            0 => Some(EventKind::Exit),
            1 => Some(EventKind::Serial),
            2 => Some(EventKind::Inject),
            3 => Some(EventKind::Randomness),
            4 => Some(EventKind::IoChannel),
            5 => Some(EventKind::Diagnostic),
            _ => None,
        }
    }

    /// The category that a kind belongs to: the one with the kind's bit.
    pub fn category(&self) -> (r: EventCategories)
        ensures
            r == EventCategories(1u32 << (self.number() as u32)),
    {
        proof {
            assert(1u32 << 0u32 == 1 && 1u32 << 1u32 == 2 && 1u32 << 2u32 == 4 && 1u32 << 3u32 == 8
                && 1u32 << 4u32 == 16 && 1u32 << 5u32 == 32) by (bit_vector);
        }
        match self {
            EventKind::Exit => EventCategories(EventCategories::EXIT),
            EventKind::Serial => EventCategories(EventCategories::SERIAL),
            EventKind::Inject => EventCategories(EventCategories::INJECT),
            EventKind::Randomness => EventCategories(EventCategories::RANDOMNESS),
            EventKind::IoChannel => EventCategories(EventCategories::IO_CHANNEL),
            EventKind::Diagnostic => EventCategories(EventCategories::DIAGNOSTIC),
        }
    }

    /// Flags of a record of this kind.
    pub open spec fn flags(&self) -> u16 {
        if *self == EventKind::Diagnostic {
            0
        } else {
            EVENT_FLAG_DETERMINISTIC
        }
    }

    /// Flags of a record of this kind: deterministic, but for diagnostics.
    pub fn default_flags(&self) -> (r: u16)
        ensures
            r == (if *self == EventKind::Diagnostic {
                0
            } else {
                EVENT_FLAG_DETERMINISTIC
            }),
            r == self.flags(),
    {
        match self {
            EventKind::Diagnostic => 0,
            _ => EVENT_FLAG_DETERMINISTIC,
        }
    }
}

/// A kind's number names it.
pub proof fn kind_numbers_round_trip(kind: EventKind)
    ensures
        EventKind::of(kind.number()) == Some(kind),
{
}

/// Header of every record.
#[derive(Clone, Copy, PartialEq, Eq, Debug, Structural)]
pub struct EventHeader {
    /// Number of the record in the stream.
    pub seq: u64,
    /// Emulated TSC at which the event happened.
    pub tsc: u64,
    /// Host TSC at which it was recorded; not reproducible.
    pub real_tsc: u64,
    /// Kind of the record.
    pub kind: u16,
    /// Flags.
    pub flags: u16,
    /// Length of the payload in bytes.
    pub len: u32,
}

impl EventHeader {
    /// The header on the wire.
    pub open spec fn bytes(&self) -> Seq<u8> {
        crate::bytes::le_bytes(self.seq as nat, 8) + crate::bytes::le_bytes(self.tsc as nat, 8)
            + crate::bytes::le_bytes(self.real_tsc as nat, 8) + crate::bytes::le_bytes(
            self.kind as nat,
            2,
        ) + crate::bytes::le_bytes(self.flags as nat, 2) + crate::bytes::le_bytes(
            self.len as nat,
            4,
        )
    }

    /// The header in the first 32 bytes of `b`.
    pub open spec fn of(b: Seq<u8>) -> EventHeader {
        EventHeader {
            seq: crate::bytes::le_value(b.subrange(0, 8)) as u64,
            tsc: crate::bytes::le_value(b.subrange(8, 16)) as u64,
            real_tsc: crate::bytes::le_value(b.subrange(16, 24)) as u64,
            kind: crate::bytes::le_value(b.subrange(24, 26)) as u16,
            flags: crate::bytes::le_value(b.subrange(26, 28)) as u16,
            len: crate::bytes::le_value(b.subrange(28, 32)) as u32,
        }
    }

    /// Decode the header at the start of `b`.
    pub fn decode(b: &[u8]) -> (r: EventHeader)
        requires
            b@.len() >= 32,
        ensures
            r == EventHeader::of(b@),
    {
        EventHeader {
            seq: read_le(b, 0, 8),
            tsc: read_le(b, 8, 8),
            real_tsc: read_le(b, 16, 8),
            kind: read_le(b, 24, 2) as u16,
            flags: read_le(b, 26, 2) as u16,
            len: read_le(b, 28, 4) as u32,
        }
    }

    /// Append the header to `out`.
    pub fn encode(&self, out: &mut Vec<u8>)
        ensures
            final(out)@ == old(out)@ + self.bytes(),
    {
        push_le(out, self.seq, 8);
        push_le(out, self.tsc, 8);
        push_le(out, self.real_tsc, 8);
        push_le(out, self.kind as u64, 2);
        push_le(out, self.flags as u64, 2);
        push_le(out, self.len as u64, 4);
        assert(out@ =~= old(out)@ + self.bytes());
    }
}

/// A header decodes to what was encoded, whatever follows it.
pub proof fn header_round_trip(h: EventHeader, rest: Seq<u8>)
    ensures
        h.bytes().len() == 32,
        EventHeader::of(h.bytes() + rest) == h,
{
    crate::bytes::capacities();
    crate::bytes::le_round_trip(h.seq as nat, 8);
    crate::bytes::le_round_trip(h.tsc as nat, 8);
    crate::bytes::le_round_trip(h.real_tsc as nat, 8);
    crate::bytes::le_round_trip(h.kind as nat, 2);
    crate::bytes::le_round_trip(h.flags as nat, 2);
    crate::bytes::le_round_trip(h.len as nat, 4);
    let b = h.bytes() + rest;
    assert(b.subrange(0, 8) =~= crate::bytes::le_bytes(h.seq as nat, 8));
    assert(b.subrange(8, 16) =~= crate::bytes::le_bytes(h.tsc as nat, 8));
    assert(b.subrange(16, 24) =~= crate::bytes::le_bytes(h.real_tsc as nat, 8));
    assert(b.subrange(24, 26) =~= crate::bytes::le_bytes(h.kind as nat, 2));
    assert(b.subrange(26, 28) =~= crate::bytes::le_bytes(h.flags as nat, 2));
    assert(b.subrange(28, 32) =~= crate::bytes::le_bytes(h.len as nat, 4));
}

/// The least multiple of `align` that is at least `value`.
pub open spec fn aligned(value: int, align: int) -> int {
    if value % align == 0 {
        value
    } else {
        value - value % align + align
    }
}

/// Round `value` up to a multiple of `align`.
pub fn align_up(value: usize, align: usize) -> (r: usize)
    requires
        align > 0,
        aligned(value as int, align as int) <= usize::MAX,
    ensures
        r == aligned(value as int, align as int),
{
    let over: usize = value % align;
    if over == 0 {
        value
    } else {
        value + (align - over)
    }
}

/// Rounding up gives the nearest multiple that is not below.
pub proof fn aligned_is_the_next_multiple(value: int, align: int)
    requires
        value >= 0,
        align > 0,
    ensures
        aligned(value, align) % align == 0,
        value <= aligned(value, align) < value + align,
{
    let q = value / align;
    let m = value % align;
    vstd::arithmetic::div_mod::lemma_fundamental_div_mod(value, align);
    vstd::arithmetic::div_mod::lemma_mod_bound(value, align);
    if m != 0 {
        assert(value - m + align == align * (q + 1)) by (nonlinear_arith)
            requires
                value == align * q + m,
        ;
        vstd::arithmetic::div_mod::lemma_mod_multiples_basic(q + 1, align);
        assert((align * (q + 1)) % align == 0) by {
            vstd::arithmetic::mul::lemma_mul_is_commutative(align, q + 1);
        }
    }
}

/// Payload of an injected interrupt.
#[derive(Clone, Copy, PartialEq, Eq, Debug)]
pub struct InjectPayload {
    /// Emulated TSC at which the interrupt was due.
    pub deadline_tsc: u64,
    /// Vector of the interrupt.
    pub vector: u8,
    /// What raised it.
    pub source: u8,
    /// Padding.
    pub _pad: [u8; 6],
}

/// Payload of a value served to RDRAND or RDSEED.
#[derive(Clone, Copy, PartialEq, Eq, Debug)]
pub struct RandomPayload {
    /// The value.
    pub value: u64,
    /// 0 = RDRAND, 1 = RDSEED.
    pub source: u8,
    /// Width of the value in bytes.
    pub width: u8,
    /// Padding.
    pub _pad: [u8; 6],
}

impl RandomPayload {
    /// The payload on the wire.
    pub open spec fn bytes(&self) -> Seq<u8> {
        crate::bytes::le_bytes(self.value as nat, 8) + seq![self.source, self.width] + self._pad@
    }

    /// Encode the payload.
    pub fn as_bytes(&self) -> (r: Vec<u8>)
        ensures
            r@ == self.bytes(),
    {
        let mut out: Vec<u8> = Vec::new();
        push_le(&mut out, self.value, 8);
        out.push(self.source);
        out.push(self.width);
        out.extend_from_slice(self._pad.as_slice());
        assert(out@ =~= self.bytes());
        out
    }

    /// Decode the payload at the start of `b`.
    pub fn decode(b: &[u8]) -> (r: RandomPayload)
        requires
            b@.len() >= 16,
        ensures
            r.value == crate::bytes::le_value(b@.subrange(0, 8)),
            r.source == b@[8],
            r.width == b@[9],
            r._pad@ == b@.subrange(10, 16),
    {
        let _pad = [b[10], b[11], b[12], b[13], b[14], b[15]];
        assert(_pad@ =~= b@.subrange(10, 16));
        RandomPayload { value: read_le(b, 0, 8), source: b[8], width: b[9], _pad }
    }
}

/// Which way an I/O channel message goes.
#[derive(Clone, Copy, PartialEq, Eq, Debug, Structural)]
pub enum IoChannelPhase {
    /// From the host to the guest.
    Request,
    /// From the guest to the host.
    Response,
}

impl IoChannelPhase {
    /// The phase's number on the wire.
    pub open spec fn number(&self) -> u8 {
        match *self {
            IoChannelPhase::Request => 0,
            IoChannelPhase::Response => 1,
        }
    }

    /// The phase's number on the wire.
    pub fn as_u8(&self) -> (r: u8)
        ensures
            r == self.number(),
    {
        match self {
            IoChannelPhase::Request => 0,
            IoChannelPhase::Response => 1,
        }
    }
}

/// Payload of an I/O channel message, followed by the message itself.
#[derive(Clone, Copy, PartialEq, Eq, Debug)]
pub struct IoChannelPayload {
    /// Which way the message goes ([`IoChannelPhase`] as a number).
    pub phase: u8,
    /// Padding.
    pub _pad: [u8; 7],
    /// Emulated TSC that a request was scheduled for (0 = at once).
    pub target_tsc: u64,
}

impl IoChannelPayload {
    /// The payload on the wire.
    pub open spec fn bytes(&self) -> Seq<u8> {
        seq![self.phase] + self._pad@ + crate::bytes::le_bytes(self.target_tsc as nat, 8)
    }

    /// Encode the payload.
    pub fn as_bytes(&self) -> (r: Vec<u8>)
        ensures
            r@ == self.bytes(),
    {
        let mut out: Vec<u8> = Vec::new();
        out.push(self.phase);
        out.extend_from_slice(self._pad.as_slice());
        push_le(&mut out, self.target_tsc, 8);
        assert(out@ =~= self.bytes());
        out
    }

    /// Decode the payload at the start of `b`.
    pub fn decode(b: &[u8]) -> (r: IoChannelPayload)
        requires
            b@.len() >= 16,
        ensures
            r.phase == b@[0],
            r._pad@ == b@.subrange(1, 8),
            r.target_tsc == crate::bytes::le_value(b@.subrange(8, 16)),
    {
        let _pad = [b[1], b[2], b[3], b[4], b[5], b[6], b[7]];
        assert(_pad@ =~= b@.subrange(1, 8));
        IoChannelPayload { phase: b[0], _pad, target_tsc: read_le(b, 8, 8) }
    }
}

/// Padding behind a record of `len` bytes.
pub open spec fn padding(len: int) -> Seq<u8> {
    Seq::new((aligned(len, 8) - len) as nat, |i: int| 0u8)
}

/// One record on the wire: header, payload, padding.
pub open spec fn record_bytes(header: EventHeader, payload: Seq<u8>) -> Seq<u8> {
    header.bytes() + payload + padding((32 + payload.len()) as int)
}

/// Append one record to a stream.
pub fn push_record(
    out: &mut Vec<u8>,
    seq: u64,
    tsc: u64,
    real_tsc: u64,
    kind: u16,
    flags: u16,
    payload: &[u8],
)
    requires
        payload@.len() <= u32::MAX,
    ensures
        final(out)@ == old(out)@ + record_bytes(
            EventHeader { seq, tsc, real_tsc, kind, flags, len: payload@.len() as u32 },
            payload@,
        ),
{
    let header = EventHeader { seq, tsc, real_tsc, kind, flags, len: payload.len() as u32 };
    header.encode(out);
    out.extend_from_slice(payload);
    let ghost before = out@;
    // The header is a multiple of 8 bytes
    let over: usize = payload.len() % 8;
    let pad: usize = if over == 0 {
        0
    } else {
        8 - over
    };
    let mut i: usize = 0;
    while i < pad
        invariant
            i <= pad,
            out@ == before + Seq::new(i as nat, |j: int| 0u8),
        decreases pad - i,
    {
        out.push(0);
        assert(out@ =~= before + Seq::new((i + 1) as nat, |j: int| 0u8));
        i += 1;
    }
    assert(out@ =~= old(out)@ + record_bytes(header, payload@));
}

/// Where a reader finds what: each field of the header at its offset, the payload
/// behind the header, and then zeros up to the next multiple of 8, where the next
/// record begins.
pub proof fn record_is_laid_out_for_readers(h: EventHeader, payload: Seq<u8>, i: int)
    ensures
        ({
            let b = record_bytes(h, payload);
            &&& crate::bytes::le_value(b.subrange(0, 8)) == h.seq
            &&& crate::bytes::le_value(b.subrange(8, 16)) == h.tsc
            &&& crate::bytes::le_value(b.subrange(16, 24)) == h.real_tsc
            &&& crate::bytes::le_value(b.subrange(24, 26)) == h.kind
            &&& crate::bytes::le_value(b.subrange(26, 28)) == h.flags
            &&& crate::bytes::le_value(b.subrange(28, 32)) == h.len
            &&& b.len() % 8 == 0
            &&& 32 + payload.len() <= b.len() < 32 + payload.len() + 8
            &&& b.subrange(32, 32 + payload.len() as int) == payload
            &&& 32 + payload.len() <= i < b.len() ==> b[i] == 0
        }),
{
    let b = record_bytes(h, payload);
    let rest = payload + padding((32 + payload.len()) as int);
    header_round_trip(h, rest);
    aligned_is_the_next_multiple((32 + payload.len()) as int, 8);
    assert(b =~= h.bytes() + rest);
    crate::bytes::capacities();
    crate::bytes::le_round_trip(h.seq as nat, 8);
    crate::bytes::le_round_trip(h.tsc as nat, 8);
    crate::bytes::le_round_trip(h.real_tsc as nat, 8);
    crate::bytes::le_round_trip(h.kind as nat, 2);
    crate::bytes::le_round_trip(h.flags as nat, 2);
    crate::bytes::le_round_trip(h.len as nat, 4);
    assert(b.subrange(0, 8) =~= crate::bytes::le_bytes(h.seq as nat, 8));
    assert(b.subrange(8, 16) =~= crate::bytes::le_bytes(h.tsc as nat, 8));
    assert(b.subrange(16, 24) =~= crate::bytes::le_bytes(h.real_tsc as nat, 8));
    assert(b.subrange(24, 26) =~= crate::bytes::le_bytes(h.kind as nat, 2));
    assert(b.subrange(26, 28) =~= crate::bytes::le_bytes(h.flags as nat, 2));
    assert(b.subrange(28, 32) =~= crate::bytes::le_bytes(h.len as nat, 4));
    assert(b.subrange(32, 32 + payload.len() as int) =~= payload);
}

/// The numbers on the wire: exits 0, serial output 1, injections 2, randomness 3,
/// the I/O channel 4 and diagnostics 5; no other number is a kind.
pub proof fn kinds_have_their_numbers(number: u16)
    ensures
        EventKind::Exit.number() == 0 && EventKind::Serial.number() == 1,
        EventKind::Inject.number() == 2 && EventKind::Randomness.number() == 3,
        EventKind::IoChannel.number() == 4 && EventKind::Diagnostic.number() == 5,
        EventKind::of(number) is None <==> number > 5,
        number <= 5 ==> EventKind::of(number)->0.number() == number,
        IoChannelPhase::Request.number() == 0 && IoChannelPhase::Response.number() == 1,
{
}

/// A randomness record tells the value, where it came from and its width; an I/O
/// channel record the direction and the time it was scheduled for.
pub proof fn payloads_are_laid_out_for_readers(r: RandomPayload, m: IoChannelPayload)
    ensures
        r.bytes().len() == 16,
        crate::bytes::le_value(r.bytes().subrange(0, 8)) == r.value,
        r.bytes()[8] == r.source && r.bytes()[9] == r.width,
        r.bytes().subrange(10, 16) == r._pad@,
        m.bytes().len() == 16,
        m.bytes()[0] == m.phase,
        m.bytes().subrange(1, 8) == m._pad@,
        crate::bytes::le_value(m.bytes().subrange(8, 16)) == m.target_tsc,
{
    crate::bytes::capacities();
    crate::bytes::le_round_trip(r.value as nat, 8);
    crate::bytes::le_round_trip(m.target_tsc as nat, 8);
    assert(r.bytes().subrange(0, 8) =~= crate::bytes::le_bytes(r.value as nat, 8));
    assert(r.bytes().subrange(10, 16) =~= r._pad@);
    assert(m.bytes().subrange(1, 8) =~= m._pad@);
    assert(m.bytes().subrange(8, 16) =~= crate::bytes::le_bytes(m.target_tsc as nat, 8));
}

/// A set of categories, bit by bit: a set includes another if it has each of its
/// bits, and a union has the bits of both.
pub proof fn categories_are_bits(a: EventCategories, b: EventCategories, k: u32)
    requires
        k < 32,
    ensures
        ({
            let x = a.joined(b);
            &&& ((x.0 >> k) & 1 == 1) == ((a.0 >> k) & 1 == 1 || (b.0 >> k) & 1 == 1)
            &&& a.includes(b) && (b.0 >> k) & 1 == 1 ==> (a.0 >> k) & 1 == 1
            &&& x.includes(a) && x.includes(b)
            &&& a.includes(b) ==> x == a
            &&& a.includes(EventCategories(0))
        }),
{
    let x = a.0;
    let y = b.0;
    assert((((x | y) >> k) & 1 == 1) == ((x >> k) & 1 == 1 || (y >> k) & 1 == 1) && (x & y == y && (
    y >> k) & 1 == 1 ==> (x >> k) & 1 == 1) && (x | y) & x == x && (x | y) & y == y && (x & y == y
        ==> x | y == x) && x & 0 == 0) by (bit_vector)
        requires
            k < 32,
    ;
}

/// Records are marked as reproducible, but for diagnostics.
pub proof fn only_diagnostics_are_not_reproducible(kind: EventKind)
    ensures
        kind.flags() == (if kind.number() == 5 {
            0int
        } else {
            1
        }),
{
}

} // verus!
