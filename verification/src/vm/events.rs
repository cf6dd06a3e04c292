//! Reader of the unified event stream.

use vstd::prelude::*;
use vstd::slice::slice_subrange;

use crate::vmx::events::{
    EventHeader, EventKind, IoChannelPayload, RandomPayload, EVENT_HEADER_SIZE,
};

verus! {

/// One record of an event stream.
#[derive(Clone, Copy)]
pub struct EventRecord<'a> {
    /// The record's header.
    pub header: EventHeader,
    /// The record's payload.
    pub payload: &'a [u8],
}

/// A record's payload, decoded by its kind.
pub enum Event<'a> {
    /// A VM exit.
    Exit(&'a [u8]),
    /// A line of serial output.
    Serial(&'a [u8]),
    /// An injected interrupt.
    Inject(&'a [u8]),
    /// A value served to RDRAND or RDSEED.
    Randomness(RandomPayload),
    /// An I/O channel message.
    IoChannel(IoChannelPayload, &'a [u8]),
    /// A diagnostic.
    Diagnostic(&'a [u8]),
    /// A kind that is not known, or a payload too short for its kind.
    Unknown(u16, &'a [u8]),
}

/// A record as a value.
pub struct RecordView {
    pub header: EventHeader,
    pub payload: Seq<u8>,
}

/// The record at `at`, if there is a whole one.
pub open spec fn record_at(stream: Seq<u8>, at: int) -> Option<RecordView> {
    if at + 32 > stream.len() {
        None
    } else {
        let header = EventHeader::of(stream.skip(at));
        if at + 32 + header.len > stream.len() {
            None
        } else {
            Some(
                RecordView { header, payload: stream.subrange(at + 32, at + 32 + header.len) },
            )
        }
    }
}

/// Where the record behind one of `len` payload bytes at `at` starts.
pub open spec fn next_position(stream: Seq<u8>, at: int, len: int) -> int {
    let next = at + crate::vmx::events::aligned(32 + len, 8);
    if next > stream.len() {
        stream.len() as int
    } else {
        next
    }
}

/// Every record of a stream from `at` on, in order.
pub open spec fn records_from(stream: Seq<u8>, at: int) -> Seq<RecordView>
    decreases stream.len() - at,
{
    match record_at(stream, at) {
        None => Seq::empty(),
        Some(r) => if next_position(stream, at, r.header.len as int) <= at {
            Seq::empty()
        } else {
            seq![r] + records_from(stream, next_position(stream, at, r.header.len as int))
        },
    }
}

impl<'a> EventRecord<'a> {
    /// This record as a value.
    pub open spec fn view(&self) -> RecordView {
        RecordView { header: self.header, payload: self.payload@ }
    }

    /// Emulated TSC of the record.
    pub fn tsc(&self) -> (r: u64)
        ensures
            r == self.header.tsc,
    {
        self.header.tsc
    }

    /// Decode the payload by the record's kind.
    pub fn event(&self) -> (r: Event<'a>)
        ensures
            is_event(r, self@),
    {
        match EventKind::from_u16(self.header.kind) {
            Some(EventKind::Exit) => Event::Exit(self.payload),
            Some(EventKind::Serial) => Event::Serial(self.payload),
            Some(EventKind::Inject) => Event::Inject(self.payload),
            Some(EventKind::Randomness) => {
                if self.payload.len() < 16 {
                    Event::Unknown(self.header.kind, self.payload)
                } else {
                    Event::Randomness(RandomPayload::decode(self.payload))
                }
            },
            Some(EventKind::IoChannel) => {
                if self.payload.len() < 16 {
                    Event::Unknown(self.header.kind, self.payload)
                } else {
                    let message = slice_subrange(self.payload, 16, self.payload.len());
                    assert(message@ =~= self.payload@.skip(16));
                    Event::IoChannel(IoChannelPayload::decode(self.payload), message)
                }
            },
            Some(EventKind::Diagnostic) => Event::Diagnostic(self.payload),
            None => Event::Unknown(self.header.kind, self.payload),
        }
    }
}

/// Whether `e` is the decoded payload of record `r`.
pub open spec fn is_event(e: Event<'_>, r: RecordView) -> bool {
    match EventKind::of(r.header.kind) {
        Some(EventKind::Exit) => e is Exit && e->Exit_0@ == r.payload,
        Some(EventKind::Serial) => e is Serial && e->Serial_0@ == r.payload,
        Some(EventKind::Inject) => e is Inject && e->Inject_0@ == r.payload,
        Some(EventKind::Randomness) => if r.payload.len() < 16 {
            e is Unknown && e->Unknown_0 == r.header.kind && e->Unknown_1@ == r.payload
        } else {
            &&& e is Randomness
            &&& e->Randomness_0.value == crate::bytes::le_value(r.payload.subrange(0, 8))
            &&& e->Randomness_0.source == r.payload[8]
            &&& e->Randomness_0.width == r.payload[9]
            &&& e->Randomness_0._pad@ == r.payload.subrange(10, 16)
        },
        Some(EventKind::IoChannel) => if r.payload.len() < 16 {
            e is Unknown && e->Unknown_0 == r.header.kind && e->Unknown_1@ == r.payload
        } else {
            &&& e is IoChannel
            &&& e->IoChannel_0.phase == r.payload[0]
            &&& e->IoChannel_0._pad@ == r.payload.subrange(1, 8)
            &&& e->IoChannel_0.target_tsc == crate::bytes::le_value(r.payload.subrange(8, 16))
            &&& e->IoChannel_1@ == r.payload.skip(16)
        },
        Some(EventKind::Diagnostic) => e is Diagnostic && e->Diagnostic_0@ == r.payload,
        None => e is Unknown && e->Unknown_0 == r.header.kind && e->Unknown_1@ == r.payload,
    }
}

/// A stream of records in a byte buffer.
pub struct EventStream<'a> {
    buf: &'a [u8],
    pos: usize,
}

impl<'a> EventStream<'a> {
    /// The whole stream.
    pub closed spec fn bytes(&self) -> Seq<u8> {
        self.buf@
    }

    /// Where the next record starts.
    pub closed spec fn position(&self) -> int {
        self.pos as int
    }

    pub closed spec fn wf(&self) -> bool {
        self.pos <= self.buf.len()
    }

    /// The records that are still to be read.
    pub open spec fn remaining(&self) -> Seq<RecordView> {
        records_from(self.bytes(), self.position())
    }

    /// Read a stream from its start.
    pub fn new(buf: &'a [u8]) -> (r: Self)
        ensures
            r.wf(),
            r.bytes() == buf@,
            r.position() == 0,
    {
        EventStream { buf, pos: 0 }
    }

    /// Read the next record. `None` at the end of the stream, or where what is
    /// left is no whole record.
    pub fn next_record(&mut self) -> (r: Option<EventRecord<'a>>)
        requires
            old(self).wf(),
        ensures
            final(self).wf(),
            final(self).bytes() == old(self).bytes(),
            match record_at(old(self).bytes(), old(self).position()) {
                None => r is None && final(self).position() == old(self).position(),
                Some(v) => r is Some && r->0@ == v && final(self).position() == next_position(
                    old(self).bytes(),
                    old(self).position(),
                    v.header.len as int,
                ),
            },
            match r {
                None => old(self).remaining().len() == 0,
                Some(record) => old(self).remaining() == seq![record@] + final(self).remaining(),
            },
    {
        let left: usize = self.buf.len() - self.pos;
        if left < EVENT_HEADER_SIZE {
            return None;
        }
        let rest = slice_subrange(self.buf, self.pos, self.buf.len());
        assert(rest@ =~= self.buf@.skip(self.pos as int));
        let header = EventHeader::decode(rest);
        if header.len as u64 > (left - EVENT_HEADER_SIZE) as u64 {
            return None;
        }
        let len: usize = header.len as usize;
        let start: usize = self.pos + EVENT_HEADER_SIZE;
        let payload = slice_subrange(self.buf, start, start + len);
        let over: usize = len % 8;
        let pad: usize = if over == 0 {
            0
        } else {
            8 - over
        };
        let used: usize = EVENT_HEADER_SIZE + len;
        self.pos = if left - used < pad {
            self.buf.len()
        } else {
            self.pos + used + pad
        };
        Some(EventRecord { header, payload })
    }
}

/// A record that was appended is read back as it was, wherever it stands.
pub proof fn record_round_trip(
    before: Seq<u8>,
    header: EventHeader,
    payload: Seq<u8>,
    after: Seq<u8>,
)
    requires
        header.len == payload.len(),
    ensures
        ({
            let stream = before + crate::vmx::events::record_bytes(header, payload) + after;
            &&& record_at(stream, before.len() as int) == Some(RecordView { header, payload })
            &&& next_position(stream, before.len() as int, header.len as int) == before.len()
                + crate::vmx::events::record_bytes(header, payload).len()
        }),
{
    let record = crate::vmx::events::record_bytes(header, payload);
    let stream = before + record + after;
    let at = before.len() as int;
    let tail = payload + crate::vmx::events::padding((32 + payload.len()) as int) + after;
    crate::vmx::events::header_round_trip(header, tail);
    assert(stream.skip(at) =~= header.bytes() + tail);
    assert(stream.subrange(at + 32, at + 32 + payload.len()) =~= payload);
}

/// A stream that records were appended to, one after the other, is read back as
/// those records, in order.
pub proof fn stream_round_trip(
    before: Seq<u8>,
    header: EventHeader,
    payload: Seq<u8>,
    after: Seq<u8>,
)
    requires
        header.len == payload.len(),
    ensures
        records_from(
            before + crate::vmx::events::record_bytes(header, payload) + after,
            before.len() as int,
        ) == seq![RecordView { header, payload }] + records_from(
            before + crate::vmx::events::record_bytes(header, payload) + after,
            (before.len() + crate::vmx::events::record_bytes(header, payload).len()) as int,
        ),
{
    record_round_trip(before, header, payload, after);
    crate::vmx::events::header_round_trip(header, Seq::empty());
}

/// A record is taken for what its number on the wire says; one with a number that is
/// not known, or with too few bytes for its kind, is handed on as it is.
pub proof fn events_are_told_by_their_numbers(e: Event<'_>, r: RecordView)
    requires
        is_event(e, r),
    ensures
        r.header.kind == 0 ==> e is Exit && e->Exit_0@ == r.payload,
        r.header.kind == 1 ==> e is Serial && e->Serial_0@ == r.payload,
        r.header.kind == 2 ==> e is Inject && e->Inject_0@ == r.payload,
        r.header.kind == 3 && r.payload.len() >= 16 ==> e is Randomness && e->Randomness_0.value
            == crate::bytes::le_value(r.payload.subrange(0, 8)) && e->Randomness_0.source
            == r.payload[8] && e->Randomness_0.width == r.payload[9],
        r.header.kind == 4 && r.payload.len() >= 16 ==> e is IoChannel && e->IoChannel_0.phase
            == r.payload[0] && e->IoChannel_0.target_tsc == crate::bytes::le_value(
            r.payload.subrange(8, 16),
        ) && e->IoChannel_1@ == r.payload.skip(16),
        r.header.kind == 5 ==> e is Diagnostic && e->Diagnostic_0@ == r.payload,
        r.header.kind > 5 || ((r.header.kind == 3 || r.header.kind == 4) && r.payload.len() < 16)
            ==> e is Unknown && e->Unknown_0 == r.header.kind && e->Unknown_1@ == r.payload,
{
}

/// A reader makes progress: it stops only at the end, or where what is left is no
/// whole record, and otherwise goes on at the next multiple of 8 behind the record.
pub proof fn reader_goes_on_behind_the_record(stream: Seq<u8>, at: int)
    requires
        0 <= at <= stream.len(),
        record_at(stream, at) is Some,
    ensures
        ({
            let len = record_at(stream, at)->0.header.len as int;
            let next = next_position(stream, at, len);
            &&& at + 32 + len <= next <= stream.len()
            &&& next < at + 32 + len + 8
            &&& next < stream.len() ==> (next - at) % 8 == 0
            &&& record_at(stream, at)->0.payload == stream.subrange(at + 32, at + 32 + len)
        }),
{
    let len = record_at(stream, at)->0.header.len as int;
    crate::vmx::events::aligned_is_the_next_multiple(32 + len, 8);
}

} // verus!
