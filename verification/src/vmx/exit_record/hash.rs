//! Hash utilities for deterministic state hashing.
//!
//! Device state and guest memory are described by byte streams that a 64-bit
//! digest is taken of. The digest itself is disabled here: every digest that the
//! library takes is 0. A host with an XXH64 of its own takes the streams out
//! (`state_stream`, `exit_memory_stream`), digests them, and hands the memory
//! digest back (`finalize_exit_record_with`).

use vstd::prelude::*;

use crate::bytes::push_le;

verus! {

/// The digest that the library takes of a byte stream. It is disabled: 0 for
/// every stream.
pub open spec fn digest(stream: Seq<u8>) -> u64 {
    0
}

/// `stream` with an 8-bit value appended.
pub open spec fn fed_u8(stream: Seq<u8>, value: u8) -> Seq<u8> {
    stream.push(value)
}

/// `stream` with a 16-bit value appended, least significant byte first.
pub open spec fn fed_u16(stream: Seq<u8>, value: u16) -> Seq<u8> {
    stream + crate::bytes::le_bytes(value as nat, 2)
}

/// `stream` with a 32-bit value appended, least significant byte first.
pub open spec fn fed_u32(stream: Seq<u8>, value: u32) -> Seq<u8> {
    stream + crate::bytes::le_bytes(value as nat, 4)
}

/// `stream` with a 64-bit value appended, least significant byte first.
pub open spec fn fed_u64(stream: Seq<u8>, value: u64) -> Seq<u8> {
    stream + crate::bytes::le_bytes(value as nat, 8)
}

/// `stream` with each 32-bit word appended in order.
pub open spec fn fed_u32s(stream: Seq<u8>, values: Seq<u32>) -> Seq<u8>
    decreases values.len(),
{
    if values.len() == 0 {
        stream
    } else {
        fed_u32(fed_u32s(stream, values.drop_last()), values.last())
    }
}

/// `stream` with each 64-bit word appended in order.
pub open spec fn fed_u64s(stream: Seq<u8>, values: Seq<u64>) -> Seq<u8>
    decreases values.len(),
{
    if values.len() == 0 {
        stream
    } else {
        fed_u64(fed_u64s(stream, values.drop_last()), values.last())
    }
}

/// Trait for computing deterministic 64-bit state hashes.
///
/// Implemented by device state structs to enable logging of their state
/// as compact hash values for non-determinism diagnosis.
pub trait StateHash {
    /// `stream` with this state's bytes appended.
    spec fn fed(&self, stream: Seq<u8>) -> Seq<u8>;

    /// Append this state's bytes to a hasher's stream.
    fn feed(&self, hasher: &mut Xxh64Hasher)
        ensures
            final(hasher)@ == self.fed(old(hasher)@),
    ;

    /// The bytes that a hash of the current state is taken of, for a host that
    /// digests them.
    fn state_stream(&self) -> (r: Vec<u8>)
        ensures
            r@ == self.fed(Seq::empty()),
    {
        let mut h = Xxh64Hasher::new();
        self.feed(&mut h);
        h.into_stream()
    }

    /// Compute a 64-bit hash of the current state. Hashing is disabled: it is 0.
    fn state_hash(&self) -> (r: u64)
        ensures
            r == digest(self.fed(Seq::empty())),
    {
        let mut h = Xxh64Hasher::new();
        self.feed(&mut h);
        h.finish()
    }
}

/// Collects the stream that a digest is taken of, in the order in which it is
/// written. The digest itself is disabled: `finish` gives 0.
pub struct Xxh64Hasher {
    stream: Vec<u8>,
}

impl View for Xxh64Hasher {
    type V = Seq<u8>;

    closed spec fn view(&self) -> Seq<u8> {
        self.stream@
    }
}

impl Xxh64Hasher {
    /// Create a new hasher.
    pub fn new() -> (h: Self)
        ensures
            h@ == Seq::<u8>::empty(),
    {
        Xxh64Hasher { stream: Vec::new() }
    }

    /// Hash a single byte.
    pub fn write_u8(&mut self, byte: u8)
        ensures
            final(self)@ == fed_u8(old(self)@, byte),
    {
        self.stream.push(byte);
    }

    /// Hash a u16 value (little-endian).
    pub fn write_u16(&mut self, val: u16)
        ensures
            final(self)@ == fed_u16(old(self)@, val),
    {
        push_le(&mut self.stream, val as u64, 2);
    }

    /// Hash a u32 value (little-endian).
    pub fn write_u32(&mut self, val: u32)
        ensures
            final(self)@ == fed_u32(old(self)@, val),
    {
        push_le(&mut self.stream, val as u64, 4);
    }

    /// Hash a u64 value (little-endian).
    pub fn write_u64(&mut self, val: u64)
        ensures
            final(self)@ == fed_u64(old(self)@, val),
    {
        push_le(&mut self.stream, val, 8);
    }

    /// Hash 32-bit words in order.
    pub fn write_u32s(&mut self, vals: &[u32])
        ensures
            final(self)@ == fed_u32s(old(self)@, vals@),
    {
        let mut i: usize = 0;
        while i < vals.len()
            invariant
                i <= vals@.len(),
                self@ == fed_u32s(old(self)@, vals@.take(i as int)),
            decreases vals@.len() - i,
        {
            self.write_u32(vals[i]);
            assert(vals@.take(i + 1).drop_last() =~= vals@.take(i as int));
            i += 1;
        }
        assert(vals@.take(i as int) =~= vals@);
    }

    /// Hash 64-bit words in order.
    pub fn write_u64s(&mut self, vals: &[u64])
        ensures
            final(self)@ == fed_u64s(old(self)@, vals@),
    {
        let mut i: usize = 0;
        while i < vals.len()
            invariant
                i <= vals@.len(),
                self@ == fed_u64s(old(self)@, vals@.take(i as int)),
            decreases vals@.len() - i,
        {
            self.write_u64(vals[i]);
            assert(vals@.take(i + 1).drop_last() =~= vals@.take(i as int));
            i += 1;
        }
        assert(vals@.take(i as int) =~= vals@);
    }

    /// Hash a byte slice.
    pub fn write_bytes(&mut self, bytes: &[u8])
        ensures
            final(self)@ == old(self)@ + bytes@,
    {
        self.stream.extend_from_slice(bytes);
        assert(self@ =~= old(self)@ + bytes@);
    }

    /// Finalize and return the hash value. Hashing is disabled: it is 0.
    pub fn finish(&self) -> (r: u64)
        ensures
            r == digest(self@),
            r == 0,
    {
        0
    }

    /// The bytes written so far, for a host that digests them.
    pub fn stream(&self) -> (r: &[u8])
        ensures
            r@ == self@,
    {
        self.stream.as_slice()
    }

    /// The bytes written, handed over.
    pub fn into_stream(self) -> (r: Vec<u8>)
        ensures
            r@ == self@,
    {
        self.stream
    }
}

impl Default for Xxh64Hasher {
    fn default() -> (h: Self)
        ensures
            h@ == Seq::<u8>::empty(),
    {
        Xxh64Hasher::new()
    }
}

/// Hash guest memory. Hashing is disabled: the hash is 0.
pub fn hash_guest_memory(memory: &[u8]) -> (r: u64)
    ensures
        r == digest(memory@),
        r == 0,
{
    let mut h = Xxh64Hasher::new();
    h.write_bytes(memory);
    assert(h@ =~= memory@);
    h.finish()
}

proof fn lemma_tail(s: Seq<u8>, t: Seq<u8>, x: Seq<u8>, y: Seq<u8>)
    requires
        s + x == t + y,
        x.len() == y.len(),
    ensures
        s == t,
        x == y,
{
    assert((s + x).len() == s.len() + x.len() && (t + y).len() == t.len() + y.len());
    assert(s.len() == t.len());
    assert forall|i: int| 0 <= i < s.len() implies s[i] == t[i] by {
        assert((s + x)[i] == s[i] && (t + y)[i] == t[i]);
    }
    assert forall|i: int| 0 <= i < x.len() implies x[i] == y[i] by {
        assert((s + x)[s.len() + i] == x[i] && (t + y)[s.len() + i] == y[i]);
    }
    assert(s =~= t && x =~= y);
}

/// What a value left at the end of a stream tells the value, and what stood before
/// it.
pub proof fn last_value_can_be_told(s: Seq<u8>, t: Seq<u8>)
    ensures
        forall|x: u8, y: u8| fed_u8(s, x) == fed_u8(t, y) ==> s == t && x == y,
        forall|x: u16, y: u16| fed_u16(s, x) == fed_u16(t, y) ==> s == t && x == y,
        forall|x: u32, y: u32| fed_u32(s, x) == fed_u32(t, y) ==> s == t && x == y,
        forall|x: u64, y: u64| fed_u64(s, x) == fed_u64(t, y) ==> s == t && x == y,
{
    crate::bytes::capacities();
    assert forall|x: u8, y: u8| fed_u8(s, x) == fed_u8(t, y) implies s == t && x == y by {
        assert(s.push(x) =~= s + seq![x] && t.push(y) =~= t + seq![y]);
        lemma_tail(s, t, seq![x], seq![y]);
        assert(seq![x][0] == seq![y][0]);
    }
    assert forall|x: u16, y: u16| fed_u16(s, x) == fed_u16(t, y) implies s == t && x == y by {
        crate::bytes::le_round_trip(x as nat, 2);
        crate::bytes::le_round_trip(y as nat, 2);
        lemma_tail(s, t, crate::bytes::le_bytes(x as nat, 2), crate::bytes::le_bytes(y as nat, 2));
    }
    assert forall|x: u32, y: u32| fed_u32(s, x) == fed_u32(t, y) implies s == t && x == y by {
        crate::bytes::le_round_trip(x as nat, 4);
        crate::bytes::le_round_trip(y as nat, 4);
        lemma_tail(s, t, crate::bytes::le_bytes(x as nat, 4), crate::bytes::le_bytes(y as nat, 4));
    }
    assert forall|x: u64, y: u64| fed_u64(s, x) == fed_u64(t, y) implies s == t && x == y by {
        crate::bytes::le_round_trip(x as nat, 8);
        crate::bytes::le_round_trip(y as nat, 8);
        lemma_tail(s, t, crate::bytes::le_bytes(x as nat, 8), crate::bytes::le_bytes(y as nat, 8));
    }
}

/// The same of 32-bit words.
pub proof fn last_words32_can_be_told(s: Seq<u8>, t: Seq<u8>, x: Seq<u32>, y: Seq<u32>)
    requires
        fed_u32s(s, x) == fed_u32s(t, y),
        x.len() == y.len(),
    ensures
        s == t,
        x == y,
    decreases x.len(),
{
    if x.len() > 0 {
        let u = fed_u32s(s, x.drop_last());
        let v = fed_u32s(t, y.drop_last());
        last_value_can_be_told(u, v);
        assert(fed_u32(u, x.last()) == fed_u32(v, y.last()));
        last_words32_can_be_told(s, t, x.drop_last(), y.drop_last());
        assert(x =~= x.drop_last().push(x.last()));
        assert(y =~= y.drop_last().push(y.last()));
    } else {
        assert(x =~= y);
    }
}

/// The same of 64-bit words.
pub proof fn last_words64_can_be_told(s: Seq<u8>, t: Seq<u8>, x: Seq<u64>, y: Seq<u64>)
    requires
        fed_u64s(s, x) == fed_u64s(t, y),
        x.len() == y.len(),
    ensures
        s == t,
        x == y,
    decreases x.len(),
{
    if x.len() > 0 {
        let u = fed_u64s(s, x.drop_last());
        let v = fed_u64s(t, y.drop_last());
        last_value_can_be_told(u, v);
        assert(fed_u64(u, x.last()) == fed_u64(v, y.last()));
        last_words64_can_be_told(s, t, x.drop_last(), y.drop_last());
        assert(x =~= x.drop_last().push(x.last()));
        assert(y =~= y.drop_last().push(y.last()));
    } else {
        assert(x =~= y);
    }
}

} // verus!
