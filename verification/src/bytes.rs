//! Little-endian integers as byte sequences.

use vstd::prelude::*;

verus! {

/// `256^n`: how many values `n` bytes can hold.
pub open spec fn capacity(n: nat) -> nat
    decreases n,
{
    if n == 0 {
        1
    } else {
        256 * capacity((n - 1) as nat)
    }
}

/// The `n` low-order bytes of `value`, least significant first.
pub open spec fn le_bytes(value: nat, n: nat) -> Seq<u8>
    decreases n,
{
    if n == 0 {
        Seq::empty()
    } else {
        seq![(value % 256) as u8] + le_bytes(value / 256, (n - 1) as nat)
    }
}

/// The integer whose little-endian bytes these are.
pub open spec fn le_value(bytes: Seq<u8>) -> nat
    decreases bytes.len(),
{
    if bytes.len() == 0 {
        0
    } else {
        bytes[0] as nat + 256 * le_value(bytes.skip(1))
    }
}

/// `n` bytes encode to exactly `n` bytes.
pub proof fn le_bytes_len(value: nat, n: nat)
    ensures
        le_bytes(value, n).len() == n,
    decreases n,
{
    if n > 0 {
        le_bytes_len(value / 256, (n - 1) as nat);
    }
}

/// Decoding the little-endian bytes of a value that fits gives the value back.
pub proof fn le_round_trip(value: nat, n: nat)
    requires
        value < capacity(n),
    ensures
        le_value(le_bytes(value, n)) == value,
        le_bytes(value, n).len() == n,
    decreases n,
{
    le_bytes_len(value, n);
    if n > 0 {
        let rest = le_bytes(value / 256, (n - 1) as nat);
        le_round_trip(value / 256, (n - 1) as nat);
        assert(le_bytes(value, n).skip(1) =~= rest);
        assert(le_bytes(value, n)[0] == (value % 256) as u8);
    }
}

/// What `n` bytes decode to fits in `n` bytes, and encodes to those bytes.
pub proof fn le_value_round_trip(bytes: Seq<u8>)
    ensures
        le_value(bytes) < capacity(bytes.len()),
        le_bytes(le_value(bytes), bytes.len()) == bytes,
    decreases bytes.len(),
{
    if bytes.len() > 0 {
        let rest = bytes.skip(1);
        le_value_round_trip(rest);
        let v = le_value(bytes);
        assert(v == bytes[0] as nat + 256 * le_value(rest));
        assert(v % 256 == bytes[0] && v / 256 == le_value(rest));
        assert(le_bytes(v, bytes.len()) =~= seq![bytes[0]] + rest);
        assert(seq![bytes[0]] + rest =~= bytes);
    }
}

/// How many values two, four and eight bytes hold.
pub proof fn capacities()
    ensures
        capacity(1) == 0x100,
        capacity(2) == 0x1_0000,
        capacity(4) == 0x1_0000_0000,
        capacity(8) == 0x1_0000_0000_0000_0000,
{
    reveal_with_fuel(capacity, 9);
}

/// Append the `n` low-order bytes of `value`, least significant first.
pub fn push_le(out: &mut Vec<u8>, value: u64, n: usize)
    ensures
        final(out)@ == old(out)@ + le_bytes(value as nat, n as nat),
{
    let mut rest: u64 = value;
    let mut i: usize = 0;
    assert(out@ + le_bytes(rest as nat, n as nat) =~= old(out)@ + le_bytes(
        value as nat,
        n as nat,
    ));
    while i < n
        invariant
            i <= n,
            out@ + le_bytes(rest as nat, (n - i) as nat) == old(out)@ + le_bytes(
                value as nat,
                n as nat,
            ),
        decreases n - i,
    {
        let ghost before = out@;
        let ghost left = le_bytes(rest as nat, (n - i) as nat);
        let ghost less = le_bytes((rest / 256) as nat, (n - i - 1) as nat);
        assert(left == seq![(rest % 256) as u8] + less);
        out.push((rest % 256) as u8);
        assert(out@ + less =~= before + left);
        rest = rest / 256;
        i += 1;
    }
    assert(out@ + le_bytes(rest as nat, 0) =~= out@);
}

/// The integer in the `n` bytes at `at`.
pub fn read_le(bytes: &[u8], at: usize, n: usize) -> (r: u64)
    requires
        n <= 8,
        at + n <= bytes@.len(),
    ensures
        r == le_value(bytes@.subrange(at as int, at + n)),
{
    let ghost field = bytes@.subrange(at as int, at + n);
    let mut value: u64 = 0;
    let mut i: usize = n;
    assert(field.skip(n as int) =~= Seq::<u8>::empty());
    while i > 0
        invariant
            i <= n <= 8,
            at + n <= bytes.len(),
            field == bytes@.subrange(at as int, at + n),
            value == le_value(field.skip(i as int)),
        decreases i,
    {
        i -= 1;
        let ghost tail = field.skip(i as int);
        assert(tail.skip(1) =~= field.skip(i + 1));
        assert(tail[0] == bytes@[at + i]);
        proof {
            le_value_round_trip(tail);
            le_value_round_trip(field.skip(i + 1));
            capacities();
            lemma_capacity_monotonic(tail.len(), 8);
        }
        value = bytes[at + i] as u64 + 256 * value;
    }
    assert(field.skip(0) =~= field);
    value
}

proof fn lemma_capacity_monotonic(a: nat, b: nat)
    requires
        a <= b,
    ensures
        0 < capacity(a) <= capacity(b),
    decreases b,
{
    if a < b {
        lemma_capacity_monotonic(a, (b - 1) as nat);
    } else if b > 0 {
        lemma_capacity_monotonic((a - 1) as nat, (b - 1) as nat);
    }
}

} // verus!
