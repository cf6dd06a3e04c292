//! 256-bit interrupt vector registers (ISR, TMR, IRR), as eight 32-bit words.

use vstd::prelude::*;

verus! {

/// Whether the bit of `vector` is set.
pub open spec fn has_vector(words: Seq<u32>, vector: u8) -> bool {
    (words[vector as int / 32] >> ((vector % 32) as u32)) & 1u32 != 0
}

/// The register with the bit of `vector` set.
pub open spec fn with_vector(words: Seq<u32>, vector: u8) -> Seq<u32> {
    words.update(
        vector as int / 32,
        words[vector as int / 32] | (1u32 << ((vector % 32) as u32)),
    )
}

/// The register with the bit of `vector` clear.
pub open spec fn without_vector(words: Seq<u32>, vector: u8) -> Seq<u32> {
    words.update(
        vector as int / 32,
        words[vector as int / 32] & !(1u32 << ((vector % 32) as u32)),
    )
}

/// The highest vector below `limit` whose bit is set.
pub open spec fn highest_below(words: Seq<u32>, limit: nat) -> Option<u8>
    decreases limit,
{
    if limit == 0 {
        None
    } else if has_vector(words, (limit - 1) as u8) {
        Some((limit - 1) as u8)
    } else {
        highest_below(words, (limit - 1) as nat)
    }
}

/// The highest vector whose bit is set: the one with the highest priority.
pub open spec fn highest(words: Seq<u32>) -> Option<u8> {
    highest_below(words, 256)
}

/// `with_vector` on the register itself.
pub open spec fn raised(words: [u32; 8], vector: u8) -> [u32; 8] {
    vstd::array::spec_array_update(
        words,
        vector as int / 32,
        words@[vector as int / 32] | (1u32 << ((vector % 32) as u32)),
    )
}

/// `without_vector` on the register itself.
pub open spec fn lowered(words: [u32; 8], vector: u8) -> [u32; 8] {
    vstd::array::spec_array_update(
        words,
        vector as int / 32,
        words@[vector as int / 32] & !(1u32 << ((vector % 32) as u32)),
    )
}

/// Set the bit of `vector`.
pub fn set_vector(words: &mut [u32; 8], vector: u8)
    ensures
        *final(words) == raised(*old(words), vector),
        final(words)@ == with_vector(old(words)@, vector),
{
    let index: usize = (vector / 32) as usize;
    let bit: u32 = 1u32 << ((vector % 32) as u32);
    words[index] = words[index] | bit;
}

/// Clear the bit of `vector`.
pub fn clear_vector(words: &mut [u32; 8], vector: u8)
    ensures
        *final(words) == lowered(*old(words), vector),
        final(words)@ == without_vector(old(words)@, vector),
{
    let index: usize = (vector / 32) as usize;
    let bit: u32 = 1u32 << ((vector % 32) as u32);
    words[index] = words[index] & !bit;
}

/// Find the highest vector whose bit is set.
pub fn highest_vector(words: &[u32; 8]) -> (r: Option<u8>)
    ensures
        r == highest(words@),
{
    let mut i: usize = 8;
    while i > 0
        invariant
            i <= 8,
            forall|j: int| i <= j < 8 ==> #[trigger] words@[j] == 0,
        decreases i,
    {
        i -= 1;
        let word: u32 = words[i];
        if word != 0 {
            proof {
                vstd::std_specs::bits::axiom_u32_leading_zeros(word);
            }
            let bit: u32 = 31 - word.leading_zeros();
            let vector: u8 = (i * 32 + bit as usize) as u8;
            proof {
                assert forall|w: u8| vector < w implies !#[trigger] has_vector(words@, w) by {
                    if w / 32 == i {
                        assert((word >> ((w % 32) as u32)) & 1u32 == 0u32);
                    } else {
                        lemma_zero_word((w % 32) as u32);
                    }
                }
                lemma_highest_is(words@, vector, 256);
            }
            return Some(vector);
        }
    }
    proof {
        assert forall|w: u8| !#[trigger] has_vector(words@, w) by {
            lemma_zero_word((w % 32) as u32);
        }
        lemma_none_below(words@, 256);
    }
    None
}

proof fn lemma_zero_word(b: u32)
    by (bit_vector)
    requires
        b < 32,
    ensures
        (0u32 >> b) & 1u32 == 0,
{
}

proof fn lemma_bits(x: u32, b: u32, c: u32)
    by (bit_vector)
    requires
        b < 32,
        c < 32,
    ensures
        ((x | (1u32 << b)) >> b) & 1u32 != 0,
        c != b ==> ((x | (1u32 << b)) >> c) & 1u32 == (x >> c) & 1u32,
        ((x & !(1u32 << b)) >> b) & 1u32 == 0,
        c != b ==> ((x & !(1u32 << b)) >> c) & 1u32 == (x >> c) & 1u32,
        (x >> b) & 1u32 != 0 ==> (x & !(1u32 << b)) | (1u32 << b) == x,
        (x >> b) & 1u32 == 0 ==> (x | (1u32 << b)) & !(1u32 << b) == x,
{
}

/// What it takes to be the highest vector.
pub proof fn lemma_highest_is(words: Seq<u32>, vector: u8, limit: nat)
    requires
        vector < limit <= 256,
        has_vector(words, vector),
        forall|w: u8| vector < w < limit ==> !#[trigger] has_vector(words, w),
    ensures
        highest_below(words, limit) == Some(vector),
    decreases limit,
{
    if limit - 1 > vector {
        lemma_highest_is(words, vector, (limit - 1) as nat);
    }
}

/// What it takes for there to be none.
pub proof fn lemma_none_below(words: Seq<u32>, limit: nat)
    requires
        limit <= 256,
        forall|w: u8| w < limit ==> !#[trigger] has_vector(words, w),
    ensures
        highest_below(words, limit) is None,
    decreases limit,
{
    if limit > 0 {
        lemma_none_below(words, (limit - 1) as nat);
    }
}

/// The highest vector is set, and no higher one is.
pub proof fn highest_is_set_and_maximal(words: Seq<u32>, other: u8)
    ensures
        highest(words) is Some ==> has_vector(words, highest(words)->0),
        has_vector(words, other) ==> highest(words) is Some && other <= highest(words)->0,
{
    lemma_highest_below(words, other, 256);
}

proof fn lemma_highest_below(words: Seq<u32>, other: u8, limit: nat)
    requires
        limit <= 256,
    ensures
        highest_below(words, limit) is Some ==> highest_below(words, limit)->0 < limit
            && has_vector(words, highest_below(words, limit)->0),
        has_vector(words, other) && other < limit ==> highest_below(words, limit) is Some && other
            <= highest_below(words, limit)->0,
    decreases limit,
{
    if limit > 0 {
        lemma_highest_below(words, other, (limit - 1) as nat);
    }
}

/// Setting or clearing one vector's bit does that, and nothing to any other.
pub proof fn vector_bits_are_independent(words: Seq<u32>, vector: u8, other: u8)
    requires
        words.len() == 8,
    ensures
        has_vector(with_vector(words, vector), vector),
        !has_vector(without_vector(words, vector), vector),
        other != vector ==> has_vector(with_vector(words, vector), other) == has_vector(
            words,
            other,
        ),
        other != vector ==> has_vector(without_vector(words, vector), other) == has_vector(
            words,
            other,
        ),
{
    let x = words[vector as int / 32];
    lemma_bits(x, (vector % 32) as u32, (other % 32) as u32);
}

/// Clearing a bit that setting turned on, or setting one that clearing turned
/// off, leads back.
pub proof fn vector_bits_are_undone(words: Seq<u32>, vector: u8)
    requires
        words.len() == 8,
    ensures
        !has_vector(words, vector) ==> without_vector(with_vector(words, vector), vector) == words,
        has_vector(words, vector) ==> with_vector(without_vector(words, vector), vector) == words,
{
    let x = words[vector as int / 32];
    lemma_bits(x, (vector % 32) as u32, (vector % 32) as u32);
    if has_vector(words, vector) {
        assert(with_vector(without_vector(words, vector), vector) =~= words);
    } else {
        assert(without_vector(with_vector(words, vector), vector) =~= words);
    }
}

/// A vector's bit: vectors 0 to 31 are the bits of the first word, lowest first,
/// the next 32 those of the second word, and so on.
pub proof fn vectors_fill_the_words_in_order(words: Seq<u32>, k: u8, b: u8)
    requires
        k < 8,
        b < 32,
    ensures
        has_vector(words, (32 * k + b) as u8) == ((words[k as int] >> (b as u32)) & 1u32 == 1),
{
    let v = (32 * k + b) as u8;
    assert(v as int / 32 == k && v % 32 == b);
    let word = words[k as int];
    let c = b as u32;
    assert((word >> c) & 1 == 0 || (word >> c) & 1 == 1) by (bit_vector);
}

} // verus!
