//! MTRR (Memory Type Range Registers) emulation.
//!
//! Stores the guest's MTRR register values. The values are exposed back to the
//! guest but are not used to compute memory types.

use vstd::prelude::*;

use crate::vmx::exit_record::hash::{StateHash, Xxh64Hasher};

verus! {

/// Number of variable range MTRRs.
pub const MTRR_VAR_MAX: usize = 10;

/// MTRR (Memory Type Range Registers) state for guest emulation.
#[derive(Clone, Copy, Debug)]
pub struct MtrrState {
    /// MTRRdefType (0x2FF) - default memory type and enable bits.
    pub def_type: u64,
    /// Fixed-range MTRRs for 4K regions (0x268-0x26F).
    pub fixed_4k: [u64; 8],
    /// Fixed-range MTRRs for 16K regions (0x258-0x259).
    pub fixed_16k: [u64; 2],
    /// Fixed-range MTRR for 64K region (0x250).
    pub fixed_64k: u64,
    /// Variable-range MTRRs (base and mask pairs).
    pub var: [(u64, u64); MTRR_VAR_MAX],
}

/// The base and mask words of the variable ranges, in register order.
pub open spec fn var_words(var: Seq<(u64, u64)>) -> Seq<u64>
    decreases var.len(),
{
    if var.len() == 0 {
        Seq::empty()
    } else {
        var_words(var.drop_last()).push(var.last().0).push(var.last().1)
    }
}

impl MtrrState {
    /// Power-on state: default type write-back (0x6), MTRRs disabled, all ranges clear.
    pub open spec fn is_reset(&self) -> bool {
        &&& self.def_type == 6
        &&& self.fixed_64k == 0
        &&& forall|i: int| 0 <= i < 8 ==> #[trigger] self.fixed_4k@[i] == 0
        &&& forall|i: int| 0 <= i < 2 ==> #[trigger] self.fixed_16k@[i] == 0
        &&& forall|i: int| 0 <= i < MTRR_VAR_MAX ==> #[trigger] self.var@[i] == (0u64, 0u64)
    }
}

impl Default for MtrrState {
    fn default() -> (r: Self)
        ensures
            r.is_reset(),
    {
        MtrrState {
            def_type: 6,
            fixed_4k: [0u64;8],
            fixed_16k: [0u64;2],
            fixed_64k: 0,
            var: [(0u64, 0u64);MTRR_VAR_MAX],
        }
    }
}

impl StateHash for MtrrState {
    open spec fn fed(&self, stream: Seq<u8>) -> Seq<u8> {
        let s = crate::vmx::exit_record::hash::fed_u64(stream, self.def_type);
        let s = crate::vmx::exit_record::hash::fed_u64s(s, self.fixed_4k@);
        let s = crate::vmx::exit_record::hash::fed_u64s(s, self.fixed_16k@);
        let s = crate::vmx::exit_record::hash::fed_u64(s, self.fixed_64k);
        crate::vmx::exit_record::hash::fed_u64s(s, var_words(self.var@))
    }

    fn feed(&self, hasher: &mut Xxh64Hasher) {
        hasher.write_u64(self.def_type);
        hasher.write_u64s(self.fixed_4k.as_slice());
        hasher.write_u64s(self.fixed_16k.as_slice());
        hasher.write_u64(self.fixed_64k);
        let ghost s = hasher@;
        let mut i: usize = 0;
        while i < MTRR_VAR_MAX
            invariant
                i <= MTRR_VAR_MAX,
                hasher@ == crate::vmx::exit_record::hash::fed_u64s(
                    s,
                    var_words(self.var@.take(i as int)),
                ),
            decreases MTRR_VAR_MAX - i,
        {
            hasher.write_u64(self.var[i].0);
            hasher.write_u64(self.var[i].1);
            proof {
                let now = self.var@.take(i + 1);
                let then = var_words(self.var@.take(i as int));
                assert(now.drop_last() =~= self.var@.take(i as int));
                assert(var_words(now) == then.push(now.last().0).push(now.last().1));
                assert(var_words(now).drop_last() =~= then.push(now.last().0));
                assert(then.push(now.last().0).drop_last() =~= then);
                reveal_with_fuel(crate::vmx::exit_record::hash::fed_u64s, 3);
            }
            i += 1;
        }
        assert(self.var@.take(i as int) =~= self.var@);
    }
}

proof fn lemma_var_words(var: Seq<(u64, u64)>, i: int)
    requires
        0 <= i < var.len(),
    ensures
        var_words(var).len() == 2 * var.len(),
        var_words(var)[2 * i] == var[i].0,
        var_words(var)[2 * i + 1] == var[i].1,
    decreases var.len(),
{
    let rest = var.drop_last();
    if rest.len() > 0 {
        lemma_var_words(rest, if i < rest.len() {
            i
        } else {
            0
        });
    } else {
        assert(var_words(rest).len() == 0);
    }
}

/// Two sets of MTRRs with the same stream are the same.
pub proof fn hashed_stream_tells_mtrrs_apart(a: MtrrState, b: MtrrState, s: Seq<u8>, t: Seq<u8>)
    requires
        a.fed(s) == b.fed(t),
    ensures
        s == t,
        a.def_type == b.def_type,
        a.fixed_4k@ == b.fixed_4k@,
        a.fixed_16k@ == b.fixed_16k@,
        a.fixed_64k == b.fixed_64k,
        a.var@ == b.var@,
{
    let a0 = crate::vmx::exit_record::hash::fed_u64(s, a.def_type);
    let b0 = crate::vmx::exit_record::hash::fed_u64(t, b.def_type);
    let a1 = crate::vmx::exit_record::hash::fed_u64s(a0, a.fixed_4k@);
    let b1 = crate::vmx::exit_record::hash::fed_u64s(b0, b.fixed_4k@);
    let a2 = crate::vmx::exit_record::hash::fed_u64s(a1, a.fixed_16k@);
    let b2 = crate::vmx::exit_record::hash::fed_u64s(b1, b.fixed_16k@);
    let a3 = crate::vmx::exit_record::hash::fed_u64(a2, a.fixed_64k);
    let b3 = crate::vmx::exit_record::hash::fed_u64(b2, b.fixed_64k);
    lemma_var_words(a.var@, 0);
    lemma_var_words(b.var@, 0);
    crate::vmx::exit_record::hash::last_words64_can_be_told(
        a3,
        b3,
        var_words(a.var@),
        var_words(b.var@),
    );
    assert forall|i: int| 0 <= i < 10 implies a.var@[i] == b.var@[i] by {
        lemma_var_words(a.var@, i);
        lemma_var_words(b.var@, i);
    }
    assert(a.var@ =~= b.var@);
    crate::vmx::exit_record::hash::last_value_can_be_told(a2, b2);
    assert(a2 == b2 && a.fixed_64k == b.fixed_64k);
    crate::vmx::exit_record::hash::last_words64_can_be_told(a1, b1, a.fixed_16k@, b.fixed_16k@);
    crate::vmx::exit_record::hash::last_words64_can_be_told(a0, b0, a.fixed_4k@, b.fixed_4k@);
    crate::vmx::exit_record::hash::last_value_can_be_told(s, t);
    assert(s == t && a.def_type == b.def_type);
}

} // verus!
