//! First-fit arithmetic: where inside a region of memory a layout can be
//! placed. Addresses are modelled as plain `usize` values; a region is the
//! half-open range `[base, base + len)`.

use vstd::prelude::*;
use vstd::arithmetic::div_mod::{
    lemma_fundamental_div_mod, lemma_mod_multiples_basic, lemma_mod_division_less_than_divisor,
};
use crate::layout::Layout;

verus! {

/// An address satisfies an alignment when it is a multiple of it.
pub open spec fn aligned(a: nat, align: nat) -> bool
    recommends
        align >= 1,
{
    a % align == 0
}

/// The smallest aligned address at or above `a`.
pub open spec fn spec_align_up(a: nat, align: nat) -> nat
    recommends
        align >= 1,
{
    if a % align == 0 {
        a
    } else {
        (a + align - a % align) as nat
    }
}

/// A slot fits a layout inside `[base, base + len)` when it starts in the
/// region, is aligned, and its `size` bytes end inside the region.
pub open spec fn fits(base: nat, len: nat, l: Layout, slot: nat) -> bool {
    &&& base <= slot
    &&& aligned(slot, l.align as nat)
    &&& slot + l.size <= base + len
}

/// The fit test a buffer applies: the first aligned slot leaves enough room.
pub open spec fn accepts(base: nat, len: nat, l: Layout) -> bool {
    spec_align_up(base, l.align as nat) + l.size <= base + len
}

/// `spec_align_up` is aligned and lies within one alignment above `a`.
pub proof fn lemma_align_up(a: nat, align: nat)
    requires
        align >= 1,
    ensures
        aligned(spec_align_up(a, align), align),
        a <= spec_align_up(a, align) < a + align,
{
    lemma_fundamental_div_mod(a as int, align as int);
    lemma_mod_division_less_than_divisor(a as int, align as int);
    let q = a as int / align as int;
    let rem = a as int % align as int;
    if rem == 0 {
        lemma_mod_multiples_basic(q, align as int);
    } else {
        assert(align * (q + 1) == align * q + align) by (nonlinear_arith);
        assert(spec_align_up(a, align) == align * (q + 1)) by {
            assert(a as int == align * q + rem);
        }
        lemma_mod_multiples_basic(q + 1, align as int);
    }
}

/// No aligned address lies strictly between `a` and `spec_align_up(a, align)`.
pub proof fn lemma_align_up_minimal(a: nat, align: nat, s: nat)
    requires
        align >= 1,
        s >= a,
        aligned(s, align),
    ensures
        s >= spec_align_up(a, align),
{
    lemma_fundamental_div_mod(a as int, align as int);
    lemma_fundamental_div_mod(s as int, align as int);
    lemma_mod_division_less_than_divisor(a as int, align as int);
    let q = a as int / align as int;
    let rem = a as int % align as int;
    let k = s as int / align as int;
    if rem != 0 {
        assert(s as int == align * k);
        assert(align * k > align * q) by {
            assert(s >= a > a - rem);
            assert(a as int - rem == align * q);
        }
        assert(k > q) by (nonlinear_arith)
            requires
                align * k > align * q,
                align >= 1,
        ;
        assert(align * k >= align * (q + 1)) by (nonlinear_arith)
            requires
                k >= q + 1,
                align >= 1,
        ;
        assert(align * (q + 1) == align * q + align) by (nonlinear_arith);
        assert(spec_align_up(a, align) == align * (q + 1)) by {
            assert(a as int == align * q + rem);
        }
    }
}

/// The smallest aligned address at or above `a`, or `None` when that address
/// does not fit in a `usize`.
pub fn align_up(a: usize, align: usize) -> (r: Option<usize>)
    requires
        align >= 1,
    ensures
        r matches Some(v) ==> v as nat == spec_align_up(a as nat, align as nat),
        r is None ==> spec_align_up(a as nat, align as nat) > usize::MAX,
{
    let rem = a % align;
    if rem == 0 {
        Some(a)
    } else {
        let pad = align - rem;
        if a <= usize::MAX - pad {
            Some(a + pad)
        } else {
            None
        }
    }
}

/// The slot the first-fit rule picks inside `[base, base + len)`: the lowest
/// aligned address of the region, provided `size` bytes still fit behind it.
/// Returns `None` exactly when the region rejects the layout.
pub fn fit_slot(base: usize, len: usize, l: Layout) -> (r: Option<usize>)
    requires
        l.wf(),
        base + len <= usize::MAX,
    ensures
        r is Some <==> accepts(base as nat, len as nat, l),
        r matches Some(s) ==> s as nat == spec_align_up(base as nat, l.align as nat) && fits(
            base as nat,
            len as nat,
            l,
            s as nat,
        ),
{
    proof {
        crate::layout::lemma_pow2_pos(l.align as nat);
        lemma_align_up(base as nat, l.align as nat);
    }
    let end = base + len;
    match align_up(base, l.align) {
        None => None,
        Some(slot) => {
            if l.size <= end && slot <= end - l.size {
                Some(slot)
            } else {
                None
            }
        },
    }
}

/// Fit correctness: a region accepts a layout exactly when some aligned slot
/// inside it leaves room for the layout's size. The slot the first-fit rule
/// picks is the least such slot, so it exists whenever any slot does.
pub proof fn lemma_fit_correctness(base: nat, len: nat, l: Layout)
    requires
        l.wf(),
    ensures
        accepts(base, len, l) <==> exists|s: nat| fits(base, len, l, s),
{
    crate::layout::lemma_pow2_pos(l.align as nat);
    let align = l.align as nat;
    lemma_align_up(base, align);
    if accepts(base, len, l) {
        assert(fits(base, len, l, spec_align_up(base, align)));
    }
    if exists|s: nat| fits(base, len, l, s) {
        let s = choose|s: nat| fits(base, len, l, s);
        lemma_align_up_minimal(base, align, s);
    }
}

/// The aligned-base corollary: a buffer that starts on the layout's
/// alignment accepts it exactly when the size alone fits the length.
pub proof fn lemma_fit_aligned_base(base: nat, len: nat, l: Layout)
    requires
        l.wf(),
        aligned(base, l.align as nat),
    ensures
        accepts(base, len, l) <==> l.size <= len,
{
    crate::layout::lemma_pow2_pos(l.align as nat);
}

} // verus!
