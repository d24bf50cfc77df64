//! The storage requirement of a value: a size in bytes together with a
//! power-of-two alignment. A `Layout` is computed once per producer and is
//! never recomputed after construction has begun.

use vstd::prelude::*;

verus! {

/// True exactly of the powers of two (1, 2, 4, 8, ...).
pub open spec fn is_pow2(a: nat) -> bool
    decreases a,
{
    if a == 0 {
        false
    } else if a == 1 {
        true
    } else {
        a % 2 == 0 && is_pow2(a / 2)
    }
}

/// A power of two is at least one.
pub proof fn lemma_pow2_pos(a: nat)
    requires
        is_pow2(a),
    ensures
        a >= 1,
{
}

/// A size/alignment pair describing the storage a value needs.
#[derive(Clone, Copy, PartialEq, Eq, Structural, Debug)]
pub struct Layout {
    pub size: usize,
    pub align: usize,
}

impl Layout {
    /// A layout is well formed when its alignment is a power of two.
    pub open spec fn wf(self) -> bool {
        is_pow2(self.align as nat)
    }

    /// Builds a layout, accepting exactly the power-of-two alignments.
    pub fn new(size: usize, align: usize) -> (r: Option<Layout>)
        ensures
            r is Some <==> is_pow2(align as nat),
            r matches Some(l) ==> l == (Layout { size, align }) && l.wf(),
    {
        if is_power_of_two(align) {
            Some(Layout { size, align })
        } else {
            None
        }
    }
}

/// Decides `is_pow2` by stripping factors of two.
pub fn is_power_of_two(a: usize) -> (r: bool)
    ensures
        r == is_pow2(a as nat),
{
    let mut v: usize = a;
    if v == 0 {
        return false;
    }
    while v % 2 == 0
        invariant
            v >= 1,
            is_pow2(a as nat) == is_pow2(v as nat),
        decreases v,
    {
        v = v / 2;
    }
    v == 1
}

} // verus!
