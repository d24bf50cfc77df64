//! The layout resolver: from a description of a producer's declared result
//! type to the storage requirement of the value it will construct. Pure — no
//! storage is touched, no producer is run — and stable: the same description
//! always resolves to the same layout.

use vstd::prelude::*;
use crate::layout::{is_pow2, Layout};

verus! {

/// What a producer's signature declares about its result: the size and the
/// alignment of the value it will write. No value of that type need exist
/// for the description to be formed.
#[derive(Clone, Copy, PartialEq, Eq, Structural, Debug)]
pub struct ProducerDesc {
    pub result_size: usize,
    pub result_align: usize,
}

/// What `resolve` yields for a description, as a function of the
/// description alone.
pub open spec fn spec_resolve(d: ProducerDesc) -> Option<Layout> {
    if is_pow2(d.result_align as nat) {
        Some(Layout { size: d.result_size, align: d.result_align })
    } else {
        None
    }
}

/// Determines the layout a producer's result will require, accepting
/// exactly the descriptions whose alignment is a power of two. A zero size
/// is a valid layout; it is the storage strategies that special-case it.
pub fn resolve(d: &ProducerDesc) -> (r: Option<Layout>)
    ensures
        r == spec_resolve(*d),
        r matches Some(l) ==> l.wf() && l.size == d.result_size && l.align == d.result_align,
{
    Layout::new(d.result_size, d.result_align)
}

/// Layout stability: any two resolutions of the same description yield the
/// identical layout, so a layout computed once need never be recomputed.
pub proof fn lemma_resolve_stable(d: ProducerDesc, r1: Option<Layout>, r2: Option<Layout>)
    requires
        r1 == spec_resolve(d),
        r2 == spec_resolve(d),
    ensures
        r1 == r2,
{
}

} // verus!
