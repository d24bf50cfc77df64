//! The fallback policy that ties the two storage strategies together: try
//! the caller's buffer first, and when it rejects, fall back to the heap,
//! which never rejects for fit. Storage choice is invisible to the placed
//! computation — whichever container ends up holding it, the value placed
//! and every step it takes are the same.
//!
//! A buffer rejection is silent and complete, whatever its cause — too
//! little room, a hostile alignment, or no capacity left once aligned — and
//! always routes to the heap; the zero-sized layouts the heap refuses to
//! allocate for are served there at a dangling address, so the policy never
//! fails short of address-space exhaustion.

use vstd::prelude::*;
use crate::buffer::{BufHandle, BufRegion};
use crate::ctor::Ctor;
use crate::drive::{eventual_value, Drive};
use crate::fit::accepts;
use crate::heap::{HeapArena, HeapExhausted, HeapHandle};
use crate::progress::Progress;

verus! {

/// An owning handle together with the record of which storage took the
/// value. The heap arm carries the caller's region back, untouched: the
/// rejection that led there had no effect on it.
pub enum Placed<T> {
    /// The value fit into the caller's buffer.
    Buffered(BufHandle<T>),
    /// The buffer rejected the plan and the heap took it; the region comes
    /// back to the caller unused.
    Heaped(HeapHandle<T>, BufRegion),
}

impl<T> Placed<T> {
    /// The value the handle owns, wherever it was placed.
    pub open spec fn value(self) -> T {
        match self {
            Placed::Buffered(h) => h.value(),
            Placed::Heaped(h, _) => h.value(),
        }
    }

    /// The address the value was placed at.
    pub open spec fn addr(self) -> nat {
        match self {
            Placed::Buffered(h) => h.addr(),
            Placed::Heaped(h, _) => h.addr(),
        }
    }

    /// The region the caller offered, wherever it ended up.
    pub open spec fn region(self) -> BufRegion {
        match self {
            Placed::Buffered(h) => h.region(),
            Placed::Heaped(_, r) => r,
        }
    }

    /// Whether the handle is backed by the heap arena rather than the
    /// caller's buffer.
    pub open spec fn on_heap(self) -> bool {
        self matches Placed::Heaped(_, _)
    }

    /// The well-formedness of whichever handle is inside.
    pub open spec fn wf(self) -> bool {
        match self {
            Placed::Buffered(h) => h.wf(),
            Placed::Heaped(h, r) => h.wf() && r.wf(),
        }
    }

    /// Destroys the placed value — buffer-backed: destructor only;
    /// heap-backed: destructor, then the free — and returns the caller's
    /// region for reuse either way.
    pub fn destroy(self, arena: &mut HeapArena) -> (r: BufRegion)
        ensures
            r == self.region(),
            final(arena).spec_next() == old(arena).spec_next(),
            final(arena).live() == match self {
                Placed::Buffered(_) => old(arena).live(),
                Placed::Heaped(h, _) => if h.layout().size == 0 {
                    old(arena).live()
                } else {
                    old(arena).live().remove(h.addr())
                },
            },
            old(arena).wf() ==> final(arena).wf(),
    {
        match self {
            Placed::Buffered(h) => h.destroy(),
            Placed::Heaped(h, region) => {
                h.destroy(arena);
                region
            },
        }
    }
}

impl<T: Drive> Placed<T> {
    /// Advances the placed computation by one step, in place, whichever
    /// storage holds it.
    pub fn drive(&mut self) -> (p: Progress<T::Output>)
        ensures
            p == old(self).value().step_out(),
            final(self).value() == old(self).value().step_to(),
            final(self).addr() == old(self).addr(),
            final(self).region() == old(self).region(),
            final(self).on_heap() == old(self).on_heap(),
            old(self).wf() ==> final(self).wf(),
    {
        match self {
            Placed::Buffered(h) => h.drive(),
            Placed::Heaped(h, _) => h.drive(),
        }
    }

    /// Drives the placed computation until it reports ready and returns the
    /// finished value: the drive-to-completion semantics of the handle. The
    /// result is a function of the placed value alone.
    #[verifier::loop_isolation(false)]
    pub fn drive_to_ready(&mut self) -> (v: T::Output)
        ensures
            v == eventual_value(old(self).value()),
            final(self).addr() == old(self).addr(),
            final(self).region() == old(self).region(),
            final(self).on_heap() == old(self).on_heap(),
            old(self).wf() ==> final(self).wf(),
    {
        let ghost orig = *self;
        loop
            invariant
                eventual_value(self.value()) == eventual_value(orig.value()),
                self.addr() == orig.addr(),
                self.region() == orig.region(),
                self.on_heap() == orig.on_heap(),
                orig.wf() ==> self.wf(),
            decreases self.value().fuel(),
        {
            proof {
                self.value().lemma_fuel_decreases();
            }
            let ghost before = self.value();
            match self.drive() {
                Progress::Ready(v) => {
                    return v;
                },
                Progress::Pending => {
                    proof {
                        assert(eventual_value(before) == eventual_value(before.step_to()));
                    }
                },
            }
        }
    }
}

/// The canonical two-tier policy: offer the plan to the caller's buffer,
/// and on rejection hand it — intact — to the heap arena. The buffer takes
/// it exactly when it fits there; the heap takes everything else, short of
/// address-space exhaustion, which is the only failure and is fatal.
pub fn emplace_with_fallback<T, F: FnOnce(usize) -> T>(
    region: BufRegion,
    arena: &mut HeapArena,
    c: Ctor<T, F>,
) -> (r: Result<Placed<T>, HeapExhausted>)
    requires
        region.wf(),
        old(arena).wf(),
        c.wf(),
    ensures
        final(arena).wf(),
        r is Ok <==> accepts(region.spec_base(), region.spec_len(), c.spec_layout()) || old(
            arena,
        ).can_alloc(c.spec_layout()),
        r matches Ok(p) ==> {
            &&& p.wf()
            &&& p.region() == region
            &&& call_ensures(c.spec_write(), (p.addr() as usize,), p.value())
            &&& p.on_heap() == !accepts(region.spec_base(), region.spec_len(), c.spec_layout())
        },
        accepts(region.spec_base(), region.spec_len(), c.spec_layout()) ==> *final(arena) == *old(
            arena,
        ),
        r is Err ==> *final(arena) == *old(arena),
{
    match region.try_emplace(c) {
        Ok(h) => Ok(Placed::Buffered(h)),
        Err(back) => match arena.emplace(back.ctor) {
            Ok(h) => Ok(Placed::Heaped(h, back.region)),
            Err(e) => Err(e),
        },
    }
}

/// Fallback completeness, value half: a deterministic plan constructs the
/// same value whichever container commits it, so storage choice never
/// changes what was placed. The hypothesis says the plan's write function
/// admits only one result per address, and always the planned one; the two
/// emplacements may then have happened at any two addresses.
pub proof fn lemma_storage_choice_irrelevant<T, F: FnOnce(usize) -> T>(
    f: F,
    planned: T,
    a1: usize,
    v1: T,
    a2: usize,
    v2: T,
)
    requires
        forall|a: usize, v: T| call_ensures(f, (a,), v) ==> v == planned,
        call_ensures(f, (a1,), v1),
        call_ensures(f, (a2,), v2),
    ensures
        v1 == planned,
        v2 == planned,
        v1 == v2,
{
}

/// Fallback completeness, drive half: two placed handles holding the same
/// value report the same step and move to the same value, wherever each is
/// stored — the driven result is a function of the value alone.
pub proof fn lemma_driven_step_independent<T: Drive>(x: Placed<T>, y: Placed<T>)
    requires
        x.value() == y.value(),
    ensures
        x.value().step_out() == y.value().step_out(),
        x.value().step_to() == y.value().step_to(),
        eventual_value(x.value()) == eventual_value(y.value()),
{
}

} // verus!
