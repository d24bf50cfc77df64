//! The heap-backed storage strategy: a model of the dynamic allocator as a
//! bump arena over the address space. Unlike a buffer it cannot reject a
//! plan for want of fit — it carves out exactly the layout the plan asks for
//! — and fails only when the address space itself is exhausted, which the
//! caller must treat as fatal, not as a rejection to retry.
//!
//! A zero-sized layout is special-cased: allocating zero bytes is not a
//! meaningful operation, so such a plan is routed to a dangling, aligned,
//! never-dereferenced address and the arena is left untouched.

use vstd::prelude::*;
use crate::ctor::Ctor;
use crate::drive::Drive;
use crate::fit::{aligned, spec_align_up};
use crate::layout::Layout;
use crate::progress::Progress;

verus! {

/// The allocator model: addresses below `next` have been handed out, and
/// `live` records the start address of every allocation not yet freed.
pub struct HeapArena {
    next: usize,
    live: Ghost<Set<nat>>,
}

impl HeapArena {
    /// The lowest address the arena has not handed out yet.
    pub closed spec fn spec_next(self) -> nat {
        self.next as nat
    }

    /// The start addresses of the allocations still live.
    pub closed spec fn live(self) -> Set<nat> {
        self.live@
    }

    /// The arena's invariant: address zero is never handed out, and every
    /// live allocation starts below the high-water mark.
    pub open spec fn wf(self) -> bool {
        &&& self.spec_next() >= 1
        &&& forall|a: nat| self.live().contains(a) ==> a < self.spec_next()
    }

    /// Whether the arena can still serve a layout: either nothing need be
    /// allocated, or the aligned cut ends inside the address space.
    pub open spec fn can_alloc(self, l: Layout) -> bool {
        l.size == 0 || spec_align_up(self.spec_next(), l.align as nat) + l.size <= usize::MAX
    }

    /// A fresh arena: nothing handed out, nothing live.
    pub fn new() -> (a: HeapArena)
        ensures
            a.wf(),
            a.spec_next() == 1,
            a.live() == Set::<nat>::empty(),
    {
        HeapArena { next: 1, live: Ghost(Set::empty()) }
    }

    /// Places a plan in fresh heap storage. Never rejects for fit: it fails
    /// exactly when the address space cannot serve the layout, and that
    /// failure is final — the plan is gone, as an aborted process keeps
    /// nothing. A zero-sized plan is served at a dangling aligned address
    /// without allocating.
    pub fn emplace<T, F: FnOnce(usize) -> T>(&mut self, c: Ctor<T, F>) -> (r: Result<
        HeapHandle<T>,
        HeapExhausted,
    >)
        requires
            old(self).wf(),
            c.wf(),
        ensures
            final(self).wf(),
            r is Ok <==> old(self).can_alloc(c.spec_layout()),
            r is Err ==> *final(self) == *old(self),
            r matches Ok(h) ==> {
                &&& h.wf()
                &&& h.layout() == c.spec_layout()
                &&& call_ensures(c.spec_write(), (h.addr() as usize,), h.value())
                &&& if c.spec_layout().size == 0 {
                    h.addr() == c.spec_layout().align && *final(self) == *old(self)
                } else {
                    &&& h.addr() == spec_align_up(old(self).spec_next(), c.spec_layout().align as nat)
                    &&& !old(self).live().contains(h.addr())
                    &&& final(self).live() == old(self).live().insert(h.addr())
                    &&& final(self).spec_next() == h.addr() + c.spec_layout().size
                }
            },
    {
        let l = c.layout();
        proof {
            crate::layout::lemma_pow2_pos(l.align as nat);
        }
        if l.size == 0 {
            // The dangling path: an alignment is itself aligned, and no
            // byte behind the address is ever touched.
            proof {
                vstd::arithmetic::div_mod::lemma_mod_multiples_basic(1, l.align as int);
                assert(l.align as int * 1 == l.align as int);
            }
            let value = c.emplace(l.align);
            return Ok(HeapHandle { value, addr: l.align, layout: l });
        }
        proof {
            crate::fit::lemma_align_up(self.spec_next(), l.align as nat);
        }
        match crate::fit::align_up(self.next, l.align) {
            None => Err(HeapExhausted {}),
            Some(slot) => {
                if l.size <= usize::MAX - slot {
                    let value = c.emplace(slot);
                    self.next = slot + l.size;
                    proof {
                        self.live@ = self.live@.insert(slot as nat);
                        assert forall|a: nat| self.live().contains(a) implies a
                            < self.spec_next() by {
                            if a != slot as nat {
                                assert(old(self).live().contains(a));
                            }
                        }
                    }
                    Ok(HeapHandle { value, addr: slot, layout: l })
                } else {
                    Err(HeapExhausted {})
                }
            },
        }
    }

    /// Returns an allocation to the model ledger. Only `HeapHandle::destroy`
    /// calls this, strictly after the value's destructor has run.
    fn release(&mut self, addr: usize)
        ensures
            final(self).spec_next() == old(self).spec_next(),
            final(self).live() == old(self).live().remove(addr as nat),
            old(self).wf() ==> final(self).wf(),
    {
        proof {
            self.live@ = self.live@.remove(addr as nat);
        }
    }
}

/// The fatal outcome of heap placement: the allocator itself has nothing
/// left. Not a rejection — there is no storage to retry against.
#[derive(Clone, Copy, PartialEq, Eq, Structural, Debug)]
pub struct HeapExhausted {}

/// The owning handle a heap emplacement returns. Unlike a buffer-backed
/// handle it owns its backing memory: destroying it first runs the value's
/// destructor, then frees the allocation under the very size and alignment
/// it was carved out with.
///
/// As with the buffer-backed handle, the value's address never changes while
/// the handle lives, `drive` needs the live handle, and `destroy` consumes
/// it.
pub struct HeapHandle<T> {
    value: T,
    addr: usize,
    layout: Layout,
}

impl<T> HeapHandle<T> {
    /// The value the handle owns.
    pub closed spec fn value(self) -> T {
        self.value
    }

    /// The address the value was placed at.
    pub closed spec fn addr(self) -> nat {
        self.addr as nat
    }

    /// The layout the allocation was made with — kept on the handle so the
    /// free at the end of its life uses the identical pair.
    pub closed spec fn layout(self) -> Layout {
        self.layout
    }

    /// The handle's invariant: the address is aligned, nonzero, and the
    /// allocation behind it lies inside the address space.
    pub open spec fn wf(self) -> bool {
        &&& self.layout().wf()
        &&& self.addr() >= 1
        &&& aligned(self.addr(), self.layout().align as nat)
        &&& self.addr() + self.layout().size <= usize::MAX
    }

    /// The address the value was placed at.
    pub fn address(&self) -> (a: usize)
        ensures
            a as nat == self.addr(),
    {
        self.addr
    }

    /// Destroys the placed value, then frees its allocation: the destructor
    /// runs strictly before the memory goes back, and the free names the
    /// same arena and the same address the allocation was made with. A
    /// zero-sized placement took no memory, so none is returned.
    pub fn destroy(self, arena: &mut HeapArena)
        ensures
            final(arena).spec_next() == old(arena).spec_next(),
            final(arena).live() == if self.layout().size == 0 {
                old(arena).live()
            } else {
                old(arena).live().remove(self.addr())
            },
            old(arena).wf() ==> final(arena).wf(),
    {
        let HeapHandle { value, addr, layout } = self;
        crate::buffer::run_destructor(value);
        if layout.size > 0 {
            arena.release(addr);
        }
    }
}

impl<T: Drive> HeapHandle<T> {
    /// Advances the placed computation by one step, in place: the value
    /// steps exactly as it would anywhere else, and its address and layout
    /// do not move.
    pub fn drive(&mut self) -> (p: Progress<T::Output>)
        ensures
            p == old(self).value().step_out(),
            final(self).value() == old(self).value().step_to(),
            final(self).addr() == old(self).addr(),
            final(self).layout() == old(self).layout(),
            old(self).wf() ==> final(self).wf(),
    {
        self.value.drive()
    }
}

/// Single destruction, ledger half: one successful heap emplacement enters
/// its address into the ledger of live allocations exactly once, and the
/// destruction of its handle removes it exactly once, leaving the ledger as
/// it was. A second destruction cannot be written: the handle is consumed.
pub proof fn lemma_alloc_free_round_trip(before: Set<nat>, addr: nat)
    requires
        !before.contains(addr),
    ensures
        before.insert(addr).remove(addr) =~= before,
{
}

} // verus!
