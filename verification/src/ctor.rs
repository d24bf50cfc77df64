//! The one-shot construction plan: a layout paired with a write function
//! that materializes the value once a storage strategy has picked an
//! address. The plan is consumed by a successful emplacement; a container
//! that rejects it hands it back untouched so the caller can retry.

use vstd::prelude::*;
use crate::fit::aligned;
use crate::layout::Layout;

verus! {

/// A deferred plan to construct a value of type `T` at an address a storage
/// container has yet to choose. The write function carries the producer and
/// everything it captured; it may assume the address it is handed is aligned
/// for the plan's layout, with `layout.size` bytes behind it.
#[verifier::reject_recursive_types(T)]
pub struct Ctor<T, F> where F: FnOnce(usize) -> T {
    layout: Layout,
    write: F,
}

impl<T, F> Ctor<T, F> where F: FnOnce(usize) -> T {
    /// The storage requirement this plan announces.
    pub closed spec fn spec_layout(self) -> Layout {
        self.layout
    }

    /// The write function this plan will run.
    pub closed spec fn spec_write(self) -> F {
        self.write
    }

    /// A plan is well formed when its layout is and its write function is
    /// callable on every suitably aligned address.
    pub open spec fn wf(self) -> bool {
        &&& self.spec_layout().wf()
        &&& forall|a: usize|
            aligned(a as nat, self.spec_layout().align as nat) ==> call_requires(
                self.spec_write(),
                (a,),
            )
    }

    /// Couples a layout with the write function that will honour it.
    pub fn new(layout: Layout, write: F) -> (c: Ctor<T, F>)
        requires
            layout.wf(),
            forall|a: usize| aligned(a as nat, layout.align as nat) ==> call_requires(write, (a,)),
        ensures
            c.wf(),
            c.spec_layout() == layout,
            c.spec_write() == write,
    {
        Ctor { layout, write }
    }

    /// The pre-computed requirement, so a container can test fit before
    /// committing.
    pub fn layout(&self) -> (l: Layout)
        ensures
            l == self.spec_layout(),
    {
        self.layout
    }

    /// Runs the plan at `addr`. This is the committing primitive: the caller
    /// must already have validated that `addr` is aligned and has the plan's
    /// size behind it — validation is the storage container's job, not the
    /// plan's.
    pub fn emplace(self, addr: usize) -> (t: T)
        requires
            self.wf(),
            aligned(addr as nat, self.spec_layout().align as nat),
        ensures
            call_ensures(self.spec_write(), (addr,), t),
    {
        let Ctor { layout: _, write } = self;
        write(addr)
    }
}

} // verus!
