//! The buffer-backed storage strategy: a caller-owned region of memory that
//! a plan may be placed into when it fits, and that is handed back untouched
//! when it does not.
//!
//! Ownership of the region moves into the handle that a successful
//! emplacement returns, and comes back only when that handle is destroyed:
//! while the placed value is alive nothing else can place into, reuse or
//! drop the region. The region never owns the memory it describes — it only
//! stands for the caller's buffer — so destroying a buffer-backed handle
//! runs the value's destructor and frees nothing.

use vstd::prelude::*;
use crate::ctor::Ctor;
use crate::drive::Drive;
use crate::fit::{accepts, fit_slot, fits, spec_align_up};
use crate::layout::Layout;
use crate::progress::Progress;

verus! {

/// A caller-owned region of memory: the address range `[base, base + len)`.
#[derive(Clone, Copy, PartialEq, Eq, Structural, Debug)]
pub struct BufRegion {
    base: usize,
    len: usize,
}

impl BufRegion {
    /// The first address of the region.
    pub closed spec fn spec_base(self) -> nat {
        self.base as nat
    }

    /// The region's length in bytes.
    pub closed spec fn spec_len(self) -> nat {
        self.len as nat
    }

    /// A region is well formed when its end does not wrap around the address
    /// space.
    pub open spec fn wf(self) -> bool {
        self.spec_base() + self.spec_len() <= usize::MAX
    }

    /// Describes the buffer starting at `base` with `len` bytes, rejecting
    /// exactly the ranges that would wrap past the end of the address space.
    pub fn new(base: usize, len: usize) -> (r: Option<BufRegion>)
        ensures
            r is Some <==> base + len <= usize::MAX,
            r matches Some(b) ==> b.wf() && b.spec_base() == base && b.spec_len() == len,
    {
        if len <= usize::MAX - base {
            Some(BufRegion { base, len })
        } else {
            None
        }
    }

    /// The first address of the region.
    pub fn base(&self) -> (b: usize)
        ensures
            b as nat == self.spec_base(),
    {
        self.base
    }

    /// The region's length in bytes.
    pub fn len(&self) -> (n: usize)
        ensures
            n as nat == self.spec_len(),
    {
        self.len
    }

    /// Tries to place a plan into this region. Accepts exactly when the
    /// first suitably aligned slot of the region leaves room for the plan's
    /// size; on success the region moves into the returned handle, and on
    /// rejection both the region and the plan come back unchanged, with no
    /// other effect.
    pub fn try_emplace<T, F: FnOnce(usize) -> T>(self, c: Ctor<T, F>) -> (r: Result<
        BufHandle<T>,
        Rejected<T, F>,
    >)
        requires
            self.wf(),
            c.wf(),
        ensures
            r is Ok <==> accepts(self.spec_base(), self.spec_len(), c.spec_layout()),
            r matches Ok(h) ==> {
                &&& h.wf()
                &&& h.region() == self
                &&& h.layout() == c.spec_layout()
                &&& h.addr() == spec_align_up(self.spec_base(), c.spec_layout().align as nat)
                &&& call_ensures(c.spec_write(), (h.addr() as usize,), h.value())
            },
            r matches Err(back) ==> back.region == self && back.ctor == c,
    {
        let l = c.layout();
        match fit_slot(self.base, self.len, l) {
            Some(slot) => {
                let value = c.emplace(slot);
                Ok(BufHandle { value, addr: slot, layout: l, region: self })
            },
            None => Err(Rejected { region: self, ctor: c }),
        }
    }
}

/// What a rejecting buffer hands back: the untouched region and the
/// untouched plan, for the caller to retry against other storage.
#[verifier::reject_recursive_types(T)]
pub struct Rejected<T, F> where F: FnOnce(usize) -> T {
    /// The region that rejected the plan.
    pub region: BufRegion,
    /// The plan, intact.
    pub ctor: Ctor<T, F>,
}

/// The owning handle a successful buffer emplacement returns. It owns the
/// placed value and the right to the region, but not the region's memory:
/// destroying it runs the value's destructor and returns the region, and
/// never frees anything.
///
/// The address of the placed value never changes over the handle's lifetime
/// — the pinning contract — and the handle gives out no way to move the
/// value or to reach it after destruction: `drive` needs the live handle,
/// and `destroy` consumes it.
pub struct BufHandle<T> {
    value: T,
    addr: usize,
    layout: Layout,
    region: BufRegion,
}

impl<T> BufHandle<T> {
    /// The value the handle owns.
    pub closed spec fn value(self) -> T {
        self.value
    }

    /// The address the value was placed at.
    pub closed spec fn addr(self) -> nat {
        self.addr as nat
    }

    /// The layout the value was placed with.
    pub closed spec fn layout(self) -> Layout {
        self.layout
    }

    /// The region the value lives in.
    pub closed spec fn region(self) -> BufRegion {
        self.region
    }

    /// The handle's invariant: the value sits at an aligned slot that lies
    /// wholly inside the region it holds.
    pub open spec fn wf(self) -> bool {
        &&& self.region().wf()
        &&& self.layout().wf()
        &&& fits(self.region().spec_base(), self.region().spec_len(), self.layout(), self.addr())
    }

    /// The address the value was placed at.
    pub fn address(&self) -> (a: usize)
        ensures
            a as nat == self.addr(),
    {
        self.addr
    }

    /// Destroys the placed value — runs its destructor, nothing more — and
    /// hands the region back for reuse. Consuming the handle here is what
    /// makes a second destruction, or a `drive` after destruction,
    /// unwritable.
    pub fn destroy(self) -> (r: BufRegion)
        ensures
            r == self.region(),
    {
        let BufHandle { value, addr: _, layout: _, region } = self;
        run_destructor(value);
        region
    }
}

impl<T: Drive> BufHandle<T> {
    /// Advances the placed computation by one step, in place: the value
    /// steps exactly as it would anywhere else, and its address, layout and
    /// region do not move.
    pub fn drive(&mut self) -> (p: Progress<T::Output>)
        ensures
            p == old(self).value().step_out(),
            final(self).value() == old(self).value().step_to(),
            final(self).addr() == old(self).addr(),
            final(self).layout() == old(self).layout(),
            final(self).region() == old(self).region(),
            old(self).wf() ==> final(self).wf(),
    {
        self.value.drive()
    }
}

/// Runs a value's destructor by taking the value over and letting it go out
/// of scope. The concrete type's own drop glue is the `destroy` entry of its
/// operation record.
pub(crate) fn run_destructor<T>(value: T) {
    let _owned = value;
}

} // verus!
