//! The outcome of a single resumption step: still running, or finished with
//! a value.

use vstd::prelude::*;

verus! {

/// What one `drive` call reports.
#[derive(Debug, PartialEq, Eq)]
pub enum Progress<V> {
    /// The computation has not finished yet.
    Pending,
    /// The computation finished with this value.
    Ready(V),
}

} // verus!
