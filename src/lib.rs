//! Over-the-air firmware update engine for a BLE-connected sensor device.
use vstd::prelude::*;

pub mod dispatcher;
pub mod domain;
pub mod operation;
pub mod ota;
pub mod queue;

verus! {

/// Sum of two sizes; the caller keeps the sum within `usize`.
pub fn add(left: usize, right: usize) -> (r: usize)
    requires
        left + right <= usize::MAX,
    ensures
        r == left + right,
{
    left + right
}

} // verus!
