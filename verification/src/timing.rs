//! The timing harness: a start timestamp is captured immediately before the
//! batch coordinator is invoked and an end timestamp immediately after its
//! join returns; the harness reports their difference as the batch's elapsed
//! wall-clock duration. Capturing the timestamps is the caller's part; what
//! that duration must look like under each placement of the CPU-bound unit is
//! stated and proved in `crate::batch`.

use vstd::prelude::*;

verus! {

/// The elapsed wall-clock duration between the two timestamps of one
/// measurement, in whatever unit the clock counts.
pub fn elapsed_duration(start_t: u64, end_t: u64) -> (r: u64)
    requires
        start_t <= end_t,
    ensures
        r == end_t - start_t,
{
    end_t - start_t
}

} // verus!
