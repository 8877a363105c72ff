//! The system's physical clock.

use crate::timespec::Timespec;
use vstd::prelude::*;

verus! {

/// Reads the system's real-time clock through `time::get_time`.
///
/// Nothing is claimed of the instant that comes back. What is claimed is the
/// range of the nanoseconds: `time::get_time` builds its result with
/// `time::Timespec::new`, which admits only nanoseconds from zero up to, and
/// not including, one second.
#[verifier::external_body]
pub(crate) fn system_time() -> (r: Timespec)
    ensures
        0 <= r.nsec < 1_000_000_000,
{
    let t = time::get_time();
    Timespec { sec: t.sec, nsec: t.nsec }
}

} // verus!
