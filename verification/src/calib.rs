//! The running hard-iron calibration model.
//!
//! Each heading query observes one converted (x, y) point and widens a
//! per-axis window `[lo, hi]` to cover it. The window starts in a sentinel
//! state — `lo` at `i32::MAX`, `hi` at `i32::MIN` — so the first observation
//! sets both bounds to the observed value. The midpoint of each window is
//! the hard-iron bias estimate that heading computation subtracts.

use vstd::prelude::*;

use crate::convert::CENTI_UT_MAX;
use crate::convert::CENTI_UT_MIN;

verus! {

/// The lower bound of a window after observing `v`.
pub open spec fn upd_lo(lo: int, v: int) -> int {
    if v < lo {
        v
    } else {
        lo
    }
}

/// The upper bound of a window after observing `v`.
pub open spec fn upd_hi(hi: int, v: int) -> int {
    if v > hi {
        v
    } else {
        hi
    }
}

/// A well-formed per-axis window: either still the sentinel pair, or a real
/// window within the range converted readings can take.
pub open spec fn axis_wf(lo: int, hi: int) -> bool {
    (lo == i32::MAX && hi == i32::MIN) || (CENTI_UT_MIN <= lo <= hi <= CENTI_UT_MAX)
}

/// Observing a value within range keeps a window well-formed, and the result
/// is no longer the sentinel pair.
pub proof fn lemma_axis_wf_update(lo: int, hi: int, v: int)
    requires
        axis_wf(lo, hi),
        CENTI_UT_MIN <= v <= CENTI_UT_MAX,
    ensures
        CENTI_UT_MIN <= upd_lo(lo, v) <= upd_hi(hi, v) <= CENTI_UT_MAX,
{
}

/// Calibration only widens: across one observation — and so across any
/// sequence of observations — the lower bound never increases and the upper
/// bound never decreases.
pub proof fn lemma_calibration_monotone(lo: int, hi: int, v: int)
    ensures
        upd_lo(lo, v) <= lo,
        upd_hi(hi, v) >= hi,
{
}

/// Calibration converges on a constant input: observing the same value a
/// second time moves neither bound, so repeated queries of one unchanging
/// sample leave the window fixed at that sample after the first query.
pub proof fn lemma_calibration_converges(lo: int, hi: int, v: int)
    ensures
        upd_lo(upd_lo(lo, v), v) == upd_lo(lo, v),
        upd_hi(upd_hi(hi, v), v) == upd_hi(hi, v),
{
}

/// The lower bound of a window that started at `lo` after a whole sequence
/// of observations, oldest first.
pub open spec fn lo_after(lo: int, obs: Seq<int>) -> int
    decreases obs.len(),
{
    if obs.len() == 0 {
        lo
    } else {
        upd_lo(lo_after(lo, obs.drop_last()), obs.last())
    }
}

/// The upper bound of a window that started at `hi` after a whole sequence
/// of observations, oldest first.
pub open spec fn hi_after(hi: int, obs: Seq<int>) -> int
    decreases obs.len(),
{
    if obs.len() == 0 {
        hi
    } else {
        upd_hi(hi_after(hi, obs.drop_last()), obs.last())
    }
}

/// Across any sequence of observations, regardless of input ordering, the
/// lower bound never increases and the upper bound never decreases.
pub proof fn lemma_calibration_monotone_seq(lo: int, hi: int, obs: Seq<int>)
    ensures
        lo_after(lo, obs) <= lo,
        hi_after(hi, obs) >= hi,
    decreases obs.len(),
{
    if obs.len() > 0 {
        lemma_calibration_monotone_seq(lo, hi, obs.drop_last());
    }
}

/// The first observation after construction sets both bounds to the observed
/// value, and the calibrated vector component of a window fixed at the
/// observed value is zero: the query then sits at the singular centre point.
pub proof fn lemma_first_observation(v: int)
    requires
        v < i32::MAX,
        v > i32::MIN,
    ensures
        upd_lo(i32::MAX as int, v) == v,
        upd_hi(i32::MIN as int, v) == v,
        2 * v - (upd_hi(v, v) + upd_lo(v, v)) == 0,
{
}

} // verus!
