use vstd::prelude::*;

use crate::models::Threshold;

verus! {

/// A reading is anomalous when its metric has a threshold row with a
/// critical level and the value reaches that level (inclusive).
/// No row, or no critical level, means "not anomalous".
pub open spec fn anomaly_spec(threshold: Option<Threshold>, value: int) -> bool {
    match threshold {
        Some(t) => match t.critical_level {
            Some(c) => value >= c,
            None => false,
        },
        None => false,
    }
}

/// The row behind an optional reference.
pub open spec fn owned(threshold: Option<&Threshold>) -> Option<Threshold> {
    match threshold {
        Some(t) => Some(*t),
        None => None,
    }
}

/// Classifies a reading against the threshold row of its metric type.
pub fn is_anomaly(threshold: Option<&Threshold>, value: i64) -> (r: bool)
    ensures
        r == anomaly_spec(owned(threshold), value as int),
{
    match threshold {
        Some(t) => match t.critical_level {
            Some(c) => value >= c,
            None => false,
        },
        None => false,
    }
}

/// Without a threshold row a reading is never anomalous.
pub proof fn lemma_no_threshold_never_anomalous(value: int)
    ensures
        !anomaly_spec(None, value),
{
}

/// The critical level itself is anomalous, and one hundredth below it is not.
pub proof fn lemma_critical_boundary_inclusive(t: Threshold, c: int)
    requires
        t.critical_level == Some(c as i64),
        i64::MIN < c <= i64::MAX,
    ensures
        anomaly_spec(Some(t), c),
        !anomaly_spec(Some(t), c - 1),
{
}

} // verus!
