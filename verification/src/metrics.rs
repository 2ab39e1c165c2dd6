//! The eight derived clinical metrics, by name.
//!
//! A fitness evaluation reduces the last cardiac cycle of a trajectory to
//! one scalar per metric, kept in metric order; a target list refers to
//! metrics by name, and an unknown name simply finds no metric (it then
//! contributes nothing to the weighted error, as the tolerant interface
//! requires).

use vstd::prelude::*;
use crate::parameters::str_eq;

verus! {

/// Number of derived metrics.
pub const N_METRICS: usize = 8;

/// Name of the metric at index `i`, in metric order.
pub open spec fn metric_name(i: int) -> Seq<char> {
    if i == 0 {
        "stroke_volume"@
    } else if i == 1 {
        "central_venous_pressure"@
    } else if i == 2 {
        "pulmonary_capillary_wedge_pressure"@
    } else if i == 3 {
        "systolic_arterial_pressure"@
    } else if i == 4 {
        "diastolic_arterial_pressure"@
    } else if i == 5 {
        "systolic_pulmonary_arterial_pressure"@
    } else if i == 6 {
        "diastolic_pulmonary_arterial_pressure"@
    } else if i == 7 {
        "left_ventricular_ejection_fraction"@
    } else {
        Seq::empty()
    }
}

/// The name of metric index `i`.
pub fn metric_name_of(i: usize) -> (r: &'static str)
    requires
        i < N_METRICS,
    ensures
        r@ == metric_name(i as int),
{
    match i {
        0 => "stroke_volume",
        1 => "central_venous_pressure",
        2 => "pulmonary_capillary_wedge_pressure",
        3 => "systolic_arterial_pressure",
        4 => "diastolic_arterial_pressure",
        5 => "systolic_pulmonary_arterial_pressure",
        6 => "diastolic_pulmonary_arterial_pressure",
        _ => "left_ventricular_ejection_fraction",
    }
}

/// Index of the metric called `key`, or nothing for an unknown key.
pub fn metric_key_index(key: &str) -> (r: Option<usize>)
    ensures
        match r {
            Some(i) => i < N_METRICS && key@ == metric_name(i as int),
            None => forall|j: int| 0 <= j < N_METRICS ==> key@ != metric_name(j),
        },
{
    for i in 0..N_METRICS
        invariant
            forall|j: int| 0 <= j < i ==> key@ != metric_name(j),
    {
        if str_eq(key, metric_name_of(i)) {
            return Some(i);
        }
    }
    None
}

} // verus!
