//! Valve flow regime selection.
//!
//! The flow across a valve branches on the sign of the pressure gradient
//! and on the variable resistances: it is purely linear when the selected
//! variable resistance is zero, or when the valve is sealed (a reverse
//! gradient against the sentinel closing resistance), and quadratic
//! otherwise.  Which regime applies is a decision on the encodings alone
//! and is made here; the arithmetic of the selected regime is
//! floating-point work and stays with the caller.

use vstd::prelude::*;
use crate::order::{
    is_zero_bits, val_gt_zero, val_lt_zero, is_zero, gt_zero, lt_zero,
};

verus! {

/// Encoding of the sentinel closing resistance (the double 100000.0) that
/// marks a sealed valve.
pub const SEALED_VALVE_BITS: u64 = 0x40F86A0000000000;

/// The four flow regimes.
#[derive(Clone, Copy, PartialEq, Eq, Structural, Debug)]
pub enum ValveRegime {
    /// Positive gradient, no open variable resistance: flow is
    /// `grad / R_open`.
    ForwardLinear,
    /// Positive gradient with an open variable resistance: the quadratic
    /// root with the forward sign.
    ForwardQuadratic,
    /// Non-positive gradient, closed linearly: flow is
    /// `grad / (R_open + R_close_var)`.
    ReverseLinear,
    /// Non-positive gradient with an active closing resistance: the
    /// quadratic root with the reverse sign.
    ReverseQuadratic,
}

/// Which regime the valve equations select for a gradient and the two
/// variable resistances: forward on a strictly positive gradient, and
/// linear when the selected variable resistance is zero or the valve is
/// sealed (strictly negative gradient against the sentinel closing
/// resistance).  A NaN gradient is not strictly positive and not strictly
/// negative, so it takes the reverse branch and is linear only when the
/// closing resistance is zero.
pub open spec fn spec_valve_regime(grad: u64, open_var: u64, close_var: u64) -> ValveRegime {
    if val_gt_zero(grad) {
        if is_zero_bits(open_var) {
            ValveRegime::ForwardLinear
        } else {
            ValveRegime::ForwardQuadratic
        }
    } else {
        if is_zero_bits(close_var) || (val_lt_zero(grad) && close_var == SEALED_VALVE_BITS) {
            ValveRegime::ReverseLinear
        } else {
            ValveRegime::ReverseQuadratic
        }
    }
}

/// Select the flow regime for a gradient and the two variable resistances.
pub fn valve_regime(grad: u64, open_var: u64, close_var: u64) -> (r: ValveRegime)
    ensures
        r == spec_valve_regime(grad, open_var, close_var),
{
    if gt_zero(grad) {
        if is_zero(open_var) {
            ValveRegime::ForwardLinear
        } else {
            ValveRegime::ForwardQuadratic
        }
    } else {
        if is_zero(close_var) || (lt_zero(grad) && close_var == SEALED_VALVE_BITS) {
            ValveRegime::ReverseLinear
        } else {
            ValveRegime::ReverseQuadratic
        }
    }
}

/// A forward gradient with no open variable resistance is always in the
/// linear regime, whatever the closing resistance: the flow is then the
/// plain quotient `grad / R_open`.
pub proof fn lemma_open_valve_is_linear(grad: u64, close_var: u64)
    requires
        val_gt_zero(grad),
    ensures
        spec_valve_regime(grad, 0, close_var) == ValveRegime::ForwardLinear,
{
}

/// A reverse gradient against the sealed-valve sentinel resistance is
/// always in the linear regime: the flow is then the plain quotient
/// `grad / (R_open + R_close_var)`.
pub proof fn lemma_sealed_valve_is_linear(grad: u64, open_var: u64)
    requires
        val_lt_zero(grad),
    ensures
        spec_valve_regime(grad, open_var, SEALED_VALVE_BITS) == ValveRegime::ReverseLinear,
{
    assert((0u64 & 0x8000_0000_0000_0000u64) == 0u64) by (bit_vector);
    assert((0u64 | 0x8000_0000_0000_0000u64) == 0x8000_0000_0000_0000u64) by (bit_vector);
    assert((0x8000_0000_0000_0000u64 & 0x8000_0000_0000_0000u64) == 0x8000_0000_0000_0000u64)
        by (bit_vector);
    assert((!0x8000_0000_0000_0000u64) == 0x7FFF_FFFF_FFFF_FFFFu64) by (bit_vector);
}

} // verus!
