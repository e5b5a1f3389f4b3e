//! Curve StableSwap quotes: the checks made before an on-chain `get_dy` call.
use vstd::prelude::*;

use crate::u256::U256;

verus! {

/// Curve's `get_dy(i, j, dx)` is asked only for a non-zero amount between two
/// distinct, non-negative coin indices.
pub open spec fn curve_params_valid(i: int, j: int, dx: nat) -> bool {
    dx != 0 && i >= 0 && j >= 0 && i != j
}

/// Returns true if the parameters are valid for a Curve get_dy call.
pub fn validate_curve_params(i: i128, j: i128, dx: U256) -> (r: bool)
    ensures
        r == curve_params_valid(i as int, j as int, dx@),
{
    !dx.is_zero() && i >= 0 && j >= 0 && i != j
}

} // verus!
