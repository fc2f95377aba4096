use std::cmp::Ordering;
use vstd::prelude::*;

use crate::error::SimError;
use crate::interval::at_or_above;

verus! {

fn not_negative(o: Option<Ordering>) -> (r: bool)
    ensures
        r == at_or_above(o),
{
    matches!(o, Some(Ordering::Equal) | Some(Ordering::Greater))
}

/// A univariate spread (standard deviation) is admitted where it is zero or
/// more; `spread` is its comparison with zero.
pub fn check_spread(spread: Option<Ordering>) -> (r: Result<(), SimError>)
    ensures
        r == (if at_or_above(spread) {
            Ok(())
        } else {
            Err(SimError::InvalidParameters)
        }),
{
    if not_negative(spread) {
        Ok(())
    } else {
        Err(SimError::InvalidParameters)
    }
}

/// A 2x2 covariance `[[a, b], [c, d]]` is admitted where it is symmetric and
/// positive semi-definite: `b == c`, `a >= 0`, `d >= 0` and `a d - b c >= 0`.
/// `symmetry` is `b.partial_cmp(&c)`; the others compare `a`, `d` and the
/// determinant with zero.
pub fn check_covariance(
    symmetry: Option<Ordering>,
    first_variance: Option<Ordering>,
    second_variance: Option<Ordering>,
    determinant: Option<Ordering>,
) -> (r: Result<(), SimError>)
    ensures
        r == (if symmetry == Some(Ordering::Equal) && at_or_above(first_variance)
            && at_or_above(second_variance) && at_or_above(determinant) {
            Ok(())
        } else {
            Err(SimError::InvalidParameters)
        }),
{
    if matches!(symmetry, Some(Ordering::Equal)) && not_negative(first_variance)
        && not_negative(second_variance) && not_negative(determinant) {
        Ok(())
    } else {
        Err(SimError::InvalidParameters)
    }
}

} // verus!
