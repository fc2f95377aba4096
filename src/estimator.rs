use vstd::prelude::*;

use crate::error::SimError;
use crate::interval::Placement;

verus! {

/// How the filter's covariance starts out: no uncertainty, or full uncertainty.
#[derive(Clone, Copy, Debug, PartialEq, Eq, Structural)]
pub enum InitialCovariance {
    Zero,
    Identity,
}

impl InitialCovariance {
    pub open spec fn entry_of(self, row: int, col: int) -> int {
        if row == col && self == InitialCovariance::Identity {
            1
        } else {
            0
        }
    }

    /// Entry `(row, col)` of the starting 2x2 covariance.
    pub fn entry(&self, row: usize, col: usize) -> (r: u32)
        requires
            row < 2,
            col < 2,
        ensures
            r == self.entry_of(row as int, col as int),
    {
        match self {
            InitialCovariance::Identity => if row == col {
                1
            } else {
                0
            },
            InitialCovariance::Zero => 0,
        }
    }
}

/// The innovation covariance `H P' H^T + R` is inverted only where its
/// determinant lies beyond `[-eps, eps]`; `det` places it relative to `-eps`
/// and `eps`. Inside that band, or where the determinant is not a number, the
/// update is refused.
pub fn check_innovation(det: Placement) -> (r: Result<(), SimError>)
    ensures
        r == (if det.beyond_closed() {
            Ok(())
        } else {
            Err(SimError::SingularInnovationCovariance)
        }),
{
    if det.outside_closed() {
        Ok(())
    } else {
        Err(SimError::SingularInnovationCovariance)
    }
}

} // verus!
