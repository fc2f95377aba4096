use vstd::prelude::*;

verus! {

/// What can go wrong in a simulation step or in its configuration.
#[derive(Clone, Copy, Debug, PartialEq, Eq, Structural)]
pub enum SimError {
    /// A noise configuration with a negative spread or a covariance that is
    /// not symmetric positive semi-definite; the prior configuration is kept.
    InvalidParameters,
    /// The filter's innovation covariance is too close to singular to invert;
    /// the tick's update is skipped and the prior belief kept.
    SingularInnovationCovariance,
    /// A goal outside the world; the goal is reset to unset.
    GoalOutOfBounds,
    /// The noise model could not be sampled: a configuration got past its
    /// validation.
    DistributionError,
}

} // verus!
