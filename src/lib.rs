//! Decision core of a single agent that steers toward a goal in a bounded
//! plane while a Kalman filter tracks its believed state. Quantities that are
//! real numbers reach this crate as comparisons (`partial_cmp` results) and
//! signs; what it decides is exact over those.

pub mod error;
pub mod estimator;
pub mod interval;
pub mod navigator;
pub mod noise;
pub mod world;

pub use error::SimError;
pub use estimator::{check_innovation, InitialCovariance};
pub use interval::Placement;
pub use navigator::{
    at_goal, check_goal, command, heading_form, Command, HeadingForm, ARRIVAL_TOLERANCE,
    CRUISE_VELOCITY,
};
pub use noise::{check_covariance, check_spread};
pub use world::{World, WORLD_SIDE};
