use std::cmp::Ordering;
use vstd::arithmetic::div_mod::lemma_fundamental_div_mod_converse;
use vstd::prelude::*;

use crate::error::SimError;
use crate::interval::Placement;

verus! {

/// Side of the square, anchored at the goal's lower corner, inside which the
/// agent counts as arrived.
pub const ARRIVAL_TOLERANCE: u32 = 10;

/// Speed commanded while the agent moves toward its goal, in world units per tick.
pub const CRUISE_VELOCITY: u32 = 1;

/// Whether the believed position has arrived: it lies in the square
/// `[goal, goal + ARRIVAL_TOLERANCE)` on both axes. `x` and `y` place each
/// believed coordinate relative to the goal's coordinate and that coordinate
/// plus `ARRIVAL_TOLERANCE`.
pub fn at_goal(x: Placement, y: Placement) -> (r: bool)
    ensures
        r == (x.in_half_open() && y.in_half_open()),
{
    x.within_half_open() && y.within_half_open()
}

/// A goal is admitted only where both coordinates lie strictly inside the
/// world, `0 < x < width` and `0 < y < height`; `x` and `y` place them
/// relative to zero and the world's extent.
pub fn check_goal(x: Placement, y: Placement) -> (r: Result<(), SimError>)
    ensures
        r == (if x.in_open() && y.in_open() {
            Ok(())
        } else {
            Err(SimError::GoalOutOfBounds)
        }),
{
    if x.within_open() && y.within_open() {
        Ok(())
    } else {
        Err(SimError::GoalOutOfBounds)
    }
}

/// What the navigator commands the sensor for one tick.
#[derive(Clone, Copy, Debug, PartialEq, Eq, Structural)]
pub enum Command {
    /// Velocity zero, heading kept from the belief.
    Hold,
    /// `CRUISE_VELOCITY`, heading toward the goal.
    Cruise,
}

impl Command {
    pub open spec fn velocity_of(self) -> int {
        match self {
            Command::Hold => 0,
            Command::Cruise => CRUISE_VELOCITY as int,
        }
    }

    /// The commanded velocity.
    pub fn velocity(&self) -> (r: u32)
        ensures
            r == self.velocity_of(),
    {
        match self {
            Command::Hold => 0,
            Command::Cruise => CRUISE_VELOCITY,
        }
    }

    /// The filter runs only on a tick whose commanded velocity is not zero.
    pub fn runs_filter(&self) -> (r: bool)
        ensures
            r == (self.velocity_of() != 0),
    {
        match self {
            Command::Hold => false,
            Command::Cruise => true,
        }
    }
}

pub open spec fn command_of(goal_set: bool, arrived: bool) -> Command {
    if goal_set && !arrived {
        Command::Cruise
    } else {
        Command::Hold
    }
}

/// The command for a tick: hold without a goal or once arrived, else cruise
/// toward the goal.
pub fn command(goal_set: bool, arrived: bool) -> (r: Command)
    ensures
        r == command_of(goal_set, arrived),
{
    if goal_set && !arrived {
        Command::Cruise
    } else {
        Command::Hold
    }
}

/// A tick of an agent that has arrived, or has no goal, commands velocity
/// zero and leaves the filter alone, so its belief and covariance stay as
/// they were.
pub proof fn lemma_idle_tick_skips_filter(goal_set: bool, arrived: bool)
    requires
        !goal_set || arrived,
    ensures
        command_of(goal_set, arrived).velocity_of() == 0,
        command_of(goal_set, arrived) == Command::Hold,
{
}

/// Heading toward the goal written as
/// `quarter_turns * (pi / 2) + reference_sign * theta`, where
/// `theta = atan(|dy| / |dx|)` is the reference angle, in `[0, pi / 2]`, of the
/// offset `(dx, dy)` from the believed position to the goal.
#[derive(Clone, Copy, Debug, PartialEq, Eq, Structural)]
pub struct HeadingForm {
    pub quarter_turns: i8,
    pub reference_sign: i8,
}

/// The heading's form for the signs of `dx` and `dy`, each given as its
/// comparison with zero. Both positive: `theta`; `dx` negative and `dy`
/// positive: `pi - theta`; both negative: `theta - pi`; `dx` positive and `dy`
/// negative: `2 pi - theta`; `dx` zero: `pi / 2` or `-pi / 2` by the sign of
/// `dy`. A zero `dy` counts as positive, and an offset that cannot be ordered
/// gives the heading zero.
pub open spec fn heading_form_of(dx: Option<Ordering>, dy: Option<Ordering>) -> HeadingForm {
    match (dx, dy) {
        (Some(Ordering::Greater), Some(Ordering::Less)) => HeadingForm { quarter_turns: 4, reference_sign: -1i8 },
        (Some(Ordering::Greater), Some(_)) => HeadingForm { quarter_turns: 0, reference_sign: 1 },
        (Some(Ordering::Less), Some(Ordering::Less)) => HeadingForm { quarter_turns: -2i8, reference_sign: 1 },
        (Some(Ordering::Less), Some(_)) => HeadingForm { quarter_turns: 2, reference_sign: -1i8 },
        (Some(Ordering::Equal), Some(Ordering::Less)) => HeadingForm { quarter_turns: -1i8, reference_sign: 0 },
        (Some(Ordering::Equal), Some(_)) => HeadingForm { quarter_turns: 1, reference_sign: 0 },
        _ => HeadingForm { quarter_turns: 0, reference_sign: 0 },
    }
}

/// Chooses how the heading toward the goal is formed from the reference angle,
/// given `dx.partial_cmp(&0.0)` and `dy.partial_cmp(&0.0)`.
pub fn heading_form(dx: Option<Ordering>, dy: Option<Ordering>) -> (r: HeadingForm)
    ensures
        r == heading_form_of(dx, dy),
{
    match (dx, dy) {
        (Some(Ordering::Greater), Some(Ordering::Less)) => HeadingForm { quarter_turns: 4, reference_sign: -1i8 },
        (Some(Ordering::Greater), Some(_)) => HeadingForm { quarter_turns: 0, reference_sign: 1 },
        (Some(Ordering::Less), Some(Ordering::Less)) => HeadingForm { quarter_turns: -2i8, reference_sign: 1 },
        (Some(Ordering::Less), Some(_)) => HeadingForm { quarter_turns: 2, reference_sign: -1i8 },
        (Some(Ordering::Equal), Some(Ordering::Less)) => HeadingForm { quarter_turns: -1i8, reference_sign: 0 },
        (Some(Ordering::Equal), Some(_)) => HeadingForm { quarter_turns: 1, reference_sign: 0 },
        _ => HeadingForm { quarter_turns: 0, reference_sign: 0 },
    }
}

/// The heading of form `f` when the reference angle is `(n / d) * (pi / 2)`,
/// measured in units of `(pi / 2) / d`.
pub open spec fn direction(f: HeadingForm, n: int, d: int) -> int {
    f.quarter_turns * d + f.reference_sign * n
}

/// Sign of the cosine of the angle `u` measured in units of `(pi / 2) / d`.
pub open spec fn cos_sign(u: int, d: int) -> int {
    let w = u % (4 * d);
    if w < d || w > 3 * d {
        1
    } else if w == d || w == 3 * d {
        0
    } else {
        -1
    }
}

/// Sign of the sine of the angle `u` measured in units of `(pi / 2) / d`.
pub open spec fn sin_sign(u: int, d: int) -> int {
    let w = u % (4 * d);
    if w == 0 || w == 2 * d {
        0
    } else if w < 2 * d {
        1
    } else {
        -1
    }
}

pub open spec fn sign_of(o: Ordering) -> int {
    match o {
        Ordering::Greater => 1,
        Ordering::Equal => 0,
        Ordering::Less => -1,
    }
}

/// Two angles, in units of `(pi / 2) / d`, point the same way.
pub open spec fn same_direction(a: int, b: int, d: int) -> bool {
    a % (4 * d) == b % (4 * d)
}

/// The heading toward the goal points into the goal's quadrant: the cosine of
/// the heading has the sign of `dx` and its sine the sign of `dy`. The
/// reference angle `(n / d) * (pi / 2)` is strictly between 0 and `pi / 2`
/// when neither offset is zero, and 0 when `dy` is zero.
pub proof fn lemma_heading_in_goal_quadrant(dx: Ordering, dy: Ordering, n: int, d: int)
    requires
        0 < d,
        0 <= n <= d,
        !(dx == Ordering::Equal && dy == Ordering::Equal),
        dy == Ordering::Equal ==> n == 0,
        dx != Ordering::Equal && dy != Ordering::Equal ==> 0 < n < d,
    ensures
        cos_sign(direction(heading_form_of(Some(dx), Some(dy)), n, d), d) == sign_of(dx),
        sin_sign(direction(heading_form_of(Some(dx), Some(dy)), n, d), d) == sign_of(dy),
{
    let u = direction(heading_form_of(Some(dx), Some(dy)), n, d);
    assert(u == match (dx, dy) {
        (Ordering::Greater, Ordering::Less) => 4 * d - n,
        (Ordering::Greater, _) => n,
        (Ordering::Less, Ordering::Less) => n - 2 * d,
        (Ordering::Less, _) => 2 * d - n,
        (Ordering::Equal, Ordering::Less) => -d,
        (Ordering::Equal, _) => d,
    });
    lemma_turn_residue(u, d);
}

/// The residue of an angle within a few turns of zero, in units of
/// `(pi / 2) / d`.
proof fn lemma_turn_residue(u: int, d: int)
    requires
        0 < d,
        -4 * d <= u < 8 * d,
    ensures
        u % (4 * d) == if u < 0 {
            u + 4 * d
        } else if u < 4 * d {
            u
        } else {
            u - 4 * d
        },
{
    if u < 0 {
        lemma_fundamental_div_mod_converse(u, 4 * d, -1, u + 4 * d);
    } else if u < 4 * d {
        lemma_fundamental_div_mod_converse(u, 4 * d, 0, u);
    } else {
        lemma_fundamental_div_mod_converse(u, 4 * d, 1, u - 4 * d);
    }
}

/// The heading toward the goal is continuous up to whole turns: where the
/// offset crosses an axis, the forms on either side and on the axis itself
/// give one direction at the reference angle they meet at (`pi / 2` across
/// `dx = 0`, zero across `dy = 0`).
pub proof fn lemma_heading_continuous_across_axes(d: int)
    requires
        0 < d,
    ensures
        forall|dy: Ordering| dy != Ordering::Equal ==> {
            &&& same_direction(
                direction(heading_form_of(Some(Ordering::Greater), Some(dy)), d, d),
                direction(heading_form_of(Some(Ordering::Equal), Some(dy)), d, d),
                d,
            )
            &&& same_direction(
                direction(heading_form_of(Some(Ordering::Less), Some(dy)), d, d),
                direction(heading_form_of(Some(Ordering::Equal), Some(dy)), d, d),
                d,
            )
        },
        forall|dx: Ordering| dx != Ordering::Equal ==> {
            &&& same_direction(
                direction(heading_form_of(Some(dx), Some(Ordering::Greater)), 0, d),
                direction(heading_form_of(Some(dx), Some(Ordering::Equal)), 0, d),
                d,
            )
            &&& same_direction(
                direction(heading_form_of(Some(dx), Some(Ordering::Less)), 0, d),
                direction(heading_form_of(Some(dx), Some(Ordering::Equal)), 0, d),
                d,
            )
        },
{
    assert(direction(heading_form_of(Some(Ordering::Greater), Some(Ordering::Less)), d, d) == 3 * d);
    assert(direction(heading_form_of(Some(Ordering::Less), Some(Ordering::Less)), d, d) == -d);
    assert(direction(heading_form_of(Some(Ordering::Less), Some(Ordering::Greater)), d, d) == d);
    lemma_turn_residue(d, d);
    lemma_turn_residue(-d, d);
    lemma_turn_residue(3 * d, d);
    lemma_turn_residue(0, d);
    lemma_turn_residue(4 * d, d);
    lemma_turn_residue(2 * d, d);
    lemma_turn_residue(-2 * d, d);
}

} // verus!
