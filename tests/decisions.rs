use std::cmp::Ordering;
use std::f64::consts::{FRAC_PI_2, PI};

use kalman::{
    at_goal, check_covariance, check_goal, check_innovation, check_spread, command,
    heading_form, Command, HeadingForm, InitialCovariance, Placement, SimError, World,
    ARRIVAL_TOLERANCE, CRUISE_VELOCITY, WORLD_SIDE,
};

fn place(v: f64, low: f64, high: f64) -> Placement {
    Placement::new(v.partial_cmp(&low), v.partial_cmp(&high))
}

fn heading(dx: f64, dy: f64) -> f64 {
    let form = heading_form(dx.partial_cmp(&0.0), dy.partial_cmp(&0.0));
    let turns = form.quarter_turns as f64 * FRAC_PI_2;
    if form.reference_sign == 0 {
        turns
    } else {
        turns + form.reference_sign as f64 * (dy.abs() / dx.abs()).atan()
    }
}

fn arrived(belief: (f64, f64), goal: (f64, f64)) -> bool {
    let tol = ARRIVAL_TOLERANCE as f64;
    at_goal(
        place(belief.0, goal.0, goal.0 + tol),
        place(belief.1, goal.1, goal.1 + tol),
    )
}

fn goal_in(x: f64, y: f64, world: &World) -> Result<(), SimError> {
    check_goal(place(x, 0.0, world.width() as f64), place(y, 0.0, world.height() as f64))
}

fn sign(v: f64) -> Option<Ordering> {
    v.partial_cmp(&0.0)
}

#[test]
fn heading_first_quadrant() {
    assert_eq!(heading_form(Some(Ordering::Greater), Some(Ordering::Greater)),
        HeadingForm { quarter_turns: 0, reference_sign: 1 });
    assert!((heading(10.0, 10.0) - 0.785).abs() < 1e-3);
}

#[test]
fn heading_second_quadrant() {
    assert!((heading(-10.0, 10.0) - 2.356).abs() < 1e-3);
}

#[test]
fn heading_third_quadrant() {
    assert!((heading(-10.0, -10.0) + 3.0 * PI / 4.0).abs() < 1e-9);
}

#[test]
fn heading_fourth_quadrant() {
    assert!((heading(10.0, -10.0) - 7.0 * PI / 4.0).abs() < 1e-9);
}

#[test]
fn heading_straight_up_is_exactly_half_pi() {
    assert_eq!(heading(0.0, 7.0), FRAC_PI_2);
    assert_eq!(heading(-0.0, 7.0), FRAC_PI_2);
}

#[test]
fn heading_straight_down() {
    assert_eq!(heading(0.0, -7.0), -FRAC_PI_2);
}

#[test]
fn heading_along_x_axis() {
    assert_eq!(heading(5.0, 0.0), 0.0);
    assert_eq!(heading(-5.0, 0.0), PI);
}

#[test]
fn heading_of_unordered_offset_is_zero() {
    assert_eq!(heading_form(None, Some(Ordering::Less)),
        HeadingForm { quarter_turns: 0, reference_sign: 0 });
    assert_eq!(heading(f64::NAN, 3.0), 0.0);
}

#[test]
fn at_goal_exactly_at_goal() {
    assert!(arrived((50.0, 60.0), (50.0, 60.0)));
}

#[test]
fn at_goal_just_inside_far_corner() {
    assert!(arrived((59.99, 69.99), (50.0, 60.0)));
}

#[test]
fn at_goal_far_edge_is_excluded() {
    assert!(!arrived((60.0, 60.0), (50.0, 60.0)));
    assert!(!arrived((50.0, 70.0), (50.0, 60.0)));
}

#[test]
fn at_goal_below_goal_is_excluded() {
    assert!(!arrived((49.99, 60.0), (50.0, 60.0)));
    assert!(!arrived((f64::NAN, 60.0), (50.0, 60.0)));
}

#[test]
fn goal_outside_bounds_is_refused() {
    let world = World::standard();
    assert_eq!(goal_in(-5.0, 5.0, &world), Err(SimError::GoalOutOfBounds));
    assert_eq!(goal_in(5.0, 640.0, &world), Err(SimError::GoalOutOfBounds));
    assert_eq!(goal_in(0.0, 5.0, &world), Err(SimError::GoalOutOfBounds));
    assert_eq!(goal_in(f64::NAN, 5.0, &world), Err(SimError::GoalOutOfBounds));
}

#[test]
fn goal_inside_bounds_is_admitted() {
    let world = World::standard();
    assert_eq!(goal_in(100.0, 100.0, &world), Ok(()));
    assert_eq!(goal_in(639.5, 0.5, &world), Ok(()));
}

#[test]
fn command_holds_without_goal_or_once_arrived() {
    assert_eq!(command(false, false), Command::Hold);
    assert_eq!(command(false, true), Command::Hold);
    assert_eq!(command(true, true), Command::Hold);
    assert_eq!(command(true, false), Command::Cruise);
}

#[test]
fn idle_command_skips_the_filter() {
    let hold = command(true, true);
    assert_eq!(hold.velocity(), 0);
    assert!(!hold.runs_filter());
    let cruise = command(true, false);
    assert_eq!(cruise.velocity(), CRUISE_VELOCITY);
    assert_eq!(CRUISE_VELOCITY, 1);
    assert!(cruise.runs_filter());
}

#[test]
fn innovation_near_singular_is_refused() {
    let eps = 1e-12;
    let det = |d: f64| check_innovation(place(d, -eps, eps));
    assert_eq!(det(0.0), Err(SimError::SingularInnovationCovariance));
    assert_eq!(det(eps), Err(SimError::SingularInnovationCovariance));
    assert_eq!(det(f64::NAN), Err(SimError::SingularInnovationCovariance));
    assert_eq!(det(1e-3), Ok(()));
    assert_eq!(det(-2.0), Ok(()));
}

#[test]
fn spread_must_not_be_negative() {
    assert_eq!(check_spread(sign(-0.1)), Err(SimError::InvalidParameters));
    assert_eq!(check_spread(sign(f64::NAN)), Err(SimError::InvalidParameters));
    assert_eq!(check_spread(sign(0.0)), Ok(()));
    assert_eq!(check_spread(sign(0.3)), Ok(()));
}

fn covariance(m: [f64; 4]) -> Result<(), SimError> {
    let det = m[0] * m[3] - m[1] * m[2];
    check_covariance(m[1].partial_cmp(&m[2]), sign(m[0]), sign(m[3]), sign(det))
}

#[test]
fn covariance_must_be_positive_semi_definite() {
    assert_eq!(covariance([1.0, 0.0, 0.0, 1.0]), Ok(()));
    assert_eq!(covariance([0.01, 0.001, 0.001, 0.01]), Ok(()));
    assert_eq!(covariance([0.0, 0.0, 0.0, 0.0]), Ok(()));
    assert_eq!(covariance([1.0, 0.5, 0.4, 1.0]), Err(SimError::InvalidParameters));
    assert_eq!(covariance([-1.0, 0.0, 0.0, 1.0]), Err(SimError::InvalidParameters));
    assert_eq!(covariance([1.0, 0.0, 0.0, -1.0]), Err(SimError::InvalidParameters));
    assert_eq!(covariance([0.001, 0.1, 0.1, 0.001]), Err(SimError::InvalidParameters));
}

#[test]
fn placement_interval_kinds() {
    let at_low = place(0.0, 0.0, 1.0);
    assert!(!at_low.within_open());
    assert!(at_low.within_half_open());
    assert!(at_low.within_closed());
    assert!(!at_low.outside_closed());
    let at_high = place(1.0, 0.0, 1.0);
    assert!(!at_high.within_open());
    assert!(!at_high.within_half_open());
    assert!(at_high.within_closed());
    let above = place(2.0, 0.0, 1.0);
    assert!(above.outside_closed());
    assert!(!above.within_closed());
    let unordered = place(f64::NAN, 0.0, 1.0);
    assert!(!unordered.within_closed());
    assert!(!unordered.outside_closed());
}

#[test]
fn world_bounds() {
    let world = World::standard();
    assert_eq!(world.width(), WORLD_SIDE);
    assert_eq!(world.height(), 640);
    let large = World::new(6400, 3200);
    assert_eq!(large.width(), 6400);
    assert_eq!(large.height(), 3200);
}

#[test]
fn initial_covariance_entries() {
    let id = InitialCovariance::Identity;
    assert_eq!((id.entry(0, 0), id.entry(0, 1), id.entry(1, 0), id.entry(1, 1)), (1, 0, 0, 1));
    let zero = InitialCovariance::Zero;
    assert_eq!((zero.entry(0, 0), zero.entry(1, 1), zero.entry(0, 1)), (0, 0, 0));
}
