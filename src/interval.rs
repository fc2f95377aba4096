use std::cmp::Ordering;
use vstd::prelude::*;

verus! {

/// The comparison says the value is at or above the end it was compared with.
pub open spec fn at_or_above(o: Option<Ordering>) -> bool {
    o == Some(Ordering::Equal) || o == Some(Ordering::Greater)
}

/// The comparison says the value is at or below the end it was compared with.
pub open spec fn at_or_below(o: Option<Ordering>) -> bool {
    o == Some(Ordering::Equal) || o == Some(Ordering::Less)
}

/// Where a value lies relative to the two ends of an interval, as told by
/// comparing it with each end (`v.partial_cmp(&low)`, `v.partial_cmp(&high)`).
/// `None` stands for a comparison without an answer, so a value that cannot be
/// ordered lies neither inside an interval nor outside it.
#[derive(Clone, Copy, Debug)]
pub struct Placement {
    pub to_low: Option<Ordering>,
    pub to_high: Option<Ordering>,
}

impl Placement {
    /// `low < v < high`.
    pub open spec fn in_open(self) -> bool {
        self.to_low == Some(Ordering::Greater) && self.to_high == Some(Ordering::Less)
    }

    /// `low <= v < high`.
    pub open spec fn in_half_open(self) -> bool {
        at_or_above(self.to_low) && self.to_high == Some(Ordering::Less)
    }

    /// `low <= v <= high`.
    pub open spec fn in_closed(self) -> bool {
        at_or_above(self.to_low) && at_or_below(self.to_high)
    }

    /// `v < low` or `high < v`.
    pub open spec fn beyond_closed(self) -> bool {
        self.to_low == Some(Ordering::Less) || self.to_high == Some(Ordering::Greater)
    }

    pub fn new(to_low: Option<Ordering>, to_high: Option<Ordering>) -> (r: Placement)
        ensures
            r.to_low == to_low,
            r.to_high == to_high,
    {
        Placement { to_low, to_high }
    }

    pub fn within_open(&self) -> (r: bool)
        ensures
            r == self.in_open(),
    {
        matches!(self.to_low, Some(Ordering::Greater)) && matches!(self.to_high, Some(Ordering::Less))
    }

    pub fn within_half_open(&self) -> (r: bool)
        ensures
            r == self.in_half_open(),
    {
        matches!(self.to_low, Some(Ordering::Equal) | Some(Ordering::Greater))
            && matches!(self.to_high, Some(Ordering::Less))
    }

    pub fn within_closed(&self) -> (r: bool)
        ensures
            r == self.in_closed(),
    {
        matches!(self.to_low, Some(Ordering::Equal) | Some(Ordering::Greater))
            && matches!(self.to_high, Some(Ordering::Equal) | Some(Ordering::Less))
    }

    pub fn outside_closed(&self) -> (r: bool)
        ensures
            r == self.beyond_closed(),
    {
        matches!(self.to_low, Some(Ordering::Less)) || matches!(self.to_high, Some(Ordering::Greater))
    }
}

} // verus!
