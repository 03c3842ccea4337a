//! Touch tracker: turns raw per-axis samples into a current position and
//! an in/out-of-dead-zone verdict.
//!
//! The tracker is a small state machine. It starts idle with no position;
//! each axis sample updates its own axis independently (several X samples
//! may arrive before any Y sample); `reset` returns to idle. While either
//! axis is still unknown the tracker never reports a sample as excluded.

use crate::geometry::{is_point_excluded, point_excluded, ExclusionZones, TouchpadDimensions};
use vstd::prelude::*;

verus! {

/// The abstract state of a [`TouchTracker`].
pub ghost struct TrackerView {
    pub dims: TouchpadDimensions,
    pub zones: ExclusionZones,
    pub x: Option<i32>,
    pub y: Option<i32>,
}

/// What `reset` leaves behind: both axis values cleared, geometry and
/// margins untouched.
pub open spec fn reset_view(t: TrackerView) -> TrackerView {
    TrackerView { x: None, y: None, ..t }
}

/// Whether the most recent position sits in a dead zone. While either
/// axis is still unknown this is `false`.
pub open spec fn view_excluded(t: TrackerView) -> bool {
    match (t.x, t.y) {
        (Some(x), Some(y)) => point_excluded(t.dims, t.zones, x as int, y as int),
        _ => false,
    }
}

/// A diagnostic line rendered from the current sample, the axis maxima
/// and the exclusion verdict.
pub uninterp spec fn position_report(
    x: int,
    y: int,
    max_x: int,
    max_y: int,
    excluded: bool,
) -> Seq<char>;

/// Relies on std's `format!`: the rendered text is a function of the
/// arguments alone.
#[verifier::external_body]
fn render_position_report(x: i32, y: i32, max_x: i32, max_y: i32, excluded: bool) -> (r: String)
    ensures
        r@ == position_report(x as int, y as int, max_x as int, max_y as int, excluded),
{
    format!("pos: ({}, {}) / max: ({}, {}) / excluded: {}", x, y, max_x, max_y, excluded)
}

/// Tracks the last known finger position against a fixed geometry and
/// fixed dead-zone margins.
#[derive(Debug)]
pub struct TouchTracker {
    dimensions: TouchpadDimensions,
    exclusion_zones: ExclusionZones,
    current_x: Option<i32>,
    current_y: Option<i32>,
}

impl View for TouchTracker {
    type V = TrackerView;

    closed spec fn view(&self) -> TrackerView {
        TrackerView {
            dims: self.dimensions,
            zones: self.exclusion_zones,
            x: self.current_x,
            y: self.current_y,
        }
    }
}

impl TouchTracker {
    /// A fresh tracker: idle, with no position known.
    pub fn new(dimensions: TouchpadDimensions, exclusion_zones: ExclusionZones) -> (t: Self)
        ensures
            t@ == (TrackerView {
                dims: dimensions,
                zones: exclusion_zones,
                x: None::<i32>,
                y: None::<i32>,
            }),
    {
        TouchTracker { dimensions, exclusion_zones, current_x: None, current_y: None }
    }

    /// Record an X sample; the Y axis is untouched.
    pub fn update_x(&mut self, x: i32)
        ensures
            final(self)@ == (TrackerView { x: Some(x), ..old(self)@ }),
    {
        self.current_x = Some(x);
    }

    /// Record a Y sample; the X axis is untouched.
    pub fn update_y(&mut self, y: i32)
        ensures
            final(self)@ == (TrackerView { y: Some(y), ..old(self)@ }),
    {
        self.current_y = Some(y);
    }

    /// Forget both axis values; called once per touch-end transition so
    /// stale coordinates never leak into the next touch.
    pub fn reset(&mut self)
        ensures
            final(self)@ == reset_view(old(self)@),
    {
        self.current_x = None;
        self.current_y = None;
    }

    /// Whether the latest known position lies in a dead zone; `false`
    /// while either axis is unknown.
    pub fn is_in_exclusion_zone(&self) -> (r: bool)
        ensures
            r == view_excluded(self@),
    {
        match (self.current_x, self.current_y) {
            (Some(x), Some(y)) => is_point_excluded(&self.dimensions, &self.exclusion_zones, x, y),
            _ => false,
        }
    }

    /// Diagnostic snapshot: current position, axis maxima and exclusion
    /// verdict; has no effect on control flow.
    pub fn debug_info(&self) -> (r: String)
        ensures
            (self@.x is None || self@.y is None) ==> r@ == "pos: unknown"@,
            (self@.x is Some && self@.y is Some) ==> r@ == position_report(
                self@.x->0 as int,
                self@.y->0 as int,
                self@.dims.max_x as int,
                self@.dims.max_y as int,
                view_excluded(self@),
            ),
    {
        match (self.current_x, self.current_y) {
            (Some(x), Some(y)) => {
                let excluded = self.is_in_exclusion_zone();
                render_position_report(x, y, self.dimensions.max_x, self.dimensions.max_y, excluded)
            },
            _ => "pos: unknown".to_owned(),
        }
    }
}

/// Law: resetting a tracker that holds no samples is a no-op.
pub proof fn lemma_reset_fresh_is_noop(t: TrackerView)
    requires
        t.x is None,
        t.y is None,
    ensures
        reset_view(t) == t,
{
}

/// Law: after a reset — whatever axis updates came before — the tracker
/// holds no position and reports no exclusion.
pub proof fn lemma_reset_clears(t: TrackerView)
    ensures
        reset_view(t).x is None,
        reset_view(t).y is None,
        !view_excluded(reset_view(t)),
{
}

} // verus!
