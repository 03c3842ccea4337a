use way_thumbsense::geometry::{ExclusionZones, TouchpadDimensions};
use way_thumbsense::tracker::TouchTracker;

#[test]
fn test_no_exclusion() {
    let dims = TouchpadDimensions {
        min_x: 0,
        max_x: 1000,
        min_y: 0,
        max_y: 1000,
    };
    let mut tracker = TouchTracker::new(dims, ExclusionZones::none());

    tracker.update_x(500);
    tracker.update_y(500);
    assert!(!tracker.is_in_exclusion_zone());

    tracker.update_x(0);
    tracker.update_y(0);
    assert!(!tracker.is_in_exclusion_zone());
}

#[test]
fn test_with_exclusion() {
    let dims = TouchpadDimensions {
        min_x: 0,
        max_x: 1000,
        min_y: 0,
        max_y: 1000,
    };
    // a 10% dead zone on every edge
    let zones = ExclusionZones::new(10, 10, 10, 10);
    let mut tracker = TouchTracker::new(dims, zones);

    // the center is not excluded
    tracker.update_x(500);
    tracker.update_y(500);
    assert!(!tracker.is_in_exclusion_zone());

    // the left edge is excluded (x < 100)
    tracker.update_x(50);
    tracker.update_y(500);
    assert!(tracker.is_in_exclusion_zone());

    // the right edge is excluded (x > 900)
    tracker.update_x(950);
    tracker.update_y(500);
    assert!(tracker.is_in_exclusion_zone());

    // the top edge is excluded (y < 100)
    tracker.update_x(500);
    tracker.update_y(50);
    assert!(tracker.is_in_exclusion_zone());

    // the bottom edge is excluded (y > 900)
    tracker.update_x(500);
    tracker.update_y(950);
    assert!(tracker.is_in_exclusion_zone());
}

#[test]
fn partial_position_is_never_excluded() {
    let dims = TouchpadDimensions {
        min_x: 0,
        max_x: 1000,
        min_y: 0,
        max_y: 1000,
    };
    let zones = ExclusionZones::new(10, 10, 10, 10);
    let mut tracker = TouchTracker::new(dims, zones);

    // no sample at all: no verdict can be made
    assert!(!tracker.is_in_exclusion_zone());

    // several X samples may arrive before any Y sample
    tracker.update_x(50);
    assert!(!tracker.is_in_exclusion_zone());
    tracker.update_x(30);
    assert!(!tracker.is_in_exclusion_zone());

    // the first Y sample completes the position
    tracker.update_y(500);
    assert!(tracker.is_in_exclusion_zone());
}

#[test]
fn reset_clears_position_and_verdict() {
    let dims = TouchpadDimensions {
        min_x: 0,
        max_x: 1000,
        min_y: 0,
        max_y: 1000,
    };
    let zones = ExclusionZones::new(10, 10, 10, 10);
    let mut tracker = TouchTracker::new(dims, zones);

    // a reset with no prior samples is a no-op
    tracker.reset();
    assert!(!tracker.is_in_exclusion_zone());
    assert_eq!(tracker.debug_info(), "pos: unknown");

    // after any updates, a reset forgets the position entirely
    tracker.update_x(50);
    tracker.update_y(500);
    assert!(tracker.is_in_exclusion_zone());
    tracker.reset();
    assert!(!tracker.is_in_exclusion_zone());
    assert_eq!(tracker.debug_info(), "pos: unknown");
}

#[test]
fn debug_info_reports_position_and_verdict() {
    let dims = TouchpadDimensions {
        min_x: 0,
        max_x: 1000,
        min_y: 0,
        max_y: 1000,
    };
    let mut tracker = TouchTracker::new(dims, ExclusionZones::new(10, 10, 10, 10));
    assert_eq!(tracker.debug_info(), "pos: unknown");

    tracker.update_x(500);
    tracker.update_y(500);
    assert_eq!(
        tracker.debug_info(),
        "pos: (500, 500) / max: (1000, 1000) / excluded: false"
    );

    tracker.update_x(50);
    assert_eq!(
        tracker.debug_info(),
        "pos: (50, 500) / max: (1000, 1000) / excluded: true"
    );
}

#[test]
fn margins_over_hundred_exclude_everything() {
    let dims = TouchpadDimensions {
        min_x: 0,
        max_x: 1000,
        min_y: 0,
        max_y: 1000,
    };
    // opposing margins overlap: the whole surface is excluded
    let mut tracker = TouchTracker::new(dims, ExclusionZones::new(0, 0, 60, 60));
    tracker.update_x(500);
    tracker.update_y(500);
    assert!(tracker.is_in_exclusion_zone());

    // a single margin above 100 excludes everything as well
    let mut tracker = TouchTracker::new(dims, ExclusionZones::new(150, 0, 0, 0));
    tracker.update_x(999);
    tracker.update_y(999);
    assert!(tracker.is_in_exclusion_zone());
}

#[test]
fn exclusion_thresholds_are_strict() {
    let dims = TouchpadDimensions {
        min_x: 0,
        max_x: 1000,
        min_y: 0,
        max_y: 1000,
    };
    // 10% margins on 1000 put the thresholds at exactly 100 and 900;
    // the comparisons are strict on both sides
    let mut tracker = TouchTracker::new(dims, ExclusionZones::new(10, 10, 10, 10));
    tracker.update_y(500);
    for (x, excluded) in [(99, true), (100, false), (900, false), (901, true)] {
        tracker.update_x(x);
        assert_eq!(tracker.is_in_exclusion_zone(), excluded);
    }
}

#[test]
fn wider_margins_keep_excluded_points_excluded() {
    let dims = TouchpadDimensions {
        min_x: 0,
        max_x: 1000,
        min_y: 0,
        max_y: 1000,
    };
    // excluded under 10% margins, still excluded under 20% margins
    let mut narrow = TouchTracker::new(dims, ExclusionZones::new(10, 10, 10, 10));
    let mut wide = TouchTracker::new(dims, ExclusionZones::new(20, 10, 10, 10));
    for tracker in [&mut narrow, &mut wide] {
        tracker.update_x(500);
        tracker.update_y(50);
        assert!(tracker.is_in_exclusion_zone());
    }
    // not excluded under 10%, newly excluded once the top margin grows
    let mut narrow = TouchTracker::new(dims, ExclusionZones::new(10, 10, 10, 10));
    let mut wide = TouchTracker::new(dims, ExclusionZones::new(20, 10, 10, 10));
    narrow.update_x(500);
    narrow.update_y(150);
    wide.update_x(500);
    wide.update_y(150);
    assert!(!narrow.is_in_exclusion_zone());
    assert!(wide.is_in_exclusion_zone());
}

#[test]
fn dimensions_width_and_height() {
    let dims = TouchpadDimensions {
        min_x: 10,
        max_x: 1010,
        min_y: 20,
        max_y: 520,
    };
    assert_eq!(dims.width(), 1000);
    assert_eq!(dims.height(), 500);
}
