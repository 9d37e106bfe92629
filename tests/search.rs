use virx_erlu_rlib::geom::{Vec3, SUBUNITS_PER_UNIT};

/// A position given in field units.
fn at(x: i64, y: i64, z: i64) -> Vec3 {
    Vec3::new(x * SUBUNITS_PER_UNIT, y * SUBUNITS_PER_UNIT, z * SUBUNITS_PER_UNIT)
}

fn u(x: i64) -> i64 {
    x * SUBUNITS_PER_UNIT
}
use virx_erlu_rlib::search::{can_search, screen_slice, ShotSearch, SliceVerdict};

#[test]
fn slices_past_the_goal_line_stop_the_search() {
    assert_eq!(screen_slice(&at(0, 5300, 93), u(94), u(129)), SliceVerdict::Stop);
    assert_eq!(screen_slice(&at(0, -5300, 93), u(94), u(129)), SliceVerdict::Stop);
    assert_eq!(screen_slice(&at(0, 5214, 93), u(94), u(129)), SliceVerdict::Analyze);
}

#[test]
fn high_slices_are_skipped() {
    assert_eq!(screen_slice(&at(0, 0, 130), u(94), u(129)), SliceVerdict::Skip);
    assert_eq!(screen_slice(&at(0, 0, 129), u(94), u(129)), SliceVerdict::Analyze);
}

#[test]
fn first_success_is_kept() {
    let mut s = ShotSearch::new();
    assert!(s.record(10, false));
    assert!(s.finished);
    assert_eq!(s.found_time, Some(10));
    let mut s = ShotSearch::new();
    assert!(s.record(10, true));
    assert!(!s.finished);
    assert!(!s.record(20, true));
    assert_eq!(s.found_time, Some(10));
}

#[test]
fn search_steps() {
    let mut s = ShotSearch::new();
    assert!(!s.step(SliceVerdict::Skip, true, 1, false));
    assert!(!s.step(SliceVerdict::Analyze, false, 2, false));
    assert_eq!(s, ShotSearch::new());
    assert!(s.step(SliceVerdict::Analyze, true, 3, false));
    assert_eq!(s.found_time, Some(3));
    assert!(s.finished);
    assert!(!s.step(SliceVerdict::Analyze, true, 4, false));
    let mut s = ShotSearch::new();
    assert!(!s.step(SliceVerdict::Stop, true, 1, true));
    assert!(s.finished);
    assert_eq!(s.found_time, None);
}

#[test]
fn search_needs_slices_and_a_grounded_agent() {
    assert!(can_search(720, false, false));
    assert!(!can_search(0, false, false));
    assert!(!can_search(720, true, false));
    assert!(!can_search(720, false, true));
}
