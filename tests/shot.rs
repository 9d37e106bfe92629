use virx_erlu_rlib::analyzer::{Path, PathKind, Pose};
use virx_erlu_rlib::geom::{distance, isqrt, normalize_flat, scale, Vec3, SUBUNITS_PER_UNIT};
use virx_erlu_rlib::registry::{slice_index, RegistryError, TargetStore};
use virx_erlu_rlib::shot::{sample_distances, Options, Shot, Target};

/// Field units as sub-units.
fn u(x: i64) -> i64 {
    x * SUBUNITS_PER_UNIT
}

fn p(x: i64, y: i64) -> (i64, i64) {
    (u(x), u(y))
}

fn straight_path() -> Path {
    Path {
        start: Pose { position: Vec3::new(0, 0, 0), heading: Vec3::new(1000, 0, 0) },
        rho: 500,
        kind: PathKind::LSL,
        lengths: [u(30), u(20), 0],
    }
}

fn line_shot() -> Shot {
    Shot::from(
        42,
        straight_path(),
        [u(30), u(20), 0, 0],
        [vec![p(0, 0), p(10, 0), p(20, 0)], vec![p(30, 0), p(40, 0)], vec![]],
    )
}

#[test]
fn shot_flattens_samples() {
    let s = line_shot();
    assert_eq!(s.time, 42);
    assert_eq!(s.all_samples, vec![p(0, 0), p(10, 0), p(20, 0), p(30, 0), p(40, 0)]);
    assert_eq!(s.samples[1], vec![p(30, 0), p(40, 0)]);
}

#[test]
fn locate_sample_points() {
    let s = line_shot();
    assert_eq!(s.get_distance_along_shot_and_index(&Vec3::new(u(40), 0, 0)), (u(40), 4));
    assert_eq!(s.get_distance_along_shot_and_index(&Vec3::new(u(20), 0, 0)), (u(20), 2));
    assert_eq!(s.get_distance_along_shot_and_index(&Vec3::new(u(32), u(3), 0)), (u(30), 3));
}

#[test]
fn locate_in_empty_shot() {
    let s = Shot::from(0, straight_path(), [0, 0, 0, 0], [vec![], vec![], vec![]]);
    assert_eq!(s.get_distance_along_shot_and_index(&Vec3::new(5, 5, 0)), (0, 0));
}

#[test]
fn samples_stay_within_segment() {
    assert_eq!(sample_distances(0, u(35)), vec![0, u(10), u(20), u(30)]);
    assert_eq!(sample_distances(0, u(30)), vec![0, u(10), u(20)]);
    assert_eq!(sample_distances(u(30), u(50)), vec![u(30), u(40)]);
    assert_eq!(sample_distances(u(50), u(50)), Vec::<i64>::new());
    for len in (1..u(100)).step_by(37) {
        let d = sample_distances(0, len);
        let last = *d.last().unwrap();
        assert!(last < len);
        assert!(len <= last + u(10));
    }
}

#[test]
fn options_defaults() {
    let o = Options::from(None, None, None, None, 720);
    assert_eq!(o, Options { all: false, use_absolute_max_values: false, min_slice: 0, max_slice: 720 });
    let o = Options::from(Some(5), Some(60), Some(true), Some(true), 720);
    assert_eq!(o, Options { all: true, use_absolute_max_values: true, min_slice: 5, max_slice: 60 });
}

#[test]
fn target_confirmation() {
    let o = Options::from(None, None, None, None, 10);
    let mut t = Target::new(Vec3::new(-800, 5120, 0), Vec3::new(800, 5120, 0), 3, o);
    assert!(!t.is_confirmed());
    assert!(t.shot.is_none());
    t.confirm();
    assert!(t.is_confirmed());
    assert_eq!(t.car_index, 3);
}

#[test]
fn store_reuses_free_slots() {
    let o = Options::from(None, None, None, None, 10);
    let t = Target::new(Vec3::new(0, 0, 0), Vec3::new(0, 0, 0), 0, o);
    let mut store = TargetStore::new();
    assert_eq!(store.new_target(t.clone()), 0);
    assert_eq!(store.new_target(t.clone()), 1);
    assert_eq!(store.remove_target(0), Ok(()));
    assert_eq!(store.remove_target(0), Err(RegistryError::NoTarget));
    assert_eq!(store.remove_target(7), Err(RegistryError::NoTarget));
    assert_eq!(store.new_target(t.clone()), 0);
    assert_eq!(store.new_target(t), 2);
}

#[test]
fn store_keeps_confirmed() {
    let o = Options::from(None, None, None, None, 10);
    let mut store = TargetStore::new();
    for i in 0..3 {
        store.new_target(Target::new(Vec3::new(0, 0, 0), Vec3::new(0, 0, 0), i, o));
    }
    assert_eq!(store.confirm_target(1), Ok(()));
    assert_eq!(store.confirm_target(9), Err(RegistryError::NoTarget));
    store.remove_target(2).unwrap();
    store.retain_confirmed();
    assert_eq!(store.targets.len(), 3);
    assert!(store.targets[0].is_none());
    assert_eq!(store.targets[1].as_ref().map(|t| t.car_index), Some(1));
    assert!(store.targets[2].is_none());
}

#[test]
fn slice_index_clamps() {
    assert_eq!(slice_index(-5, 720), 0);
    assert_eq!(slice_index(1, 720), 0);
    assert_eq!(slice_index(120, 720), 119);
    assert_eq!(slice_index(5000, 720), 719);
}

#[test]
fn integer_geometry() {
    assert_eq!(isqrt(0), 0);
    assert_eq!(isqrt(15), 3);
    assert_eq!(isqrt(16), 4);
    assert_eq!(distance(&Vec3::new(0, 0, 0), &Vec3::new(3, 4, 12)), 13);
    assert_eq!(normalize_flat(&Vec3::new(3, 4, 99)), Vec3::new(600, 800, 0));
    assert_eq!(normalize_flat(&Vec3::new(0, 0, 5)), Vec3::new(0, 0, 0));
    assert_eq!(scale(-7, 10, 3), -23);
    assert_eq!(scale(7, 10, 3), 23);
}

#[test]
fn locate_compares_found_samples() {
    let path = Path { lengths: [u(20), u(20), 0], ..straight_path() };
    let s = Shot::from(0, path, [u(20), u(20), 0, 0], [vec![p(0, 0), p(10, 0)], vec![p(20, 0), p(30, 0)], vec![]]);
    assert_eq!(s.get_distance_along_shot_and_index(&Vec3::new(u(12), 0, 0)), (u(10), 1));
    assert_eq!(s.get_distance_along_shot_and_index(&Vec3::new(u(10), 0, 0)), (u(10), 1));
    assert_eq!(s.get_distance_along_shot_and_index(&Vec3::new(0, 0, 0)), (0, 0));
}

#[test]
fn locate_single_sample_segments() {
    let path = Path { lengths: [u(5), u(10), 0], ..straight_path() };
    let s = Shot::from(0, path, [u(5), u(10), 0, 0], [vec![p(0, 0)], vec![p(5, 0)], vec![]]);
    assert_eq!(s.get_distance_along_shot_and_index(&Vec3::new(u(6), 0, 0)), (u(5), 1));
    assert_eq!(s.get_distance_along_shot_and_index(&Vec3::new(u(1), 0, 0)), (0, 0));
}
