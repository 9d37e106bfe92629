use virx_erlu_rlib::analyzer::{
    travel, Analyzer, Ball, Car, Field, Infeasible, Path, PathKind, ShotType, TurnExit,
};
use virx_erlu_rlib::geom::{Vec3, SUBUNITS_PER_UNIT};

/// Field units as sub-units.
fn u(x: i64) -> i64 {
    x * SUBUNITS_PER_UNIT
}

fn at(x: i64, y: i64, z: i64) -> Vec3 {
    Vec3::new(u(x), u(y), u(z))
}

fn car_at_origin() -> Car {
    Car {
        location: at(0, 0, 0),
        forward: Vec3::new(1000, 0, 0),
        right: Vec3::new(0, 1000, 0),
        hitbox_length: u(118),
        hitbox_width: u(84),
        hitbox_height: u(36),
        hitbox_offset_x: u(14),
        landing_location: at(0, 0, 0),
        landing_forward: Vec3::new(1000, 0, 0),
        landing_right: Vec3::new(0, 1000, 0),
        landing_time: 0,
        max_speed: vec![1000; 4],
        ctrms: vec![u(500); 4],
        max_jump_height: u(200),
        max_double_jump_height: u(400),
        jump_curve: [0, 50, 100, 133, 150, 180, 199].iter().map(|h| u(*h)).collect(),
        double_jump_curve: [0, 100, 200, 300, 350, 399].iter().map(|h| u(*h)).collect(),
        max_jump_time: 24,
        gravity: 650,
        field: Field { half_x: u(4096), half_y: u(5120) },
    }
}

fn ball_at(x: i64, y: i64, z: i64) -> Ball {
    Ball { location: at(x, y, z), radius: u(92) }
}

fn ground_only() -> Analyzer {
    Analyzer::new(None, None, 650, true, false, false)
}

fn all_enabled() -> Analyzer {
    Analyzer::new(None, None, 650, true, true, true)
}

fn fast() -> Analyzer {
    Analyzer::new(Some(12000), None, 650, true, true, true)
}

const STAY: TurnExit = TurnExit { point: Vec3 { x: 0, y: 0, z: 0 }, arc_length: 0 };

#[test]
fn aligned_ground_shot_straight_ahead() {
    let r = ground_only().no_target(&ball_at(2000, 0, 0), &car_at_origin(), 360, 0, &STAY).unwrap();
    assert_eq!(r.distances, [0, 0, 0, u(2000 - 92 - 66)]);
    assert_eq!(r.shot_type, ShotType::Ground);
    assert_eq!(r.jump_time, None);
    assert!(r.is_forwards);
    assert_eq!(r.shot_vector, Vec3::new(1000, 0, 0));
    assert_eq!(r.path.kind, PathKind::RSL);
    assert_eq!(r.path.lengths, [0, 0, 0]);
}

#[test]
fn contact_above_double_jump_ceiling_fails() {
    for t in [30, 360, 3600] {
        let a = all_enabled();
        let car = car_at_origin();
        assert_eq!(a.no_target(&ball_at(2000, 0, 500), &car, t, 0, &STAY).unwrap_err(), Infeasible);
        assert!(a.target(&ball_at(2000, 0, 500), &car, &Vec3::new(1000, 0, 0), t, 0).is_err());
    }
}

#[test]
fn still_airborne_at_deadline_fails() {
    let mut car = car_at_origin();
    car.landing_time = 400;
    assert!(ground_only().no_target(&ball_at(2000, 0, 0), &car, 360, 0, &STAY).is_err());
    assert!(ground_only().target(&ball_at(2000, 0, 0), &car, &Vec3::new(1000, 0, 0), 360, 0).is_err());
    car.landing_time = 360;
    assert!(ground_only().no_target(&ball_at(2000, 0, 0), &car, 360, 0, &STAY).is_err());
}

#[test]
fn landing_time_shortens_budget() {
    let mut car = car_at_origin();
    car.landing_time = 120;
    // 240 ticks at 1000 per second reach 2000, plus front and radius
    assert!(ground_only().no_target(&ball_at(2100, 0, 0), &car, 360, 0, &STAY).is_ok());
    assert!(ground_only().no_target(&ball_at(2200, 0, 0), &car, 360, 0, &STAY).is_err());
}

#[test]
fn too_far_fails() {
    let a = ground_only();
    let car = car_at_origin();
    assert!(a.no_target(&ball_at(3158, 0, 0), &car, 360, 0, &STAY).is_ok());
    let beyond = Ball { location: Vec3::new(u(3158) + 1, 0, 0), radius: u(92) };
    assert!(a.no_target(&beyond, &car, 360, 0, &STAY).is_err());
}

#[test]
fn all_shot_types_disabled_fails() {
    let a = Analyzer::new(None, None, 650, false, false, false);
    let car = car_at_origin();
    for z in [0, 150, 300] {
        assert!(a.no_target(&ball_at(1000, 0, z), &car, 360, 0, &STAY).is_err());
        assert!(a.target(&ball_at(1000, 0, z), &car, &Vec3::new(1000, 0, 0), 360, 0).is_err());
    }
}

#[test]
fn shot_type_by_height() {
    let a = all_enabled();
    let car = car_at_origin();
    assert_eq!(a.get_shot_type(&car, &at(0, 0, 34)), Ok(ShotType::Ground));
    assert_eq!(a.get_shot_type(&car, &at(0, 0, 35)), Ok(ShotType::Jump));
    assert_eq!(a.get_shot_type(&car, &at(0, 0, 199)), Ok(ShotType::Jump));
    assert_eq!(a.get_shot_type(&car, &at(0, 0, 200)), Ok(ShotType::DoubleJump));
    assert_eq!(a.get_shot_type(&car, &at(0, 0, 400)), Err(Infeasible));
    let no_jump = Analyzer::new(None, None, 650, true, false, true);
    assert_eq!(no_jump.get_shot_type(&car, &at(0, 0, 100)), Err(Infeasible));
}

#[test]
fn jump_info_of_each_type() {
    let a = all_enabled();
    let car = car_at_origin();
    let ahead = at(100, 0, 0);
    let fwd = Vec3::new(1000, 0, 0);
    // lined up, 100 ahead: no run-up
    assert_eq!(a.get_jump_info(&car, &ahead, &ahead, &fwd, 1000, 360, ShotType::Ground), Ok((None, 0)));
    // too far ahead to count as lined up
    let far = at(400, 0, 0);
    assert_eq!(a.get_jump_info(&car, &far, &far, &fwd, 1000, 360, ShotType::Ground), Ok((None, u(320))));
    // misaligned by about 0.1 rad
    let skew = Vec3::new(995, 100, 0);
    assert_eq!(a.get_jump_info(&car, &ahead, &ahead, &skew, 1000, 360, ShotType::Ground), Ok((None, u(320))));
    // jump to 150: height 150 - 18 = 132 above the half-height, reached at tick 3
    let high = at(100, 0, 150);
    assert_eq!(
        a.get_jump_info(&car, &high, &high, &fwd, 1000, 360, ShotType::Jump),
        Ok((Some(3), 3 * 1000 + u(128)))
    );
    // double jump to 300: 282 above the half-height, reached at tick 3 (300)
    let higher = at(100, 0, 300);
    assert_eq!(
        a.get_jump_info(&car, &higher, &higher, &fwd, 1200, 20, ShotType::DoubleJump),
        Ok((Some(3), 3 * 1200 + u(128)))
    );
    // more time left than a single jump lasts
    assert_eq!(a.get_jump_info(&car, &higher, &higher, &fwd, 1200, 25, ShotType::DoubleJump), Err(Infeasible));
}

#[test]
fn jump_approach_grows_with_lead_time() {
    for speed in [1, 7, 1400] {
        let mut last = travel(0, speed) + u(128);
        for lead in 1..50 {
            let d = travel(lead, speed) + u(128);
            assert!(d > last);
            last = d;
        }
    }
    assert_eq!(travel(120, 1400), u(1400));
    assert_eq!(travel(1, 1), 1);
}

#[test]
fn jump_lead_longer_than_budget_fails() {
    let car = car_at_origin();
    let r = fast().no_target(&ball_at(700, 0, 150), &car, 10, 0, &STAY).unwrap();
    assert_eq!(r.shot_type, ShotType::Jump);
    assert_eq!(r.jump_time, Some(3));
    assert_eq!(r.distances, [0, 0, 0, 85906 - u(92 + 66)]);
    // within reach, but the jump takes 3 ticks and only 2 are left
    assert!(fast().no_target(&ball_at(300, 0, 150), &car, 2, 0, &STAY).is_err());
}

#[test]
fn straight_run_shorter_than_clearance_fails() {
    // 100 ahead: the run left after the hitbox front and the ball radius is negative
    assert!(ground_only().no_target(&ball_at(100, 0, 0), &car_at_origin(), 360, 0, &STAY).is_err());
    assert!(ground_only().no_target(&ball_at(158, 0, 0), &car_at_origin(), 360, 0, &STAY).is_ok());
    // a jump needs its clearance of 3 ticks at 12000 plus 128 on the straight run
    let run = 62641 - u(92 + 66);
    assert!(run < 3 * 12000 + u(128));
    assert!(fast().no_target(&ball_at(500, 0, 150), &car_at_origin(), 10, 0, &STAY).is_err());
}

#[test]
fn turn_exit_outside_field_fails() {
    let a = ground_only();
    let exit = TurnExit { point: at(0, 6000, 0), arc_length: 0 };
    let mut car = car_at_origin();
    car.max_speed = vec![10000; 4];
    assert!(a.no_target(&ball_at(0, 5000, 0), &car, 360, 0, &exit).is_err());
    let exit = TurnExit { point: at(0, 100, 0), arc_length: 0 };
    assert!(a.no_target(&ball_at(0, 5000, 0), &car, 360, 0, &exit).is_ok());
}

#[test]
fn turn_arc_counts_against_reach() {
    let a = ground_only();
    let exit = TurnExit { point: at(500, 500, 0), arc_length: u(785) };
    let r = a.no_target(&ball_at(500, 2000, 0), &car_at_origin(), 360, 0, &exit).unwrap();
    assert_eq!(r.distances, [u(785), 0, 0, u(1500 - 92 - 66)]);
    assert_eq!(r.path.kind, PathKind::RSL);
    assert_eq!(r.shot_vector, Vec3::new(0, 1000, 0));
    let long = TurnExit { point: at(500, 500, 0), arc_length: u(2000) };
    assert!(a.no_target(&ball_at(500, 2000, 0), &car_at_origin(), 360, 0, &long).is_err());
}

#[test]
fn turn_circle_side() {
    let a = ground_only();
    let car = car_at_origin();
    let left = a.turn_circle(&ball_at(1000, -500, 0), &car, 0);
    assert!(left.turn_left);
    assert_eq!(left.center, at(0, -500, 0));
    assert_eq!(left.rho, u(500));
    let right = a.turn_circle(&ball_at(-1000, 500, 0), &car, 0);
    assert!(!right.turn_left);
    assert!(!right.target_is_forwards);
    assert_eq!(right.center, at(0, 500, 0));
}

#[test]
fn overrides_take_precedence() {
    let a = Analyzer::new(Some(2000), Some(u(800)), 650, true, true, true);
    let car = car_at_origin();
    assert_eq!(a.get_max_speed(&car, 1), 2000);
    assert_eq!(a.get_max_turn_radius(&car, 1), u(800));
    assert_eq!(ground_only().get_max_speed(&car, 1), 1000);
    assert_eq!(ground_only().get_max_turn_radius(&car, 1), u(500));
    assert_eq!(a.gravity(), 650);
}

#[test]
fn targeted_ground_shot() {
    let a = ground_only();
    let car = car_at_origin();
    let req = a.target(&ball_at(2000, 0, 0), &car, &Vec3::new(1000, 0, 0), 360, 0).unwrap();
    assert_eq!(req.goal.position, at(2000 - 92 - 320, 0, 0));
    assert_eq!(req.start.position, at(0, 0, 0));
    assert_eq!(req.start.heading, Vec3::new(1000, 0, 0));
    assert_eq!(req.max_length, u(3000 + 66));
    assert_eq!(req.approach, u(320));
    assert!(req.is_forwards);
    let path = Path { start: req.start, rho: req.rho, kind: PathKind::LSL, lengths: [0, u(1588), 0] };
    let r = req.complete(Some(path)).unwrap();
    assert_eq!(r.distances, [0, u(1588), 0, u(320)]);
    assert!(req.complete(None).is_err());
    // path and approach together may use the whole reach of 3066, no more
    let full = Path { start: req.start, rho: req.rho, kind: PathKind::LSL, lengths: [u(100), u(2546), u(100)] };
    assert_eq!(req.complete(Some(full)).unwrap().distances.iter().sum::<i64>(), u(3066));
    let long = Path { start: req.start, rho: req.rho, kind: PathKind::LSL, lengths: [u(100), u(2546) + 1, u(100)] };
    assert!(req.complete(Some(long)).is_err());
}

#[test]
fn targeted_shot_behind_goes_backwards() {
    let a = ground_only();
    let car = car_at_origin();
    let req = a.target(&ball_at(-1000, 0, 0), &car, &Vec3::new(-1000, 0, 0), 360, 0).unwrap();
    assert!(!req.is_forwards);
    assert_eq!(req.approach, u(320));
    assert_eq!(req.start.heading, Vec3::new(-1000, 0, 0));
    let later = a.target(&ball_at(-1000, 0, 0), &car, &Vec3::new(-1000, 0, 0), 480, 0).unwrap();
    assert!(later.is_forwards);
}

#[test]
fn targeted_exit_outside_field_fails() {
    let a = ground_only();
    let car = car_at_origin();
    assert!(a.target(&ball_at(0, 5100, 0), &car, &Vec3::new(0, -1000, 0), 3600, 0).is_err());
}

#[test]
fn aligned_targeted_shot_has_no_approach() {
    let a = ground_only();
    let req = a.target(&ball_at(250, 0, 0), &car_at_origin(), &Vec3::new(1000, 0, 0), 360, 0).unwrap();
    assert_eq!(req.approach, 0);
    assert_eq!(req.goal.position, at(250 - 92, 0, 0));
}

#[test]
fn override_needs_no_slice() {
    let a = Analyzer::new(Some(2000), Some(u(800)), 650, true, true, true);
    let car = car_at_origin();
    assert_eq!(a.get_max_speed(&car, 99), 2000);
    assert_eq!(a.get_max_turn_radius(&car, 99), u(800));
    assert!(a.no_target(&ball_at(2000, 0, 0), &car, 360, 99, &STAY).is_ok());
}

#[test]
fn validity_checks() {
    let car = car_at_origin();
    assert!(car.is_valid());
    assert!(ball_at(0, 0, 0).is_valid());
    assert!(!Ball { location: Vec3::new(300_000_000, 0, 0), radius: 0 }.is_valid());
    assert!(ground_only().is_valid());
    assert!(!Analyzer::new(Some(-1), None, 650, true, true, true).is_valid());
    let mut short = car_at_origin();
    // the jump curve must reach the jump ceiling
    short.jump_curve = vec![0, u(50), u(100)];
    assert!(!short.is_valid());
    let mut empty = car_at_origin();
    empty.double_jump_curve = vec![];
    assert!(!empty.is_valid());
    // directions must have unit length
    let mut half = car_at_origin();
    half.forward = Vec3::new(500, 0, 0);
    assert!(!half.is_valid());
    let mut rounded = car_at_origin();
    rounded.landing_forward = Vec3::new(707, 707, 0);
    assert!(rounded.is_valid());
}
