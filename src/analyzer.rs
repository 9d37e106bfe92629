use crate::geom::{
    distance, distance_spec, normalize_flat, normalize_flat_spec, scale, scale_spec,
    scale_unit_bound, Vec3, MAX_COORD, UNIT,
};
use vstd::prelude::*;

verus! {

/// Ticks in one second of game time.
pub const TICKS_PER_SECOND: i64 = 120;

/// Longest time span, in ticks, that the analyzer accepts (one minute).
pub const MAX_TIME: i64 = 7_200;

/// Largest speed, in field units per second, that the analyzer accepts.
pub const MAX_SPEED: i64 = 100_000;

/// Longest distance, in sub-units, covered in `MAX_TIME` at `MAX_SPEED`.
pub const MAX_TRAVEL: i64 = 720_000_000;

/// Largest hitbox dimension, contact radius or turn radius (10000 field units).
pub const MAX_SIZE: i64 = 1_200_000;

/// Height above the agent's half-height below which a contact is a ground
/// shot (17 field units).
pub const GROUND_MARGIN: i64 = 2_040;

/// Run-up that a ground shot needs when the agent is not already lined up
/// (320 field units).
pub const GROUND_RUN_UP: i64 = 38_400;

/// Distance added to the horizontal travel of a jump before contact (128
/// field units).
pub const JUMP_MARGIN: i64 = 15_360;

/// Below this many ticks left, a shot that points away from the agent is
/// taken driving backwards (four seconds).
pub const REVERSE_WINDOW: i64 = 480;

/// `ALIGN_NUM / ALIGN_DEN` is the squared cosine of the largest planar angle
/// (0.02 rad) at which the agent counts as lined up with a shot.
pub const ALIGN_NUM: i128 = 999_600_053;

pub const ALIGN_DEN: i128 = 1_000_000_000;

/// The single outcome of a rejected analysis.
#[derive(Clone, Copy, Debug, PartialEq, Eq, Structural)]
pub struct Infeasible;

/// How the agent reaches the contact height.
#[derive(Clone, Copy, Debug, PartialEq, Eq, Structural)]
pub enum ShotType {
    Ground,
    Jump,
    DoubleJump,
}

/// The playable area: a rectangle centred on the origin.
#[derive(Clone, Copy, Debug, PartialEq, Eq, Structural)]
pub struct Field {
    pub half_x: i64,
    pub half_y: i64,
}

impl Field {
    pub open spec fn contains_spec(&self, p: Vec3) -> bool {
        -self.half_x <= p.x <= self.half_x && -self.half_y <= p.y <= self.half_y
    }

    /// Whether the planar position of `p` lies in the field.
    pub fn is_point_in(&self, p: &Vec3) -> (r: bool)
        ensures
            r == self.contains_spec(*p),
    {
        let (x, y) = (p.x as i128, p.y as i128);
        -(self.half_x as i128) <= x && x <= self.half_x as i128 && -(self.half_y as i128) <= y && y
            <= self.half_y as i128
    }
}

/// One predicted position of the target.
#[derive(Clone, Copy, Debug, PartialEq, Eq, Structural)]
pub struct Ball {
    pub location: Vec3,
    pub radius: i64,
}

impl Ball {
    pub open spec fn valid(&self) -> bool {
        self.location.valid() && 0 <= self.radius <= MAX_SIZE
    }

    pub fn is_valid(&self) -> (r: bool)
        ensures
            r == self.valid(),
    {
        self.location.is_within(MAX_COORD) && 0 <= self.radius && self.radius <= MAX_SIZE
    }
}

/// Whether every value of `v` lies in `lo..=hi`.
fn all_in(v: &Vec<i64>, lo: i64, hi: i64) -> (r: bool)
    ensures
        r == forall|i: int| 0 <= i < v@.len() ==> lo <= #[trigger] v@[i] <= hi,
{
    let mut i: usize = 0;
    while i < v.len()
        invariant
            0 <= i <= v@.len(),
            forall|j: int| 0 <= j < i ==> lo <= #[trigger] v@[j] <= hi,
        decreases v@.len() - i,
    {
        if v[i] < lo || v[i] > hi {
            return false;
        }
        i += 1;
    }
    true
}

/// Whether `curve` reaches doubled height `need2` at some tick.
fn does_reach(curve: &Vec<i64>, need2: i128) -> (r: bool)
    requires
        forall|i: int| 0 <= i < curve@.len() ==> -MAX_COORD <= #[trigger] curve@[i] <= MAX_COORD,
    ensures
        r == curve_reaches(curve@, need2 as int),
{
    let mut i: usize = 0;
    while i < curve.len()
        invariant
            0 <= i <= curve@.len(),
            forall|j: int| 0 <= j < curve@.len() ==> -MAX_COORD <= #[trigger] curve@[j] <= MAX_COORD,
            forall|j: int| 0 <= j < i ==> !reaches(curve@, j, need2 as int),
        decreases curve@.len() - i,
    {
        if 2 * (curve[i] as i128) >= need2 {
            assert(reaches(curve@, i as int, need2 as int));
            return true;
        }
        i += 1;
    }
    false
}

/// A snapshot of the agent's state and capabilities.
#[derive(Clone, Debug)]
pub struct Car {
    pub location: Vec3,
    /// Unit direction the agent faces.
    pub forward: Vec3,
    /// Unit direction to the agent's right.
    pub right: Vec3,
    pub hitbox_length: i64,
    pub hitbox_width: i64,
    pub hitbox_height: i64,
    /// Forward offset of the hitbox from the agent's reference point.
    pub hitbox_offset_x: i64,
    /// Where the agent will touch the ground.
    pub landing_location: Vec3,
    /// Unit direction the agent will face when it lands.
    pub landing_forward: Vec3,
    /// Unit direction to the agent's right when it lands.
    pub landing_right: Vec3,
    /// Ticks until the agent lands.
    pub landing_time: i64,
    /// Highest speed reachable by each future slice.
    pub max_speed: Vec<i64>,
    /// Tightest turn radius at each future slice's speed.
    pub ctrms: Vec<i64>,
    pub max_jump_height: i64,
    pub max_double_jump_height: i64,
    /// Height gained by a jump after each tick.
    pub jump_curve: Vec<i64>,
    /// Height gained by a double jump after each tick.
    pub double_jump_curve: Vec<i64>,
    /// Ticks that a single jump lasts at most.
    pub max_jump_time: i64,
    /// Gravity that the jump curves were computed for.
    pub gravity: i64,
    pub field: Field,
}

pub open spec fn dir_ok(v: Vec3) -> bool {
    v.within(UNIT as int)
}

/// A direction of length `UNIT`, to within the rounding of its coordinates.
pub open spec fn unit_dir(v: Vec3) -> bool {
    dir_ok(v) && (UNIT - 2) * (UNIT - 2) <= v.len_sq_spec() <= (UNIT + 2) * (UNIT + 2)
}

/// Whether `v` is a direction of length `UNIT`, to within rounding.
pub fn is_unit_dir(v: &Vec3) -> (r: bool)
    ensures
        r == unit_dir(*v),
{
    if !v.is_within(UNIT) {
        return false;
    }
    let l = v.dot(v);
    assert((UNIT - 2) * (UNIT - 2) == 996_004 && (UNIT + 2) * (UNIT + 2) == 1_004_004);
    996_004 <= l && l <= 1_004_004
}

pub open spec fn size_ok(v: int) -> bool {
    0 <= v <= MAX_SIZE
}

impl Car {
    /// Every quantity lies in the range the analyzer works with.
    pub open spec fn valid(&self) -> bool {
        &&& self.location.valid()
        &&& self.landing_location.valid()
        &&& unit_dir(self.forward)
        &&& unit_dir(self.right)
        &&& unit_dir(self.landing_forward)
        &&& unit_dir(self.landing_right)
        &&& size_ok(self.hitbox_length as int)
        &&& size_ok(self.hitbox_width as int)
        &&& size_ok(self.hitbox_height as int)
        &&& -MAX_SIZE <= self.hitbox_offset_x <= MAX_SIZE
        &&& 0 <= self.hitbox_offset_x + self.hitbox_length
        &&& 0 <= self.landing_time <= MAX_TIME
        &&& forall|i: int| 0 <= i < self.max_speed@.len() ==> 0 <= #[trigger] self.max_speed@[i] <= MAX_SPEED
        &&& forall|i: int| 0 <= i < self.ctrms@.len() ==> size_ok(#[trigger] self.ctrms@[i] as int)
        &&& -MAX_COORD <= self.max_jump_height <= MAX_COORD
        &&& -MAX_COORD <= self.max_double_jump_height <= MAX_COORD
        &&& forall|i: int|
            0 <= i < self.jump_curve@.len() ==> -MAX_COORD <= #[trigger] self.jump_curve@[i] <= MAX_COORD
        &&& forall|i: int|
            0 <= i < self.double_jump_curve@.len() ==> -MAX_COORD <= #[trigger] self.double_jump_curve@[i]
                <= MAX_COORD
        &&& self.jump_curve@.len() <= MAX_TIME
        &&& self.double_jump_curve@.len() <= MAX_TIME
        &&& curve_reaches(self.jump_curve@, 2 * self.max_jump_height - self.hitbox_height)
        &&& curve_reaches(
            self.double_jump_curve@,
            2 * self.max_double_jump_height - self.hitbox_height,
        )
        &&& 0 <= self.max_jump_time <= MAX_TIME
        &&& 0 <= self.field.half_x <= MAX_COORD
        &&& 0 <= self.field.half_y <= MAX_COORD
    }

    /// Whether every quantity lies in the range the analyzer works with.
    pub fn is_valid(&self) -> (r: bool)
        ensures
            r == self.valid(),
    {
        let basic = self.location.is_within(MAX_COORD) && self.landing_location.is_within(MAX_COORD)
            && is_unit_dir(&self.forward) && is_unit_dir(&self.right) && is_unit_dir(
            &self.landing_forward,
        ) && is_unit_dir(&self.landing_right)
            && 0 <= self.hitbox_length && self.hitbox_length <= MAX_SIZE && 0 <= self.hitbox_width
            && self.hitbox_width <= MAX_SIZE && 0 <= self.hitbox_height && self.hitbox_height
            <= MAX_SIZE && -MAX_SIZE <= self.hitbox_offset_x && self.hitbox_offset_x <= MAX_SIZE;
        if !basic || self.hitbox_offset_x + self.hitbox_length < 0 {
            return false;
        }
        let ranges = 0 <= self.landing_time && self.landing_time <= MAX_TIME && -MAX_COORD
            <= self.max_jump_height && self.max_jump_height <= MAX_COORD && -MAX_COORD
            <= self.max_double_jump_height && self.max_double_jump_height <= MAX_COORD
            && self.jump_curve.len() as u64 <= MAX_TIME as u64 && self.double_jump_curve.len() as u64
            <= MAX_TIME as u64 && 0 <= self.max_jump_time && self.max_jump_time <= MAX_TIME && 0
            <= self.field.half_x && self.field.half_x <= MAX_COORD && 0 <= self.field.half_y
            && self.field.half_y <= MAX_COORD;
        if !ranges || !all_in(&self.max_speed, 0, MAX_SPEED) || !all_in(&self.ctrms, 0, MAX_SIZE)
            || !all_in(&self.jump_curve, -MAX_COORD, MAX_COORD) || !all_in(
            &self.double_jump_curve,
            -MAX_COORD,
            MAX_COORD,
        ) {
            return false;
        }
        does_reach(&self.jump_curve, 2 * (self.max_jump_height as i128) - self.hitbox_height as i128)
            && does_reach(
            &self.double_jump_curve,
            2 * (self.max_double_jump_height as i128) - self.hitbox_height as i128,
        )
    }

    /// Distance from the reference point to the front of the hitbox, rounded down.
    pub open spec fn front_length_spec(&self) -> int {
        (self.hitbox_offset_x + self.hitbox_length) / 2
    }

    pub fn front_length(&self) -> (r: i64)
        requires
            self.valid(),
        ensures
            r == self.front_length_spec(),
            0 <= r <= MAX_SIZE,
    {
        (self.hitbox_offset_x + self.hitbox_length) / 2
    }
}

/// Distance, in sub-units, covered in `ticks` at `speed` field units per
/// second: exactly `speed` sub-units per tick.
pub open spec fn travel_spec(ticks: int, speed: int) -> int {
    ticks * speed
}

/// Distance, in sub-units, covered in `ticks` at `speed` field units per second.
pub fn travel(ticks: i64, speed: i64) -> (r: i64)
    requires
        0 <= ticks <= MAX_TIME,
        0 <= speed <= MAX_SPEED,
    ensures
        r == travel_spec(ticks as int, speed as int),
        0 <= r <= MAX_TRAVEL,
{
    assert(0 <= ticks * speed <= MAX_TIME * MAX_SPEED) by (nonlinear_arith)
        requires
            0 <= ticks <= MAX_TIME,
            0 <= speed <= MAX_SPEED,
    ;
    ticks * speed
}

/// Whether a curve reaches doubled height `need2` at tick `k`.
pub open spec fn reaches(curve: Seq<i64>, k: int, need2: int) -> bool {
    2 * curve[k] >= need2
}

/// The first tick at which `curve` reaches doubled height `need2`, if any.
pub open spec fn first_reach(curve: Seq<i64>, need2: int) -> Option<int> {
    if exists|k: int| 0 <= k < curve.len() && reaches(curve, k, need2) {
        Some(
            choose|k: int|
                0 <= k < curve.len() && reaches(curve, k, need2) && forall|j: int|
                    0 <= j < k ==> !reaches(curve, j, need2),
        )
    } else {
        None
    }
}

/// Whether `curve` reaches doubled height `need2` at some tick.
pub open spec fn curve_reaches(curve: Seq<i64>, need2: int) -> bool {
    exists|k: int| 0 <= k < curve.len() && reaches(curve, k, need2)
}

/// A curve that reaches a height reaches every lower one.
pub proof fn curve_reaches_lower(curve: Seq<i64>, need2: int, lower2: int)
    requires
        curve_reaches(curve, need2),
        lower2 <= need2,
    ensures
        curve_reaches(curve, lower2),
{
    let k = choose|k: int| 0 <= k < curve.len() && reaches(curve, k, need2);
    assert(reaches(curve, k, lower2));
}

/// Ticks until `curve` first reaches doubled height `need2`.
pub fn time_to_height(curve: &Vec<i64>, need2: i64) -> (r: i64)
    requires
        curve@.len() <= MAX_TIME,
        forall|i: int| 0 <= i < curve@.len() ==> -MAX_COORD <= #[trigger] curve@[i] <= MAX_COORD,
        curve_reaches(curve@, need2 as int),
    ensures
        0 <= r < curve@.len(),
        reaches(curve@, r as int, need2 as int),
        forall|j: int| 0 <= j < r ==> !reaches(curve@, j, need2 as int),
        first_reach(curve@, need2 as int) == Some(r as int),
{
    let mut k: usize = 0;
    while k < curve.len()
        invariant
            0 <= k <= curve@.len() <= MAX_TIME,
            forall|i: int| 0 <= i < curve@.len() ==> -MAX_COORD <= #[trigger] curve@[i] <= MAX_COORD,
            forall|j: int| 0 <= j < k ==> !reaches(curve@, j, need2 as int),
            curve_reaches(curve@, need2 as int),
        decreases curve@.len() - k,
    {
        if 2 * curve[k] >= need2 {
            assert(reaches(curve@, k as int, need2 as int));
            let ghost w = choose|w: int|
                0 <= w < curve@.len() && reaches(curve@, w, need2 as int) && forall|j: int|
                    0 <= j < w ==> !reaches(curve@, j, need2 as int);
            assert(w == k) by {
                if w < k {
                    assert(!reaches(curve@, w, need2 as int));
                } else if w > k {
                    assert(!reaches(curve@, k as int, need2 as int));
                }
            }
            return k as i64;
        }
        k += 1;
    }
    let ghost w = choose|w: int| 0 <= w < curve@.len() && reaches(curve@, w, need2 as int);
    assert(!reaches(curve@, w, need2 as int));
    0
}

/// The three-segment shape of a bounded-curvature path (left turn, right
/// turn, straight).
#[derive(Clone, Copy, Debug, PartialEq, Eq, Structural)]
pub enum PathKind {
    LSL,
    LSR,
    RSL,
    RSR,
    RLR,
    LRL,
}

/// A planar position with a heading direction.
#[derive(Clone, Copy, Debug, PartialEq, Eq, Structural)]
pub struct Pose {
    pub position: Vec3,
    pub heading: Vec3,
}

/// A bounded-curvature path: a start pose, the turn radius, the shape and
/// the length of each of its three segments.
#[derive(Clone, Copy, Debug)]
pub struct Path {
    pub start: Pose,
    pub rho: i64,
    pub kind: PathKind,
    pub lengths: [i64; 3],
}

impl Path {
    pub open spec fn length_spec(&self) -> int {
        self.lengths[0] + self.lengths[1] + self.lengths[2]
    }

    /// Each segment length lies in `0..=MAX_TRAVEL`.
    pub open spec fn valid(&self) -> bool {
        forall|i: int| 0 <= i < 3 ==> 0 <= #[trigger] self.lengths[i] <= MAX_TRAVEL
    }

    /// Total length of the path.
    pub fn length(&self) -> (r: i64)
        requires
            self.valid(),
        ensures
            r == self.length_spec(),
    {
        let l = self.lengths;
        assert(0 <= l[0] <= MAX_TRAVEL && 0 <= l[1] <= MAX_TRAVEL && 0 <= l[2] <= MAX_TRAVEL);
        l[0] + l[1] + l[2]
    }
}

/// The outcome of a successful analysis.
#[derive(Clone, Copy, Debug)]
pub struct TargetInfo {
    /// The three segment lengths of the path, then the straight approach
    /// that follows it.
    pub distances: [i64; 4],
    pub shot_type: ShotType,
    pub path: Path,
    /// Lead time of the jump, in ticks.
    pub jump_time: Option<i64>,
    pub is_forwards: bool,
    /// Planar unit direction of the contact.
    pub shot_vector: Vec3,
}

impl TargetInfo {
    pub open spec fn total_spec(&self) -> int {
        self.distances[0] + self.distances[1] + self.distances[2] + self.distances[3]
    }
}

/// Where a turn started from the landing pose ends, and how long its arc is.
#[derive(Clone, Copy, Debug, PartialEq, Eq, Structural)]
pub struct TurnExit {
    pub point: Vec3,
    pub arc_length: i64,
}

/// The turn an untargeted shot starts with.
#[derive(Clone, Copy, Debug, PartialEq, Eq, Structural)]
pub struct TurnCircle {
    /// Centre of the turn, relative to the landing location.
    pub center: Vec3,
    pub rho: i64,
    pub turn_left: bool,
    /// Whether the target lies ahead of the agent.
    pub target_is_forwards: bool,
}

/// What a targeted shot asks of the path planner: a shortest
/// bounded-curvature path from `start` to `goal` with turn radius `rho`,
/// inside the field and no longer than `max_length`.
#[derive(Clone, Copy, Debug)]
pub struct PathRequest {
    pub start: Pose,
    pub goal: Pose,
    pub rho: i64,
    pub max_length: i64,
    pub shot_type: ShotType,
    pub jump_time: Option<i64>,
    pub is_forwards: bool,
    pub shot_vector: Vec3,
    /// The straight approach that follows the path: the clearance the shot
    /// type needs.
    pub approach: i64,
}

impl PathRequest {
    pub open spec fn complete_spec(&self, path: Option<Path>) -> Option<TargetInfo> {
        match path {
            Some(p) => if p.length_spec() + self.approach <= self.max_length {
                Some(
                    TargetInfo {
                        distances: [p.lengths[0], p.lengths[1], p.lengths[2], self.approach],
                        shot_type: self.shot_type,
                        path: p,
                        jump_time: self.jump_time,
                        is_forwards: self.is_forwards,
                        shot_vector: self.shot_vector,
                    },
                )
            } else {
                None
            },
            None => None,
        }
    }

    /// The outcome of a targeted shot given the planner's answer: no path,
    /// or one that with the approach exceeds `max_length`, is infeasible;
    /// otherwise the path's segment lengths followed by the approach.
    pub fn complete(&self, path: Option<Path>) -> (r: Result<TargetInfo, Infeasible>)
        requires
            0 <= self.approach <= MAX_TRAVEL + JUMP_MARGIN,
            path is Some ==> path->0.valid(),
            path is Some ==> path->0.start == self.start && path->0.rho == self.rho,
        ensures
            r is Ok <==> self.complete_spec(path) is Some,
            r is Ok ==> r->Ok_0 == self.complete_spec(path)->0,
            r is Ok ==> r->Ok_0.total_spec() <= self.max_length,
            r is Ok ==> forall|k: int| 0 <= k < 4 ==> 0 <= #[trigger] r->Ok_0.distances[k],
    {
        match path {
            Some(p) => {
                if p.length() + self.approach <= self.max_length {
                    Ok(
                        TargetInfo {
                            distances: [p.lengths[0], p.lengths[1], p.lengths[2], self.approach],
                            shot_type: self.shot_type,
                            path: p,
                            jump_time: self.jump_time,
                            is_forwards: self.is_forwards,
                            shot_vector: self.shot_vector,
                        },
                    )
                } else {
                    Err(Infeasible)
                }
            },
            None => Err(Infeasible),
        }
    }
}

/// Whether the planar angle between `a` and `b` exceeds 120 degrees.
pub open spec fn opposed(a: Vec3, b: Vec3) -> bool {
    let d = a.flat_spec().dot_spec(b.flat_spec());
    d < 0 && 4 * d * d > a.flat_spec().len_sq_spec() * b.flat_spec().len_sq_spec()
}

/// Whether the planar angle between two directions exceeds 120 degrees.
pub fn is_opposed(a: &Vec3, b: &Vec3) -> (r: bool)
    requires
        dir_ok(*a),
        dir_ok(*b),
    ensures
        r == opposed(*a, *b),
{
    let (af, bf) = (a.flat(), b.flat());
    let d = af.dot(&bf);
    let la = af.dot(&af);
    let lb = bf.dot(&bf);
    proof {
        planar_products_bounded(af, bf);
    }
    assert(4 * (d * d) == 4 * d * d) by (nonlinear_arith);
    d < 0 && 4 * (d * d) > la * lb
}

/// Configuration of the analyzer.
#[derive(Clone, Copy, Debug, PartialEq, Eq, Structural)]
pub struct Analyzer {
    max_speed: Option<i64>,
    max_turn_radius: Option<i64>,
    gravity: i64,
    may_ground_shot: bool,
    may_jump_shot: bool,
    may_double_jump_shot: bool,
}

/// The timing of the vertical part of a shot: the lead time of the jump, if
/// any, and the straight approach that the shot needs before contact.
pub type JumpInfo = (Option<i64>, i64);

impl Analyzer {
    pub closed spec fn max_speed_override(&self) -> Option<i64> {
        self.max_speed
    }

    pub closed spec fn max_turn_radius_override(&self) -> Option<i64> {
        self.max_turn_radius
    }

    pub closed spec fn gravity_spec(&self) -> i64 {
        self.gravity
    }

    pub closed spec fn may_ground(&self) -> bool {
        self.may_ground_shot
    }

    pub closed spec fn may_jump(&self) -> bool {
        self.may_jump_shot
    }

    pub closed spec fn may_double_jump(&self) -> bool {
        self.may_double_jump_shot
    }

    /// Whether the overrides lie in the ranges the analyzer works with.
    pub fn is_valid(&self) -> (r: bool)
        ensures
            r == self.valid(),
    {
        let speed_ok = match self.max_speed {
            Some(v) => 0 <= v && v <= MAX_SPEED,
            None => true,
        };
        let radius_ok = match self.max_turn_radius {
            Some(v) => 0 <= v && v <= MAX_SIZE,
            None => true,
        };
        speed_ok && radius_ok
    }

    /// The overrides lie in the ranges the analyzer works with.
    pub open spec fn valid(&self) -> bool {
        &&& (self.max_speed_override() is Some ==> 0 <= self.max_speed_override()->0 <= MAX_SPEED)
        &&& (self.max_turn_radius_override() is Some ==> size_ok(
            self.max_turn_radius_override()->0 as int,
        ))
    }

    pub fn new(
        max_speed: Option<i64>,
        max_turn_radius: Option<i64>,
        gravity: i64,
        may_ground_shot: bool,
        may_jump_shot: bool,
        may_double_jump_shot: bool,
    ) -> (r: Analyzer)
        ensures
            r.max_speed_override() == max_speed,
            r.max_turn_radius_override() == max_turn_radius,
            r.gravity_spec() == gravity,
            r.may_ground() == may_ground_shot,
            r.may_jump() == may_jump_shot,
            r.may_double_jump() == may_double_jump_shot,
    {
        Analyzer {
            max_speed,
            max_turn_radius,
            gravity,
            may_ground_shot,
            may_jump_shot,
            may_double_jump_shot,
        }
    }

    /// Gravity that the agent's jump curves were computed for.
    pub fn gravity(&self) -> (r: i64)
        ensures
            r == self.gravity_spec(),
    {
        self.gravity
    }

    pub open spec fn max_speed_spec(&self, car: &Car, slice_num: int) -> i64 {
        match self.max_speed_override() {
            Some(s) => s,
            None => car.max_speed@[slice_num],
        }
    }

    pub open spec fn max_turn_radius_spec(&self, car: &Car, slice_num: int) -> i64 {
        match self.max_turn_radius_override() {
            Some(r) => r,
            None => car.ctrms@[slice_num],
        }
    }

    /// The speed ceiling for a slice: the override, else the agent's own.
    pub fn get_max_speed(&self, car: &Car, slice_num: usize) -> (r: i64)
        requires
            self.max_speed_override() is Some || slice_num < car.max_speed@.len(),
        ensures
            r == self.max_speed_spec(car, slice_num as int),
    {
        match self.max_speed {
            Some(s) => s,
            None => car.max_speed[slice_num],
        }
    }

    /// The turn radius ceiling for a slice: the override, else the agent's own.
    pub fn get_max_turn_radius(&self, car: &Car, slice_num: usize) -> (r: i64)
        requires
            self.max_turn_radius_override() is Some || slice_num < car.ctrms@.len(),
        ensures
            r == self.max_turn_radius_spec(car, slice_num as int),
    {
        match self.max_turn_radius {
            Some(r) => r,
            None => car.ctrms[slice_num],
        }
    }

    /// The shot type that a contact at height `z` needs, if it is enabled.
    pub open spec fn shot_type_spec(&self, car: &Car, z: int) -> Option<ShotType> {
        if 2 * z < car.hitbox_height + 2 * GROUND_MARGIN {
            if self.may_ground() { Some(ShotType::Ground) } else { None }
        } else if z < car.max_jump_height {
            if self.may_jump() { Some(ShotType::Jump) } else { None }
        } else if z < car.max_double_jump_height {
            if self.may_double_jump() { Some(ShotType::DoubleJump) } else { None }
        } else {
            None
        }
    }

    /// Classifies the contact at `target` by the height it needs: below half
    /// the hitbox height plus `GROUND_MARGIN` it is a ground shot, below the
    /// jump ceiling a jump, below the double-jump ceiling a double jump;
    /// higher, or of a disabled type, it is infeasible.
    pub fn get_shot_type(&self, car: &Car, target: &Vec3) -> (r: Result<ShotType, Infeasible>)
        requires
            car.valid(),
            target.valid(),
        ensures
            r == (match self.shot_type_spec(car, target.z as int) {
                Some(t) => Ok(t),
                None => Err(Infeasible),
            }),
    {
        if 2 * target.z < car.hitbox_height + 2 * GROUND_MARGIN {
            if self.may_ground_shot { Ok(ShotType::Ground) } else { Err(Infeasible) }
        } else if target.z < car.max_jump_height {
            if self.may_jump_shot { Ok(ShotType::Jump) } else { Err(Infeasible) }
        } else if target.z < car.max_double_jump_height {
            if self.may_double_jump_shot { Ok(ShotType::DoubleJump) } else { Err(Infeasible) }
        } else {
            Err(Infeasible)
        }
    }
}

/// Bounds on the planar products of two directions.
proof fn planar_products_bounded(af: Vec3, bf: Vec3)
    requires
        dir_ok(af),
        dir_ok(bf),
        af.z == 0,
        bf.z == 0,
    ensures
        ({
            let d = af.dot_spec(bf);
            let la = af.len_sq_spec();
            let lb = bf.len_sq_spec();
            &&& -2 * UNIT * UNIT <= d <= 2 * UNIT * UNIT
            &&& 0 <= la <= 2 * UNIT * UNIT
            &&& 0 <= lb <= 2 * UNIT * UNIT
            &&& 0 <= d * d <= 4 * UNIT * UNIT * UNIT * UNIT
            &&& 0 <= la * lb <= 4 * UNIT * UNIT * UNIT * UNIT
        }),
{
    let d = af.dot_spec(bf);
    let la = af.len_sq_spec();
    let lb = bf.len_sq_spec();
    assert(-2 * UNIT * UNIT <= d <= 2 * UNIT * UNIT) by (nonlinear_arith)
        requires
            d == af.x * bf.x + af.y * bf.y,
            -UNIT <= af.x <= UNIT,
            -UNIT <= af.y <= UNIT,
            -UNIT <= bf.x <= UNIT,
            -UNIT <= bf.y <= UNIT,
    ;
    assert(0 <= la <= 2 * UNIT * UNIT && 0 <= lb <= 2 * UNIT * UNIT) by (nonlinear_arith)
        requires
            la == af.x * af.x + af.y * af.y,
            lb == bf.x * bf.x + bf.y * bf.y,
            -UNIT <= af.x <= UNIT,
            -UNIT <= af.y <= UNIT,
            -UNIT <= bf.x <= UNIT,
            -UNIT <= bf.y <= UNIT,
    ;
    assert(0 <= d * d <= 4 * UNIT * UNIT * UNIT * UNIT) by (nonlinear_arith)
        requires
            -2 * UNIT * UNIT <= d <= 2 * UNIT * UNIT,
    ;
    assert(0 <= la * lb <= 4 * UNIT * UNIT * UNIT * UNIT) by (nonlinear_arith)
        requires
            0 <= la <= 2 * UNIT * UNIT,
            0 <= lb <= 2 * UNIT * UNIT,
    ;
}

/// Whether the planar angle between `a` and `b` is below 0.02 rad.
pub open spec fn nearly_aligned(a: Vec3, b: Vec3) -> bool {
    let d = a.flat_spec().dot_spec(b.flat_spec());
    d > 0 && d * d * ALIGN_DEN > ALIGN_NUM * a.flat_spec().len_sq_spec() * b.flat_spec().len_sq_spec()
}

/// Whether the planar angle between two directions is below 0.02 rad.
pub fn is_nearly_aligned(a: &Vec3, b: &Vec3) -> (r: bool)
    requires
        dir_ok(*a),
        dir_ok(*b),
    ensures
        r == nearly_aligned(*a, *b),
{
    let (af, bf) = (a.flat(), b.flat());
    let d = af.dot(&bf);
    let la = af.dot(&af);
    let lb = bf.dot(&bf);
    proof {
        planar_products_bounded(af, bf);
    }
    let dd = d * d;
    let ll = la * lb;
    assert(0 <= dd * ALIGN_DEN <= 4 * UNIT * UNIT * UNIT * UNIT * ALIGN_DEN) by (nonlinear_arith)
        requires
            0 <= dd <= 4 * UNIT * UNIT * UNIT * UNIT,
    ;
    assert(0 <= ALIGN_NUM * ll <= 4 * UNIT * UNIT * UNIT * UNIT * ALIGN_DEN) by (nonlinear_arith)
        requires
            0 <= ll <= 4 * UNIT * UNIT * UNIT * UNIT,
    ;
    assert(ALIGN_NUM * ll == ALIGN_NUM * la * lb) by (nonlinear_arith)
        requires
            ll == la * lb,
    ;
    d > 0 && dd * ALIGN_DEN > ALIGN_NUM * ll
}

impl Analyzer {
    /// Whether the agent is already lined up for a ground shot at `ball_location`
    /// along `shot_vector`: the contact lies less than `GROUND_RUN_UP` ahead,
    /// within half the hitbox width sideways, and the agent faces the shot.
    pub open spec fn pre_aligned(car: &Car, ball_location: Vec3, shot_vector: Vec3) -> bool {
        let o = ball_location.sub_spec(car.location);
        let f = car.forward.dot_spec(o);
        let l = car.right.dot_spec(o);
        &&& 0 <= f < GROUND_RUN_UP * UNIT
        &&& -(car.hitbox_width * UNIT) < 2 * l < car.hitbox_width * UNIT
        &&& nearly_aligned(car.forward, shot_vector)
    }

    /// The lead time and approach of a jump that must reach doubled height `need2`.
    pub open spec fn lift_spec(curve: Seq<i64>, need2: int, max_speed: int) -> Option<JumpInfo> {
        match first_reach(curve, need2) {
            Some(k) => Some(
                (Some(k as i64), (travel_spec(k, max_speed) + JUMP_MARGIN) as i64),
            ),
            None => None,
        }
    }

    pub open spec fn jump_info_spec(
        &self,
        car: &Car,
        ball_location: Vec3,
        target: Vec3,
        shot_vector: Vec3,
        max_speed: int,
        time_remaining: int,
        shot_type: ShotType,
    ) -> Option<JumpInfo> {
        let need2 = 2 * target.z - car.hitbox_height;
        match shot_type {
            ShotType::Ground => Some(
                (
                    None,
                    if Self::pre_aligned(car, ball_location, shot_vector) {
                        0
                    } else {
                        GROUND_RUN_UP
                    },
                ),
            ),
            ShotType::Jump => Self::lift_spec(car.jump_curve@, need2, max_speed),
            ShotType::DoubleJump => if time_remaining > car.max_jump_time {
                None
            } else {
                Self::lift_spec(car.double_jump_curve@, need2, max_speed)
            },
        }
    }

    /// Whether the agent turns left towards `target`: it turns towards the
    /// side the target lies on, so left when the target's offset points
    /// against the agent's right-hand direction.
    pub open spec fn turns_left(car: &Car, target: Vec3) -> bool {
        car.right.dot_spec(target.sub_spec(car.location)) < 0
    }

    /// The largest distance an untargeted shot may cover.
    pub open spec fn no_target_max_distance(
        &self,
        ball: &Ball,
        car: &Car,
        time_remaining: int,
        slice_num: int,
    ) -> int {
        travel_spec(time_remaining - car.landing_time, self.max_speed_spec(car, slice_num) as int)
            + car.front_length_spec() + ball.radius
    }

    /// The outcome of an untargeted shot once the lead time and approach are known.
    pub open spec fn no_target_turn_spec(
        &self,
        ball: &Ball,
        car: &Car,
        time_remaining: int,
        slice_num: int,
        exit: TurnExit,
        shot_type: ShotType,
        info: JumpInfo,
    ) -> Option<TargetInfo> {
        let front = car.front_length_spec();
        let t = time_remaining - car.landing_time;
        let max_d = self.no_target_max_distance(ball, car, time_remaining, slice_num);
        let car_loc = car.landing_location.flat_spec();
        let p = exit.point.flat_spec();
        let turn_final = distance_spec(p, ball.location) - ball.radius - front;
        if info.0 is Some && info.0->0 > t {
            None
        } else if turn_final < info.1 || turn_final + distance_spec(p, car_loc) > max_d {
            None
        } else if turn_final + exit.arc_length > max_d {
            None
        } else if !car.field.contains_spec(p) {
            None
        } else {
            Some(
                TargetInfo {
                    distances: [exit.arc_length, 0, 0, turn_final as i64],
                    shot_type,
                    path: Path {
                        start: Pose { position: car_loc, heading: car.landing_forward },
                        rho: self.max_turn_radius_spec(car, slice_num),
                        kind: if Self::turns_left(car, ball.location) {
                            PathKind::LSR
                        } else {
                            PathKind::RSL
                        },
                        lengths: [exit.arc_length, 0, 0],
                    },
                    jump_time: info.0,
                    is_forwards: true,
                    shot_vector: normalize_flat_spec(ball.location.flat_spec().sub_spec(p)),
                },
            )
        }
    }

    /// The outcome of an untargeted shot that leaves its first turn at `exit`.
    pub open spec fn no_target_spec(
        &self,
        ball: &Ball,
        car: &Car,
        time_remaining: int,
        slice_num: int,
        exit: TurnExit,
    ) -> Option<TargetInfo> {
        let t = time_remaining - car.landing_time;
        let max_d = self.no_target_max_distance(ball, car, time_remaining, slice_num);
        let car_loc = car.landing_location.flat_spec();
        if car.landing_time >= time_remaining {
            None
        } else if car_loc.dist_sq_spec(ball.location.flat_spec()) > max_d * max_d {
            None
        } else {
            match self.shot_type_spec(car, ball.location.z as int) {
                None => None,
                Some(st) => {
                    let info = if st == ShotType::Ground {
                        Some((None, 0i64))
                    } else {
                        self.jump_info_spec(
                            car,
                            ball.location,
                            ball.location,
                            car.forward,
                            self.max_speed_spec(car, slice_num) as int,
                            t,
                            st,
                        )
                    };
                    match info {
                        None => None,
                        Some(i) => self.no_target_turn_spec(
                            ball,
                            car,
                            time_remaining,
                            slice_num,
                            exit,
                            st,
                            i,
                        ),
                    }
                },
            }
        }
    }

    /// The turn that an untargeted shot at `ball` starts with: towards the
    /// side the ball lies on, at the turn radius ceiling of the slice.
    pub fn turn_circle(&self, ball: &Ball, car: &Car, slice_num: usize) -> (r: TurnCircle)
        requires
            self.valid(),
            car.valid(),
            ball.valid(),
            self.max_turn_radius_override() is Some || slice_num < car.ctrms@.len(),
        ensures
            r.rho == self.max_turn_radius_spec(car, slice_num as int),
            r.turn_left == Self::turns_left(car, ball.location),
            r.target_is_forwards == (car.forward.dot_spec(ball.location.sub_spec(car.location))
                >= 0),
            r.center.z == 0,
            r.center.x == scale_spec(
                if r.turn_left { -car.landing_right.x } else { car.landing_right.x as int },
                r.rho as int,
                UNIT as int,
            ),
            r.center.y == scale_spec(
                if r.turn_left { -car.landing_right.y } else { car.landing_right.y as int },
                r.rho as int,
                UNIT as int,
            ),
    {
        let rho = self.get_max_turn_radius(car, slice_num);
        let o = ball.location.sub(&car.location);
        let turn_left = car.right.dot(&o) < 0;
        let target_is_forwards = car.forward.dot(&o) >= 0;
        let (rx, ry) = if turn_left {
            (-car.landing_right.x, -car.landing_right.y)
        } else {
            (car.landing_right.x, car.landing_right.y)
        };
        TurnCircle {
            center: Vec3 { x: scale(rx, rho, UNIT), y: scale(ry, rho, UNIT), z: 0 },
            rho,
            turn_left,
            target_is_forwards,
        }
    }

    /// Whether the agent can hit `ball` after one turn that ends at `exit`
    /// and a straight drive at the ball, with no preferred direction. The
    /// checks, in order: the agent has landed before `time_remaining`; the
    /// straight distance to the ball is within reach; the contact height
    /// has an enabled shot type; the jump, if any, fits in the time left;
    /// the straight run from `exit` leaves room for the approach and the
    /// whole path is within reach; `exit` lies in the field. The straight
    /// run from `exit` to the contact must be at least the approach that
    /// the shot type needs.
    pub fn no_target(
        &self,
        ball: &Ball,
        car: &Car,
        time_remaining: i64,
        slice_num: usize,
        exit: &TurnExit,
    ) -> (r: Result<TargetInfo, Infeasible>)
        requires
            self.valid(),
            car.valid(),
            ball.valid(),
            self.max_speed_override() is Some || slice_num < car.max_speed@.len(),
            self.max_turn_radius_override() is Some || slice_num < car.ctrms@.len(),
            car.gravity == self.gravity_spec(),
            -MAX_TIME <= time_remaining <= MAX_TIME,
            exit.point.valid(),
            0 <= exit.arc_length <= MAX_TRAVEL,
        ensures
            r is Ok <==> self.no_target_spec(
                ball,
                car,
                time_remaining as int,
                slice_num as int,
                *exit,
            ) is Some,
            r is Ok ==> r->Ok_0 == self.no_target_spec(
                ball,
                car,
                time_remaining as int,
                slice_num as int,
                *exit,
            )->0,
            r is Ok ==> r->Ok_0.total_spec() <= self.no_target_max_distance(
                ball,
                car,
                time_remaining as int,
                slice_num as int,
            ),
            r is Ok ==> forall|k: int| 0 <= k < 4 ==> 0 <= #[trigger] r->Ok_0.distances[k],
    {
        let front = car.front_length();
        if car.landing_time >= time_remaining {
            return Err(Infeasible);
        }
        let max_speed = self.get_max_speed(car, slice_num);
        let t = time_remaining - car.landing_time;
        let car_loc = car.landing_location.flat();
        let max_d = travel(t, max_speed) + front + ball.radius;
        let md = max_d as i128;
        assert(0 <= md * md <= 1_000_000_000_000_000_000) by (nonlinear_arith)
            requires
                0 <= md <= 800_000_000,
        ;
        if car_loc.dist_sq(&ball.location.flat()) > md * md {
            return Err(Infeasible);
        }
        let shot_type = self.get_shot_type(car, &ball.location)?;
        let (jump_time, end_distance) = if shot_type == ShotType::Ground {
            (None, 0i64)
        } else {
            self.get_jump_info(
                car,
                &ball.location,
                &ball.location,
                &car.forward,
                max_speed,
                t,
                shot_type,
            )?
        };
        if let Some(jt) = jump_time {
            if jt > t {
                return Err(Infeasible);
            }
        }
        let rho = self.get_max_turn_radius(car, slice_num);
        let o = ball.location.sub(&car.location);
        let turn_left = car.right.dot(&o) < 0;
        let p = exit.point.flat();
        let turn_final = distance(&p, &ball.location) - ball.radius - front;
        if turn_final < end_distance || turn_final + distance(&p, &car_loc) > max_d {
            return Err(Infeasible);
        }
        if turn_final + exit.arc_length > max_d {
            return Err(Infeasible);
        }
        if !car.field.is_point_in(&p) {
            return Err(Infeasible);
        }
        let path = Path {
            start: Pose { position: car_loc, heading: car.landing_forward },
            rho,
            kind: if turn_left {
                PathKind::LSR
            } else {
                PathKind::RSL
            },
            lengths: [exit.arc_length, 0, 0],
        };
        let shot_vector = normalize_flat(&ball.location.flat().sub(&p));
        Ok(
            TargetInfo {
                distances: [exit.arc_length, 0, 0, turn_final],
                shot_type,
                path,
                jump_time,
                is_forwards: true,
                shot_vector,
            },
        )
    }

    /// The contact point of a targeted shot: the ball's centre moved back
    /// along `shot_vector` by its radius.
    pub open spec fn contact_spec(ball: &Ball, shot_vector: Vec3) -> Vec3 {
        Vec3 {
            x: (ball.location.x - scale_spec(shot_vector.x as int, ball.radius as int, UNIT as int)) as i64,
            y: (ball.location.y - scale_spec(shot_vector.y as int, ball.radius as int, UNIT as int)) as i64,
            z: (ball.location.z - scale_spec(shot_vector.z as int, ball.radius as int, UNIT as int)) as i64,
        }
    }

    /// Where the path of a targeted shot ends: `end_distance` before the
    /// contact, against the planar direction of the shot.
    pub open spec fn exit_spec(contact: Vec3, shot_vector: Vec3, end_distance: int) -> Vec3 {
        let d = normalize_flat_spec(shot_vector);
        Vec3 {
            x: (contact.x - scale_spec(d.x as int, end_distance, UNIT as int)) as i64,
            y: (contact.y - scale_spec(d.y as int, end_distance, UNIT as int)) as i64,
            z: 0,
        }
    }

    /// The largest distance a targeted shot may cover.
    pub open spec fn target_max_distance(&self, car: &Car, time_remaining: int, slice_num: int) -> int {
        travel_spec(time_remaining - car.landing_time, self.max_speed_spec(car, slice_num) as int)
            + car.front_length_spec()
    }

    /// The planner request of a targeted shot once the lead time and approach are known.
    pub open spec fn target_plan_spec(
        &self,
        ball: &Ball,
        car: &Car,
        shot_vector: Vec3,
        time_remaining: int,
        slice_num: int,
        shot_type: ShotType,
        info: JumpInfo,
    ) -> Option<PathRequest> {
        let t = time_remaining - car.landing_time;
        let max_d = self.target_max_distance(car, time_remaining, slice_num);
        let car_loc = car.landing_location.flat_spec();
        let contact = Self::contact_spec(ball, shot_vector);
        let exit = Self::exit_spec(contact, shot_vector, info.1 as int);
        let backwards = t < REVERSE_WINDOW && opposed(shot_vector, car.landing_forward);
        if info.0 is Some && info.0->0 > t {
            None
        } else if !car.field.contains_spec(exit) || distance_spec(car_loc, exit) + info.1 > max_d {
            None
        } else {
            Some(
                PathRequest {
                    start: Pose {
                        position: car_loc,
                        heading: if backwards {
                            Vec3 {
                                x: -car.landing_forward.x as i64,
                                y: -car.landing_forward.y as i64,
                                z: -car.landing_forward.z as i64,
                            }
                        } else {
                            car.landing_forward
                        },
                    },
                    goal: Pose { position: exit, heading: shot_vector.flat_spec() },
                    rho: self.max_turn_radius_spec(car, slice_num),
                    max_length: max_d as i64,
                    shot_type,
                    jump_time: info.0,
                    is_forwards: !backwards,
                    shot_vector,
                    approach: info.1,
                },
            )
        }
    }

    /// The planner request of a shot that must meet `ball` along `shot_vector`.
    pub open spec fn target_spec(
        &self,
        ball: &Ball,
        car: &Car,
        shot_vector: Vec3,
        time_remaining: int,
        slice_num: int,
    ) -> Option<PathRequest> {
        let t = time_remaining - car.landing_time;
        let max_d = self.target_max_distance(car, time_remaining, slice_num);
        let contact = Self::contact_spec(ball, shot_vector);
        if car.landing_time >= time_remaining {
            None
        } else if car.landing_location.flat_spec().dist_sq_spec(contact.flat_spec()) > max_d * max_d {
            None
        } else {
            match self.shot_type_spec(car, ball.location.z as int) {
                None => None,
                Some(st) => match self.jump_info_spec(
                    car,
                    ball.location,
                    contact,
                    shot_vector,
                    self.max_speed_spec(car, slice_num) as int,
                    t,
                    st,
                ) {
                    None => None,
                    Some(i) => self.target_plan_spec(ball, car, shot_vector, time_remaining, slice_num, st, i),
                },
            }
        }
    }

    /// Whether the agent can meet `ball` along the unit direction
    /// `shot_vector`, and if so what to ask of the path planner (finish with
    /// `PathRequest::complete`). The checks, in order: the agent has landed
    /// before `time_remaining`; the straight distance to the contact point is
    /// within reach; the contact height has an enabled shot type; the jump,
    /// if any, fits in the time left; the end of the path lies in the field
    /// and the straight distance to it plus the approach is within reach.
    /// With under `REVERSE_WINDOW` ticks left and the shot pointing more than
    /// 120 degrees away from the agent, the shot is taken driving backwards.
    pub fn target(
        &self,
        ball: &Ball,
        car: &Car,
        shot_vector: &Vec3,
        time_remaining: i64,
        slice_num: usize,
    ) -> (r: Result<PathRequest, Infeasible>)
        requires
            self.valid(),
            car.valid(),
            ball.valid(),
            unit_dir(*shot_vector),
            shot_vector.z == 0,
            self.max_speed_override() is Some || slice_num < car.max_speed@.len(),
            self.max_turn_radius_override() is Some || slice_num < car.ctrms@.len(),
            car.gravity == self.gravity_spec(),
            -MAX_TIME <= time_remaining <= MAX_TIME,
        ensures
            r is Ok <==> self.target_spec(
                ball,
                car,
                *shot_vector,
                time_remaining as int,
                slice_num as int,
            ) is Some,
            r is Ok ==> r->Ok_0 == self.target_spec(
                ball,
                car,
                *shot_vector,
                time_remaining as int,
                slice_num as int,
            )->0,
            r is Ok ==> r->Ok_0.max_length == self.target_max_distance(
                car,
                time_remaining as int,
                slice_num as int,
            ),
            r is Ok ==> 0 <= r->Ok_0.approach <= MAX_TRAVEL + JUMP_MARGIN,
            r is Ok ==> r->Ok_0.approach <= r->Ok_0.max_length,
    {
        proof {
            scale_unit_bound(shot_vector.x as int, ball.radius as int);
            scale_unit_bound(shot_vector.y as int, ball.radius as int);
            scale_unit_bound(shot_vector.z as int, ball.radius as int);
        }
        let contact = Vec3 {
            x: ball.location.x - scale(shot_vector.x, ball.radius, UNIT),
            y: ball.location.y - scale(shot_vector.y, ball.radius, UNIT),
            z: ball.location.z - scale(shot_vector.z, ball.radius, UNIT),
        };
        let front = car.front_length();
        if car.landing_time >= time_remaining {
            return Err(Infeasible);
        }
        let max_speed = self.get_max_speed(car, slice_num);
        let t = time_remaining - car.landing_time;
        let car_loc = car.landing_location.flat();
        let max_d = travel(t, max_speed) + front;
        let md = max_d as i128;
        assert(0 <= md * md <= 1_000_000_000_000_000_000) by (nonlinear_arith)
            requires
                0 <= md <= 800_000_000,
        ;
        if car_loc.dist_sq(&contact.flat()) > md * md {
            return Err(Infeasible);
        }
        let shot_type = self.get_shot_type(car, &ball.location)?;
        let (jump_time, end_distance) = self.get_jump_info(
            car,
            &ball.location,
            &contact,
            shot_vector,
            max_speed,
            t,
            shot_type,
        )?;
        if let Some(jt) = jump_time {
            if jt > t {
                return Err(Infeasible);
            }
        }
        let d = normalize_flat(shot_vector);
        proof {
            scale_unit_bound(d.x as int, end_distance as int);
            scale_unit_bound(d.y as int, end_distance as int);
        }
        let exit = Vec3 {
            x: contact.x - scale(d.x, end_distance, UNIT),
            y: contact.y - scale(d.y, end_distance, UNIT),
            z: 0,
        };
        if !car.field.is_point_in(&exit) || distance(&car_loc, &exit) + end_distance > max_d {
            return Err(Infeasible);
        }
        let backwards = t < REVERSE_WINDOW && is_opposed(shot_vector, &car.landing_forward);
        let heading = if backwards {
            Vec3 {
                x: -car.landing_forward.x,
                y: -car.landing_forward.y,
                z: -car.landing_forward.z,
            }
        } else {
            car.landing_forward
        };
        Ok(
            PathRequest {
                start: Pose { position: car_loc, heading },
                goal: Pose { position: exit, heading: shot_vector.flat() },
                rho: self.get_max_turn_radius(car, slice_num),
                max_length: max_d,
                shot_type,
                jump_time,
                is_forwards: !backwards,
                shot_vector: *shot_vector,
                approach: end_distance,
            },
        )
    }

    fn lift(curve: &Vec<i64>, need2: i64, max_speed: i64) -> (r: JumpInfo)
        requires
            curve@.len() <= MAX_TIME,
            forall|i: int| 0 <= i < curve@.len() ==> -MAX_COORD <= #[trigger] curve@[i] <= MAX_COORD,
            curve_reaches(curve@, need2 as int),
            0 <= max_speed <= MAX_SPEED,
        ensures
            Self::lift_spec(curve@, need2 as int, max_speed as int) == Some(r),
            r.0 is Some && 0 <= r.0->0 <= MAX_TIME,
            JUMP_MARGIN <= r.1 <= MAX_TRAVEL + JUMP_MARGIN,
    {
        let k = time_to_height(curve, need2);
        (Some(k), travel(k, max_speed) + JUMP_MARGIN)
    }

    /// The lead time and approach distance of a shot of type `shot_type`:
    /// a ground shot has no lead time and needs `GROUND_RUN_UP` unless the
    /// agent is already lined up; a jump or double jump leads by the ticks its
    /// curve takes to reach the contact and needs the distance covered
    /// meanwhile plus `JUMP_MARGIN`. A double jump is refused when more time
    /// remains than a single jump lasts; nothing else is refused.
    pub fn get_jump_info(
        &self,
        car: &Car,
        ball_location: &Vec3,
        target: &Vec3,
        shot_vector: &Vec3,
        max_speed: i64,
        time_remaining: i64,
        shot_type: ShotType,
    ) -> (r: Result<JumpInfo, Infeasible>)
        requires
            car.valid(),
            ball_location.valid(),
            target.within(2 * MAX_COORD),
            dir_ok(*shot_vector),
            0 <= max_speed <= MAX_SPEED,
            shot_type == ShotType::Jump ==> target.z < car.max_jump_height,
            shot_type == ShotType::DoubleJump ==> target.z < car.max_double_jump_height,
        ensures
            r is Err <==> shot_type == ShotType::DoubleJump && time_remaining > car.max_jump_time,
            r is Ok <==> self.jump_info_spec(
                car,
                *ball_location,
                *target,
                *shot_vector,
                max_speed as int,
                time_remaining as int,
                shot_type,
            ) is Some,
            r is Ok ==> r->Ok_0 == self.jump_info_spec(
                car,
                *ball_location,
                *target,
                *shot_vector,
                max_speed as int,
                time_remaining as int,
                shot_type,
            )->0,
            r is Ok ==> 0 <= r->Ok_0.1 <= MAX_TRAVEL + JUMP_MARGIN,
            r is Ok && r->Ok_0.0 is Some ==> 0 <= r->Ok_0.0->0 <= MAX_TIME,
    {
        let need2 = 2 * target.z - car.hitbox_height;
        match shot_type {
            ShotType::Ground => {
                let o = ball_location.sub(&car.location);
                let f = car.forward.dot(&o);
                let l = car.right.dot(&o);
                let w = (car.hitbox_width as i128) * (UNIT as i128);
                let aligned = 0 <= f && f < (GROUND_RUN_UP as i128) * (UNIT as i128) && -w < 2 * l
                    && 2 * l < w && is_nearly_aligned(&car.forward, shot_vector);
                Ok((None, if aligned { 0 } else { GROUND_RUN_UP }))
            },
            ShotType::Jump => {
                proof {
                    curve_reaches_lower(
                        car.jump_curve@,
                        2 * car.max_jump_height - car.hitbox_height,
                        need2 as int,
                    );
                }
                Ok(Self::lift(&car.jump_curve, need2, max_speed))
            },
            ShotType::DoubleJump => {
                if time_remaining > car.max_jump_time {
                    return Err(Infeasible);
                }
                proof {
                    curve_reaches_lower(
                        car.double_jump_curve@,
                        2 * car.max_double_jump_height - car.hitbox_height,
                        need2 as int,
                    );
                }
                Ok(Self::lift(&car.double_jump_curve, need2, max_speed))
            },
        }
    }
}

} // verus!
