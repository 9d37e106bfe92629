//! Properties that hold across the analyzer and the shot materializer.
use crate::analyzer::{
    travel_spec, Analyzer, Ball, Car, JumpInfo, PathRequest, ShotType, TurnExit, GROUND_RUN_UP,
    JUMP_MARGIN,
};
use crate::analyzer::Path;
use crate::geom::Vec3;
use crate::shot::{
    sample_count, sample_dist, segment_search, segment_search_finds_minimum, unimodal, Sample,
    Shot, STEP_DISTANCE,
};
use vstd::prelude::*;

verus! {

/// A targeted shot, path and approach together, covers at most the reach
/// it was planned with.
pub proof fn targeted_shot_within_reach(req: PathRequest, path: Option<Path>)
    requires
        req.complete_spec(path) is Some,
    ensures
        req.complete_spec(path)->0.total_spec() <= req.max_length,
{
}

/// A ground shot at a contact the agent is already lined up with needs no run-up.
pub proof fn aligned_ground_shot_needs_no_run_up(
    a: Analyzer,
    car: Car,
    ball_location: Vec3,
    target: Vec3,
    shot_vector: Vec3,
    max_speed: int,
    time_remaining: int,
)
    requires
        Analyzer::pre_aligned(&car, ball_location, shot_vector),
    ensures
        a.jump_info_spec(
            &car,
            ball_location,
            target,
            shot_vector,
            max_speed,
            time_remaining,
            ShotType::Ground,
        ) == Some::<JumpInfo>((None, 0)),
{
}

/// A ground shot that is not lined up needs the full run-up.
pub proof fn unaligned_ground_shot_needs_run_up(
    a: Analyzer,
    car: Car,
    ball_location: Vec3,
    target: Vec3,
    shot_vector: Vec3,
    max_speed: int,
    time_remaining: int,
)
    requires
        !Analyzer::pre_aligned(&car, ball_location, shot_vector),
    ensures
        a.jump_info_spec(
            &car,
            ball_location,
            target,
            shot_vector,
            max_speed,
            time_remaining,
            ShotType::Ground,
        ) == Some::<JumpInfo>((None, GROUND_RUN_UP)),
{
}

/// The approach of a jump grows with its lead time: strictly at any
/// positive speed, and never shrinks at speed zero.
pub proof fn jump_approach_grows_with_lead(lead1: int, lead2: int, speed: int)
    requires
        0 <= lead1 <= lead2,
        0 <= speed,
    ensures
        travel_spec(lead1, speed) + JUMP_MARGIN <= travel_spec(lead2, speed) + JUMP_MARGIN,
        lead1 < lead2 && speed > 0 ==> travel_spec(lead1, speed) + JUMP_MARGIN < travel_spec(
            lead2,
            speed,
        ) + JUMP_MARGIN,
{
    assert(lead1 * speed <= lead2 * speed) by (nonlinear_arith)
        requires
            0 <= lead1 <= lead2,
            0 <= speed,
    ;
    assert(lead1 < lead2 && speed > 0 ==> lead1 * speed < lead2 * speed) by (nonlinear_arith);
}

/// With every shot type disabled, every analysis fails.
pub proof fn all_disabled_always_fails(
    a: Analyzer,
    ball: Ball,
    car: Car,
    shot_vector: Vec3,
    time_remaining: int,
    slice_num: int,
    exit: TurnExit,
)
    requires
        !a.may_ground(),
        !a.may_jump(),
        !a.may_double_jump(),
    ensures
        a.no_target_spec(&ball, &car, time_remaining, slice_num, exit) is None,
        a.target_spec(&ball, &car, shot_vector, time_remaining, slice_num) is None,
{
    assert(a.shot_type_spec(&car, ball.location.z as int) is None);
}

/// A contact above the jump and double-jump ceilings, and above ground-shot
/// height, is never reachable.
pub proof fn above_ceiling_always_fails(
    a: Analyzer,
    ball: Ball,
    car: Car,
    shot_vector: Vec3,
    time_remaining: int,
    slice_num: int,
    exit: TurnExit,
)
    requires
        ball.location.z >= car.max_double_jump_height,
        ball.location.z >= car.max_jump_height,
        2 * ball.location.z >= car.hitbox_height + 2 * crate::analyzer::GROUND_MARGIN,
    ensures
        a.no_target_spec(&ball, &car, time_remaining, slice_num, exit) is None,
        a.target_spec(&ball, &car, shot_vector, time_remaining, slice_num) is None,
{
    assert(a.shot_type_spec(&car, ball.location.z as int) is None);
}

/// An agent that is still in the air when the time runs out cannot shoot.
pub proof fn airborne_until_deadline_fails(
    a: Analyzer,
    ball: Ball,
    car: Car,
    shot_vector: Vec3,
    time_remaining: int,
    slice_num: int,
    exit: TurnExit,
)
    requires
        car.landing_time >= time_remaining,
    ensures
        a.no_target_spec(&ball, &car, time_remaining, slice_num, exit) is None,
        a.target_spec(&ball, &car, shot_vector, time_remaining, slice_num) is None,
{
}

/// In a shot whose segments were each sampled every `STEP_DISTANCE` over
/// their length, the last sample of a segment lies before the segment's end
/// (so within one step of it), and the samples cover the whole segment.
pub proof fn shot_samples_within_segments(shot: Shot, seg: int)
    requires
        0 <= seg < 3,
        0 <= shot.distances[seg],
        shot.samples[seg]@.len() == sample_count(0, shot.distances[seg] as int),
        shot.samples[seg]@.len() > 0,
    ensures
        (shot.samples[seg]@.len() - 1) * STEP_DISTANCE < shot.distances[seg],
        shot.distances[seg] <= shot.samples[seg]@.len() * STEP_DISTANCE,
{
    let n = shot.samples[seg]@.len() as int;
    let l = shot.distances[seg] as int;
    assert(l > 0);
    assert((n - 1) * 1200 < l && l <= n * 1200) by (nonlinear_arith)
        requires
            n == (l + 1199) / 1200,
            l > 0,
    ;
}

/// What the search of one segment finds when the distances along it to
/// `q` fall and then rise: its nearest sample, with that sample's distance.
proof fn segment_nearest(s: Seq<Sample>, q: Vec3)
    requires
        s.len() == 0 || exists|m: int| unimodal(s, q, m),
    ensures
        s.len() == 0 ==> segment_search(s, q).1 is None,
        s.len() > 0 ==> 0 <= segment_search(s, q).0 < s.len() && segment_search(s, q).1 == Some(
            sample_dist(s[segment_search(s, q).0], q),
        ) && forall|j: int|
            0 <= j < s.len() ==> sample_dist(s[segment_search(s, q).0], q) <= sample_dist(
                #[trigger] s[j],
                q,
            ),
{
    if s.len() > 0 {
        let m = choose|m: int| unimodal(s, q, m);
        segment_search_finds_minimum(s, q, m);
    }
}

/// Where the distances to `q` fall and then rise along every non-empty
/// segment, locating `q` names a sample of the shot, and no sample of the
/// shot is nearer to `q` than the one named.
#[verifier::rlimit(100)]
pub proof fn locate_finds_nearest(shot: Shot, q: Vec3)
    requires
        forall|k: int|
            0 <= k < 3 ==> (#[trigger] shot.samples[k]@.len() == 0 || exists|m: int|
                unimodal(shot.samples[k]@, q, m)),
        exists|k: int| 0 <= k < 3 && shot.samples[k]@.len() > 0,
    ensures
        0 <= shot.nearest_spec(q).0 < 3,
        0 <= shot.nearest_spec(q).1 < shot.samples[shot.nearest_spec(q).0]@.len(),
        forall|k: int, j: int|
            0 <= k < 3 && 0 <= j < shot.samples[k]@.len() ==> sample_dist(
                shot.samples[shot.nearest_spec(q).0]@[shot.nearest_spec(q).1],
                q,
            ) <= sample_dist(#[trigger] shot.samples[k]@[j], q),
{
    let (s0, s1, s2) = (shot.samples[0]@, shot.samples[1]@, shot.samples[2]@);
    assert(s0.len() == 0 || exists|m: int| unimodal(s0, q, m));
    assert(s1.len() == 0 || exists|m: int| unimodal(s1, q, m));
    assert(s2.len() == 0 || exists|m: int| unimodal(s2, q, m));
    segment_nearest(s0, q);
    segment_nearest(s1, q);
    segment_nearest(s2, q);
    let (r0, r1, r2) = (segment_search(s0, q), segment_search(s1, q), segment_search(s2, q));
    let (sg, ix) = shot.nearest_spec(q);
    assert(0 <= sg < 3);
    let found = segment_search(shot.samples[sg]@, q);
    assert(ix == found.0 && found.1 is Some);
    let best = found.1->0;
    assert(s0.len() > 0 ==> best <= r0.1->0);
    assert(s1.len() > 0 ==> best <= r1.1->0);
    assert(s2.len() > 0 ==> best <= r2.1->0);
    assert(shot.samples[sg]@.len() > 0);
    assert(best == sample_dist(shot.samples[sg]@[ix], q));
    assert forall|k: int, j: int|
        0 <= k < 3 && 0 <= j < shot.samples[k]@.len() implies best <= sample_dist(
        #[trigger] shot.samples[k]@[j],
        q,
    ) by {
        if k == 0 {
            assert(r0.1->0 <= sample_dist(s0[j], q));
        } else if k == 1 {
            assert(r1.1->0 <= sample_dist(s1[j], q));
        } else {
            assert(r2.1->0 <= sample_dist(s2[j], q));
        }
    }
}

/// Locating a point that is sample `k` of segment `seg` gives that
/// sample's distance along the path and its overall index, when the
/// distances to the point fall and then rise along every non-empty segment
/// and no other segment holds a sample at the same place.
#[verifier::rlimit(100)]
pub proof fn locate_own_sample(shot: Shot, seg: int, k: int)
    requires
        0 <= seg < 3,
        0 <= k < shot.samples[seg]@.len(),
        forall|o: int|
            0 <= o < 3 ==> (#[trigger] shot.samples[o]@.len() == 0 || exists|m: int|
                unimodal(
                    shot.samples[o]@,
                    Vec3 { x: shot.samples[seg]@[k].0, y: shot.samples[seg]@[k].1, z: 0 },
                    m,
                )),
        forall|o: int, j: int|
            0 <= o < 3 && o != seg && 0 <= j < shot.samples[o]@.len() ==> #[trigger] shot.samples[o]@[j]
                != shot.samples[seg]@[k],
    ensures
        ({
            let q = Vec3 { x: shot.samples[seg]@[k].0, y: shot.samples[seg]@[k].1, z: 0 };
            let pre_distance = if seg == 0 {
                0
            } else if seg == 1 {
                shot.distances[0] as int
            } else {
                shot.distances[0] + shot.distances[1]
            };
            let pre_index = if seg == 0 {
                0
            } else if seg == 1 {
                shot.samples[0]@.len() as int
            } else {
                (shot.samples[0]@.len() + shot.samples[1]@.len()) as int
            };
            shot.locate_spec(q) == (pre_distance + k * STEP_DISTANCE, pre_index + k)
        }),
{
    let p = shot.samples[seg]@[k];
    let q = Vec3 { x: p.0, y: p.1, z: 0 };
    assert(shot.samples[seg]@.len() > 0);
    locate_finds_nearest(shot, q);
    let (s2, i2) = shot.nearest_spec(q);
    let found = shot.samples[s2]@[i2];
    assert(sample_dist(p, q) == 0) by (nonlinear_arith)
        requires
            q.x == p.0,
            q.y == p.1,
            q.z == 0,
    ;
    assert(sample_dist(found, q) <= sample_dist(shot.samples[seg]@[k], q));
    assert(found == p) by {
        let (a, b) = (found.0 - p.0, found.1 - p.1);
        assert(sample_dist(found, q) == a * a + b * b);
        assert(a * a + b * b <= 0 ==> a == 0 && b == 0) by (nonlinear_arith);
    }
    assert(s2 == seg);
    let s = shot.samples[seg]@;
    let m = choose|m: int| unimodal(s, q, m);
    segment_search_finds_minimum(s, q, m);
    assert(k == m) by {
        if k != m {
            assert(sample_dist(s[k], q) > sample_dist(s[m], q));
            assert(sample_dist(s[m], q) >= 0) by (nonlinear_arith)
                requires
                    sample_dist(s[m], q) == (s[m].0 - q.x) * (s[m].0 - q.x) + (s[m].1 - q.y) * (
                    s[m].1 - q.y) + q.z * q.z,
            ;
        }
    }
    assert(i2 == m) by {
        if i2 != m {
            assert(sample_dist(s[i2], q) > sample_dist(s[m], q));
        }
    }
}

} // verus!
