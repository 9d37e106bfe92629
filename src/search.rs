//! The decisions of the per-tick search over predicted slices: which slices
//! to analyze, when to stop, and which success to keep.
use crate::geom::{Vec3, MAX_COORD};
use vstd::prelude::*;

verus! {

/// Half the length of the field along y (5120 field units), beyond which
/// the ball has left play.
pub const FIELD_HALF_LENGTH: i64 = 614_400;

/// What the search does with one predicted slice.
#[derive(Clone, Copy, Debug, PartialEq, Eq, Structural)]
pub enum SliceVerdict {
    /// The ball has left the field: no later slice can be hit.
    Stop,
    /// The ball is too high to reach from the ground: try the next slice.
    Skip,
    /// Analyze this slice.
    Analyze,
}

pub open spec fn screen_spec(location: Vec3, collision_radius: int, dist_from_side: int) -> SliceVerdict {
    let y = if location.y >= 0 { location.y as int } else { -location.y };
    if y > FIELD_HALF_LENGTH + collision_radius {
        SliceVerdict::Stop
    } else if location.z > dist_from_side {
        SliceVerdict::Skip
    } else {
        SliceVerdict::Analyze
    }
}

/// Screens a slice with the ball at `location`: past the end of the field
/// (more than `FIELD_HALF_LENGTH` plus the collision radius from the centre
/// line) the search stops; above `dist_from_side` the slice is skipped.
pub fn screen_slice(location: &Vec3, collision_radius: i64, dist_from_side: i64) -> (r:
    SliceVerdict)
    requires
        location.valid(),
        0 <= collision_radius <= MAX_COORD,
    ensures
        r == screen_spec(*location, collision_radius as int, dist_from_side as int),
{
    let y = if location.y >= 0 {
        location.y
    } else {
        -location.y
    };
    if y > FIELD_HALF_LENGTH + collision_radius {
        SliceVerdict::Stop
    } else if location.z > dist_from_side {
        SliceVerdict::Skip
    } else {
        SliceVerdict::Analyze
    }
}

/// Whether a search can find anything at all: there are predicted slices,
/// and the agent is neither demolished nor in the air.
pub fn can_search(num_slices: usize, demolished: bool, airborne: bool) -> (r: bool)
    ensures
        r == (num_slices > 0 && !demolished && !airborne),
{
    num_slices > 0 && !demolished && !airborne
}

/// The state of a search: the time of the first shot found, and whether
/// the search is over.
#[derive(Clone, Copy, Debug, PartialEq, Eq, Structural)]
pub struct ShotSearch {
    pub found_time: Option<i64>,
    pub finished: bool,
}

impl ShotSearch {
    pub fn new() -> (r: ShotSearch)
        ensures
            r.found_time is None,
            !r.finished,
    {
        ShotSearch { found_time: None, finished: false }
    }

    /// Takes one slice of the search: `verdict` is how the slice screened,
    /// `reachable` whether its analysis succeeded, `time` its time. A slice
    /// past the field ends the search; a reachable one is recorded. Returns
    /// whether to keep the slice's shot. A finished search stays as it is.
    pub fn step(&mut self, verdict: SliceVerdict, reachable: bool, time: i64, all: bool) -> (keep:
        bool)
        ensures
            old(self).finished ==> !keep && *final(self) == *old(self),
            !old(self).finished && verdict == SliceVerdict::Stop ==> !keep && final(self).finished
                && final(self).found_time == old(self).found_time,
            !old(self).finished && (verdict == SliceVerdict::Skip || (verdict
                == SliceVerdict::Analyze && !reachable)) ==> !keep && *final(self) == *old(self),
            !old(self).finished && verdict == SliceVerdict::Analyze && reachable ==> keep == (old(
                self,
            ).found_time is None) && (keep ==> final(self).found_time == Some(time)
                && final(self).finished == !all) && (!keep ==> *final(self) == *old(self)),
    {
        if self.finished {
            return false;
        }
        match verdict {
            SliceVerdict::Stop => {
                self.finished = true;
                false
            },
            SliceVerdict::Skip => false,
            SliceVerdict::Analyze => if reachable {
                self.record(time, all)
            } else {
                false
            },
        }
    }

    /// Records a feasible shot at `time`. Only the first one counts: the
    /// result says whether to keep its shot. Unless `all` is set, the search
    /// ends with it.
    pub fn record(&mut self, time: i64, all: bool) -> (keep: bool)
        ensures
            keep == old(self).found_time is None,
            keep ==> final(self).found_time == Some(time) && final(self).finished == !all,
            !keep ==> *final(self) == *old(self),
    {
        if self.found_time.is_none() {
            self.found_time = Some(time);
            self.finished = !all;
            true
        } else {
            false
        }
    }
}

} // verus!
