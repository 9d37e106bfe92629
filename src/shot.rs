use crate::analyzer::Path;
use crate::geom::{Vec3, MAX_COORD};
use vstd::prelude::*;

verus! {

/// Spacing of the samples taken along a path (10 field units).
pub const STEP_DISTANCE: i64 = 1_200;

/// A planar sample point.
pub type Sample = (i64, i64);

/// Squared distance from a planar sample to a point.
pub open spec fn sample_dist(p: Sample, q: Vec3) -> int {
    (p.0 - q.x) * (p.0 - q.x) + (p.1 - q.y) * (p.1 - q.y) + q.z * q.z
}

pub open spec fn sample_ok(p: Sample) -> bool {
    -MAX_COORD <= p.0 <= MAX_COORD && -MAX_COORD <= p.1 <= MAX_COORD
}

/// Squared distance from a planar sample to a point.
pub fn sample_distance(p: Sample, q: &Vec3) -> (r: i128)
    requires
        sample_ok(p),
        q.valid(),
    ensures
        r == sample_dist(p, *q),
{
    let dx = (p.0 as i128) - (q.x as i128);
    let dy = (p.1 as i128) - (q.y as i128);
    let dz = q.z as i128;
    assert(0 <= dx * dx <= 4 * MAX_COORD * MAX_COORD) by (nonlinear_arith)
        requires
            -2 * MAX_COORD <= dx <= 2 * MAX_COORD,
    ;
    assert(0 <= dy * dy <= 4 * MAX_COORD * MAX_COORD) by (nonlinear_arith)
        requires
            -2 * MAX_COORD <= dy <= 2 * MAX_COORD,
    ;
    assert(0 <= dz * dz <= MAX_COORD * MAX_COORD) by (nonlinear_arith)
        requires
            -MAX_COORD <= dz <= MAX_COORD,
    ;
    dx * dx + dy * dy + dz * dz
}

/// Number of samples taken on a segment from `start` to `end`: one every
/// `STEP_DISTANCE`, from `start` on, before `end`; together they cover the
/// segment to within one step.
pub open spec fn sample_count(start: int, end: int) -> int {
    if end > start {
        (end - start + STEP_DISTANCE - 1) / STEP_DISTANCE as int
    } else {
        0
    }
}

/// Distances along the path at which a segment from `start` to `end` is
/// sampled: `start`, `start + STEP_DISTANCE`, and so on while they stay
/// before `end`.
pub fn sample_distances(start: i64, end: i64) -> (r: Vec<i64>)
    requires
        0 <= start <= 1_000_000_000,
        0 <= end <= 1_000_000_000,
    ensures
        r@.len() == sample_count(start as int, end as int),
        forall|i: int| 0 <= i < r@.len() ==> #[trigger] r@[i] == start + i * STEP_DISTANCE,
        forall|i: int| 0 <= i < r@.len() ==> #[trigger] r@[i] < end,
        r@.len() > 0 ==> end <= r@[r@.len() - 1] + STEP_DISTANCE,
{
    let n: i64 = if end > start {
        (end - start + STEP_DISTANCE - 1) / STEP_DISTANCE
    } else {
        0
    };
    proof {
        if end > start {
            assert((n - 1) * 1200 < end - start && end - start <= n * 1200) by (nonlinear_arith)
                requires
                    n == (end - start + 1199) / 1200,
                    end > start,
            ;
        }
    }
    let mut r: Vec<i64> = Vec::new();
    let mut i: i64 = 0;
    while i < n
        invariant
            0 <= i <= n,
            n == sample_count(start as int, end as int),
            n <= 100_000_000,
            n > 0 ==> (n - 1) * 1200 < end - start && end - start <= n * 1200,
            r@.len() == i,
            forall|k: int| 0 <= k < r@.len() ==> #[trigger] r@[k] == start + k * STEP_DISTANCE,
            forall|k: int| 0 <= k < r@.len() ==> #[trigger] r@[k] < end,
        decreases n - i,
    {
        r.push(start + i * STEP_DISTANCE);
        i += 1;
    }
    r
}

/// Where the binary search over `s` between `lo` and `hi` ends.
pub open spec fn search_spec(s: Seq<Sample>, q: Vec3, lo: int, hi: int) -> int
    decreases hi - lo,
{
    if lo < hi {
        let mid = (lo + hi) / 2;
        if sample_dist(s[mid], q) < sample_dist(s[mid + 1], q) {
            search_spec(s, q, lo, mid)
        } else {
            search_spec(s, q, mid + 1, hi)
        }
    } else {
        lo
    }
}

/// The sample of `s` nearest to `q` as the binary search finds it, with its
/// distance (`None` when `s` is empty).
pub open spec fn segment_search(s: Seq<Sample>, q: Vec3) -> (int, Option<int>) {
    if s.len() == 0 {
        (0, None)
    } else {
        let i = search_spec(s, q, 0, s.len() - 1);
        (i, Some(sample_dist(s[i], q)))
    }
}

/// The distances to `q` fall strictly up to index `m` and rise strictly after it.
pub open spec fn unimodal(s: Seq<Sample>, q: Vec3, m: int) -> bool {
    &&& 0 <= m < s.len()
    &&& forall|i: int| 0 <= i < m ==> sample_dist(#[trigger] s[i], q) > sample_dist(s[i + 1], q)
    &&& forall|i: int|
        m <= i < s.len() - 1 ==> sample_dist(#[trigger] s[i], q) < sample_dist(s[i + 1], q)
}

/// Whether distance `a` is smaller than `b`, where `None` stands for no distance.
pub open spec fn closer(a: Option<int>, b: Option<int>) -> bool {
    a is Some && (b is None || a->0 < b->0)
}

/// When the distances to `q` are unimodal with their minimum at `m`, the
/// binary search between `lo` and `hi` around `m` ends at `m`.
pub proof fn search_finds_minimum(s: Seq<Sample>, q: Vec3, m: int, lo: int, hi: int)
    requires
        unimodal(s, q, m),
        0 <= lo <= m <= hi < s.len(),
    ensures
        search_spec(s, q, lo, hi) == m,
    decreases hi - lo,
{
    if lo < hi {
        let mid = (lo + hi) / 2;
        if sample_dist(s[mid], q) < sample_dist(s[mid + 1], q) {
            if mid < m {
                assert(sample_dist(s[mid], q) > sample_dist(s[mid + 1], q));
            }
            search_finds_minimum(s, q, m, lo, mid);
        } else {
            if mid >= m {
                assert(sample_dist(s[mid], q) < sample_dist(s[mid + 1], q));
            }
            search_finds_minimum(s, q, m, mid + 1, hi);
        }
    }
}

/// Where the distances from the samples of a segment to `q` fall and then
/// rise, the search of that segment finds the nearest sample.
pub proof fn segment_search_finds_minimum(s: Seq<Sample>, q: Vec3, m: int)
    requires
        unimodal(s, q, m),
    ensures
        segment_search(s, q).0 == m,
        forall|i: int| 0 <= i < s.len() && i != m ==> sample_dist(s[i], q) > sample_dist(s[m], q),
{
    search_finds_minimum(s, q, m, 0, s.len() - 1);
    assert forall|i: int| 0 <= i < s.len() && i != m implies sample_dist(s[i], q) > sample_dist(
        s[m],
        q,
    ) by {
        if i < m {
            falls(s, q, m, i);
        } else {
            rises(s, q, m, i);
        }
    }
}

proof fn falls(s: Seq<Sample>, q: Vec3, m: int, i: int)
    requires
        unimodal(s, q, m),
        0 <= i < m,
    ensures
        sample_dist(s[i], q) > sample_dist(s[m], q),
    decreases m - i,
{
    if i + 1 < m {
        falls(s, q, m, i + 1);
    }
    assert(sample_dist(s[i], q) > sample_dist(s[i + 1], q));
}

proof fn rises(s: Seq<Sample>, q: Vec3, m: int, i: int)
    requires
        unimodal(s, q, m),
        m < i < s.len(),
    ensures
        sample_dist(s[i], q) > sample_dist(s[m], q),
    decreases i - m,
{
    if m < i - 1 {
        rises(s, q, m, i - 1);
    }
    assert(sample_dist(s[i - 1], q) < sample_dist(s[i], q));
}

proof fn search_bounds(s: Seq<Sample>, q: Vec3, lo: int, hi: int)
    requires
        lo <= hi,
    ensures
        lo <= search_spec(s, q, lo, hi) <= hi,
    decreases hi - lo,
{
    if lo < hi {
        let mid = (lo + hi) / 2;
        search_bounds(s, q, lo, mid);
        search_bounds(s, q, mid + 1, hi);
    }
}

/// The search of a segment ends on one of its samples, or at 0 when it has none.
pub proof fn search_in_range(s: Seq<Sample>, q: Vec3)
    ensures
        0 <= segment_search(s, q).0,
        segment_search(s, q).0 < s.len() || (s.len() == 0 && segment_search(s, q).0 == 0),
{
    if s.len() > 0 {
        search_bounds(s, q, 0, s.len() - 1);
    }
}

/// A path sampled every `STEP_DISTANCE`, segment by segment.
#[derive(Clone, Debug)]
pub struct Shot {
    pub time: i64,
    pub distances: [i64; 4],
    pub all_samples: Vec<Sample>,
    pub samples: [Vec<Sample>; 3],
    pub path: Path,
}

impl Shot {
    /// `all_samples` holds the segments' samples one after another, every
    /// sample lies within `MAX_COORD`, the segment lengths are non-negative
    /// and the sample counts fit the index range.
    pub open spec fn valid(&self) -> bool {
        &&& self.all_samples@ == self.samples[0]@ + self.samples[1]@ + self.samples[2]@
        &&& forall|k: int, i: int|
            0 <= k < 3 && 0 <= i < self.samples[k]@.len() ==> sample_ok(
                #[trigger] self.samples[k]@[i],
            )
        &&& forall|k: int| 0 <= k < 3 ==> 0 <= #[trigger] self.distances[k] <= 1_000_000_000
        &&& forall|k: int| 0 <= k < 3 ==> #[trigger] self.samples[k]@.len() <= 100_000_000
    }

    /// The segment and index within it of the sample nearest to `q`.
    pub open spec fn nearest_spec(&self, q: Vec3) -> (int, int) {
        let r0 = segment_search(self.samples[0]@, q);
        let r1 = segment_search(self.samples[1]@, q);
        let r2 = segment_search(self.samples[2]@, q);
        let (b1, s1, i1) = if closer(r0.1, None) {
            (r0.1, 0int, r0.0)
        } else {
            (None::<int>, 0int, 0int)
        };
        let (b2, s2, i2) = if closer(r1.1, b1) {
            (r1.1, 1int, r1.0)
        } else {
            (b1, s1, i1)
        };
        if closer(r2.1, b2) {
            (2, r2.0)
        } else {
            (s2, i2)
        }
    }

    /// Distance along the path and overall index of the sample nearest to `q`.
    pub open spec fn locate_spec(&self, q: Vec3) -> (int, int) {
        let (seg, idx) = self.nearest_spec(q);
        let pre_distance = if seg == 0 {
            0
        } else if seg == 1 {
            self.distances[0] as int
        } else {
            self.distances[0] + self.distances[1]
        };
        let pre_index = if seg == 0 {
            0
        } else if seg == 1 {
            self.samples[0]@.len() as int
        } else {
            (self.samples[0]@.len() + self.samples[1]@.len()) as int
        };
        (pre_distance + idx * STEP_DISTANCE, pre_index + idx)
    }

    /// Binary search of segment `segment` for the sample nearest to
    /// `target`, assuming the distances fall and then rise. Returns the
    /// index found and that sample's squared distance (`None` when the
    /// segment is empty).
    fn find_min_distance_in_segment_index(&self, segment: usize, target: &Vec3) -> (r: (
        usize,
        Option<i128>,
    ))
        requires
            self.valid(),
            segment < 3,
            target.valid(),
        ensures
            r.0 == segment_search(self.samples[segment as int]@, *target).0,
            r.1 is Some <==> segment_search(self.samples[segment as int]@, *target).1 is Some,
            r.1 is Some ==> r.1->0 == segment_search(self.samples[segment as int]@, *target).1->0,
    {
        let seg = &self.samples[segment];
        let ghost s = seg@;
        let mut start_index: usize = 0;
        let length = seg.len();
        if length == 0 {
            return (0, None);
        }
        let mut end_index: usize = length - 1;
        while start_index < end_index
            invariant
                0 <= start_index <= end_index < s.len(),
                s == self.samples[segment as int]@,
                seg@ == s,
                forall|i: int| 0 <= i < s.len() ==> sample_ok(#[trigger] s[i]),
                target.valid(),
                search_spec(s, *target, start_index as int, end_index as int) == search_spec(
                    s,
                    *target,
                    0,
                    s.len() - 1,
                ),
            decreases end_index - start_index,
        {
            let mid_index = start_index + (end_index - start_index) / 2;
            assert(mid_index == (start_index + end_index) / 2);
            if sample_distance(seg[mid_index], target) < sample_distance(seg[mid_index + 1], target) {
                end_index = mid_index;
            } else {
                start_index = mid_index + 1;
            }
        }
        (start_index, Some(sample_distance(seg[start_index], target)))
    }

    /// The segment and index of the nearest sample: the segment whose found
    /// sample is nearest, the earliest among equals.
    fn find_min_distance_index(&self, target: &Vec3) -> (r: (usize, usize))
        requires
            self.valid(),
            target.valid(),
        ensures
            r.0 == self.nearest_spec(*target).0,
            r.1 == self.nearest_spec(*target).1,
            r.0 < 3,
    {
        let (i0, d0) = self.find_min_distance_in_segment_index(0, target);
        let (i1, d1) = self.find_min_distance_in_segment_index(1, target);
        let (i2, d2) = self.find_min_distance_in_segment_index(2, target);
        let mut min_distance: Option<i128> = None;
        let mut segment: usize = 0;
        let mut index: usize = 0;
        if Self::is_closer(d0, min_distance) {
            min_distance = d0;
            segment = 0;
            index = i0;
        }
        if Self::is_closer(d1, min_distance) {
            min_distance = d1;
            segment = 1;
            index = i1;
        }
        if Self::is_closer(d2, min_distance) {
            segment = 2;
            index = i2;
        }
        (segment, index)
    }

    fn is_closer(a: Option<i128>, b: Option<i128>) -> (r: bool)
        ensures
            r == closer(
                match a { Some(d) => Some(d as int), None => None },
                match b { Some(d) => Some(d as int), None => None },
            ),
    {
        match (a, b) {
            (Some(x), Some(y)) => x < y,
            (Some(_), None) => true,
            _ => false,
        }
    }

    /// Distance along the path to the sample nearest to `target`, and that
    /// sample's index in `all_samples`. The segments are searched apart,
    /// each by binary search under the assumption that the distances to
    /// `target` fall and then rise along it; the nearest of the three
    /// samples found wins.
    pub fn get_distance_along_shot_and_index(&self, target: &Vec3) -> (r: (i64, usize))
        requires
            self.valid(),
            target.valid(),
        ensures
            r.0 == self.locate_spec(*target).0,
            r.1 == self.locate_spec(*target).1,
    {
        let (segment, index) = self.find_min_distance_index(target);
        let pre_distance: i64 = if segment == 0 {
            0
        } else if segment == 1 {
            self.distances[0]
        } else {
            self.distances[0] + self.distances[1]
        };
        let pre_index: usize = if segment == 0 {
            0
        } else if segment == 1 {
            self.samples[0].len()
        } else {
            self.samples[0].len() + self.samples[1].len()
        };
        assert(0 <= self.distances[0] <= 1_000_000_000);
        assert(0 <= self.distances[1] <= 1_000_000_000);
        assert(index < self.samples[segment as int]@.len() || index == 0) by {
            search_in_range(self.samples[segment as int]@, *target);
        }
        (pre_distance + (index as i64) * STEP_DISTANCE, pre_index + index)
    }

    /// A shot at `time` along `path`, with the samples of its three
    /// segments, taken every `STEP_DISTANCE` from each segment's start (as
    /// `sample_distances` places them); `all_samples` holds them one segment
    /// after another.
    pub fn from(time: i64, path: Path, distances: [i64; 4], samples: [Vec<Sample>; 3]) -> (r: Shot)
        requires
            forall|k: int| 0 <= k < 3 ==> #[trigger] path.lengths[k] == distances[k],
            forall|k: int| 0 <= k < 3 ==> 0 <= #[trigger] distances[k],
            forall|k: int|
                0 <= k < 3 ==> #[trigger] samples[k]@.len() == sample_count(0, distances[k] as int),
        ensures
            r.time == time,
            r.path == path,
            r.distances == distances,
            r.samples == samples,
            r.all_samples@ == samples[0]@ + samples[1]@ + samples[2]@,
    {
        let mut all_samples: Vec<Sample> = Vec::new();
        let mut k: usize = 0;
        while k < 3
            invariant
                0 <= k <= 3,
                k == 0 ==> all_samples@ == Seq::<Sample>::empty(),
                k == 1 ==> all_samples@ == samples[0]@,
                k == 2 ==> all_samples@ == samples[0]@ + samples[1]@,
                k == 3 ==> all_samples@ == samples[0]@ + samples[1]@ + samples[2]@,
            decreases 3 - k,
        {
            let seg = &samples[k];
            let ghost before = all_samples@;
            let mut i: usize = 0;
            while i < seg.len()
                invariant
                    0 <= i <= seg@.len(),
                    all_samples@ == before + seg@.subrange(0, i as int),
                decreases seg@.len() - i,
            {
                all_samples.push(seg[i]);
                i += 1;
                assert(seg@.subrange(0, i as int) == seg@.subrange(0, i - 1) + seq![seg@[i - 1]]);
            }
            assert(seg@.subrange(0, seg@.len() as int) == seg@);
            k += 1;
        }
        Shot { time, distances, all_samples, samples, path }
    }
}

/// How a target's shot is searched for.
#[derive(Clone, Copy, Debug, PartialEq, Eq, Structural)]
pub struct Options {
    /// Search every slice instead of stopping at the first shot found.
    pub all: bool,
    /// Use the agent's absolute speed and turn limits instead of the current ones.
    pub use_absolute_max_values: bool,
    pub min_slice: usize,
    pub max_slice: usize,
}

impl Options {
    /// Options with defaults for what is not given: slices from 0 to
    /// `max_slices`, current limits, stopping at the first shot.
    pub fn from(
        min_slice: Option<usize>,
        max_slice: Option<usize>,
        use_absolute_max_values: Option<bool>,
        all: Option<bool>,
        max_slices: usize,
    ) -> (r: Options)
        ensures
            r.min_slice == (match min_slice {
                Some(v) => v,
                None => 0,
            }),
            r.max_slice == (match max_slice {
                Some(v) => v,
                None => max_slices,
            }),
            r.use_absolute_max_values == (match use_absolute_max_values {
                Some(v) => v,
                None => false,
            }),
            r.all == (match all {
                Some(v) => v,
                None => false,
            }),
    {
        let min_slice = match min_slice {
            Some(v) => v,
            None => 0,
        };
        let max_slice = match max_slice {
            Some(v) => v,
            None => max_slices,
        };
        let use_absolute_max_values = match use_absolute_max_values {
            Some(v) => v,
            None => false,
        };
        let all = match all {
            Some(v) => v,
            None => false,
        };
        Options { all, use_absolute_max_values, min_slice, max_slice }
    }
}

/// An aim request: the window to shoot through, the agent that shoots, the
/// search options and the shot last found.
#[derive(Clone, Debug)]
pub struct Target {
    pub car_index: usize,
    pub target_left: Vec3,
    pub target_right: Vec3,
    pub options: Options,
    pub shot: Option<Shot>,
    /// Whether the request outlives the next tick.
    pub confirmed: bool,
}

impl Target {
    /// A new, unconfirmed request with no shot.
    pub fn new(target_left: Vec3, target_right: Vec3, car_index: usize, options: Options) -> (r:
        Target)
        ensures
            r.car_index == car_index,
            r.target_left == target_left,
            r.target_right == target_right,
            r.options == options,
            r.shot is None,
            !r.confirmed,
    {
        Target { car_index, target_left, target_right, options, shot: None, confirmed: false }
    }

    /// Marks the request as confirmed; nothing else changes.
    pub fn confirm(&mut self)
        ensures
            final(self).confirmed,
            final(self).car_index == old(self).car_index,
            final(self).target_left == old(self).target_left,
            final(self).target_right == old(self).target_right,
            final(self).options == old(self).options,
            final(self).shot == old(self).shot,
    {
        self.confirmed = true;
    }

    pub fn is_confirmed(&self) -> (r: bool)
        ensures
            r == self.confirmed,
    {
        self.confirmed
    }
}

} // verus!
