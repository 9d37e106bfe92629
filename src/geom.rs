use vstd::prelude::*;

verus! {

/// Sub-units in one field unit: as many as there are ticks in a second.
pub const SUBUNITS_PER_UNIT: i64 = 120;

/// Largest magnitude of a coordinate, in sub-units, that the library accepts.
pub const MAX_COORD: i64 = 200_000_000;

/// Length of a unit direction vector.
pub const UNIT: i64 = 1000;

/// A point or a vector in sub-units.
#[derive(Clone, Copy, Debug, PartialEq, Eq, Structural)]
pub struct Vec3 {
    pub x: i64,
    pub y: i64,
    pub z: i64,
}

pub open spec fn coord_ok(c: int) -> bool {
    -MAX_COORD <= c <= MAX_COORD
}

impl Vec3 {
    /// Every coordinate lies within `MAX_COORD`.
    pub open spec fn valid(&self) -> bool {
        coord_ok(self.x as int) && coord_ok(self.y as int) && coord_ok(self.z as int)
    }

    /// Every coordinate lies within `m` of zero.
    pub open spec fn within(&self, m: int) -> bool {
        -m <= self.x <= m && -m <= self.y <= m && -m <= self.z <= m
    }

    /// Whether every coordinate lies within `m` of zero.
    pub fn is_within(&self, m: i64) -> (r: bool)
        requires
            m >= 0,
        ensures
            r == self.within(m as int),
    {
        let (x, y, z, m) = (self.x as i128, self.y as i128, self.z as i128, m as i128);
        -m <= x && x <= m && -m <= y && y <= m && -m <= z && z <= m
    }

    pub open spec fn dot_spec(&self, o: Vec3) -> int {
        self.x * o.x + self.y * o.y + self.z * o.z
    }

    pub open spec fn len_sq_spec(&self) -> int {
        self.dot_spec(*self)
    }

    pub open spec fn flat_spec(&self) -> Vec3 {
        Vec3 { x: self.x, y: self.y, z: 0 }
    }

    pub open spec fn sub_spec(&self, o: Vec3) -> Vec3 {
        Vec3 { x: (self.x - o.x) as i64, y: (self.y - o.y) as i64, z: (self.z - o.z) as i64 }
    }

    pub open spec fn dist_sq_spec(&self, o: Vec3) -> int {
        self.sub_spec(o).len_sq_spec()
    }

    pub fn new(x: i64, y: i64, z: i64) -> (r: Vec3)
        ensures
            r == (Vec3 { x, y, z }),
    {
        Vec3 { x, y, z }
    }

    /// The vector with its height set to zero.
    pub fn flat(&self) -> (r: Vec3)
        ensures
            r == self.flat_spec(),
    {
        Vec3 { x: self.x, y: self.y, z: 0 }
    }

    pub fn sub(&self, o: &Vec3) -> (r: Vec3)
        requires
            self.within(2 * MAX_COORD),
            o.within(2 * MAX_COORD),
        ensures
            r == self.sub_spec(*o),
            r.x == self.x - o.x,
            r.y == self.y - o.y,
            r.z == self.z - o.z,
    {
        Vec3 { x: self.x - o.x, y: self.y - o.y, z: self.z - o.z }
    }

    /// Dot product of two vectors whose coordinates are at most four times `MAX_COORD`.
    pub fn dot(&self, o: &Vec3) -> (r: i128)
        requires
            self.within(4 * MAX_COORD),
            o.within(4 * MAX_COORD),
        ensures
            r == self.dot_spec(*o),
            -48 * MAX_COORD * MAX_COORD <= r <= 48 * MAX_COORD * MAX_COORD,
    {
        proof {
            bound_product(self.x as int, o.x as int);
            bound_product(self.y as int, o.y as int);
            bound_product(self.z as int, o.z as int);
        }
        (self.x as i128) * (o.x as i128) + (self.y as i128) * (o.y as i128) + (self.z as i128) * (
        o.z as i128)
    }

    /// Squared distance between two points within twice `MAX_COORD`.
    pub fn dist_sq(&self, o: &Vec3) -> (r: i128)
        requires
            self.within(2 * MAX_COORD),
            o.within(2 * MAX_COORD),
        ensures
            r == self.dist_sq_spec(*o),
            0 <= r <= 48 * MAX_COORD * MAX_COORD,
    {
        let d = self.sub(o);
        proof {
            bound_square(d.x as int);
            bound_square(d.y as int);
            bound_square(d.z as int);
        }
        d.dot(&d)
    }
}

proof fn bound_product(a: int, b: int)
    requires
        -4 * MAX_COORD <= a <= 4 * MAX_COORD,
        -4 * MAX_COORD <= b <= 4 * MAX_COORD,
    ensures
        -16 * MAX_COORD * MAX_COORD <= a * b <= 16 * MAX_COORD * MAX_COORD,
{
    assert(-16 * MAX_COORD * MAX_COORD <= a * b <= 16 * MAX_COORD * MAX_COORD) by (nonlinear_arith)
        requires
            -4 * MAX_COORD <= a <= 4 * MAX_COORD,
            -4 * MAX_COORD <= b <= 4 * MAX_COORD,
    ;
}

proof fn bound_square(a: int)
    requires
        -4 * MAX_COORD <= a <= 4 * MAX_COORD,
    ensures
        0 <= a * a <= 16 * MAX_COORD * MAX_COORD,
{
    assert(0 <= a * a <= 16 * MAX_COORD * MAX_COORD) by (nonlinear_arith)
        requires
            -4 * MAX_COORD <= a <= 4 * MAX_COORD,
    ;
}

/// Whether `r` is the integer square root of `n`.
pub open spec fn is_isqrt(n: int, r: int) -> bool {
    0 <= r && r * r <= n < (r + 1) * (r + 1)
}

/// The integer square root of a non-negative `n`, rounded down.
pub open spec fn isqrt_spec(n: int) -> int {
    choose|r: int| is_isqrt(n, r)
}

/// Euclidean distance between two points, rounded down.
pub open spec fn distance_spec(a: Vec3, b: Vec3) -> int {
    isqrt_spec(a.dist_sq_spec(b))
}

proof fn isqrt_unique(n: int, r: int, s: int)
    requires
        is_isqrt(n, r),
        is_isqrt(n, s),
    ensures
        r == s,
{
    if r < s {
        assert((r + 1) * (r + 1) <= s * s) by (nonlinear_arith)
            requires
                0 <= r < s,
        ;
    } else if s < r {
        assert((s + 1) * (s + 1) <= r * r) by (nonlinear_arith)
            requires
                0 <= s < r,
        ;
    }
}

/// A value that is the integer square root of `n` is the one that `isqrt_spec` names.
pub proof fn isqrt_spec_is(n: int, r: int)
    requires
        is_isqrt(n, r),
    ensures
        isqrt_spec(n) == r,
{
    assert(is_isqrt(n, isqrt_spec(n)));
    isqrt_unique(n, r, isqrt_spec(n));
}

/// Integer square root, rounded down.
pub fn isqrt(n: i128) -> (r: i64)
    requires
        0 <= n <= 48 * MAX_COORD * MAX_COORD,
    ensures
        is_isqrt(n as int, r as int),
        r == isqrt_spec(n as int),
        r <= 7 * MAX_COORD,
{
    let mut lo: i64 = 0;
    let mut hi: i64 = 7 * MAX_COORD;
    assert((hi as int) * (hi as int) > n) by (nonlinear_arith)
        requires
            hi == 7 * MAX_COORD,
            n <= 48 * MAX_COORD * MAX_COORD,
    ;
    while lo + 1 < hi
        invariant
            0 <= lo < hi <= 7 * MAX_COORD,
            (lo as int) * (lo as int) <= n,
            n < (hi as int) * (hi as int),
        decreases hi - lo,
    {
        let mid: i64 = lo + (hi - lo) / 2;
        assert((mid as int) * (mid as int) <= 49 * MAX_COORD * MAX_COORD) by (nonlinear_arith)
            requires
                0 <= mid <= 7 * MAX_COORD,
        ;
        if (mid as i128) * (mid as i128) <= n {
            lo = mid;
        } else {
            hi = mid;
        }
    }
    assert(hi == lo + 1);
    proof {
        isqrt_spec_is(n as int, lo as int);
    }
    lo
}

/// Euclidean distance between two points within twice `MAX_COORD`, rounded down.
pub fn distance(a: &Vec3, b: &Vec3) -> (r: i64)
    requires
        a.within(2 * MAX_COORD),
        b.within(2 * MAX_COORD),
    ensures
        r == distance_spec(*a, *b),
        0 <= r <= 7 * MAX_COORD,
{
    isqrt(a.dist_sq(b))
}

/// `v * num / den`, rounded toward zero.
pub open spec fn scale_spec(v: int, num: int, den: int) -> int {
    if v >= 0 {
        v * num / den
    } else {
        -((-v) * num / den)
    }
}

/// `v * num / den`, rounded toward zero.
pub fn scale(v: i64, num: i64, den: i64) -> (r: i64)
    requires
        -1_000_000_000 <= v <= 1_000_000_000,
        0 <= num <= 1_000_000_000,
        0 < den,
    ensures
        r == scale_spec(v as int, num as int, den as int),
        v >= 0 ==> 0 <= r <= v * num,
        v < 0 ==> v * num <= r <= 0,
{
    let a: i128 = if v >= 0 {
        v as i128
    } else {
        -(v as i128)
    };
    assert(0 <= a * num <= 1_000_000_000_000_000_000) by (nonlinear_arith)
        requires
            0 <= a <= 1_000_000_000,
            0 <= num <= 1_000_000_000,
    ;
    let p: i128 = a * (num as i128);
    let q: i128 = p / (den as i128);
    assert(0 <= q <= p) by (nonlinear_arith)
        requires
            q == p / (den as i128),
            0 <= p,
            0 < den,
    ;
    assert(v < 0 ==> v * num == -(a * num)) by (nonlinear_arith)
        requires
            v < 0 ==> a == -v,
    ;
    if v >= 0 {
        q as i64
    } else {
        -(q as i64)
    }
}

/// Scaling a coordinate of a unit direction by `num` gives at most `num`.
pub proof fn scale_unit_bound(v: int, num: int)
    requires
        -UNIT <= v <= UNIT,
        0 <= num,
    ensures
        -num <= scale_spec(v, num, UNIT as int) <= num,
{
    let a = if v >= 0 { v } else { -v };
    assert(0 <= a * num / (UNIT as int) <= num) by (nonlinear_arith)
        requires
            0 <= a <= UNIT,
            0 <= num,
    ;
}

/// The planar direction of `v` scaled to length `UNIT` (rounded toward
/// zero), or the zero vector when `v` has no planar extent.
pub open spec fn normalize_flat_spec(v: Vec3) -> Vec3 {
    let n = isqrt_spec(v.flat_spec().len_sq_spec());
    if n == 0 {
        Vec3 { x: 0, y: 0, z: 0 }
    } else {
        Vec3 {
            x: scale_spec(v.x as int, UNIT as int, n) as i64,
            y: scale_spec(v.y as int, UNIT as int, n) as i64,
            z: 0,
        }
    }
}

/// The planar unit direction of `v` (the difference of two valid points).
pub fn normalize_flat(v: &Vec3) -> (r: Vec3)
    requires
        v.within(2 * MAX_COORD),
    ensures
        r == normalize_flat_spec(*v),
        r.within(UNIT as int),
{
    let f = v.flat();
    proof {
        bound_square(f.x as int);
        bound_square(f.y as int);
    }
    let n = isqrt(f.dot(&f));
    if n == 0 {
        Vec3 { x: 0, y: 0, z: 0 }
    } else {
        proof {
            unit_bound(v.x as int, f.len_sq_spec(), n as int);
            assert(f.len_sq_spec() == v.y * v.y + v.x * v.x);
            unit_bound(v.y as int, f.len_sq_spec(), n as int);
        }
        Vec3 { x: scale(v.x, UNIT, n), y: scale(v.y, UNIT, n), z: 0 }
    }
}

proof fn unit_bound(c: int, l: int, n: int)
    requires
        is_isqrt(l, n),
        n > 0,
        c * c <= l,
    ensures
        -UNIT <= scale_spec(c, UNIT as int, n) <= UNIT,
{
    let a = if c >= 0 { c } else { -c };
    assert(a * a == c * c) by (nonlinear_arith)
        requires
            a == c || a == -c,
    ;
    assert(a < n + 1) by (nonlinear_arith)
        requires
            a * a <= l,
            l < (n + 1) * (n + 1),
            0 <= a,
            0 < n,
    ;
    assert(a * UNIT / n <= UNIT) by (nonlinear_arith)
        requires
            0 <= a <= n,
            0 < n,
    ;
    assert(a * UNIT / n >= 0) by (nonlinear_arith)
        requires
            0 <= a,
            0 < n,
    ;
}

} // verus!
