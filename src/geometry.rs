use vstd::prelude::*;

verus! {

/// Number of position units in one world unit: positions are stored in thousandths.
pub const UNIT: i64 = 1000;

/// Largest magnitude of any coordinate that the simulation produces.
pub const MAX_COORD: i64 = 1_000_000_000;

/// A 2D position or vector, in thousandths of a world unit.
#[derive(Clone, Copy, Debug, PartialEq, Eq, Structural)]
pub struct Point {
    pub x: i64,
    pub y: i64,
}

pub open spec fn abs(v: int) -> int {
    if v < 0 { -v } else { v }
}

pub open spec fn coord_ok(v: int) -> bool {
    -MAX_COORD <= v <= MAX_COORD
}

impl Point {
    pub open spec fn bounded(self) -> bool {
        coord_ok(self.x as int) && coord_ok(self.y as int)
    }

    /// Lies in the rectangle `[-w, w] x [-h, h]`.
    pub open spec fn within(self, w: int, h: int) -> bool {
        -w <= self.x && self.x <= w && -h <= self.y && self.y <= h
    }
}

pub open spec fn dist_sq_spec(a: Point, b: Point) -> int {
    (a.x - b.x) * (a.x - b.x) + (a.y - b.y) * (a.y - b.y)
}

/// Squared Euclidean distance between two points.
pub fn dist_sq(a: Point, b: Point) -> (r: u64)
    requires
        a.bounded(),
        b.bounded(),
    ensures
        r as int == dist_sq_spec(a, b),
{
    let dx: i64 = a.x - b.x;
    let dy: i64 = a.y - b.y;
    let ax: u64 = if dx < 0 { (-dx) as u64 } else { dx as u64 };
    let ay: u64 = if dy < 0 { (-dy) as u64 } else { dy as u64 };
    proof {
        assert(ax <= 2_000_000_000 && ay <= 2_000_000_000);
        assert(ax * ax <= 4_000_000_000_000_000_000) by (nonlinear_arith)
            requires ax <= 2_000_000_000;
        assert(ay * ay <= 4_000_000_000_000_000_000) by (nonlinear_arith)
            requires ay <= 2_000_000_000;
        assert(ax * ax == dx * dx) by (nonlinear_arith)
            requires ax == abs(dx as int);
        assert(ay * ay == dy * dy) by (nonlinear_arith)
            requires ay == abs(dy as int);
    }
    ax * ax + ay * ay
}

/// `r` is the integer square root of `n`.
pub open spec fn is_root(n: int, r: int) -> bool {
    0 <= r && r * r <= n && n < (r + 1) * (r + 1)
}

pub open spec fn root(n: int) -> int {
    choose|r: int| is_root(n, r)
}

pub proof fn lemma_root_unique(n: int, r: int, s: int)
    requires
        is_root(n, r),
        is_root(n, s),
    ensures
        r == s,
{
    if r < s {
        assert((r + 1) * (r + 1) <= s * s) by (nonlinear_arith)
            requires 0 <= r, r + 1 <= s;
    } else if s < r {
        assert((s + 1) * (s + 1) <= r * r) by (nonlinear_arith)
            requires 0 <= s, s + 1 <= r;
    }
}

/// Integer square root, by bisection.
pub fn isqrt(n: u64) -> (r: u64)
    ensures
        is_root(n as int, r as int),
        r as int == root(n as int),
{
    let mut lo: u64 = 0;
    let mut hi: u64 = 4_294_967_296;
    assert(hi * hi > n) by (nonlinear_arith)
        requires hi == 4_294_967_296u64, n <= u64::MAX;
    while hi - lo > 1
        invariant
            lo < hi <= 4_294_967_296,
            lo * lo <= n,
            n < hi * hi,
        decreases hi - lo,
    {
        let mid: u64 = lo + (hi - lo) / 2;
        if mid < 4_294_967_296 {
            assert(mid * mid < 18_446_744_073_709_551_616) by (nonlinear_arith)
                requires mid < 4_294_967_296u64;
        }
        if mid < 4_294_967_296 && mid * mid <= n {
            lo = mid;
        } else {
            if mid >= 4_294_967_296 {
                assert(mid * mid > n) by (nonlinear_arith)
                    requires mid >= 4_294_967_296u64, n <= u64::MAX;
            }
            hi = mid;
        }
    }
    assert(hi == lo + 1);
    assert(is_root(n as int, lo as int));
    proof {
        let c = root(n as int);
        assert(is_root(n as int, c));
        lemma_root_unique(n as int, lo as int, c);
    }
    lo
}

/// `v * num / den`, rounded toward zero.
pub open spec fn scale(v: int, num: int, den: int) -> int {
    if v >= 0 { (v * num) / den } else { -(((-v) * num) / den) }
}

pub proof fn lemma_scale_bound(v: int, num: int, den: int)
    requires
        0 <= num <= den,
        0 < den,
    ensures
        abs(scale(v, num, den)) <= abs(v),
        v >= 0 ==> scale(v, num, den) >= 0,
        v < 0 ==> scale(v, num, den) <= 0,
{
    let a = abs(v);
    assert(a * num <= a * den) by (nonlinear_arith)
        requires 0 <= a, num <= den;
    assert(a * num >= 0) by (nonlinear_arith)
        requires 0 <= a, 0 <= num;
    assert((a * den) / den == a) by (nonlinear_arith)
        requires 0 < den;
    assert((a * num) / den <= (a * den) / den) by (nonlinear_arith)
        requires a * num <= a * den, 0 < den;
    assert((a * num) / den >= 0) by (nonlinear_arith)
        requires a * num >= 0, 0 < den;
}

/// `v * num / den` rounded toward zero, for `|v| <= 2 * MAX_COORD` and `num <= den`.
pub fn scale_exec(v: i64, num: u64, den: u64) -> (r: i64)
    requires
        -2 * MAX_COORD <= v <= 2 * MAX_COORD,
        0 < den,
        num <= 4_000_000_000,
    ensures
        r as int == scale(v as int, num as int, den as int),
{
    let a: u64 = if v < 0 { (-v) as u64 } else { v as u64 };
    assert(a * num <= 8_000_000_000_000_000_000u64) by (nonlinear_arith)
        requires a <= 2_000_000_000u64, num <= 4_000_000_000u64;
    let q: u64 = a * num / den;
    assert(q <= a * num) by (nonlinear_arith)
        requires q == (a * num) / (den as int), 0 < den, a * num >= 0;
    if v < 0 {
        -(q as i64)
    } else {
        q as i64
    }
}

pub open spec fn clamp_coord(v: int) -> int {
    if v < -MAX_COORD { -MAX_COORD as int } else if v > MAX_COORD { MAX_COORD as int } else { v }
}

/// The point brought into the coordinate range, one coordinate at a time.
pub open spec fn clamp_point(p: Point) -> Point {
    Point { x: clamp_coord(p.x as int) as i64, y: clamp_coord(p.y as int) as i64 }
}

pub fn clamp_coord_exec(v: i64) -> (r: i64)
    ensures
        r == clamp_coord(v as int),
{
    if v < -MAX_COORD {
        -MAX_COORD
    } else if v > MAX_COORD {
        MAX_COORD
    } else {
        v
    }
}

/// `from` moved by `step` along the unit direction toward `to` (which it passes when
/// `step` exceeds the distance), kept in the coordinate range; `from` itself when the two
/// coincide.
pub open spec fn step_toward_spec(from: Point, to: Point, step: int) -> Point {
    let n = dist_sq_spec(from, to);
    let d = root(n);
    if n == 0 {
        from
    } else {
        Point {
            x: clamp_coord(from.x + scale(to.x - from.x, step, d)) as i64,
            y: clamp_coord(from.y + scale(to.y - from.y, step, d)) as i64,
        }
    }
}

/// Moves `from` by `step` along the direction toward `to`, passing `to` when the step is
/// longer than the distance; stays put when the two coincide. A result beyond the
/// coordinate range is brought back to its edge.
pub fn step_toward(from: Point, to: Point, step: u64) -> (r: Point)
    requires
        from.bounded(),
        to.bounded(),
        step <= 4_000_000_000,
    ensures
        r == step_toward_spec(from, to, step as int),
        r.bounded(),
{
    let n = dist_sq(from, to);
    if n == 0 {
        return from;
    }
    let d = isqrt(n);
    proof {
        let dx = to.x - from.x;
        let dy = to.y - from.y;
        lemma_offset_le_root(from, to, d as int);
        lemma_scale_le_num(dx, step as int, d as int);
        lemma_scale_le_num(dy, step as int, d as int);
    }
    let sx = scale_exec(to.x - from.x, step, d);
    let sy = scale_exec(to.y - from.y, step, d);
    Point { x: clamp_coord_exec(from.x + sx), y: clamp_coord_exec(from.y + sy) }
}

/// Each component of the offset from `from` to `to` is no longer than the distance `d`,
/// and `d` is positive when the points differ.
proof fn lemma_offset_le_root(from: Point, to: Point, d: int)
    requires
        is_root(dist_sq_spec(from, to), d),
        dist_sq_spec(from, to) > 0,
    ensures
        abs(to.x - from.x) <= d,
        abs(to.y - from.y) <= d,
        d > 0,
{
    let dx = to.x - from.x;
    let dy = to.y - from.y;
    let ex = from.x - to.x;
    let ey = from.y - to.y;
    assert(ex * ex == dx * dx) by (nonlinear_arith)
        requires ex == -dx;
    assert(ey * ey == dy * dy) by (nonlinear_arith)
        requires ey == -dy;
    assert(dist_sq_spec(from, to) == dx * dx + dy * dy);
    assert(dist_sq_spec(from, to) == dy * dy + dx * dx);
    lemma_component_le_root(dx, dy, d);
    lemma_component_le_root(dy, dx, d);
}

/// Unit vector, in thousandths, from `from` toward `to`; `(-UNIT, 0)` when they coincide.
pub open spec fn unit_toward_spec(from: Point, to: Point) -> Point {
    let n = dist_sq_spec(from, to);
    let d = root(n);
    if n == 0 {
        Point { x: -1000i64, y: 0i64 }
    } else {
        Point { x: scale(to.x - from.x, 1000, d) as i64, y: scale(to.y - from.y, 1000, d) as i64 }
    }
}

/// A component of an offset is no longer than the offset.
proof fn lemma_component_le_root(a: int, b: int, d: int)
    requires
        is_root(a * a + b * b, d),
    ensures
        abs(a) <= d,
{
    if abs(a) > d {
        assert((d + 1) * (d + 1) <= a * a) by (nonlinear_arith)
            requires abs(a) >= d + 1, d >= 0;
        assert(b * b >= 0) by (nonlinear_arith);
    }
}

/// Direction from `from` toward `to`, as a vector of length about `UNIT`.
pub fn unit_toward(from: Point, to: Point) -> (r: Point)
    requires
        from.bounded(),
        to.bounded(),
    ensures
        r == unit_toward_spec(from, to),
        -UNIT <= r.x <= UNIT,
        -UNIT <= r.y <= UNIT,
{
    let n = dist_sq(from, to);
    if n == 0 {
        return Point { x: -UNIT, y: 0 };
    }
    let d = isqrt(n);
    proof {
        lemma_offset_le_root(from, to, d as int);
        lemma_scale_le_num(to.x - from.x, 1000, d as int);
        lemma_scale_le_num(to.y - from.y, 1000, d as int);
    }
    let ux = scale_exec(to.x - from.x, 1000, d);
    let uy = scale_exec(to.y - from.y, 1000, d);
    Point { x: ux, y: uy }
}

/// Scaling a value by `num / d`, where the value is no longer than `d`, gives at most `num`.
proof fn lemma_scale_le_num(v: int, num: int, d: int)
    requires
        abs(v) <= d,
        0 < d,
        0 <= num,
    ensures
        abs(scale(v, num, d)) <= num,
{
    let a = abs(v);
    assert(a * num <= d * num) by (nonlinear_arith)
        requires a <= d, 0 <= a, 0 <= num;
    assert((a * num) / d <= (d * num) / d) by (nonlinear_arith)
        requires a * num <= d * num, 0 < d;
    assert((d * num) / d == num) by (nonlinear_arith)
        requires 0 < d;
    assert((a * num) / d >= 0) by (nonlinear_arith)
        requires a >= 0, num >= 0, 0 < d;
}

} // verus!
