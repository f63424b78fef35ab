//! Fixed-point points, vectors, colours and strokes, with the integer
//! arithmetic the transforms are built from.
use vstd::arithmetic::div_mod::lemma_fundamental_div_mod;
use vstd::arithmetic::div_mod::lemma_fundamental_div_mod_converse;
use vstd::prelude::*;

verus! {

/// Units per pixel. A scale of `UNIT` is a zoom factor of one.
pub const UNIT: i64 = 1_000_000;

/// Largest magnitude of a canvas-space coordinate, length or input delta.
pub const COORD_BOUND: i64 = 1_000_000_000_000;

/// Largest magnitude of a screen-space coordinate the renderer works with.
pub const SCREEN_BOUND: i64 = 100_000_000_000_000;

/// Magnitude bound for intermediate products computed in `i128`.
pub const WIDE_BOUND: i128 = 1_000_000_000_000_000_000_000_000_000_000;

pub open spec fn in_bound(v: int, b: int) -> bool {
    -b <= v <= b
}

/// `a * b / UNIT`, rounded toward negative infinity.
pub open spec fn fmul(a: int, b: int) -> int {
    (a * b) / (UNIT as int)
}

/// Floor of the square root of a non-negative integer.
pub open spec fn is_isqrt(n: int, r: int) -> bool {
    0 <= r && r * r <= n && n < (r + 1) * (r + 1)
}

pub open spec fn isqrt(n: int) -> int {
    choose|r: int| is_isqrt(n, r)
}

/// Squared length a direction is scaled up to before it is normalised, so
/// that the integer square root is exact to far below one unit of length.
pub const BOOST_TARGET: u128 = 0x100_0000_0000_0000_0000_0000;

/// `v` doubled until its squared length reaches `BOOST_TARGET` (the zero
/// vector stays zero). The direction is unchanged.
pub open spec fn boosted(vx: int, vy: int) -> (int, int)
    decreases (if vx * vx + vy * vy < BOOST_TARGET { BOOST_TARGET - (vx * vx + vy * vy) } else { 0 }),
    via lemma_boost_decreases
{
    let n = vx * vx + vy * vy;
    if n <= 0 || n >= BOOST_TARGET {
        (vx, vy)
    } else {
        boosted(2 * vx, 2 * vy)
    }
}

#[via_fn]
proof fn lemma_boost_decreases(vx: int, vy: int) {
    let n = vx * vx + vy * vy;
    if n > 0 && n < BOOST_TARGET {
        assert((2 * vx) * (2 * vx) + (2 * vy) * (2 * vy) == 4 * n) by (nonlinear_arith)
            requires n == vx * vx + vy * vy;
    }
}

/// `v * k / |v|`: the vector of length `|k|` in the direction of `v` (the
/// opposite direction for negative `k`), each component rounded down. The
/// length is taken from `v` scaled up by [`boosted`], so the rounding error
/// of the square root stays below `1 / 2^44` of it. The zero vector stays zero.
pub open spec fn along(vx: int, vy: int, k: int) -> (int, int) {
    let w = boosted(vx, vy);
    let n = w.0 * w.0 + w.1 * w.1;
    if n == 0 {
        (0, 0)
    } else {
        ((w.0 * k) / isqrt(n), (w.1 * k) / isqrt(n))
    }
}

/// `v` rotated by +45 degrees, scaled by the square root of two.
pub open spec fn rot_plus(vx: int, vy: int) -> (int, int) {
    (vx - vy, vx + vy)
}

/// `v` rotated by -45 degrees, scaled by the square root of two.
pub open spec fn rot_minus(vx: int, vy: int) -> (int, int) {
    (vx + vy, vy - vx)
}

/// A point, in units.
#[derive(Debug, Clone, Copy, PartialEq, Eq, Structural)]
pub struct Pos2 {
    pub x: i64,
    pub y: i64,
}

/// A displacement, in units.
#[derive(Debug, Clone, Copy, PartialEq, Eq, Structural)]
pub struct Vec2 {
    pub x: i64,
    pub y: i64,
}

/// An RGBA colour.
#[derive(Debug, Clone, Copy, PartialEq, Eq, Structural)]
pub struct Color {
    pub r: u8,
    pub g: u8,
    pub b: u8,
    pub a: u8,
}

/// A line style: width in units and colour.
#[derive(Debug, Clone, Copy, PartialEq, Eq, Structural)]
pub struct Stroke {
    pub width: i64,
    pub color: Color,
}

impl Pos2 {
    pub fn new(x: i64, y: i64) -> (r: Pos2)
        ensures
            r == (Pos2 { x, y }),
    {
        Pos2 { x, y }
    }

    pub open spec fn within(self, b: int) -> bool {
        in_bound(self.x as int, b) && in_bound(self.y as int, b)
    }

    /// Whether both coordinates lie within `COORD_BOUND`.
    pub fn in_coord_bound(&self) -> (r: bool)
        ensures
            r == self.within(COORD_BOUND as int),
    {
        -COORD_BOUND <= self.x && self.x <= COORD_BOUND && -COORD_BOUND <= self.y && self.y <= COORD_BOUND
    }
}

impl Vec2 {
    pub fn new(x: i64, y: i64) -> (r: Vec2)
        ensures
            r == (Vec2 { x, y }),
    {
        Vec2 { x, y }
    }

    pub open spec fn within(self, b: int) -> bool {
        in_bound(self.x as int, b) && in_bound(self.y as int, b)
    }

    /// Whether both components lie within `COORD_BOUND`.
    pub fn in_coord_bound(&self) -> (r: bool)
        ensures
            r == self.within(COORD_BOUND as int),
    {
        -COORD_BOUND <= self.x && self.x <= COORD_BOUND && -COORD_BOUND <= self.y && self.y <= COORD_BOUND
    }
}

/// Whether `v` lies within `COORD_BOUND`.
pub fn in_coord_bound(v: i64) -> (r: bool)
    ensures
        r == in_bound(v as int, COORD_BOUND as int),
{
    -COORD_BOUND <= v && v <= COORD_BOUND
}

impl Color {
    pub fn black() -> (r: Color)
        ensures
            r == (Color { r: 0, g: 0, b: 0, a: 255 }),
    {
        Color { r: 0, g: 0, b: 0, a: 255 }
    }

    /// Fully transparent: the colour of an unset fill.
    pub fn transparent() -> (r: Color)
        ensures
            r == (Color { r: 0, g: 0, b: 0, a: 0 }),
    {
        Color { r: 0, g: 0, b: 0, a: 0 }
    }

    pub fn white() -> (r: Color)
        ensures
            r == (Color { r: 255, g: 255, b: 255, a: 255 }),
    {
        Color { r: 255, g: 255, b: 255, a: 255 }
    }
}

impl Stroke {
    pub fn new(width: i64, color: Color) -> (r: Stroke)
        ensures
            r == (Stroke { width, color }),
    {
        Stroke { width, color }
    }
}

/// Euclidean quotient `a / b` for a positive divisor (floor division).
pub fn div_floor(a: i128, b: i128) -> (q: i128)
    requires
        b > 0,
        in_bound(a as int, WIDE_BOUND as int),
    ensures
        q == a / b,
{
    let m: u128 = if a >= 0 { a as u128 } else { (-a) as u128 };
    let d: u128 = b as u128;
    let tq: u128 = m / d;
    let tr: u128 = m % d;
    proof {
        lemma_fundamental_div_mod(m as int, d as int);
        assert(tq <= m) by (nonlinear_arith)
            requires m == d * tq + tr, d >= 1, tr >= 0, tq >= 0;
    }
    if a >= 0 {
        proof {
            lemma_fundamental_div_mod_converse(a as int, b as int, tq as int, tr as int);
        }
        tq as i128
    } else if tr == 0 {
        proof {
            assert(a == (-(tq as int)) * b + 0) by (nonlinear_arith)
                requires a == -(m as int), m == d * tq + tr, tr == 0, d == b;
            lemma_fundamental_div_mod_converse(a as int, b as int, -(tq as int), 0);
        }
        -(tq as i128)
    } else {
        proof {
            assert(a == (-(tq as int) - 1) * b + (b - tr)) by (nonlinear_arith)
                requires a == -(m as int), m == d * tq + tr, d == b;
            lemma_fundamental_div_mod_converse(a as int, b as int, -(tq as int) - 1, b - tr);
        }
        -(tq as i128) - 1
    }
}

/// Dividing by a positive integer does not increase the magnitude.
pub proof fn lemma_div_shrinks(n: int, s: int)
    requires
        s >= 1,
    ensures
        abs(n / s) <= abs(n),
{
    lemma_fundamental_div_mod(n, s);
    assert(abs(n / s) <= abs(n)) by (nonlinear_arith)
        requires n == s * (n / s) + n % s, 0 <= n % s < s, s >= 1;
}

/// Fixed-point product `a * b / UNIT`, rounded down.
pub fn mul_fixed(a: i128, b: i128) -> (r: i128)
    requires
        in_bound(a as int, 1_000_000_000_000_000),
        in_bound(b as int, 1_000_000_000_000_000),
    ensures
        r == fmul(a as int, b as int),
        in_bound(r as int, WIDE_BOUND as int),
{
    proof {
        assert(in_bound(a * b, WIDE_BOUND as int)) by (nonlinear_arith)
            requires
                in_bound(a as int, 1_000_000_000_000_000),
                in_bound(b as int, 1_000_000_000_000_000),
        ;
    }
    proof {
        lemma_div_shrinks(a * b, UNIT as int);
    }
    div_floor(a * b, UNIT as i128)
}

pub proof fn lemma_isqrt_unique(n: int, r: int)
    requires
        is_isqrt(n, r),
    ensures
        isqrt(n) == r,
{
    let s = isqrt(n);
    assert(is_isqrt(n, s));
    if s < r {
        assert(s + 1 <= r);
        assert((s + 1) * (s + 1) <= r * r) by (nonlinear_arith)
            requires 0 <= s + 1 <= r;
    } else if r < s {
        assert((r + 1) * (r + 1) <= s * s) by (nonlinear_arith)
            requires 0 <= r + 1 <= s;
    }
}

/// Floor of the square root, by bisection.
pub fn int_sqrt(n: u128) -> (r: u128)
    requires
        n < 0x10_0000_0000_0000_0000_0000_0000,
    ensures
        is_isqrt(n as int, r as int),
        isqrt(n as int) == r,
{
    let mut lo: u128 = 0;
    let mut hi: u128 = 0x4_0000_0000_0000;
    assert(hi * hi == 0x10_0000_0000_0000_0000_0000_0000) by (nonlinear_arith)
        requires hi == 0x4_0000_0000_0000u128;
    while hi - lo > 1
        invariant
            lo < hi <= 0x4_0000_0000_0000,
            lo * lo <= n,
            n < hi * hi,
        decreases hi - lo,
    {
        let mid: u128 = lo + (hi - lo) / 2;
        assert(mid * mid <= 0x10_0000_0000_0000_0000_0000_0000) by (nonlinear_arith)
            requires mid <= 0x4_0000_0000_0000;
        if mid * mid <= n {
            lo = mid;
        } else {
            hi = mid;
        }
    }
    proof {
        lemma_isqrt_unique(n as int, lo as int);
    }
    lo
}

pub open spec fn abs(v: int) -> int {
    if v < 0 { -v } else { v }
}

/// A component of `v * k / l` stays within `|k|` when the component is at
/// most the (rounded-down) length `l`.
proof fn lemma_quotient_bound(c: int, k: int, l: int, n: int)
    requires
        is_isqrt(n, l),
        l > 0,
        c * c <= n,
    ensures
        in_bound((c * k) / l, abs(k)),
{
    assert(abs(c) <= l) by (nonlinear_arith)
        requires c * c <= n, n < (l + 1) * (l + 1), l > 0;
    let q = (c * k) / l;
    let r = (c * k) % l;
    lemma_fundamental_div_mod(c * k, l);
    assert(abs(c * k) <= l * abs(k)) by (nonlinear_arith)
        requires abs(c) <= l, l > 0;
    assert(in_bound(q, abs(k))) by (nonlinear_arith)
        requires
            c * k == l * q + r,
            0 <= r < l,
            abs(c * k) <= l * abs(k),
            l > 0,
    ;
}

/// The squared length of `(w * k) / l`, rounded down per component, is
/// within `(|k| + 2)^2`, and at least `(|k| - 4)^2` once `|k| >= 4`, when
/// `l` is the integer square root of `|w|^2` and at least `2|k| + 3`.
proof fn lemma_length_bound(wx: int, wy: int, n: int, l: int, k: int)
    requires
        n == wx * wx + wy * wy,
        is_isqrt(n, l),
        l >= 2 * abs(k) + 3,
    ensures
        ({
            let qx = (wx * k) / l;
            let qy = (wy * k) / l;
            &&& qx * qx + qy * qy <= (abs(k) + 2) * (abs(k) + 2)
            &&& abs(k) >= 4 ==> (abs(k) - 4) * (abs(k) - 4) <= qx * qx + qy * qy
        }),
{
    let kk = abs(k);
    let qx = (wx * k) / l;
    let qy = (wy * k) / l;
    lemma_fundamental_div_mod(wx * k, l);
    lemma_fundamental_div_mod(wy * k, l);
    let ex = (wx * k) % l;
    let ey = (wy * k) % l;
    let a = abs(wx) + abs(wy);
    assert(a * a <= 2 * n) by (nonlinear_arith)
        requires a == abs(wx) + abs(wy), n == wx * wx + wy * wy;
    assert(2 * a <= 3 * (l + 1)) by (nonlinear_arith)
        requires a * a <= 2 * n, n < (l + 1) * (l + 1), a >= 0, l >= 0;
    let d = wx * ex + wy * ey;
    assert(abs(d) <= a * l) by (nonlinear_arith)
        requires d == wx * ex + wy * ey, 0 <= ex < l, 0 <= ey < l, a == abs(wx) + abs(wy);
    let e = ex * ex + ey * ey;
    assert(0 <= e <= 2 * l * l) by (nonlinear_arith)
        requires e == ex * ex + ey * ey, 0 <= ex < l, 0 <= ey < l;
    let s = qx * qx + qy * qy;
    let lx = l * qx;
    let ly = l * qy;
    assert(lx * lx == k * k * (wx * wx) - 2 * k * (wx * ex) + ex * ex) by (nonlinear_arith)
        requires lx == wx * k - ex;
    assert(ly * ly == k * k * (wy * wy) - 2 * k * (wy * ey) + ey * ey) by (nonlinear_arith)
        requires ly == wy * k - ey;
    assert(l * l * s == lx * lx + ly * ly) by (nonlinear_arith)
        requires lx == l * qx, ly == l * qy, s == qx * qx + qy * qy;
    assert(k * k * n == k * k * (wx * wx) + k * k * (wy * wy)) by (nonlinear_arith)
        requires n == wx * wx + wy * wy;
    assert(2 * k * d == 2 * k * (wx * ex) + 2 * k * (wy * ey)) by (nonlinear_arith)
        requires d == wx * ex + wy * ey;
    assert(l * l * s == k * k * n - 2 * k * d + e);
    assert(kk * kk * (l * l) <= k * k * n <= kk * kk * (l * l + 2 * l)) by (nonlinear_arith)
        requires kk == abs(k), l * l <= n, n < (l + 1) * (l + 1), l >= 0;
    assert(abs(2 * k * d) <= 3 * kk * l * (l + 1)) by (nonlinear_arith)
        requires kk == abs(k), abs(d) <= a * l, 2 * a <= 3 * (l + 1), l >= 0, a >= 0;
    assert(l * l * s <= l * l * ((kk + 2) * (kk + 2))) by (nonlinear_arith)
        requires
            l * l * s == k * k * n - 2 * k * d + e,
            k * k * n <= kk * kk * (l * l + 2 * l),
            abs(2 * k * d) <= 3 * kk * l * (l + 1),
            e <= 2 * l * l,
            l >= 2 * kk + 3,
            kk >= 0,
    ;
    assert(s <= (kk + 2) * (kk + 2)) by (nonlinear_arith)
        requires l * l * s <= l * l * ((kk + 2) * (kk + 2)), l >= 1;
    if kk >= 4 {
        assert(l * l * ((kk - 4) * (kk - 4)) <= l * l * s) by (nonlinear_arith)
            requires
                l * l * s == k * k * n - 2 * k * d + e,
                kk * kk * (l * l) <= k * k * n,
                abs(2 * k * d) <= 3 * kk * l * (l + 1),
                e >= 0,
                l >= 2 * kk + 3,
                kk >= 4,
        ;
        assert((kk - 4) * (kk - 4) <= s) by (nonlinear_arith)
            requires l * l * ((kk - 4) * (kk - 4)) <= l * l * s, l >= 1;
    }
}

/// The grid vector of length `|k|` in the direction of `v` (see [`along`]):
/// its squared length is within `(|k| + 2)^2`, and at least `(|k| - 4)^2`
/// for a non-zero `v` and `|k| >= 4`.
pub fn along_grid(vx: i64, vy: i64, k: i64) -> (r: (i64, i64))
    requires
        in_bound(vx as int, 4 * SCREEN_BOUND),
        in_bound(vy as int, 4 * SCREEN_BOUND),
        in_bound(k as int, 5 * COORD_BOUND),
    ensures
        r.0 == along(vx as int, vy as int, k as int).0,
        r.1 == along(vx as int, vy as int, k as int).1,
        in_bound(r.0 as int, abs(k as int)),
        in_bound(r.1 as int, abs(k as int)),
        r.0 * r.0 + r.1 * r.1 <= (abs(k as int) + 2) * (abs(k as int) + 2),
        (vx != 0 || vy != 0) && abs(k as int) >= 4 ==> (abs(k as int) - 4) * (abs(k as int) - 4) <= r.0 * r.0
            + r.1 * r.1,
{
    let mut wx: i128 = vx as i128;
    let mut wy: i128 = vy as i128;
    proof {
        assert(wx * wx <= 160_000_000_000_000_000_000_000_000_000) by (nonlinear_arith)
            requires in_bound(wx as int, 400_000_000_000_000);
        assert(wy * wy <= 160_000_000_000_000_000_000_000_000_000) by (nonlinear_arith)
            requires in_bound(wy as int, 400_000_000_000_000);
        assert(wx * wx >= 0 && wy * wy >= 0) by (nonlinear_arith);
    }
    let mut n: u128 = (wx * wx + wy * wy) as u128;
    if n == 0 {
        assert(vx == 0 && vy == 0) by (nonlinear_arith)
            requires vx * vx + vy * vy == 0;
        assert(boosted(0, 0) == (0int, 0int));
        return (0, 0);
    }
    while n < BOOST_TARGET
        invariant
            n == wx * wx + wy * wy,
            0 < n < 0x10_0000_0000_0000_0000_0000_0000,
            boosted(wx as int, wy as int) == boosted(vx as int, vy as int),
        decreases (if n < BOOST_TARGET { BOOST_TARGET - n } else { 0 }),
    {
        assert(wx * wx <= n && wy * wy <= n) by (nonlinear_arith)
            requires n == wx * wx + wy * wy;
        assert(abs(wx as int) < 0x4_0000_0000_0000 && abs(wy as int) < 0x4_0000_0000_0000) by (nonlinear_arith)
            requires wx * wx <= n, wy * wy <= n, n < 0x10_0000_0000_0000_0000_0000_0000;
        assert((2 * wx) * (2 * wx) + (2 * wy) * (2 * wy) == 4 * n) by (nonlinear_arith)
            requires n == wx * wx + wy * wy;
        wx = 2 * wx;
        wy = 2 * wy;
        n = 4 * n;
    }
    assert(wx * wx <= n && wy * wy <= n) by (nonlinear_arith)
        requires n == wx * wx + wy * wy;
    assert(abs(wx as int) < 0x4_0000_0000_0000 && abs(wy as int) < 0x4_0000_0000_0000) by (nonlinear_arith)
        requires wx * wx <= n, wy * wy <= n, n < 0x10_0000_0000_0000_0000_0000_0000;
    assert(boosted(wx as int, wy as int) == (wx as int, wy as int));
    let l: u128 = int_sqrt(n);
    assert(l >= 0x1000_0000_0000) by (nonlinear_arith)
        requires is_isqrt(n as int, l as int), n >= 0x100_0000_0000_0000_0000_0000;
    assert(l < 0x4_0000_0000_0000) by (nonlinear_arith)
        requires is_isqrt(n as int, l as int), n < 0x10_0000_0000_0000_0000_0000_0000;
    proof {
        assert(in_bound(wx * (k as int), WIDE_BOUND as int)) by (nonlinear_arith)
            requires abs(wx as int) < 0x4_0000_0000_0000, in_bound(k as int, 5_000_000_000_000);
        assert(in_bound(wy * (k as int), WIDE_BOUND as int)) by (nonlinear_arith)
            requires abs(wy as int) < 0x4_0000_0000_0000, in_bound(k as int, 5_000_000_000_000);
        lemma_quotient_bound(wx as int, k as int, l as int, n as int);
        lemma_quotient_bound(wy as int, k as int, l as int, n as int);
        lemma_length_bound(wx as int, wy as int, n as int, l as int, k as int);
    }
    let qx = div_floor(wx * (k as i128), l as i128);
    let qy = div_floor(wy * (k as i128), l as i128);
    (qx as i64, qy as i64)
}

} // verus!
