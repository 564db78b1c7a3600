use vstd::prelude::*;

verus! {

/// A fixed-point 2D vector. Components are in thousandths of a world unit,
/// so `Vec2 { x: 1000, y: 0 }` is one world unit along the x axis.
#[derive(Clone, Copy, PartialEq, Eq, Structural, Debug)]
pub struct Vec2 {
    pub x: i32,
    pub y: i32,
}

/// Largest magnitude an impulse intent may keep: 4 world units.
pub const IMPULSE_CAP: i32 = 4000;

/// Intents whose magnitude is at most 0.05 world units are treated as noise
/// and zeroed.
pub const DEAD_ZONE: i32 = 50;

impl Vec2 {
    /// The squared magnitude, as an unbounded integer.
    pub open spec fn spec_norm_sq(self) -> int {
        self.x * self.x + self.y * self.y
    }

    /// Construct from components.
    pub fn new(x: i32, y: i32) -> (r: Vec2)
        ensures
            r == (Vec2 { x, y }),
    {
        Vec2 { x, y }
    }

    /// The squared magnitude. Total: the square of every `i32` pair fits in a
    /// `u64`.
    pub fn norm_sq(&self) -> (r: u64)
        ensures
            r == self.spec_norm_sq(),
    {
        let xw: i64 = self.x as i64;
        let yw: i64 = self.y as i64;
        proof {
            assert(xw * xw <= 0x4000_0000_0000_0000 && xw * xw >= 0) by (nonlinear_arith)
                requires
                    -0x8000_0000 <= xw <= 0x7fff_ffff,
            ;
            assert(yw * yw <= 0x4000_0000_0000_0000 && yw * yw >= 0) by (nonlinear_arith)
                requires
                    -0x8000_0000 <= yw <= 0x7fff_ffff,
            ;
        }
        let sx: u64 = (xw * xw) as u64;
        let sy: u64 = (yw * yw) as u64;
        sx + sy
    }

    /// Doubles each component; used to turn a stored intent into the applied
    /// physics impulse.
    pub fn doubled(&self) -> (r: Vec2)
        requires
            -0x2000_0000 <= self.x <= 0x2000_0000,
            -0x2000_0000 <= self.y <= 0x2000_0000,
        ensures
            r.x == 2 * self.x,
            r.y == 2 * self.y,
    {
        Vec2 { x: 2 * self.x, y: 2 * self.y }
    }
}

/// Holds when `m` is the integer square-root ceiling of `ns`, for `ns >= 1`.
pub open spec fn is_ceil_sqrt(ns: int, m: int) -> bool {
    0 < m && (m - 1) * (m - 1) < ns && ns <= m * m
}

/// One component of a vector scaled by `cap / m`, rounded toward zero.
pub open spec fn spec_scale_coord(a: int, m: int) -> int {
    if a >= 0 {
        (a * IMPULSE_CAP) / m
    } else {
        -(((-a) * IMPULSE_CAP) / m)
    }
}

/// The integer square-root ceiling of `ns`, well defined for `ns >= 1` (see
/// `lemma_ceil_sqrt`).
pub closed spec fn spec_ceil_sqrt(ns: int) -> int {
    choose|m: int| #[trigger] is_ceil_sqrt(ns, m)
}

proof fn lemma_ceil_sqrt_exists(ns: int)
    requires
        ns >= 1,
    ensures
        exists|m: int| is_ceil_sqrt(ns, m),
    decreases ns,
{
    if ns == 1 {
        assert(is_ceil_sqrt(1, 1));
    } else {
        lemma_ceil_sqrt_exists(ns - 1);
        let m0: int = choose|m: int| #[trigger] is_ceil_sqrt(ns - 1, m);
        if ns <= m0 * m0 {
            assert(is_ceil_sqrt(ns, m0));
        } else {
            assert(is_ceil_sqrt(ns, m0 + 1)) by (nonlinear_arith)
                requires
                    is_ceil_sqrt(ns - 1, m0) && ns > m0 * m0,
            ;
        }
    }
}

/// For `ns >= 1`, `spec_ceil_sqrt(ns)` really is the square-root ceiling.
pub proof fn lemma_ceil_sqrt(ns: int)
    requires
        ns >= 1,
    ensures
        is_ceil_sqrt(ns, spec_ceil_sqrt(ns)),
{
    lemma_ceil_sqrt_exists(ns);
}

/// What the impulse clamp/dead-zone rule stores for an input vector `v`:
/// zero when `v` lies within the dead zone, `v` itself when its magnitude is
/// at most the cap, and `v` scaled down to the cap otherwise.
pub open spec fn spec_clamped_intent(v: Vec2) -> Vec2 {
    let ns = v.spec_norm_sq();
    if ns <= DEAD_ZONE * DEAD_ZONE {
        Vec2 { x: 0, y: 0 }
    } else if ns <= IMPULSE_CAP * IMPULSE_CAP {
        v
    } else {
        let m = spec_ceil_sqrt(ns);
        Vec2 {
            x: spec_scale_coord(v.x as int, m) as i32,
            y: spec_scale_coord(v.y as int, m) as i32,
        }
    }
}

/// The integer square root: the largest `r` with `r * r <= n`.
pub fn isqrt(n: u64) -> (r: u64)
    ensures
        r * r <= n < (r + 1) * (r + 1),
        r <= 0xffff_ffff,
{
    let mut lo: u64 = 0;
    let mut hi: u64 = 0xffff_ffff;
    proof {
        assert((hi + 1) * (hi + 1) > n as int) by (nonlinear_arith)
            requires
                hi == 0xffff_ffffu64 && n <= 0xffff_ffff_ffff_ffffu64,
        ;
    }
    while lo < hi
        invariant
            lo <= hi <= 0xffff_ffff,
            lo * lo <= n,
            n < (hi + 1) * (hi + 1),
        decreases hi - lo,
    {
        let mid: u64 = lo + (hi - lo + 1) / 2;
        proof {
            assert(mid * mid <= 0xffff_fffe_0000_0001) by (nonlinear_arith)
                requires
                    mid <= 0xffff_ffffu64,
            ;
        }
        if mid * mid <= n {
            lo = mid;
        } else {
            hi = mid - 1;
        }
    }
    lo
}

proof fn lemma_sq_le(a: int, b: int)
    by (nonlinear_arith)
    requires
        0 <= a <= b,
    ensures
        a * a <= b * b,
{
}

proof fn lemma_scaled_norm_bounded(x: int, y: int, xs: int, ys: int, m: int, c: int)
    by (nonlinear_arith)
    requires
        m > 0,
        c > 0,
        x * x + y * y <= m * m,
        xs * xs * (m * m) <= x * x * (c * c),
        ys * ys * (m * m) <= y * y * (c * c),
    ensures
        xs * xs + ys * ys <= c * c,
{
}

/// `|scaled| * m <= |a| * c` lifted to squares.
proof fn lemma_scale_coord_sq(a: int, m: int, s: int, c: int)
    requires
        m > 0,
        c == IMPULSE_CAP,
        s == spec_scale_coord(a, m),
    ensures
        s * s * (m * m) <= a * a * (c * c),
{
    let abs_a: int = if a >= 0 { a } else { -a };
    let q: int = (abs_a * c) / m;
    vstd::arithmetic::div_mod::lemma_fundamental_div_mod(abs_a * c, m);
    vstd::arithmetic::div_mod::lemma_mod_bound(abs_a * c, m);
    let rem: int = (abs_a * c) % m;
    assert(q * m <= abs_a * c);
    assert(q >= 0) by (nonlinear_arith)
        requires
            abs_a >= 0 && c > 0 && m > 0 && abs_a * c == m * q + rem && 0 <= rem < m,
    ;
    assert(q == if s >= 0 { s } else { -s });
    lemma_sq_le(q * m, abs_a * c);
    assert((q * m) * (q * m) == q * q * (m * m)) by (nonlinear_arith);
    assert((abs_a * c) * (abs_a * c) == abs_a * abs_a * (c * c)) by (nonlinear_arith);
    assert(q * q == s * s) by (nonlinear_arith)
        requires
            q == if s >= 0 { s } else { -s },
    ;
    assert(abs_a * abs_a == a * a) by (nonlinear_arith)
        requires
            abs_a == if a >= 0 { a } else { -a },
    ;
}

/// One scaled component, rounded toward zero. Requires the divisor to be at
/// least the cap so that the result shrinks.
fn scale_coord(a: i32, m: u64) -> (s: i32)
    requires
        m >= IMPULSE_CAP,
    ensures
        s == spec_scale_coord(a as int, m as int),
{
    let abs_a: u64 = if a >= 0 {
        a as u64
    } else {
        (-(a as i64)) as u64
    };
    let prod: u64 = abs_a * (IMPULSE_CAP as u64);
    let q: u64 = prod / m;
    proof {
        assert(q <= abs_a) by (nonlinear_arith)
            requires
                q == prod as int / m as int && prod == abs_a * 4000 && m >= 4000 && m > 0 && abs_a
                    >= 0,
        ;
    }
    if a >= 0 {
        q as i32
    } else {
        (-(q as i64)) as i32
    }
}

/// Applies the impulse clamp/dead-zone rule: inputs within the dead zone are
/// zeroed, inputs within the cap are kept, longer inputs are scaled down to
/// the cap. The stored magnitude never exceeds the cap.
pub fn clamp_intent(v: Vec2) -> (r: Vec2)
    ensures
        r == spec_clamped_intent(v),
        r.spec_norm_sq() <= IMPULSE_CAP * IMPULSE_CAP,
{
    let ns: u64 = v.norm_sq();
    if ns <= (DEAD_ZONE * DEAD_ZONE) as u64 {
        Vec2 { x: 0, y: 0 }
    } else if ns <= (IMPULSE_CAP * IMPULSE_CAP) as u64 {
        v
    } else {
        let s: u64 = isqrt(ns);
        proof {
            assert(s * s <= 0xffff_fffe_0000_0001) by (nonlinear_arith)
                requires
                    s <= 0xffff_ffffu64,
            ;
        }
        let m: u64 = if s * s == ns {
            s
        } else {
            s + 1
        };
        proof {
            assert(s >= 1) by (nonlinear_arith)
                requires
                    s * s <= ns < (s + 1) * (s + 1) && ns > 16000000,
            ;
            assert(is_ceil_sqrt(ns as int, m as int)) by (nonlinear_arith)
                requires
                    s >= 1 && s * s <= ns < (s + 1) * (s + 1) && (if s * s == ns {
                        m == s
                    } else {
                        m == s + 1
                    }),
            ;
            assert(m >= IMPULSE_CAP) by (nonlinear_arith)
                requires
                    is_ceil_sqrt(ns as int, m as int) && ns > 16000000 && IMPULSE_CAP == 4000,
            ;
        }
        let xs: i32 = scale_coord(v.x, m);
        let ys: i32 = scale_coord(v.y, m);
        let r = Vec2 { x: xs, y: ys };
        proof {
            lemma_scale_coord_sq(v.x as int, m as int, xs as int, IMPULSE_CAP as int);
            lemma_scale_coord_sq(v.y as int, m as int, ys as int, IMPULSE_CAP as int);
            lemma_scaled_norm_bounded(
                v.x as int,
                v.y as int,
                xs as int,
                ys as int,
                m as int,
                IMPULSE_CAP as int,
            );
            lemma_ceil_sqrt(ns as int);
            lemma_ceil_sqrt_unique(ns as int, m as int, spec_ceil_sqrt(ns as int));
        }
        r
    }
}

/// A scaled component never grows: its magnitude stays at or below `|a|`.
proof fn lemma_scale_coord_small(a: int, m: int)
    requires
        m >= IMPULSE_CAP,
    ensures
        (if a >= 0 {
            -a
        } else {
            a
        }) <= spec_scale_coord(a, m) <= (if a >= 0 {
            a
        } else {
            -a
        }),
{
    let abs_a: int = if a >= 0 { a } else { -a };
    let c: int = IMPULSE_CAP as int;
    let q: int = (abs_a * c) / m;
    vstd::arithmetic::div_mod::lemma_fundamental_div_mod(abs_a * c, m);
    vstd::arithmetic::div_mod::lemma_mod_bound(abs_a * c, m);
    let rem: int = (abs_a * c) % m;
    assert(q >= 0 && q <= abs_a) by (nonlinear_arith)
        requires
            abs_a >= 0 && c > 0 && m >= c && abs_a * c == m * q + rem && 0 <= rem < m,
    ;
}

/// The stored intent never exceeds the impulse cap, stated of the spec-level
/// clamp itself.
pub proof fn lemma_clamped_intent_bounded(v: Vec2)
    ensures
        spec_clamped_intent(v).spec_norm_sq() <= IMPULSE_CAP * IMPULSE_CAP,
{
    let ns: int = v.spec_norm_sq();
    if ns <= DEAD_ZONE * DEAD_ZONE {
    } else if ns <= IMPULSE_CAP * IMPULSE_CAP {
    } else {
        lemma_ceil_sqrt(ns);
        let m: int = spec_ceil_sqrt(ns);
        assert(m >= IMPULSE_CAP) by (nonlinear_arith)
            requires
                is_ceil_sqrt(ns, m) && ns > 16000000 && IMPULSE_CAP == 4000,
        ;
        lemma_scale_coord_small(v.x as int, m);
        lemma_scale_coord_small(v.y as int, m);
        let xs: int = spec_scale_coord(v.x as int, m);
        let ys: int = spec_scale_coord(v.y as int, m);
        assert(spec_clamped_intent(v).x == xs && spec_clamped_intent(v).y == ys);
        lemma_scale_coord_sq(v.x as int, m, xs, IMPULSE_CAP as int);
        lemma_scale_coord_sq(v.y as int, m, ys, IMPULSE_CAP as int);
        lemma_scaled_norm_bounded(v.x as int, v.y as int, xs, ys, m, IMPULSE_CAP as int);
    }
}

/// The zero vector has zero squared magnitude.
pub proof fn lemma_zero_norm()
    ensures
        (Vec2 { x: 0, y: 0 }).spec_norm_sq() == 0,
{
}

/// A vector whose squared magnitude is at most `b * b` has both components
/// in `[-b, b]`.
pub proof fn lemma_component_bound(v: Vec2, b: int)
    by (nonlinear_arith)
    requires
        b >= 0,
        v.spec_norm_sq() <= b * b,
    ensures
        -b <= v.x <= b,
        -b <= v.y <= b,
{
}

proof fn lemma_ceil_sqrt_unique(ns: int, m1: int, m2: int)
    by (nonlinear_arith)
    requires
        is_ceil_sqrt(ns, m1),
        is_ceil_sqrt(ns, m2),
    ensures
        m1 == m2,
{
}

} // verus!
