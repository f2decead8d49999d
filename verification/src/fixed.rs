//! Fixed-point scalar arithmetic.
//!
//! Every scalar in the renderer is an `Fx`: a signed 64-bit count of
//! millionths, so the value of `Fx { raw }` is `raw / 1_000_000`.
//! All operations are total: results are truncated toward zero and
//! clipped into the symmetric range `[-MAX_RAW, MAX_RAW]`, so no
//! operation can overflow or panic (division requires a non-zero
//! divisor, the one machine limit).
use vstd::prelude::*;

verus! {

/// Raw units per 1.0 of value.
pub const SCALE: i64 = 1_000_000;

/// Largest raw magnitude a result may take (a value of one million).
pub const MAX_RAW: i64 = 1_000_000_000_000;

/// Absolute value of a mathematical integer.
pub open spec fn iabs(x: int) -> int {
    if x >= 0 {
        x
    } else {
        -x
    }
}

/// Clip an integer into the raw range `[-MAX_RAW, MAX_RAW]`.
pub open spec fn clip(x: int) -> int {
    if x > MAX_RAW as int {
        MAX_RAW as int
    } else if x < -(MAX_RAW as int) {
        -(MAX_RAW as int)
    } else {
        x
    }
}

/// Division truncated toward zero, for a positive divisor.
pub open spec fn tdiv(a: int, b: int) -> int
    recommends
        b > 0,
{
    if a >= 0 {
        a / b
    } else {
        -((-a) / b)
    }
}

/// Division truncated toward zero, for any non-zero divisor.
pub open spec fn sdiv(a: int, b: int) -> int
    recommends
        b != 0,
{
    if b > 0 {
        tdiv(a, b)
    } else {
        -tdiv(a, -b)
    }
}

/// Raw-level sum: clipped integer addition.
pub open spec fn fadd(a: int, b: int) -> int {
    clip(a + b)
}

/// Raw-level difference: clipped integer subtraction.
pub open spec fn fsub(a: int, b: int) -> int {
    clip(a - b)
}

/// Raw-level negation.
pub open spec fn fneg(a: int) -> int {
    clip(-a)
}

/// Raw-level product: the value product `(a/S)*(b/S)` held as raws is
/// `a*b/S`, truncated toward zero and clipped.
pub open spec fn fmul(a: int, b: int) -> int {
    clip(tdiv(a * b, SCALE as int))
}

/// Raw-level quotient: the value quotient `(a/S)/(b/S)` held as raws is
/// `a*S/b`, truncated toward zero and clipped.
pub open spec fn fdiv(a: int, b: int) -> int
    recommends
        b != 0,
{
    clip(sdiv(a * (SCALE as int), b))
}

/// The raw form of an integer value, clipped into range.
pub open spec fn fx_int(i: int) -> int {
    clip(i * (SCALE as int))
}

/// Smaller of two raws.
pub open spec fn fmin(a: int, b: int) -> int {
    if a <= b {
        a
    } else {
        b
    }
}

/// Larger of two raws.
pub open spec fn fmax(a: int, b: int) -> int {
    if a >= b {
        a
    } else {
        b
    }
}

/// A fixed-point number: `raw` millionths.
#[derive(Clone, Copy, Debug, PartialEq, Eq, Structural)]
pub struct Fx {
    pub raw: i64,
}

impl View for Fx {
    type V = int;

    open spec fn view(&self) -> int {
        self.raw as int
    }
}

impl Fx {
    /// Build a number from a count of millionths, clipped into range.
    pub fn from_micros(m: i64) -> (r: Fx)
        ensures
            r@ == clip(m as int),
    {
        if m > MAX_RAW {
            Fx { raw: MAX_RAW }
        } else if m < -MAX_RAW {
            Fx { raw: -MAX_RAW }
        } else {
            Fx { raw: m }
        }
    }

    /// Build a number from an integer value, clipped into range.
    pub fn from_int(i: i64) -> (r: Fx)
        ensures
            r@ == clip(i * (SCALE as int)),
    {
        let wide: i128 = (i as i128) * (SCALE as i128);
        if wide > MAX_RAW as i128 {
            Fx { raw: MAX_RAW }
        } else if wide < -MAX_RAW as i128 {
            Fx { raw: -MAX_RAW }
        } else {
            Fx { raw: wide as i64 }
        }
    }

    /// Clipped sum.
    pub fn add(self, rhs: Fx) -> (r: Fx)
        ensures
            r@ == fadd(self@, rhs@),
    {
        let wide: i128 = (self.raw as i128) + (rhs.raw as i128);
        if wide > MAX_RAW as i128 {
            Fx { raw: MAX_RAW }
        } else if wide < -MAX_RAW as i128 {
            Fx { raw: -MAX_RAW }
        } else {
            Fx { raw: wide as i64 }
        }
    }

    /// Clipped difference.
    pub fn sub(self, rhs: Fx) -> (r: Fx)
        ensures
            r@ == fsub(self@, rhs@),
    {
        let wide: i128 = (self.raw as i128) - (rhs.raw as i128);
        if wide > MAX_RAW as i128 {
            Fx { raw: MAX_RAW }
        } else if wide < -MAX_RAW as i128 {
            Fx { raw: -MAX_RAW }
        } else {
            Fx { raw: wide as i64 }
        }
    }

    /// Clipped negation.
    pub fn neg(self) -> (r: Fx)
        ensures
            r@ == fneg(self@),
    {
        let wide: i128 = -(self.raw as i128);
        if wide > MAX_RAW as i128 {
            Fx { raw: MAX_RAW }
        } else if wide < -MAX_RAW as i128 {
            Fx { raw: -MAX_RAW }
        } else {
            Fx { raw: wide as i64 }
        }
    }

    /// Absolute value, clipped.
    pub fn abs(self) -> (r: Fx)
        ensures
            r@ == clip(iabs(self@)),
    {
        if self.raw >= 0 {
            if self.raw > MAX_RAW {
                Fx { raw: MAX_RAW }
            } else {
                Fx { raw: self.raw }
            }
        } else {
            self.neg()
        }
    }

    /// Clipped, truncated product.
    pub fn mul(self, rhs: Fx) -> (r: Fx)
        ensures
            r@ == fmul(self@, rhs@),
    {
        let am: u64 = abs_u64(self.raw);
        let bm: u64 = abs_u64(rhs.raw);
        proof {
            lemma_mul_sign(self.raw as int, rhs.raw as int, am as int, bm as int);
        }
        let p: u128 = (am as u128) * (bm as u128);
        let q: u128 = p / (SCALE as u128);
        let qc: i64 = if q > MAX_RAW as u128 {
            MAX_RAW
        } else {
            q as i64
        };
        let neg: bool = (self.raw < 0) != (rhs.raw < 0);
        if neg {
            Fx { raw: -qc }
        } else {
            Fx { raw: qc }
        }
    }

    /// Clipped, truncated quotient. The divisor must be non-zero.
    pub fn div(self, rhs: Fx) -> (r: Fx)
        requires
            rhs@ != 0,
        ensures
            r@ == fdiv(self@, rhs@),
    {
        let am: u64 = abs_u64(self.raw);
        let bm: u64 = abs_u64(rhs.raw);
        proof {
            lemma_sdiv_mag(self.raw as int, rhs.raw as int);
        }
        let p: u128 = (am as u128) * (SCALE as u128);
        let q: u128 = p / (bm as u128);
        let qc: i64 = if q > MAX_RAW as u128 {
            MAX_RAW
        } else {
            q as i64
        };
        let neg: bool = (self.raw < 0) != (rhs.raw < 0);
        if neg {
            Fx { raw: -qc }
        } else {
            Fx { raw: qc }
        }
    }

    /// Square root, rounded down to the raw grid; zero on negative input.
    pub fn sqrt(self) -> (r: Fx)
        ensures
            r@ == fsqrt(self@),
    {
        if self.raw < 0 {
            Fx { raw: 0 }
        } else {
            let n: u128 = (self.raw as u128) * (SCALE as u128);
            let q: u64 = isqrt_u128(n);
            if q > MAX_RAW as u64 {
                Fx { raw: MAX_RAW }
            } else {
                Fx { raw: q as i64 }
            }
        }
    }

    /// Smaller of two numbers.
    pub fn min(self, rhs: Fx) -> (r: Fx)
        ensures
            r@ == fmin(self@, rhs@),
    {
        if self.raw <= rhs.raw {
            self
        } else {
            rhs
        }
    }

    /// Larger of two numbers.
    pub fn max(self, rhs: Fx) -> (r: Fx)
        ensures
            r@ == fmax(self@, rhs@),
    {
        if self.raw >= rhs.raw {
            self
        } else {
            rhs
        }
    }
}

/// Whether an integer lies in the clipped raw range.
pub open spec fn in_range(x: int) -> bool {
    -(MAX_RAW as int) <= x <= MAX_RAW as int
}

/// Truncated division negates with its numerator.
pub proof fn lemma_tdiv_neg(a: int, d: int)
    requires
        d > 0,
    ensures
        tdiv(-a, d) == -tdiv(a, d),
{
}

/// Truncated division is monotone in the numerator.
pub proof fn lemma_tdiv_mono(x: int, y: int, d: int)
    requires
        x <= y,
        d > 0,
    ensures
        tdiv(x, d) <= tdiv(y, d),
{
    if x >= 0 {
        vstd::arithmetic::div_mod::lemma_div_is_ordered(x, y, d);
    } else if y >= 0 {
        vstd::arithmetic::div_mod::lemma_div_pos_is_pos(-x, d);
        vstd::arithmetic::div_mod::lemma_div_pos_is_pos(y, d);
    } else {
        vstd::arithmetic::div_mod::lemma_div_is_ordered(-y, -x, d);
    }
}

/// A squared raw never multiplies to a negative product.
pub proof fn lemma_fmul_self_nonneg(a: int)
    ensures
        fmul(a, a) >= 0,
{
    assert(a * a >= 0) by (nonlinear_arith);
    vstd::arithmetic::div_mod::lemma_div_pos_is_pos(a * a, SCALE as int);
}

/// Squaring ignores the sign of its argument.
pub proof fn lemma_fmul_square_neg(a: int)
    ensures
        fmul(-a, -a) == fmul(a, a),
{
    assert((-a) * (-a) == a * a) by (nonlinear_arith);
}

/// Negating one product factor negates the clipped product.
pub proof fn lemma_fmul_neg_right(a: int, b: int)
    ensures
        fmul(a, -b) == -fmul(a, b),
{
    assert(a * (-b) == -(a * b)) by (nonlinear_arith);
    lemma_tdiv_neg(a * b, SCALE as int);
}

/// Negating the divisor negates the clipped quotient.
pub proof fn lemma_fdiv_neg_denom(a: int, b: int)
    requires
        b != 0,
    ensures
        fdiv(a, -b) == -fdiv(a, b),
{
}

/// Multiplying by the scale raw is the identity up to clipping: the
/// raw form of `(a/S) * 1.0` is `a` again.
pub proof fn lemma_fmul_scale(a: int)
    ensures
        fmul(a, SCALE as int) == clip(a),
{
    if a >= 0 {
        vstd::arithmetic::div_mod::lemma_div_by_multiple(a, SCALE as int);
    } else {
        vstd::arithmetic::div_mod::lemma_div_by_multiple(-a, SCALE as int);
    }
}

/// The clipped quotient is monotone in the numerator, for a positive
/// divisor.
pub proof fn lemma_fdiv_mono_num(n1: int, n2: int, d: int)
    requires
        n1 <= n2,
        d > 0,
    ensures
        fdiv(n1, d) <= fdiv(n2, d),
{
    lemma_tdiv_mono(n1 * (SCALE as int), n2 * (SCALE as int), d);
}

/// Integer square root, rounded down.
pub open spec fn sqrt_floor(x: nat) -> nat
    decreases x,
{
    if x == 0 {
        0
    } else {
        let r = sqrt_floor((x - 1) as nat);
        if (r + 1) * (r + 1) <= x {
            r + 1
        } else {
            r
        }
    }
}

/// Raw-level square root: the value root `sqrt(a/S)` held as raws is
/// `sqrt(a*S)` rounded down; negative inputs give zero.
pub open spec fn fsqrt(a: int) -> int {
    if a < 0 {
        0
    } else {
        clip(sqrt_floor((a * (SCALE as int)) as nat) as int)
    }
}

/// `sqrt_floor(x)` is the largest integer whose square is at most `x`.
pub proof fn lemma_sqrt_floor_bounds(x: nat)
    ensures
        sqrt_floor(x) * sqrt_floor(x) <= x,
        x < (sqrt_floor(x) + 1) * (sqrt_floor(x) + 1),
    decreases x,
{
    if x == 0 {
        assert(sqrt_floor(0) == 0);
        assert((sqrt_floor(x) + 1) * (sqrt_floor(x) + 1) == 1) by (nonlinear_arith)
            requires
                sqrt_floor(x) == 0,
        ;
    } else {
        let r0 = sqrt_floor((x - 1) as nat);
        lemma_sqrt_floor_bounds((x - 1) as nat);
        assert(r0 * r0 <= x - 1);
        assert(x - 1 < (r0 + 1) * (r0 + 1));
        if (r0 + 1) * (r0 + 1) <= x {
            assert(sqrt_floor(x) == r0 + 1);
            assert(x < (r0 + 2) * (r0 + 2)) by (nonlinear_arith)
                requires
                    x <= (r0 + 1) * (r0 + 1),
            ;
            assert(sqrt_floor(x) * sqrt_floor(x) <= x);
            assert(x < (sqrt_floor(x) + 1) * (sqrt_floor(x) + 1));
        } else {
            assert(sqrt_floor(x) == r0);
            assert(sqrt_floor(x) * sqrt_floor(x) <= x);
            assert(x < (sqrt_floor(x) + 1) * (sqrt_floor(x) + 1));
        }
    }
}

/// Any integer bracketing `x` between consecutive squares is its root.
pub proof fn lemma_sqrt_floor_unique(x: nat, r: nat)
    requires
        r * r <= x,
        x < (r + 1) * (r + 1),
    ensures
        r == sqrt_floor(x),
{
    let f = sqrt_floor(x);
    lemma_sqrt_floor_bounds(x);
    if r < f {
        assert((r + 1) * (r + 1) <= f * f) by (nonlinear_arith)
            requires
                r + 1 <= f,
        ;
    }
    if f < r {
        assert((f + 1) * (f + 1) <= r * r) by (nonlinear_arith)
            requires
                f + 1 <= r,
        ;
    }
}

/// Integer square root by bisection.
fn isqrt_u128(n: u128) -> (r: u64)
    requires
        n < 19342813113834066795298816,  // 2^84
    ensures
        r as nat == sqrt_floor(n as nat),
{
    let mut lo: u128 = 0;
    let mut hi: u128 = 4398046511104;  // 2^42
    proof {
        assert(hi * hi == 19342813113834066795298816) by (nonlinear_arith)
            requires
                hi == 4398046511104,
        ;
    }
    while hi - lo > 1
        invariant
            lo < hi <= 4398046511104,
            lo * lo <= n,
            n < hi * hi,
        decreases hi - lo,
    {
        let mid: u128 = lo + (hi - lo) / 2;
        proof {
            assert(mid * mid < 0x100000000000000000000000000000000) by (nonlinear_arith)
                requires
                    mid <= 4398046511104,
            ;
        }
        if mid * mid <= n {
            lo = mid;
        } else {
            hi = mid;
        }
    }
    proof {
        lemma_sqrt_floor_unique(n as nat, lo as nat);
    }
    lo as u64
}

/// Magnitude of a signed 64-bit integer.
fn abs_u64(x: i64) -> (m: u64)
    ensures
        m as int == iabs(x as int),
        m as int <= 0x8000_0000_0000_0000,
{
    if x >= 0 {
        x as u64
    } else {
        let wide: i128 = -(x as i128);
        wide as u64
    }
}

/// A signed product equals its magnitudes' product carrying the sign.
proof fn lemma_mul_sign(a: int, b: int, am: int, bm: int) by (nonlinear_arith)
    requires
        am == if a >= 0 { a } else { -a },
        bm == if b >= 0 { b } else { -b },
        am <= 0x8000_0000_0000_0000,
        bm <= 0x8000_0000_0000_0000,
    ensures
        am * bm >= 0,
        am * bm <= 0x4000_0000_0000_0000_0000_0000_0000_0000,
        a * b == if (a < 0) != (b < 0) {
            -(am * bm)
        } else {
            am * bm
        },
{
}

/// Truncated division by a signed divisor equals the quotient of the
/// magnitudes carrying the sign, for numerators of the form `a * SCALE`.
proof fn lemma_sdiv_mag(a: int, b: int)
    requires
        b != 0,
    ensures
        sdiv(a * (SCALE as int), b) == if (a < 0) != (b < 0) {
            -((iabs(a) * (SCALE as int)) / iabs(b))
        } else {
            (iabs(a) * (SCALE as int)) / iabs(b)
        },
{
    let s = SCALE as int;
    if a >= 0 {
        assert(iabs(a) * s == a * s);
    } else {
        assert(iabs(a) * s == -(a * s));
    }
}

} // verus!
