//! Three-component fixed-point vectors.
//!
//! `Vec3` serves as a geometric vector, a point and an RGB color. Its
//! spec-level image is `V3`, the triple of raw components as integers;
//! every operation has an exact integer-level mirror on `V3`.
use vstd::prelude::*;

use crate::fixed::{
    clip, fadd, fdiv, fmin, fmul, fneg, fsqrt, fsub, fx_int, iabs, in_range, Fx, SCALE,
};
use crate::rng::{fixed_of, gen, sample, sample_v, unit_clamp, Sampler};

verus! {

/// Spec-level image of a vector: its raw components as integers.
pub struct V3 {
    pub x: int,
    pub y: int,
    pub z: int,
}

/// The zero vector's image.
pub open spec fn vzero() -> V3 {
    V3 { x: 0, y: 0, z: 0 }
}

/// Componentwise sum.
pub open spec fn vadd(a: V3, b: V3) -> V3 {
    V3 { x: fadd(a.x, b.x), y: fadd(a.y, b.y), z: fadd(a.z, b.z) }
}

/// Componentwise difference.
pub open spec fn vsub(a: V3, b: V3) -> V3 {
    V3 { x: fsub(a.x, b.x), y: fsub(a.y, b.y), z: fsub(a.z, b.z) }
}

/// Componentwise negation.
pub open spec fn vneg(a: V3) -> V3 {
    V3 { x: fneg(a.x), y: fneg(a.y), z: fneg(a.z) }
}

/// Componentwise product.
pub open spec fn vmul(a: V3, b: V3) -> V3 {
    V3 { x: fmul(a.x, b.x), y: fmul(a.y, b.y), z: fmul(a.z, b.z) }
}

/// Scalar product: every component scaled by the raw `k`.
pub open spec fn vscale(k: int, a: V3) -> V3 {
    V3 { x: fmul(k, a.x), y: fmul(k, a.y), z: fmul(k, a.z) }
}

/// Scalar quotient: every component divided by the raw `k`.
pub open spec fn vdivs(a: V3, k: int) -> V3 {
    V3 { x: fdiv(a.x, k), y: fdiv(a.y, k), z: fdiv(a.z, k) }
}

/// Dot product.
pub open spec fn vdot(a: V3, b: V3) -> int {
    fadd(fadd(fmul(a.x, b.x), fmul(a.y, b.y)), fmul(a.z, b.z))
}

/// Cross product.
pub open spec fn vcross(a: V3, b: V3) -> V3 {
    V3 {
        x: fsub(fmul(a.y, b.z), fmul(a.z, b.y)),
        y: fsub(fmul(a.z, b.x), fmul(a.x, b.z)),
        z: fsub(fmul(a.x, b.y), fmul(a.y, b.x)),
    }
}

/// Squared length.
pub open spec fn vlen_sq(a: V3) -> int {
    vdot(a, a)
}

/// Length: the square root of the squared length.
pub open spec fn vlen(a: V3) -> int {
    fsqrt(vlen_sq(a))
}

/// Normalization; a vector of zero length is handed back unchanged,
/// the degenerate case every caller must resolve itself.
pub open spec fn vunit(a: V3) -> V3 {
    if vlen(a) == 0 {
        a
    } else {
        vdivs(a, vlen(a))
    }
}

/// Whether every component is below the near-zero threshold of 1e-8.
/// That threshold lies under the raw grid of 1e-6, so on this grid the
/// test is exact zeroness.
pub open spec fn vnear_zero(a: V3) -> bool {
    a.x == 0 && a.y == 0 && a.z == 0
}

/// Mirror reflection: `v - 2*dot(v,n)*n`.
pub open spec fn vreflect(v: V3, n: V3) -> V3 {
    vsub(v, vscale(fmul(fx_int(2), vdot(v, n)), n))
}

/// Snell refraction of the unit direction `uv` at the unit normal `n`
/// with refraction ratio `eta`.
pub open spec fn vrefract(uv: V3, n: V3, eta: int) -> V3 {
    let cos = fmin(vdot(vneg(uv), n), fx_int(1));
    let out_perp = vscale(eta, vadd(uv, vscale(cos, n)));
    let out_par = vscale(fneg(fsqrt(clip(iabs(fsub(fx_int(1), vlen_sq(out_perp)))))), n);
    vadd(out_perp, out_par)
}

/// Whether every component lies in the clipped raw range.
pub open spec fn vin_range(v: V3) -> bool {
    in_range(v.x) && in_range(v.y) && in_range(v.z)
}

/// A squared length is never negative.
pub proof fn lemma_vlen_sq_nonneg(v: V3)
    ensures
        vlen_sq(v) >= 0,
{
    crate::fixed::lemma_fmul_self_nonneg(v.x);
    crate::fixed::lemma_fmul_self_nonneg(v.y);
    crate::fixed::lemma_fmul_self_nonneg(v.z);
}

/// Negating the second factor negates the dot product, for an in-range
/// second factor.
pub proof fn lemma_vdot_neg_right(a: V3, b: V3)
    requires
        vin_range(b),
    ensures
        vdot(a, vneg(b)) == -vdot(a, b),
{
    crate::fixed::lemma_fmul_neg_right(a.x, b.x);
    crate::fixed::lemma_fmul_neg_right(a.y, b.y);
    crate::fixed::lemma_fmul_neg_right(a.z, b.z);
}

/// Negating the scalar divisor negates the quotient vector.
pub proof fn lemma_vdivs_neg_denom(v: V3, k: int)
    requires
        k != 0,
    ensures
        vdivs(v, -k) == vneg(vdivs(v, k)),
{
    crate::fixed::lemma_fdiv_neg_denom(v.x, k);
    crate::fixed::lemma_fdiv_neg_denom(v.y, k);
    crate::fixed::lemma_fdiv_neg_denom(v.z, k);
}

/// Negation undoes itself on in-range vectors.
pub proof fn lemma_vneg_involution(v: V3)
    requires
        vin_range(v),
    ensures
        vneg(vneg(v)) == v,
{
}

/// The candidate a fixed sampler draws over `[-1, 1)` per component.
pub open spec fn ball_cand(c: int) -> V3 {
    let e = sample_v(c, fx_int(-1), fx_int(1));
    V3 { x: e, y: e, z: e }
}

/// The unit-ball draw a fixed sampler settles on: its candidate when
/// that lies inside the ball, else the zero fallback.
pub open spec fn fixed_ball(c: int) -> V3 {
    if vlen_sq(ball_cand(c)) < SCALE as int {
        ball_cand(c)
    } else {
        vzero()
    }
}

/// The unit draw a fixed sampler settles on: its ball candidate
/// normalized, when that is a kept candidate (inside the ball, not on
/// the zero cell, normalization landing exactly on the unit grid
/// sphere); else the vertical axis fallback.
pub open spec fn fixed_unit(c: int) -> V3 {
    let p = ball_cand(c);
    let u = vunit(p);
    if 1 <= vlen_sq(p) < SCALE as int && vlen(u) == SCALE as int {
        u
    } else {
        V3 { x: 0, y: 0, z: SCALE as int }
    }
}

/// The vertical axis vector lies exactly on the unit grid sphere.
pub proof fn lemma_axis_unit()
    ensures
        vlen(V3 { x: 0, y: 0, z: SCALE as int }) == SCALE as int,
{
    let a = V3 { x: 0, y: 0, z: SCALE as int };
    assert(vlen_sq(a) == SCALE as int);
    assert(1000000000000 < 1000001 * 1000001) by (nonlinear_arith);
    crate::fixed::lemma_sqrt_floor_unique(1000000000000nat, 1000000nat);
}

/// The candidate a fixed sampler draws in the lens plane.
pub open spec fn disk_cand(c: int) -> V3 {
    let e = sample_v(c, fx_int(-1), fx_int(1));
    V3 { x: e, y: e, z: 0 }
}

/// The unit-disk draw a fixed sampler settles on.
pub open spec fn fixed_disk(c: int) -> V3 {
    if vlen_sq(disk_cand(c)) < SCALE as int {
        disk_cand(c)
    } else {
        vzero()
    }
}

/// A vector of three fixed-point components.
#[derive(Clone, Copy, Debug, PartialEq, Eq, Structural)]
pub struct Vec3 {
    pub x: Fx,
    pub y: Fx,
    pub z: Fx,
}

impl View for Vec3 {
    type V = V3;

    open spec fn view(&self) -> V3 {
        V3 { x: self.x@, y: self.y@, z: self.z@ }
    }
}

/// A vector read as a position.
pub type Point = Vec3;

/// A vector read as an RGB color.
pub type Color = Vec3;

impl Vec3 {
    /// The zero vector.
    pub fn new() -> (r: Vec3)
        ensures
            r@ == vzero(),
    {
        Vec3 { x: Fx { raw: 0 }, y: Fx { raw: 0 }, z: Fx { raw: 0 } }
    }

    /// The vector with the given components.
    pub fn from(e0: Fx, e1: Fx, e2: Fx) -> (r: Vec3)
        ensures
            r@ == (V3 { x: e0@, y: e1@, z: e2@ }),
    {
        Vec3 { x: e0, y: e1, z: e2 }
    }

    /// First component.
    pub fn x(&self) -> (r: Fx)
        ensures
            r@ == self@.x,
    {
        self.x
    }

    /// Second component.
    pub fn y(&self) -> (r: Fx)
        ensures
            r@ == self@.y,
    {
        self.y
    }

    /// Third component.
    pub fn z(&self) -> (r: Fx)
        ensures
            r@ == self@.z,
    {
        self.z
    }

    /// Componentwise sum.
    pub fn add(self, rhs: Vec3) -> (r: Vec3)
        ensures
            r@ == vadd(self@, rhs@),
    {
        Vec3 { x: self.x.add(rhs.x), y: self.y.add(rhs.y), z: self.z.add(rhs.z) }
    }

    /// Componentwise difference.
    pub fn sub(self, rhs: Vec3) -> (r: Vec3)
        ensures
            r@ == vsub(self@, rhs@),
    {
        Vec3 { x: self.x.sub(rhs.x), y: self.y.sub(rhs.y), z: self.z.sub(rhs.z) }
    }

    /// Componentwise negation.
    pub fn neg(self) -> (r: Vec3)
        ensures
            r@ == vneg(self@),
    {
        Vec3 { x: self.x.neg(), y: self.y.neg(), z: self.z.neg() }
    }

    /// Componentwise product.
    pub fn mul(self, rhs: Vec3) -> (r: Vec3)
        ensures
            r@ == vmul(self@, rhs@),
    {
        Vec3 { x: self.x.mul(rhs.x), y: self.y.mul(rhs.y), z: self.z.mul(rhs.z) }
    }

    /// Scalar product.
    pub fn scale(self, k: Fx) -> (r: Vec3)
        ensures
            r@ == vscale(k@, self@),
    {
        Vec3 { x: k.mul(self.x), y: k.mul(self.y), z: k.mul(self.z) }
    }

    /// Scalar quotient; the divisor must be non-zero.
    pub fn div(self, k: Fx) -> (r: Vec3)
        requires
            k@ != 0,
        ensures
            r@ == vdivs(self@, k@),
    {
        Vec3 { x: self.x.div(k), y: self.y.div(k), z: self.z.div(k) }
    }

    /// Squared length.
    pub fn length_squared(&self) -> (r: Fx)
        ensures
            r@ == vlen_sq(self@),
    {
        self.x.mul(self.x).add(self.y.mul(self.y)).add(self.z.mul(self.z))
    }

    /// Length.
    pub fn length(&self) -> (r: Fx)
        ensures
            r@ == vlen(self@),
    {
        self.length_squared().sqrt()
    }

    /// Dot product.
    pub fn dot(u: Vec3, v: Vec3) -> (r: Fx)
        ensures
            r@ == vdot(u@, v@),
    {
        u.x.mul(v.x).add(u.y.mul(v.y)).add(u.z.mul(v.z))
    }

    /// Cross product.
    pub fn cross(u: Vec3, v: Vec3) -> (r: Vec3)
        ensures
            r@ == vcross(u@, v@),
    {
        Vec3 {
            x: u.y.mul(v.z).sub(u.z.mul(v.y)),
            y: u.z.mul(v.x).sub(u.x.mul(v.z)),
            z: u.x.mul(v.y).sub(u.y.mul(v.x)),
        }
    }

    /// Normalization; a vector of zero length comes back unchanged.
    pub fn unit_vector(v: Vec3) -> (r: Vec3)
        ensures
            r@ == vunit(v@),
    {
        let len: Fx = v.length();
        if len.raw == 0 {
            v
        } else {
            v.div(len)
        }
    }

    /// Whether every component is below the near-zero threshold.
    pub fn near_zero(&self) -> (r: bool)
        ensures
            r == vnear_zero(self@),
    {
        self.x.raw == 0 && self.y.raw == 0 && self.z.raw == 0
    }

    /// Mirror reflection of `v` at the normal `n`.
    pub fn reflect(v: &Vec3, n: &Vec3) -> (r: Vec3)
        ensures
            r@ == vreflect(v@, n@),
    {
        let d: Fx = Vec3::dot(*v, *n);
        let two: Fx = Fx::from_int(2);
        v.sub(n.scale(two.mul(d)))
    }

    /// A vector whose components are draws uniform in `[0, 1)`.
    pub fn random(s: &mut Sampler) -> (r: Vec3)
        ensures
            0 <= r@.x < SCALE as int,
            0 <= r@.y < SCALE as int,
            0 <= r@.z < SCALE as int,
            *final(s) == *old(s),
            *old(s) is Fixed ==> {
                let e = unit_clamp(fixed_of(*old(s)));
                r@ == (V3 { x: e, y: e, z: e })
            },
    {
        let e0: Fx = gen(s);
        let e1: Fx = gen(s);
        let e2: Fx = gen(s);
        Vec3 { x: e0, y: e1, z: e2 }
    }

    /// A vector whose components are draws uniform in `[min, max)`.
    pub fn random_in(s: &mut Sampler, min: Fx, max: Fx) -> (r: Vec3)
        ensures
            exists|d: int|
                0 <= d < SCALE as int && r@.x == fadd(
                    min@,
                    #[trigger] fmul(d, fsub(max@, min@)),
                ),
            exists|d: int|
                0 <= d < SCALE as int && r@.y == fadd(
                    min@,
                    #[trigger] fmul(d, fsub(max@, min@)),
                ),
            exists|d: int|
                0 <= d < SCALE as int && r@.z == fadd(
                    min@,
                    #[trigger] fmul(d, fsub(max@, min@)),
                ),
            *final(s) == *old(s),
            *old(s) is Fixed ==> {
                let e = sample_v(fixed_of(*old(s)), min@, max@);
                r@ == (V3 { x: e, y: e, z: e })
            },
    {
        let e0: Fx = sample(s, min, max);
        let e1: Fx = sample(s, min, max);
        let e2: Fx = sample(s, min, max);
        Vec3 { x: e0, y: e1, z: e2 }
    }

    /// A draw inside the unit ball, by rejection over `[-1, 1)^3`; after
    /// too many rejected candidates the draw resolves to the zero vector,
    /// which lies in the ball.
    pub fn random_in_unit_sphere(s: &mut Sampler) -> (r: Vec3)
        ensures
            vlen_sq(r@) < SCALE as int,
            *final(s) == *old(s),
            *old(s) is Fixed ==> r@ == fixed_ball(fixed_of(*old(s))),
    {
        let neg_one: Fx = Fx::from_int(-1);
        let one: Fx = Fx::from_int(1);
        let mut tries: u64 = 0;
        while tries < 64
            invariant
                *s == *old(s),
                neg_one@ == fx_int(-1),
                one@ == fx_int(1),
                *old(s) is Fixed && tries > 0 ==> vlen_sq(ball_cand(fixed_of(*old(s))))
                    >= SCALE as int,
            decreases 64 - tries,
        {
            let p: Vec3 = Vec3::random_in(s, neg_one, one);
            if p.length_squared().raw < SCALE {
                return p;
            }
            tries = tries + 1;
        }
        Vec3::new()
    }

    /// A draw inside the unit sphere, flipped into the hemisphere around
    /// the given normal.
    pub fn random_in_hemisphere(s: &mut Sampler, normal: &Vec3) -> (r: Vec3)
        ensures
            exists|p: V3|
                #[trigger] vlen_sq(p) < SCALE as int && r@ == (if vdot(p, normal@) > 0 {
                    p
                } else {
                    vneg(p)
                }),
            *final(s) == *old(s),
            *old(s) is Fixed ==> r@ == {
                let p = fixed_ball(fixed_of(*old(s)));
                if vdot(p, normal@) > 0 {
                    p
                } else {
                    vneg(p)
                }
            },
    {
        let in_unit_sphere: Vec3 = Vec3::random_in_unit_sphere(s);
        let d: Fx = Vec3::dot(in_unit_sphere, *normal);
        let r: Vec3 = if d.raw > 0 {
            in_unit_sphere
        } else {
            in_unit_sphere.neg()
        };
        proof {
            assert(vlen_sq(in_unit_sphere@) < SCALE as int && r@ == (
            if vdot(in_unit_sphere@, normal@) > 0 {
                in_unit_sphere@
            } else {
                vneg(in_unit_sphere@)
            }));
        }
        r
    }

    /// A normalized draw from the unit ball. A candidate is kept only
    /// when its normalization lands exactly on the unit grid sphere, so
    /// the result always has grid length one; after too many rejected
    /// candidates the draw resolves to the vertical axis unit vector.
    pub fn random_unit_vector(s: &mut Sampler) -> (r: Vec3)
        ensures
            vlen(r@) == SCALE as int,
            *final(s) == *old(s),
            *old(s) is Fixed ==> r@ == fixed_unit(fixed_of(*old(s))),
    {
        let neg_one: Fx = Fx::from_int(-1);
        let one: Fx = Fx::from_int(1);
        let mut tries: u64 = 0;
        while tries < 64
            invariant
                *s == *old(s),
                neg_one@ == fx_int(-1),
                one@ == fx_int(1),
                *old(s) is Fixed && tries > 0 ==> fixed_unit(fixed_of(*old(s))) == (V3 {
                    x: 0,
                    y: 0,
                    z: SCALE as int,
                }),
            decreases 64 - tries,
        {
            let p: Vec3 = Vec3::random_in(s, neg_one, one);
            let q: Fx = p.length_squared();
            if 1 <= q.raw && q.raw < SCALE {
                let u: Vec3 = Vec3::unit_vector(p);
                let l: Fx = u.length();
                if l.raw == SCALE {
                    return u;
                }
            }
            tries = tries + 1;
        }
        proof {
            lemma_axis_unit();
        }
        Vec3 { x: Fx { raw: 0 }, y: Fx { raw: 0 }, z: Fx { raw: SCALE } }
    }

    /// A draw inside the unit disk of the lens plane, by rejection; after
    /// too many rejected candidates the draw resolves to the zero vector.
    pub fn random_in_unit_disk(s: &mut Sampler) -> (r: Vec3)
        ensures
            vlen_sq(r@) < SCALE as int,
            r@.z == 0,
            *final(s) == *old(s),
            *old(s) is Fixed ==> r@ == fixed_disk(fixed_of(*old(s))),
    {
        let neg_one: Fx = Fx::from_int(-1);
        let one: Fx = Fx::from_int(1);
        let mut tries: u64 = 0;
        while tries < 64
            invariant
                *s == *old(s),
                neg_one@ == fx_int(-1),
                one@ == fx_int(1),
                *old(s) is Fixed && tries > 0 ==> vlen_sq(disk_cand(fixed_of(*old(s))))
                    >= SCALE as int,
            decreases 64 - tries,
        {
            let ex: Fx = sample(s, neg_one, one);
            let ey: Fx = sample(s, neg_one, one);
            let p: Vec3 = Vec3 { x: ex, y: ey, z: Fx { raw: 0 } };
            if p.length_squared().raw < SCALE {
                return p;
            }
            tries = tries + 1;
        }
        Vec3::new()
    }

    /// Snell refraction of the unit direction `uv` at the unit normal
    /// `n` with refraction ratio `etai_etat`.
    pub fn refract(uv: &Vec3, n: &Vec3, etai_etat: Fx) -> (r: Vec3)
        ensures
            r@ == vrefract(uv@, n@, etai_etat@),
    {
        let cos: Fx = Vec3::dot(uv.neg(), *n).min(Fx::from_int(1));
        let out_perp: Vec3 = uv.add(n.scale(cos)).scale(etai_etat);
        let one: Fx = Fx::from_int(1);
        let fall: Fx = one.sub(out_perp.length_squared()).abs().sqrt();
        let out_par: Vec3 = n.scale(fall.neg());
        out_perp.add(out_par)
    }
}

} // verus!
