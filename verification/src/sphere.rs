//! Spheres and the analytic ray-sphere intersection.
use vstd::prelude::*;

use crate::fixed::{fadd, fdiv, fmul, fneg, fsqrt, fsub, Fx};
use crate::hittable::{hit_record_v, HitRecord, HitV, Hittable};
use crate::material::MaterialKind;
use crate::ray::{ray_at, Ray, RayV};
use crate::vec3::{vdivs, vdot, vlen_sq, vsub, Point, V3};

verus! {

/// Spec-level image of a sphere.
pub struct SphereV {
    pub center: V3,
    pub radius: int,
    pub material: MaterialKind,
}

/// The root the intersection settles on: the smaller root of the
/// quadratic when it lies strictly inside the window, else the larger
/// root when that does, else none. Degenerate geometry (a zero radius, a
/// direction whose squared length rounds to zero, a negative
/// discriminant) yields no root.
#[verifier::opaque]
pub open spec fn sphere_root_v(s: SphereV, r: RayV, t_min: int, t_max: int) -> Option<int> {
    let oc = vsub(r.orig, s.center);
    let a = vlen_sq(r.dir);
    let half_b = vdot(oc, r.dir);
    let c = fsub(vlen_sq(oc), fmul(s.radius, s.radius));
    let disc = fsub(fmul(half_b, half_b), fmul(a, c));
    if s.radius == 0 || a == 0 || disc < 0 {
        Option::None
    } else {
        let sqrtd = fsqrt(disc);
        let root1 = fdiv(fsub(fneg(half_b), sqrtd), a);
        let root2 = fdiv(fadd(fneg(half_b), sqrtd), a);
        if t_min < root1 && root1 < t_max {
            Option::Some(root1)
        } else if t_min < root2 && root2 < t_max {
            Option::Some(root2)
        } else {
            Option::None
        }
    }
}

/// What a sphere's `hit` returns: the record at the settled root, its
/// outward normal `(p - center) / radius`, so a negative radius flips
/// the geometric normal inward (the hollow-sphere convention).
#[verifier::opaque]
pub open spec fn sphere_hit_v(s: SphereV, r: RayV, t_min: int, t_max: int) -> Option<HitV> {
    match sphere_root_v(s, r, t_min, t_max) {
        Option::Some(t) => {
            let p = ray_at(r, t);
            let outward = vdivs(vsub(p, s.center), s.radius);
            Option::Some(hit_record_v(p, t, r, outward, s.material))
        },
        Option::None => Option::None,
    }
}

/// A hit's parameter lies strictly inside its window.
pub proof fn lemma_hit_in_window(s: SphereV, r: RayV, t_min: int, t_max: int)
    requires
        sphere_hit_v(s, r, t_min, t_max) is Some,
    ensures
        t_min < sphere_hit_v(s, r, t_min, t_max)->Some_0.t < t_max,
{
    reveal(sphere_root_v);
    reveal(sphere_hit_v);
}

/// Widening the window keeps a settled root: a hit found under a
/// narrowed window is the hit of the full window too.
pub proof fn lemma_root_window_widen(s: SphereV, r: RayV, t_min: int, t1: int, t2: int)
    requires
        t1 <= t2,
        sphere_hit_v(s, r, t_min, t1) is Some,
    ensures
        sphere_hit_v(s, r, t_min, t2) == sphere_hit_v(s, r, t_min, t1),
{
    reveal(sphere_root_v);
    reveal(sphere_hit_v);
    let oc = vsub(r.orig, s.center);
    let a = vlen_sq(r.dir);
    let half_b = vdot(oc, r.dir);
    let c = fsub(vlen_sq(oc), fmul(s.radius, s.radius));
    let disc = fsub(fmul(half_b, half_b), fmul(a, c));
    let sqrtd = fsqrt(disc);
    crate::vec3::lemma_vlen_sq_nonneg(r.dir);
    crate::fixed::lemma_fdiv_mono_num(
        fsub(fneg(half_b), sqrtd),
        fadd(fneg(half_b), sqrtd),
        a,
    );
}

/// Narrowing the window past a settled root keeps it: the hit of a full
/// window stays the hit of every window that still contains it.
pub proof fn lemma_root_window_shrink(s: SphereV, r: RayV, t_min: int, t1: int, t2: int)
    requires
        t1 <= t2,
        sphere_hit_v(s, r, t_min, t2) is Some,
        sphere_hit_v(s, r, t_min, t2)->Some_0.t < t1,
    ensures
        sphere_hit_v(s, r, t_min, t1) == sphere_hit_v(s, r, t_min, t2),
{
    reveal(sphere_root_v);
    reveal(sphere_hit_v);
    let oc = vsub(r.orig, s.center);
    let a = vlen_sq(r.dir);
    let half_b = vdot(oc, r.dir);
    let c = fsub(vlen_sq(oc), fmul(s.radius, s.radius));
    let disc = fsub(fmul(half_b, half_b), fmul(a, c));
    let sqrtd = fsqrt(disc);
    crate::vec3::lemma_vlen_sq_nonneg(r.dir);
    crate::fixed::lemma_fdiv_mono_num(
        fsub(fneg(half_b), sqrtd),
        fadd(fneg(half_b), sqrtd),
        a,
    );
}

/// The signed-radius law: a sphere with its radius negated meets a ray
/// at the same parameter and point; away from grazing incidence the
/// oriented normal is unchanged while the face flag flips, so the hollow
/// sphere differs only in which side counts as the front.
pub proof fn lemma_signed_radius(s: SphereV, r: RayV, t_min: int, t_max: int)
    requires
        s.radius != 0,
    ensures
        ({
            let m = SphereV { center: s.center, radius: -s.radius, material: s.material };
            match (sphere_hit_v(s, r, t_min, t_max), sphere_hit_v(m, r, t_min, t_max)) {
                (Option::Some(h), Option::Some(hm)) => {
                    &&& hm.p == h.p
                    &&& hm.t == h.t
                    &&& hm.material == h.material
                    &&& vdot(r.dir, vdivs(vsub(h.p, s.center), s.radius)) != 0 ==> hm.normal
                        == h.normal && hm.front_face == !h.front_face
                },
                (Option::None, Option::None) => true,
                _ => false,
            }
        }),
{
    reveal(sphere_root_v);
    reveal(sphere_hit_v);
    let m = SphereV { center: s.center, radius: -s.radius, material: s.material };
    crate::fixed::lemma_fmul_square_neg(s.radius);
    assert(sphere_root_v(m, r, t_min, t_max) == sphere_root_v(s, r, t_min, t_max));
    match sphere_root_v(s, r, t_min, t_max) {
        Option::Some(t) => {
            let p = ray_at(r, t);
            let d = vsub(p, s.center);
            let outward = vdivs(d, s.radius);
            crate::vec3::lemma_vdivs_neg_denom(d, s.radius);
            crate::vec3::lemma_vdot_neg_right(r.dir, outward);
            crate::vec3::lemma_vneg_involution(outward);
        },
        Option::None => {},
    }
}

/// A sphere, immutable after construction. A negative radius is legal
/// and makes the surface face inward.
#[derive(Clone, Copy, Debug, PartialEq, Eq, Structural)]
pub struct Sphere {
    pub center: Point,
    pub radius: Fx,
    pub material: MaterialKind,
}

impl View for Sphere {
    type V = SphereV;

    open spec fn view(&self) -> SphereV {
        SphereV { center: self.center@, radius: self.radius@, material: self.material }
    }
}

impl Hittable for Sphere {
    open spec fn hit_spec(&self, r: RayV, t_min: int, t_max: int) -> Option<HitV> {
        sphere_hit_v(self@, r, t_min, t_max)
    }

    /// Solve `|origin + t*direction - center|^2 = radius^2` and prefer
    /// the nearer surface point.
    fn hit(&self, r: &Ray, t_min: Fx, t_max: Fx) -> (res: Option<HitRecord>) {
        proof {
            reveal(sphere_root_v);
            reveal(sphere_hit_v);
        }
        let oc: Point = r.origin().sub(self.center);
        let a: Fx = r.direction().length_squared();
        let half_b: Fx = crate::vec3::Vec3::dot(oc, *r.direction());
        let c: Fx = oc.length_squared().sub(self.radius.mul(self.radius));
        let disc: Fx = half_b.mul(half_b).sub(a.mul(c));

        if self.radius.raw == 0 || a.raw == 0 || disc.raw < 0 {
            return Option::None;
        }
        let sqrtd: Fx = disc.sqrt();
        let mut root: Fx = half_b.neg().sub(sqrtd).div(a);
        if !(t_min.raw < root.raw && root.raw < t_max.raw) {
            root = half_b.neg().add(sqrtd).div(a);
            if !(t_min.raw < root.raw && root.raw < t_max.raw) {
                return Option::None;
            }
        }
        let p: Point = r.at(root);
        let outward = p.sub(self.center).div(self.radius);
        Option::Some(HitRecord::from(p, root, r, &outward, self.material))
    }
}

} // verus!
