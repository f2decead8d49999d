//! Material scattering models: Lambertian diffusion, fuzzy metal
//! reflection, and dielectric refraction with Schlick reflectance.
use vstd::prelude::*;

use crate::fixed::{fadd, fdiv, fmin, fmul, fsqrt, fsub, fx_int, Fx, SCALE};
use crate::hittable::{HitRecord, HitV};
use crate::ray::{Ray, RayV};
use crate::rng::{fixed_of, gen, unit_clamp, Sampler};
use crate::vec3::{
    fixed_ball, fixed_unit, vadd, vdot, vlen, vlen_sq, vnear_zero, vneg, vreflect, vrefract,
    vscale, vunit, vzero, Color, Vec3, V3,
};

verus! {

/// How light scatters at a surface. Returning nothing means the ray was
/// absorbed and contributes no further light.
pub trait Material {
    /// What `scatter` may return, as a function of the images and of the
    /// sampler the call started with.
    spec fn scatter_post(
        &self,
        r_in: RayV,
        rec: HitV,
        s_old: Sampler,
        res: Option<(Color, Ray)>,
    ) -> bool;

    /// Scatter the incoming ray at the given hit: an attenuation color
    /// and the scattered ray, or nothing on absorption.
    fn scatter(&self, r_in: &Ray, rec: &HitRecord, s: &mut Sampler) -> (res: Option<(Color, Ray)>)
        ensures
            self.scatter_post(r_in@, rec@, *old(s), res),
            *final(s) == *old(s),
    ;
}

/// The diffuse direction: the normal plus a unit draw, falling back to
/// the bare normal when the sum cancels to the near-zero vector.
pub open spec fn lambertian_dir(normal: V3, u: V3) -> V3 {
    let d = vadd(normal, u);
    if vnear_zero(d) {
        normal
    } else {
        d
    }
}

/// A diffuse surface that always scatters and attenuates by its albedo.
#[derive(Clone, Copy, Debug, PartialEq, Eq, Structural)]
pub struct Lambertian {
    pub albedo: Color,
}

impl Material for Lambertian {
    open spec fn scatter_post(
        &self,
        r_in: RayV,
        rec: HitV,
        s_old: Sampler,
        res: Option<(Color, Ray)>,
    ) -> bool {
        &&& res is Some
        &&& res matches Option::Some((att, sc)) ==> {
            &&& att@ == self.albedo@
            &&& sc@.orig == rec.p
            &&& exists|u: V3|
                #[trigger] vlen(u) == SCALE as int && sc@.dir == lambertian_dir(rec.normal, u)
            &&& !vnear_zero(rec.normal) ==> !vnear_zero(sc@.dir)
            &&& s_old is Fixed ==> sc@.dir == lambertian_dir(
                rec.normal,
                fixed_unit(fixed_of(s_old)),
            )
        }
    }

    fn scatter(&self, r_in: &Ray, rec: &HitRecord, s: &mut Sampler) -> (res: Option<(Color, Ray)>) {
        let u: Vec3 = Vec3::random_unit_vector(s);
        let mut direction: Vec3 = rec.normal.add(u);
        if direction.near_zero() {
            direction = rec.normal;
        }
        proof {
            assert(vlen(u@) == SCALE as int && direction@ == lambertian_dir(rec@.normal, u@));
        }
        Option::Some((self.albedo, Ray::ray(rec.p, direction)))
    }
}

/// A specular surface with fuzz in `[0, 1]` blurring the reflection;
/// a scatter that would point into the surface is absorbed.
#[derive(Clone, Copy, Debug, PartialEq, Eq, Structural)]
pub struct Metal {
    pub albedo: Color,
    pub fuzz: Fx,
}

impl Metal {
    /// A metal from its albedo components, with the fuzz clamped into
    /// the unit interval.
    pub fn new(albedo_r: Fx, albedo_g: Fx, albedo_b: Fx, fuzz: Fx) -> (r: Metal)
        ensures
            r == (Metal {
                albedo: Vec3 { x: albedo_r, y: albedo_g, z: albedo_b },
                fuzz: if fuzz@ < 0 {
                    Fx { raw: 0 }
                } else if fuzz@ < SCALE as int {
                    fuzz
                } else {
                    Fx { raw: SCALE }
                },
            }),
    {
        Metal {
            albedo: Vec3::from(albedo_r, albedo_g, albedo_b),
            fuzz: if fuzz.raw < 0 {
                Fx { raw: 0 }
            } else if fuzz.raw < SCALE {
                fuzz
            } else {
                Fx { raw: SCALE }
            },
        }
    }
}

impl Material for Metal {
    open spec fn scatter_post(
        &self,
        r_in: RayV,
        rec: HitV,
        s_old: Sampler,
        res: Option<(Color, Ray)>,
    ) -> bool {
        let reflected = vreflect(vunit(r_in.dir), rec.normal);
        &&& res matches Option::Some((att, sc)) ==> {
            &&& att@ == self.albedo@
            &&& sc@.orig == rec.p
            &&& vdot(sc@.dir, rec.normal) > 0
            &&& exists|p: V3|
                #[trigger] vlen_sq(p) < SCALE as int && sc@.dir == vadd(
                    reflected,
                    vscale(self.fuzz@, p),
                )
        }
        &&& res is None ==> exists|p: V3|
            #[trigger] vlen_sq(p) < SCALE as int && vdot(
                vadd(reflected, vscale(self.fuzz@, p)),
                rec.normal,
            ) <= 0
        &&& self.fuzz@ == 0 ==> {
            let dir = vadd(reflected, vzero());
            if vdot(dir, rec.normal) > 0 {
                res matches Option::Some((att, sc)) && att@ == self.albedo@ && sc@.orig == rec.p
                    && sc@.dir == dir
            } else {
                res is None
            }
        }
        &&& s_old is Fixed ==> {
            let dir = vadd(reflected, vscale(self.fuzz@, fixed_ball(fixed_of(s_old))));
            if vdot(dir, rec.normal) > 0 {
                res matches Option::Some((att, sc)) && att@ == self.albedo@ && sc@.orig == rec.p
                    && sc@.dir == dir
            } else {
                res is None
            }
        }
    }

    fn scatter(&self, r_in: &Ray, rec: &HitRecord, s: &mut Sampler) -> (res: Option<(Color, Ray)>) {
        let reflected: Vec3 = Vec3::reflect(&Vec3::unit_vector(*r_in.direction()), &rec.normal);
        let u: Vec3 = Vec3::random_in_unit_sphere(s);
        let dir: Vec3 = reflected.add(u.scale(self.fuzz));
        let d: Fx = Vec3::dot(dir, rec.normal);
        proof {
            assert(vlen_sq(u@) < SCALE as int && dir@ == vadd(
                vreflect(vunit(r_in@.dir), rec@.normal),
                vscale(self.fuzz@, u@),
            ));
        }
        if d.raw > 0 {
            Option::Some((self.albedo, Ray::ray(rec.p, dir)))
        } else {
            Option::None
        }
    }
}

/// The refraction ratio a dielectric applies: the inverse index on a
/// front face, the index itself on a back face. A zero index, a
/// degenerate parameter, resolves to ratio zero.
pub open spec fn dielectric_ratio(ir: int, front_face: bool) -> int {
    if front_face {
        if ir == 0 {
            0
        } else {
            fdiv(fx_int(1), ir)
        }
    } else {
        ir
    }
}

/// Schlick's reflectance approximation
/// `r0 + (1 - r0) * (1 - cos)^5` with `r0 = ((1-idx)/(1+idx))^2`.
/// An index of minus one, a degenerate parameter, resolves to full
/// reflectance.
pub open spec fn reflectance_v(cosine: int, ref_idx: int) -> int {
    let denom = fadd(fx_int(1), ref_idx);
    if denom == 0 {
        fx_int(1)
    } else {
        let r0b = fdiv(fsub(fx_int(1), ref_idx), denom);
        let r0 = fmul(r0b, r0b);
        let m = fsub(fx_int(1), cosine);
        let m2 = fmul(m, m);
        let m4 = fmul(m2, m2);
        let m5 = fmul(m4, m);
        fadd(r0, fmul(fsub(fx_int(1), r0), m5))
    }
}

/// A clear refractive surface described by its index of refraction.
#[derive(Clone, Copy, Debug, PartialEq, Eq, Structural)]
pub struct Dielectric {
    pub ir: Fx,
}

impl Dielectric {
    /// Schlick's reflectance approximation at the given cosine and index.
    pub fn reflectance(cosine: Fx, ref_idx: Fx) -> (r: Fx)
        ensures
            r@ == reflectance_v(cosine@, ref_idx@),
    {
        let one: Fx = Fx::from_int(1);
        let denom: Fx = one.add(ref_idx);
        if denom.raw == 0 {
            return one;
        }
        let r0b: Fx = one.sub(ref_idx).div(denom);
        let r0: Fx = r0b.mul(r0b);
        let m: Fx = one.sub(cosine);
        let m2: Fx = m.mul(m);
        let m4: Fx = m2.mul(m2);
        let m5: Fx = m4.mul(m);
        r0.add(one.sub(r0).mul(m5))
    }
}

impl Material for Dielectric {
    open spec fn scatter_post(
        &self,
        r_in: RayV,
        rec: HitV,
        s_old: Sampler,
        res: Option<(Color, Ray)>,
    ) -> bool {
        let ratio = dielectric_ratio(self.ir@, rec.front_face);
        let ud = vunit(r_in.dir);
        let cos = fmin(vdot(vneg(ud), rec.normal), fx_int(1));
        let sin = fsqrt(fsub(fx_int(1), fmul(cos, cos)));
        let cannot_refract = fmul(ratio, sin) > fx_int(1);
        let refl = reflectance_v(cos, ratio);
        &&& res is Some
        &&& res matches Option::Some((att, sc)) ==> {
            &&& att@ == (V3 { x: SCALE as int, y: SCALE as int, z: SCALE as int })
            &&& sc@.orig == rec.p
            &&& (sc@.dir == vreflect(ud, rec.normal) || sc@.dir == vrefract(ud, rec.normal, ratio))
            &&& cannot_refract ==> sc@.dir == vreflect(ud, rec.normal)
            &&& !cannot_refract && refl <= 0 ==> sc@.dir == vrefract(ud, rec.normal, ratio)
            &&& s_old is Fixed ==> sc@.dir == (
            if cannot_refract || refl > unit_clamp(fixed_of(s_old)) {
                vreflect(ud, rec.normal)
            } else {
                vrefract(ud, rec.normal, ratio)
            })
        }
    }

    fn scatter(&self, r_in: &Ray, rec: &HitRecord, s: &mut Sampler) -> (res: Option<(Color, Ray)>) {
        let one: Fx = Fx::from_int(1);
        let ratio: Fx = if rec.front_face {
            if self.ir.raw == 0 {
                Fx { raw: 0 }
            } else {
                one.div(self.ir)
            }
        } else {
            self.ir
        };
        let ud: Vec3 = Vec3::unit_vector(*r_in.direction());
        let cos: Fx = Vec3::dot(ud.neg(), rec.normal).min(one);
        let sin: Fx = one.sub(cos.mul(cos)).sqrt();

        let cannot_refract: bool = ratio.mul(sin).raw > SCALE;
        let refl: Fx = Dielectric::reflectance(cos, ratio);
        let draw: Fx = gen(s);
        let direction: Vec3 = if cannot_refract || refl.raw > draw.raw {
            Vec3::reflect(&ud, &rec.normal)
        } else {
            Vec3::refract(&ud, &rec.normal, ratio)
        };
        let white: Color = Vec3::from(one, one, one);
        Option::Some((white, Ray::ray(rec.p, direction)))
    }
}

/// The attenuation a material applies whenever it scatters: its albedo
/// for the diffuse and metallic kinds, white for glass.
pub open spec fn attenuation_of(m: MaterialKind) -> V3 {
    match m {
        MaterialKind::Lambertian(l) => l.albedo@,
        MaterialKind::Metal(mt) => mt.albedo@,
        MaterialKind::Dielectric(_) => V3 { x: SCALE as int, y: SCALE as int, z: SCALE as int },
    }
}

/// Whatever scattering returned, a kept ray carries exactly the
/// material's attenuation.
pub proof fn lemma_scatter_attenuation(
    m: MaterialKind,
    r_in: RayV,
    rec: HitV,
    s_old: Sampler,
    res: Option<(Color, Ray)>,
)
    requires
        m.scatter_post(r_in, rec, s_old, res),
    ensures
        res matches Option::Some((att, sc)) ==> att@ == attenuation_of(m),
{
}

/// The image of an optional scatter result.
pub open spec fn opt_scatter_v(res: Option<(Color, Ray)>) -> Option<(V3, RayV)> {
    match res {
        Option::Some((att, sc)) => Option::Some((att@, sc@)),
        Option::None => Option::None,
    }
}

/// What scattering returns under a fixed sampler, where every draw is
/// the same value: a function of the images and that one draw.
pub open spec fn scatter_fixed(m: MaterialKind, r_in: RayV, rec: HitV, c: int) -> Option<
    (V3, RayV),
> {
    match m {
        MaterialKind::Lambertian(l) => {
            let dir = lambertian_dir(rec.normal, fixed_unit(c));
            Option::Some((l.albedo@, RayV { orig: rec.p, dir }))
        },
        MaterialKind::Metal(mt) => {
            let reflected = vreflect(vunit(r_in.dir), rec.normal);
            let dir = vadd(reflected, vscale(mt.fuzz@, fixed_ball(c)));
            if vdot(dir, rec.normal) > 0 {
                Option::Some((mt.albedo@, RayV { orig: rec.p, dir }))
            } else {
                Option::None
            }
        },
        MaterialKind::Dielectric(d) => {
            let ratio = dielectric_ratio(d.ir@, rec.front_face);
            let ud = vunit(r_in.dir);
            let cos = fmin(vdot(vneg(ud), rec.normal), fx_int(1));
            let sin = fsqrt(fsub(fx_int(1), fmul(cos, cos)));
            let cannot_refract = fmul(ratio, sin) > fx_int(1);
            let refl = reflectance_v(cos, ratio);
            let dir = if cannot_refract || refl > unit_clamp(c) {
                vreflect(ud, rec.normal)
            } else {
                vrefract(ud, rec.normal, ratio)
            };
            Option::Some(
                (V3 { x: SCALE as int, y: SCALE as int, z: SCALE as int }, RayV {
                    orig: rec.p,
                    dir,
                }),
            )
        },
    }
}

/// Under a fixed sampler the scattering contract pins the whole result:
/// what any scatter returned is exactly the fixed-draw mirror.
pub proof fn lemma_scatter_fixed(
    m: MaterialKind,
    r_in: RayV,
    rec: HitV,
    s_old: Sampler,
    res: Option<(Color, Ray)>,
)
    requires
        m.scatter_post(r_in, rec, s_old, res),
        s_old is Fixed,
    ensures
        opt_scatter_v(res) == scatter_fixed(m, r_in, rec, fixed_of(s_old)),
{
}

/// The closed set of materials a primitive can carry.
#[derive(Clone, Copy, Debug, PartialEq, Eq, Structural)]
pub enum MaterialKind {
    Lambertian(Lambertian),
    Metal(Metal),
    Dielectric(Dielectric),
}

impl Material for MaterialKind {
    open spec fn scatter_post(
        &self,
        r_in: RayV,
        rec: HitV,
        s_old: Sampler,
        res: Option<(Color, Ray)>,
    ) -> bool {
        match *self {
            MaterialKind::Lambertian(m) => m.scatter_post(r_in, rec, s_old, res),
            MaterialKind::Metal(m) => m.scatter_post(r_in, rec, s_old, res),
            MaterialKind::Dielectric(m) => m.scatter_post(r_in, rec, s_old, res),
        }
    }

    fn scatter(&self, r_in: &Ray, rec: &HitRecord, s: &mut Sampler) -> (res: Option<(Color, Ray)>) {
        match self {
            MaterialKind::Lambertian(m) => m.scatter(r_in, rec, s),
            MaterialKind::Metal(m) => m.scatter(r_in, rec, s),
            MaterialKind::Dielectric(m) => m.scatter(r_in, rec, s),
        }
    }
}

} // verus!
