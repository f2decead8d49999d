//! The thin-lens camera: maps normalized image coordinates to world rays.
use vstd::prelude::*;

use crate::fixed::{fadd, fdiv, fmul, fsub, fx_int, Fx, MAX_RAW, SCALE};
use crate::ray::{Ray, RayV};
use crate::rng::{fixed_of, Sampler};
use crate::vec3::{
    fixed_disk, vadd, vcross, vdivs, vlen_sq, vscale, vsub, vunit, vzero, Point, Vec3, V3,
};

verus! {

/// The circle constant on the raw grid.
pub const PI_RAW: i64 = 3_141_593;

/// Sine by its Maclaurin series to the seventh power, adequate on the
/// half-angles a field of view under a straight angle produces.
pub open spec fn sin_series(x: int) -> int {
    let x2 = fmul(x, x);
    let x3 = fmul(x2, x);
    let x5 = fmul(x3, x2);
    let x7 = fmul(x5, x2);
    fsub(fadd(fsub(x, fdiv(x3, fx_int(6))), fdiv(x5, fx_int(120))), fdiv(x7, fx_int(5040)))
}

/// Cosine by its Maclaurin series to the sixth power.
pub open spec fn cos_series(x: int) -> int {
    let x2 = fmul(x, x);
    let x4 = fmul(x2, x2);
    let x6 = fmul(x4, x2);
    fsub(fadd(fsub(fx_int(1), fdiv(x2, fx_int(2))), fdiv(x4, fx_int(24))), fdiv(x6, fx_int(720)))
}

/// Tangent as the series quotient; once the cosine series is not
/// positive the angle is out of the camera's range and the tangent
/// saturates at the largest raw.
pub open spec fn tan_v(x: int) -> int {
    let c = cos_series(x);
    if c <= 0 {
        MAX_RAW as int
    } else {
        fdiv(sin_series(x), c)
    }
}

/// Spec-level image of a camera.
pub struct CamV {
    pub origin: V3,
    pub lower_left_corner: V3,
    pub horizontal: V3,
    pub vertical: V3,
    pub u: V3,
    pub v: V3,
    pub w: V3,
    pub lens_radius: int,
}

/// The derived configuration: orthonormal-basis construction, viewport
/// extents from the field of view, and the focus-scaled frame.
pub open spec fn camera_v(
    lookfrom: V3,
    lookat: V3,
    vup: V3,
    v_fov: int,
    aspect_ratio: int,
    aperture: int,
    focus_dist: int,
) -> CamV {
    let half_rad = fdiv(fmul(v_fov, PI_RAW as int), fx_int(360));
    let viewport_height = fmul(fx_int(2), tan_v(half_rad));
    let w = vunit(vsub(lookfrom, lookat));
    let u = vunit(vcross(vup, w));
    let v = vcross(w, u);
    let horizontal = vscale(fmul(fmul(focus_dist, aspect_ratio), viewport_height), u);
    let vertical = vscale(fmul(focus_dist, viewport_height), v);
    let lower_left_corner = vsub(
        vsub(vsub(lookfrom, vdivs(horizontal, fx_int(2))), vdivs(vertical, fx_int(2))),
        vscale(focus_dist, w),
    );
    CamV {
        origin: lookfrom,
        lower_left_corner,
        horizontal,
        vertical,
        u,
        v,
        w,
        lens_radius: fdiv(aperture, fx_int(2)),
    }
}

/// The ray a camera casts toward image coordinates `(s, t)` with the
/// lens offset taken from the scaled disk draw `rd`.
pub open spec fn camera_ray_v(cam: CamV, s: int, t: int, rd: V3) -> RayV {
    let offset = vadd(vscale(rd.x, cam.u), vscale(rd.y, cam.v));
    RayV {
        orig: vadd(cam.origin, offset),
        dir: vsub(
            vsub(
                vadd(vadd(cam.lower_left_corner, vscale(s, cam.horizontal)), vscale(t, cam.vertical)),
                cam.origin,
            ),
            offset,
        ),
    }
}

/// An immutable camera configuration, derived once from the scene setup.
#[derive(Clone, Copy, Debug, PartialEq, Eq, Structural)]
pub struct Camera {
    pub origin: Point,
    pub lower_left_corner: Point,
    pub horizontal: Vec3,
    pub vertical: Vec3,
    pub u: Vec3,
    pub v: Vec3,
    pub w: Vec3,
    pub lens_radius: Fx,
}

impl View for Camera {
    type V = CamV;

    open spec fn view(&self) -> CamV {
        CamV {
            origin: self.origin@,
            lower_left_corner: self.lower_left_corner@,
            horizontal: self.horizontal@,
            vertical: self.vertical@,
            u: self.u@,
            v: self.v@,
            w: self.w@,
            lens_radius: self.lens_radius@,
        }
    }
}

/// Tangent of a fixed-point angle in radians, by truncated series.
fn tan_fx(x: Fx) -> (r: Fx)
    ensures
        r@ == tan_v(x@),
{
    let x2: Fx = x.mul(x);
    let x3: Fx = x2.mul(x);
    let x5: Fx = x3.mul(x2);
    let x7: Fx = x5.mul(x2);
    let one: Fx = Fx::from_int(1);
    let sin: Fx = x.sub(x3.div(Fx::from_int(6))).add(x5.div(Fx::from_int(120))).sub(
        x7.div(Fx::from_int(5040)),
    );
    let x4: Fx = x2.mul(x2);
    let x6: Fx = x4.mul(x2);
    let cos: Fx = one.sub(x2.div(Fx::from_int(2))).add(x4.div(Fx::from_int(24))).sub(
        x6.div(Fx::from_int(720)),
    );
    if cos.raw <= 0 {
        Fx { raw: MAX_RAW }
    } else {
        sin.div(cos)
    }
}

impl Camera {
    /// Derive a camera from look-from/look-at/up, a vertical field of
    /// view in degrees, the aspect ratio, the aperture and the focus
    /// distance.
    pub fn new(
        lookfrom: Point,
        lookat: Point,
        vup: Vec3,
        v_fov: Fx,
        aspect_ratio: Fx,
        aperture: Fx,
        focus_dist: Fx,
    ) -> (cam: Camera)
        ensures
            cam@ == camera_v(
                lookfrom@,
                lookat@,
                vup@,
                v_fov@,
                aspect_ratio@,
                aperture@,
                focus_dist@,
            ),
    {
        let pi: Fx = Fx { raw: PI_RAW };
        let half_rad: Fx = v_fov.mul(pi).div(Fx::from_int(360));
        let viewport_height: Fx = Fx::from_int(2).mul(tan_fx(half_rad));
        let w: Vec3 = Vec3::unit_vector(lookfrom.sub(lookat));
        let u: Vec3 = Vec3::unit_vector(Vec3::cross(vup, w));
        let v: Vec3 = Vec3::cross(w, u);
        let horizontal: Vec3 = u.scale(focus_dist.mul(aspect_ratio).mul(viewport_height));
        let vertical: Vec3 = v.scale(focus_dist.mul(viewport_height));
        let two: Fx = Fx::from_int(2);
        let lower_left_corner: Point = lookfrom.sub(horizontal.div(two)).sub(vertical.div(two)).sub(
            w.scale(focus_dist),
        );
        Camera {
            origin: lookfrom,
            lower_left_corner,
            horizontal,
            vertical,
            u,
            v,
            w,
            lens_radius: aperture.div(two),
        }
    }

    /// The ray toward normalized image coordinates `(s, t)`, its origin
    /// perturbed over the lens disk for depth of field. With a closed
    /// aperture the ray is a function of the coordinates alone.
    pub fn get_ray(&self, s: Fx, t: Fx, smp: &mut Sampler) -> (r: Ray)
        ensures
            exists|p: V3|
                #[trigger] vlen_sq(p) < SCALE as int && p.z == 0 && r@ == camera_ray_v(
                    self@,
                    s@,
                    t@,
                    vscale(self@.lens_radius, p),
                ),
            *final(smp) == *old(smp),
            self@.lens_radius == 0 ==> r@ == camera_ray_v(self@, s@, t@, vzero()),
            *old(smp) is Fixed ==> r@ == camera_ray_v(
                self@,
                s@,
                t@,
                vscale(self@.lens_radius, fixed_disk(fixed_of(*old(smp)))),
            ),
    {
        let d: Vec3 = Vec3::random_in_unit_disk(smp);
        let rd: Vec3 = d.scale(self.lens_radius);
        let offset: Vec3 = self.u.scale(rd.x).add(self.v.scale(rd.y));
        let r: Ray = Ray::ray(
            self.origin.add(offset),
            self.lower_left_corner.add(self.horizontal.scale(s)).add(self.vertical.scale(t)).sub(
                self.origin,
            ).sub(offset),
        );
        proof {
            assert(vlen_sq(d@) < SCALE as int && d@.z == 0 && r@ == camera_ray_v(
                self@,
                s@,
                t@,
                vscale(self@.lens_radius, d@),
            ));
            if self@.lens_radius == 0 {
                assert(vscale(self@.lens_radius, d@) == vzero());
            }
        }
        r
    }
}

} // verus!
