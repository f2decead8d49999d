//! Rays: an origin with a direction.
use vstd::prelude::*;

use crate::fixed::Fx;
use crate::vec3::{vadd, vscale, vzero, Point, Vec3, V3};

verus! {

/// Spec-level image of a ray.
pub struct RayV {
    pub orig: V3,
    pub dir: V3,
}

/// The point a ray reaches at parameter `t`: `origin + t*direction`.
pub open spec fn ray_at(r: RayV, t: int) -> V3 {
    vadd(r.orig, vscale(t, r.dir))
}

/// A parametric line: origin plus scaled direction. The direction need
/// not be unit length; intersection math never assumes it is.
#[derive(Clone, Copy, Debug, PartialEq, Eq, Structural)]
pub struct Ray {
    pub orig: Point,
    pub dir: Vec3,
}

impl View for Ray {
    type V = RayV;

    open spec fn view(&self) -> RayV {
        RayV { orig: self.orig@, dir: self.dir@ }
    }
}

impl Ray {
    /// The ray resting at the origin.
    pub fn new() -> (r: Ray)
        ensures
            r@ == (RayV { orig: vzero(), dir: vzero() }),
    {
        Ray { orig: Vec3::new(), dir: Vec3::new() }
    }

    /// The ray from `origin` along `direction`.
    pub fn ray(origin: Point, direction: Vec3) -> (r: Ray)
        ensures
            r@ == (RayV { orig: origin@, dir: direction@ }),
    {
        Ray { orig: origin, dir: direction }
    }

    /// Where the ray starts.
    pub fn origin(&self) -> (r: &Point)
        ensures
            r@ == self@.orig,
    {
        &self.orig
    }

    /// Where the ray points.
    pub fn direction(&self) -> (r: &Vec3)
        ensures
            r@ == self@.dir,
    {
        &self.dir
    }

    /// The point at parameter `t`.
    pub fn at(&self, t: Fx) -> (r: Point)
        ensures
            r@ == ray_at(self@, t@),
    {
        self.orig.add(self.dir.scale(t))
    }
}

} // verus!
