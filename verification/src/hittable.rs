//! The intersection protocol: hit records, the surface trait, and the
//! scene list that resolves the nearest hit.
use vstd::prelude::*;

use crate::fixed::Fx;
use crate::material::MaterialKind;
use crate::ray::{Ray, RayV};
use crate::sphere::{sphere_hit_v, Sphere, SphereV};
use crate::vec3::{vdot, vneg, Point, Vec3, V3};

verus! {

/// Spec-level image of a hit record.
pub struct HitV {
    pub p: V3,
    pub normal: V3,
    pub t: int,
    pub front_face: bool,
    pub material: MaterialKind,
}

/// Orientation of a hit: the stored normal always opposes the incoming
/// ray, and `front_face` records whether the ray met the outward side.
pub open spec fn face_normal(h: HitV, r: RayV, outward: V3) -> HitV {
    let front = vdot(r.dir, outward) < 0;
    HitV {
        normal: if front {
            outward
        } else {
            vneg(outward)
        },
        front_face: front,
        ..h
    }
}

/// The record of a hit at point `p` and parameter `t`, oriented against
/// the ray `r` from the geometric outward normal.
pub open spec fn hit_record_v(p: V3, t: int, r: RayV, outward: V3, material: MaterialKind) -> HitV {
    face_normal(HitV { p, normal: outward, t, front_face: false, material }, r, outward)
}

/// One surface intersection: point, oriented unit normal, ray parameter,
/// which face was met, and the material to scatter with.
#[derive(Clone, Copy, Debug, PartialEq, Eq, Structural)]
pub struct HitRecord {
    pub p: Point,
    pub normal: Vec3,
    pub t: Fx,
    pub front_face: bool,
    pub material: MaterialKind,
}

impl View for HitRecord {
    type V = HitV;

    open spec fn view(&self) -> HitV {
        HitV {
            p: self.p@,
            normal: self.normal@,
            t: self.t@,
            front_face: self.front_face,
            material: self.material,
        }
    }
}

impl HitRecord {
    /// Resolve the surface orientation: this is the one place a normal's
    /// sign is chosen, and every intersection goes through it once.
    pub fn set_face_normal(&mut self, r: &Ray, outward_normal: &Vec3)
        ensures
            final(self)@ == face_normal(old(self)@, r@, outward_normal@),
    {
        let d: Fx = Vec3::dot(*r.direction(), *outward_normal);
        self.front_face = d.raw < 0;
        self.normal = if self.front_face {
            *outward_normal
        } else {
            outward_normal.neg()
        };
    }

    /// A record oriented against the ray from the outward normal.
    pub fn from(p: Point, t: Fx, r: &Ray, outward_normal: &Vec3, material: MaterialKind) -> (rec:
        HitRecord)
        ensures
            rec@ == hit_record_v(p@, t@, r@, outward_normal@, material),
    {
        let mut ret = HitRecord {
            p,
            normal: Vec3::new(),
            t,
            front_face: false,
            material,
        };
        ret.set_face_normal(r, outward_normal);
        ret
    }
}

/// The image of an optional hit record.
pub open spec fn opt_hit_v(res: Option<HitRecord>) -> Option<HitV> {
    match res {
        Option::Some(h) => Option::Some(h@),
        Option::None => Option::None,
    }
}

/// A surface a ray can strike. A hit is valid only for a parameter
/// strictly inside `(t_min, t_max)`.
pub trait Hittable {
    /// What `hit` returns, as a function of the images.
    spec fn hit_spec(&self, r: RayV, t_min: int, t_max: int) -> Option<HitV>;

    /// The nearest valid intersection in the window, if any.
    fn hit(&self, r: &Ray, t_min: Fx, t_max: Fx) -> (res: Option<HitRecord>)
        ensures
            opt_hit_v(res) == self.hit_spec(r@, t_min@, t_max@),
    ;
}

/// Nearest-hit resolution over the tail of a scene, carrying the best
/// record found so far and the window narrowed to its parameter.
pub open spec fn list_hit_from(
    objs: Seq<SphereV>,
    r: RayV,
    t_min: int,
    closest: int,
    best: Option<HitV>,
) -> Option<HitV>
    decreases objs.len(),
{
    if objs.len() == 0 {
        best
    } else {
        match sphere_hit_v(objs[0], r, t_min, closest) {
            Option::Some(h) => list_hit_from(objs.drop_first(), r, t_min, h.t, Option::Some(h)),
            Option::None => list_hit_from(objs.drop_first(), r, t_min, closest, best),
        }
    }
}

/// The nearest valid hit of a whole scene.
pub open spec fn list_hit_v(objs: Seq<SphereV>, r: RayV, t_min: int, t_max: int) -> Option<HitV> {
    list_hit_from(objs, r, t_min, t_max, Option::None)
}

/// What nearest-hit folding guarantees of its result, relative to the
/// window and best record it starts from: the result only improves on
/// the best, and undercuts every primitive's own valid hit.
proof fn lemma_list_hit_from_props(
    objs: Seq<SphereV>,
    r: RayV,
    t_min: int,
    closest: int,
    best: Option<HitV>,
)
    requires
        best matches Option::Some(b) ==> closest <= b.t,
    ensures
        ({
            let res = list_hit_from(objs, r, t_min, closest, best);
            &&& res is None ==> best is None
            &&& res matches Option::Some(h) ==> best == Option::Some(h) || (t_min < h.t < closest
                && exists|k: int|
                0 <= k < objs.len() && #[trigger] sphere_hit_v(objs[k], r, t_min, closest)
                    == Option::Some(h))
            &&& res matches Option::Some(h) ==> (best matches Option::Some(b) ==> h.t <= b.t)
            &&& forall|k: int|
                0 <= k < objs.len() && (#[trigger] sphere_hit_v(objs[k], r, t_min, closest))
                    is Some ==> res is Some && res->Some_0.t <= sphere_hit_v(
                    objs[k],
                    r,
                    t_min,
                    closest,
                )->Some_0.t
        }),
    decreases objs.len(),
{
    let res = list_hit_from(objs, r, t_min, closest, best);
    if objs.len() == 0 {
    } else {
        let tail = objs.drop_first();
        match sphere_hit_v(objs[0], r, t_min, closest) {
            Option::Some(h0) => {
                crate::sphere::lemma_hit_in_window(objs[0], r, t_min, closest);
                assert(t_min < h0.t < closest);
                lemma_list_hit_from_props(tail, r, t_min, h0.t, Option::Some(h0));
                assert(res is Some);
                // the result is a hit of some primitive under this window
                if res != Option::Some(h0) {
                    let h = res->Some_0;
                    let kt = choose|k: int|
                        0 <= k < tail.len() && #[trigger] sphere_hit_v(tail[k], r, t_min, h0.t)
                            == Option::Some(h);
                    crate::sphere::lemma_root_window_widen(tail[kt], r, t_min, h0.t, closest);
                    assert(sphere_hit_v(objs[kt + 1], r, t_min, closest) == Option::Some(h));
                } else {
                    assert(sphere_hit_v(objs[0], r, t_min, closest) == Option::Some(h0));
                }
                // the result undercuts every primitive's valid hit
                assert forall|k: int|
                    0 <= k < objs.len() && (#[trigger] sphere_hit_v(objs[k], r, t_min, closest))
                        is Some implies res->Some_0.t <= sphere_hit_v(
                    objs[k],
                    r,
                    t_min,
                    closest,
                )->Some_0.t by {
                    if k == 0 {
                    } else {
                        let hk = sphere_hit_v(objs[k], r, t_min, closest)->Some_0;
                        assert(objs[k] == tail[k - 1]);
                        if hk.t < h0.t {
                            crate::sphere::lemma_root_window_shrink(
                                objs[k],
                                r,
                                t_min,
                                h0.t,
                                closest,
                            );
                            assert(sphere_hit_v(tail[k - 1], r, t_min, h0.t) == Option::Some(hk));
                        }
                    }
                }
            },
            Option::None => {
                lemma_list_hit_from_props(tail, r, t_min, closest, best);
                if res is Some && res != best {
                    let h = res->Some_0;
                    let kt = choose|k: int|
                        0 <= k < tail.len() && #[trigger] sphere_hit_v(tail[k], r, t_min, closest)
                            == Option::Some(h);
                    assert(tail[kt] == objs[kt + 1]);
                    assert(sphere_hit_v(objs[kt + 1], r, t_min, closest) == Option::Some(h));
                }
                assert forall|k: int|
                    0 <= k < objs.len() && (#[trigger] sphere_hit_v(objs[k], r, t_min, closest))
                        is Some implies res is Some && res->Some_0.t <= sphere_hit_v(
                    objs[k],
                    r,
                    t_min,
                    closest,
                )->Some_0.t by {
                    if k > 0 {
                        assert(objs[k] == tail[k - 1]);
                    }
                }
            },
        }
    }
}

/// The nearest-hit law: when any primitive has a valid hit in the
/// window, the scene resolves to a hit that is one of the primitives'
/// own, with a parameter at most every primitive's hit parameter.
pub proof fn lemma_nearest_hit(objs: Seq<SphereV>, r: RayV, t_min: int, t_max: int)
    requires
        exists|j: int|
            0 <= j < objs.len() && (#[trigger] sphere_hit_v(objs[j], r, t_min, t_max)) is Some,
    ensures
        ({
            let res = list_hit_v(objs, r, t_min, t_max);
            &&& res is Some
            &&& exists|k: int|
                0 <= k < objs.len() && #[trigger] sphere_hit_v(objs[k], r, t_min, t_max) == res
            &&& forall|k: int|
                0 <= k < objs.len() && (#[trigger] sphere_hit_v(objs[k], r, t_min, t_max))
                    is Some ==> res->Some_0.t <= sphere_hit_v(objs[k], r, t_min, t_max)->Some_0.t
        }),
{
    lemma_list_hit_from_props(objs, r, t_min, t_max, Option::None);
}

/// An ordered collection of primitives, resolved front to back.
#[derive(Clone, Debug)]
pub struct HittableList {
    pub objects: Vec<Sphere>,
}

impl View for HittableList {
    type V = Seq<SphereV>;

    open spec fn view(&self) -> Seq<SphereV> {
        self.objects@.map_values(|s: Sphere| s@)
    }
}

impl HittableList {
    /// A scene holding the given primitives.
    pub fn with(objects: Vec<Sphere>) -> (r: HittableList)
        ensures
            r@ == objects@.map_values(|s: Sphere| s@),
    {
        HittableList { objects }
    }

    /// Append one primitive.
    pub fn add(&mut self, object: Sphere)
        ensures
            final(self)@ == old(self)@.push(object@),
    {
        self.objects.push(object);
        proof {
            assert(self@ =~= old(self)@.push(object@));
        }
    }
}

impl Hittable for HittableList {
    open spec fn hit_spec(&self, r: RayV, t_min: int, t_max: int) -> Option<HitV> {
        list_hit_v(self@, r, t_min, t_max)
    }

    /// One pass over the primitives, narrowing the window to the closest
    /// parameter seen, so the returned record is the nearest valid hit.
    fn hit(&self, r: &Ray, t_min: Fx, t_max: Fx) -> (res: Option<HitRecord>) {
        let mut temp_rec: Option<HitRecord> = Option::None;
        let mut closest_so_far: Fx = t_max;
        let mut i: usize = 0;
        proof {
            assert(self@.skip(0) =~= self@);
        }
        while i < self.objects.len()
            invariant
                i <= self.objects.len(),
                closest_so_far@ == match opt_hit_v(temp_rec) {
                    Option::Some(h) => h.t,
                    Option::None => t_max@,
                },
                list_hit_from(
                    self@.skip(i as int),
                    r@,
                    t_min@,
                    closest_so_far@,
                    opt_hit_v(temp_rec),
                ) == list_hit_v(self@, r@, t_min@, t_max@),
            decreases self.objects.len() - i,
        {
            let ghost rest = self@.skip(i as int);
            proof {
                assert(rest[0] == self@[i as int]);
                assert(rest.drop_first() =~= self@.skip(i as int + 1));
            }
            let obj: &Sphere = &self.objects[i];
            match obj.hit(r, t_min, closest_so_far) {
                Option::Some(rec) => {
                    closest_so_far = rec.t;
                    temp_rec = Option::Some(rec);
                },
                Option::None => {},
            }
            i = i + 1;
        }
        temp_rec
    }
}

} // verus!
