use raytracer::camera::Camera;
use raytracer::fixed::Fx;
use raytracer::hittable::{Hittable, HittableList};
use raytracer::material::{Dielectric, Lambertian, Material, MaterialKind, Metal};
use raytracer::ray::Ray;
use raytracer::render::{color_level, color_word, pack_rgb, random_scene, ray_color, render};
use raytracer::rng;
use raytracer::rng::Sampler;
use raytracer::sphere::Sphere;
use raytracer::vec3::Vec3;

fn fx(m: i64) -> Fx {
    Fx { raw: m }
}

fn v3(x: i64, y: i64, z: i64) -> Vec3 {
    Vec3 { x: fx(x), y: fx(y), z: fx(z) }
}

fn gray() -> MaterialKind {
    MaterialKind::Lambertian(Lambertian { albedo: v3(500_000, 500_000, 500_000) })
}

const ONE: i64 = 1_000_000;
const FAR: i64 = 1_000_000_000_000;

#[test]
fn test_dot() {
    let v = Vec3::from(fx(1_200_000), fx(500_000), fx(1_000_000));
    let w = Vec3::from(fx(1_500_000), fx(200_000), fx(2_000_000));
    assert_eq!(Vec3::dot(v, w), fx(3_900_000))
}

#[test]
fn test_refract_normal() {
    let vec = Vec3::from(fx(ONE), fx(0), fx(0));
    let etai_etat = fx(ONE);
    assert_eq!(Vec3::refract(&vec, &vec.neg(), etai_etat), vec);
}

#[test]
fn test_sphere_hit_distance() {
    // A sphere of radius 2 at the origin, a ray aimed at it from z = 5:
    // the hit parameter is exact, the hit point lies on the surface, and
    // the normal is the unit outward direction.
    let sphere = Sphere { center: v3(0, 0, 0), radius: fx(2 * ONE), material: gray() };
    let ray = Ray::ray(v3(0, 0, 5 * ONE), v3(0, 0, -ONE));
    let rec = sphere.hit(&ray, fx(1000), fx(FAR)).expect("the ray points at the sphere");
    assert_eq!(rec.t, fx(3 * ONE));
    assert_eq!(rec.p, v3(0, 0, 2 * ONE));
    let offset = rec.p.sub(sphere.center);
    assert_eq!(offset.length(), fx(2 * ONE));
    assert_eq!(rec.normal, v3(0, 0, ONE));
    assert_eq!(rec.normal.length(), fx(ONE));
    assert_eq!(offset, rec.normal.scale(fx(2 * ONE)));
    assert!(rec.front_face);
}

#[test]
fn test_signed_radius() {
    // From inside, a hollow (negative-radius) sphere gives the same hit
    // point as the solid one, an inward-pointing normal, and the
    // opposite face flag.
    let solid = Sphere { center: v3(0, 0, 0), radius: fx(2 * ONE), material: gray() };
    let hollow = Sphere { center: v3(0, 0, 0), radius: fx(-2 * ONE), material: gray() };
    let ray = Ray::ray(v3(0, 0, 0), v3(0, 0, ONE));
    let rs = solid.hit(&ray, fx(1000), fx(FAR)).expect("exit hit of the solid sphere");
    let rh = hollow.hit(&ray, fx(1000), fx(FAR)).expect("exit hit of the hollow sphere");
    assert_eq!(rs.t, rh.t);
    assert_eq!(rs.p, rh.p);
    assert_eq!(rs.p, v3(0, 0, 2 * ONE));
    // the normal points back toward the center, i.e. inward
    assert_eq!(rh.normal, v3(0, 0, -ONE));
    assert_eq!(rs.normal, rh.normal);
    assert!(rh.front_face);
    assert!(!rs.front_face);
}

#[test]
fn test_nearest_hit() {
    // Two overlapping spheres along one ray: the scene resolves to the
    // strictly smaller parameter, whichever order the spheres are in.
    let near = Sphere { center: v3(0, 0, -2 * ONE), radius: fx(ONE), material: gray() };
    let far_m = MaterialKind::Metal(Metal { albedo: v3(ONE, ONE, ONE), fuzz: fx(0) });
    let far = Sphere { center: v3(0, 0, -2_500_000), radius: fx(ONE), material: far_m };
    let ray = Ray::ray(v3(0, 0, 0), v3(0, 0, -ONE));

    let world = HittableList::with(vec![near, far]);
    let rec = world.hit(&ray, fx(1000), fx(FAR)).expect("both spheres lie on the ray");
    assert_eq!(rec.t, fx(ONE));
    assert_eq!(rec.material, gray());

    let world_swapped = HittableList::with(vec![far, near]);
    let rec2 = world_swapped.hit(&ray, fx(1000), fx(FAR)).expect("both spheres lie on the ray");
    assert_eq!(rec2.t, fx(ONE));
    assert_eq!(rec2.material, gray());
}

#[test]
fn test_lambertian_scatter() {
    // Under this fixed draw the ball candidate normalizes off the unit
    // grid, so the unit draw resolves to the axis fallback (0,0,1); a
    // normal of (0,0,-1) makes the sum cancel, the near-zero fallback
    // fires, and the scattered direction is the normal itself.
    let albedo = v3(300_000, 400_000, 500_000);
    let lam = Lambertian { albedo };
    let normal = v3(0, 0, -ONE);
    let sphere = Sphere { center: v3(0, 0, 0), radius: fx(ONE), material: gray() };
    let ray = Ray::ray(v3(0, 0, 2 * ONE), v3(0, 0, -ONE));
    let base = sphere.hit(&ray, fx(1000), fx(FAR)).expect("hit for a record");
    let rec = raytracer::hittable::HitRecord { normal, ..base };

    let mut s = Sampler::Fixed(fx(750_000));
    let (att, scattered) = lam.scatter(&ray, &rec, &mut s).expect("lambertian always scatters");
    assert_eq!(att, albedo);
    assert_eq!(scattered.dir, normal);
    assert!(!scattered.dir.near_zero());

    // under entropy draws the scattered direction is never the zero
    // vector for a non-zero normal
    let mut e = Sampler::Entropy;
    let mut i: usize = 0;
    while i < 100 {
        let (_, sc) = lam.scatter(&ray, &base, &mut e).expect("lambertian always scatters");
        assert!(!sc.dir.near_zero());
        i += 1;
    }
}

#[test]
fn test_metal_grazing() {
    // A grazing reflection points along the surface, so the metal
    // absorbs it; a slanted ray reflects exactly.
    let metal = Metal { albedo: v3(ONE, ONE, ONE), fuzz: fx(0) };
    let sphere = Sphere { center: v3(0, 0, 0), radius: fx(ONE), material: gray() };
    let probe = Ray::ray(v3(0, 0, 2 * ONE), v3(0, 0, -ONE));
    let base = sphere.hit(&probe, fx(1000), fx(FAR)).expect("hit for a record");
    let rec = raytracer::hittable::HitRecord { normal: v3(0, 0, ONE), ..base };

    let mut s = Sampler::Entropy;
    let grazing = Ray::ray(v3(-ONE, 0, 0), v3(ONE, 0, 0));
    assert!(metal.scatter(&grazing, &rec, &mut s).is_none());

    let slanted = Ray::ray(v3(-ONE, 0, -ONE), v3(ONE, 0, -ONE));
    let (_, sc) = metal.scatter(&slanted, &rec, &mut s).expect("the slanted ray reflects");
    assert_eq!(sc.dir, v3(707_107, 0, 707_107));
}

#[test]
fn test_dielectric_attenuation() {
    // Glass never absorbs: the attenuation is exactly white.
    let glass = Dielectric { ir: fx(1_500_000) };
    let sphere = Sphere {
        center: v3(0, 0, -2 * ONE),
        radius: fx(500_000),
        material: MaterialKind::Dielectric(glass),
    };
    let ray = Ray::ray(v3(0, 0, ONE), v3(0, 0, -ONE));
    let rec = sphere.hit(&ray, fx(1000), fx(FAR)).expect("the ray points at the sphere");
    let mut s = Sampler::Fixed(fx(900_000));
    let (att, sc) = glass.scatter(&ray, &rec, &mut s).expect("glass always scatters");
    assert_eq!(att, v3(ONE, ONE, ONE));
    // normal incidence: the refracted ray continues straight
    assert_eq!(sc.dir, v3(0, 0, -ONE));
}

#[test]
fn test_dielectric_roundtrip() {
    // A ray passing into a glass sphere and out its back at normal
    // incidence, with the reflectance draw forced to refract, carries
    // the sky color through unchanged.
    let glass = Sphere {
        center: v3(0, 0, -2 * ONE),
        radius: fx(500_000),
        material: MaterialKind::Dielectric(Dielectric { ir: fx(1_500_000) }),
    };
    let world = HittableList::with(vec![glass]);
    let empty = HittableList::with(vec![]);
    let ray = Ray::ray(v3(0, 0, ONE), v3(0, 0, -ONE));

    let mut s = Sampler::Fixed(fx(900_000));
    let through = ray_color(ray, &world, 5, &mut s);
    let sky = ray_color(ray, &empty, 5, &mut s);
    assert_eq!(through, sky);
    assert_eq!(through, v3(750_000, 850_000, ONE));
}

#[test]
fn test_depth_zero() {
    // A zero depth returns black whatever the scene holds.
    let mut s = Sampler::Entropy;
    let mut scene_sampler = Sampler::Entropy;
    let world = random_scene(&mut scene_sampler);
    let ray = Ray::ray(v3(0, 0, 0), v3(0, ONE, 0));
    assert_eq!(ray_color(ray, &world, 0, &mut s), v3(0, 0, 0));
}

#[test]
fn test_sky_gradient() {
    // Straight up is exactly the sky blue, straight down exactly white.
    let empty = HittableList::with(vec![]);
    let mut s = Sampler::Entropy;
    let up = Ray::ray(v3(0, 0, 0), v3(0, ONE, 0));
    assert_eq!(ray_color(up, &empty, 50, &mut s), v3(500_000, 700_000, ONE));
    let down = Ray::ray(v3(0, 0, 0), v3(0, -ONE, 0));
    assert_eq!(ray_color(down, &empty, 50, &mut s), v3(ONE, ONE, ONE));
}

#[test]
fn test_camera_deterministic() {
    // With a closed aperture the camera is a function of its inputs.
    let cam = Camera::new(
        v3(0, 0, 0),
        v3(0, 0, -ONE),
        v3(0, ONE, 0),
        fx(90 * ONE),
        fx(ONE),
        fx(0),
        fx(ONE),
    );
    // the derived orthonormal basis is exact for this configuration
    assert_eq!(cam.w, v3(0, 0, ONE));
    assert_eq!(cam.u, v3(ONE, 0, 0));
    assert_eq!(cam.v, v3(0, ONE, 0));
    assert_eq!(cam.lens_radius, fx(0));
    // a 90-degree field of view spans a viewport two units tall, up to
    // the tangent series' truncation
    assert!(1_990_000 <= cam.horizontal.x.raw && cam.horizontal.x.raw <= 2_010_000);
    assert_eq!(cam.vertical.y, cam.horizontal.x);
    let mut s = Sampler::Entropy;
    let a = cam.get_ray(fx(250_000), fx(750_000), &mut s);
    let b = cam.get_ray(fx(250_000), fx(750_000), &mut s);
    assert_eq!(a, b);
    assert_eq!(*a.origin(), v3(0, 0, 0));
}

#[test]
fn test_golden_grid() {
    // The end-to-end regression: one small frame, one sample per pixel,
    // depth one, every draw stubbed to the midpoint. The frame is
    // reproducible word for word.
    let cam = Camera::new(
        v3(0, 0, 0),
        v3(0, 0, -ONE),
        v3(0, ONE, 0),
        fx(90 * ONE),
        fx(ONE),
        fx(0),
        fx(ONE),
    );
    let sphere = Sphere { center: v3(0, 0, -ONE), radius: fx(ONE), material: gray() };
    let world = HittableList::with(vec![sphere]);

    let mut s1 = Sampler::Fixed(fx(500_000));
    let frame1 = render(&cam, &world, 4, 3, 1, 1, &mut s1);
    let mut s2 = Sampler::Fixed(fx(500_000));
    let frame2 = render(&cam, &world, 4, 3, 1, 1, &mut s2);
    assert_eq!(frame1, frame2);
    assert_eq!(frame1.len(), 12);
    // depth one: every ray of this camera strikes the sphere, scatters
    // once and terminates at the depth bound, so every pixel is black
    assert_eq!(
        frame1,
        vec![0u32, 0, 0, 0, 0, 0, 0, 0, 0, 0, 0, 0],
    );
    // a smaller sphere leaves sky pixels around a shaded center, and at
    // depth three the bounced rays escape: a non-trivial reproducible frame
    let small = Sphere { center: v3(0, 0, -ONE), radius: fx(500_000), material: gray() };
    let world_small = HittableList::with(vec![small]);
    let mut s3 = Sampler::Fixed(fx(500_000));
    let frame3 = render(&cam, &world_small, 4, 3, 1, 3, &mut s3);
    let mut s4 = Sampler::Fixed(fx(500_000));
    let frame4 = render(&cam, &world_small, 4, 3, 1, 3, &mut s4);
    assert_eq!(frame3, frame4);
    assert_eq!(
        frame3,
        vec![
            12179711u32, 12113919, 12179711, 12376831, 12508159, 12376831, 12508159, 12836351,
            13624319, 9740981, 13624319, 13821439,
        ],
    );
}

#[test]
fn test_color_levels() {
    assert_eq!(color_level(fx(ONE), 1), 255);
    assert_eq!(color_level(fx(250_000), 1), 128);
    assert_eq!(color_level(fx(0), 1), 0);
    assert_eq!(color_level(fx(2 * ONE), 2), 255);
    assert_eq!(pack_rgb(1, 2, 3), 66051);
    assert_eq!(color_word(v3(0, 0, ONE), 1), 255);
}

#[test]
fn test_gen_in_unit_interval() {
    let mut s = Sampler::Entropy;
    let mut i: usize = 0;
    while i < 200 {
        let d = rng::gen(&mut s);
        assert!(0 <= d.raw && d.raw < 1_000_000);
        i += 1;
    }
    let mut f = Sampler::Fixed(fx(2_000_000));
    assert_eq!(rng::gen(&mut f), fx(999_999));
}

#[test]
fn test_sample_interval() {
    let mut s = Sampler::Entropy;
    let mut i: usize = 0;
    while i < 200 {
        let d = rng::sample(&mut s, fx(2 * ONE), fx(3 * ONE));
        assert!(2 * ONE <= d.raw && d.raw < 3 * ONE);
        i += 1;
    }
    let mut f = Sampler::Fixed(fx(500_000));
    assert_eq!(rng::sample(&mut f, fx(0), fx(4 * ONE)), fx(2 * ONE));
}

#[test]
fn test_random_scene_shape() {
    let mut s = Sampler::Entropy;
    let world = random_scene(&mut s);
    let n: usize = world.objects.len();
    assert!(n >= 4);
    let ground = &world.objects[0];
    assert_eq!(ground.center, v3(0, -1000 * ONE, 0));
    assert_eq!(ground.radius, fx(1000 * ONE));
    let glass = &world.objects[n - 3];
    assert_eq!(glass.center, v3(0, ONE, 0));
    assert_eq!(glass.material, MaterialKind::Dielectric(Dielectric { ir: fx(1_500_000) }));
    let metal = &world.objects[n - 1];
    assert_eq!(metal.center, v3(4 * ONE, ONE, 0));
    let mut i: usize = 1;
    while i < n - 3 {
        assert_eq!(world.objects[i].radius, fx(200_000));
        i += 1;
    }
}

#[test]
fn test_vector_algebra() {
    let a = v3(ONE, 2 * ONE, 3 * ONE);
    let b = v3(4 * ONE, 5 * ONE, 6 * ONE);
    assert_eq!(a.add(b), v3(5 * ONE, 7 * ONE, 9 * ONE));
    assert_eq!(b.sub(a), v3(3 * ONE, 3 * ONE, 3 * ONE));
    assert_eq!(a.neg(), v3(-ONE, -2 * ONE, -3 * ONE));
    assert_eq!(a.mul(b), v3(4 * ONE, 10 * ONE, 18 * ONE));
    assert_eq!(a.scale(fx(2 * ONE)), v3(2 * ONE, 4 * ONE, 6 * ONE));
    assert_eq!(b.div(fx(2 * ONE)), v3(2 * ONE, 2_500_000, 3 * ONE));
    assert_eq!(Vec3::cross(a, b), v3(-3 * ONE, 6 * ONE, -3 * ONE));
    assert_eq!(a.length_squared(), fx(14 * ONE));
    assert_eq!(v3(0, 3 * ONE, 4 * ONE).length(), fx(5 * ONE));
    assert_eq!(Vec3::unit_vector(v3(0, 0, 7 * ONE)), v3(0, 0, ONE));
    assert_eq!(Vec3::unit_vector(v3(0, 0, 0)), v3(0, 0, 0));
    assert!(v3(0, 0, 0).near_zero());
    assert!(!v3(1, 0, 0).near_zero());
    assert_eq!(
        Vec3::reflect(&v3(ONE, -ONE, 0), &v3(0, ONE, 0)),
        v3(ONE, ONE, 0),
    );
    let r = Ray::ray(v3(ONE, 0, 0), v3(0, 2 * ONE, 0));
    assert_eq!(r.at(fx(500_000)), v3(ONE, ONE, 0));
}

#[test]
fn test_hittable_list_add() {
    let mut world = HittableList::with(vec![]);
    assert_eq!(world.objects.len(), 0);
    let sphere = Sphere { center: v3(0, 0, 0), radius: fx(ONE), material: gray() };
    world.add(sphere);
    assert_eq!(world.objects.len(), 1);
    assert_eq!(world.objects[0], sphere);
}

#[test]
fn test_metal_new_clamps_fuzz() {
    let m = Metal::new(fx(700_000), fx(600_000), fx(500_000), fx(3 * ONE));
    assert_eq!(m.albedo, v3(700_000, 600_000, 500_000));
    assert_eq!(m.fuzz, fx(ONE));
    let n = Metal::new(fx(ONE), fx(ONE), fx(ONE), fx(250_000));
    assert_eq!(n.fuzz, fx(250_000));
    let o = Metal::new(fx(ONE), fx(ONE), fx(ONE), fx(-500_000));
    assert_eq!(o.fuzz, fx(0));
}

#[test]
fn test_random_unit_vector_unit_length() {
    // Every unit draw lies exactly on the unit grid sphere.
    let mut s = Sampler::Entropy;
    let mut i: usize = 0;
    while i < 100 {
        let u = Vec3::random_unit_vector(&mut s);
        assert_eq!(u.length(), fx(ONE));
        i += 1;
    }
    // the midpoint draw lands on the zero cell and resolves to the
    // vertical axis fallback
    let mut f = Sampler::Fixed(fx(500_000));
    assert_eq!(Vec3::random_unit_vector(&mut f), v3(0, 0, ONE));
}

#[test]
fn test_reflectance_normal_incidence() {
    // Schlick at normal incidence is ((1-n)/(1+n))^2: 0.04 for n = 1.5.
    let r = Dielectric::reflectance(fx(ONE), fx(1_500_000));
    assert_eq!(r, fx(40_000));
}
