//! The radiance estimator, the demo scene, and the per-pixel sampling
//! and quantization pipeline.
use vstd::prelude::*;

use crate::camera::Camera;
use crate::fixed::{fadd, fdiv, fmax, fmin, fmul, fsqrt, fsub, fx_int, Fx, MAX_RAW, SCALE};
use crate::hittable::{list_hit_v, Hittable, HittableList};
use crate::material::{
    attenuation_of, lemma_scatter_attenuation, lemma_scatter_fixed, scatter_fixed, Dielectric,
    Lambertian, Material, MaterialKind, Metal,
};
use crate::ray::{Ray, RayV};
use crate::rng::{fixed_of, gen, sample, unit_clamp, Sampler};
use crate::sphere::{Sphere, SphereV};
use crate::vec3::{fixed_disk, vadd, vlen, vmul, vscale, vsub, vunit, vzero, Color, Point, Vec3, V3};

verus! {

/// The shadow-acne bound: hits nearer than this raw parameter are
/// ignored so a scattered ray cannot re-strike its own origin surface.
pub const T_MIN_RAW: i64 = 1000;

/// The sky gradient an escaped ray resolves to: a vertical blend from
/// white at the horizon down-direction to sky blue straight up.
pub open spec fn sky_v(r: RayV) -> V3 {
    let ud = vunit(r.dir);
    let t = fmul(500000, fadd(ud.y, fx_int(1)));
    vadd(
        vscale(fsub(fx_int(1), t), V3 { x: SCALE as int, y: SCALE as int, z: SCALE as int }),
        vscale(t, V3 { x: 500000, y: 700000, z: SCALE as int }),
    )
}

/// The sky law: whenever the normalized direction's vertical component
/// lies within the unit interval, every sky channel does too, and the
/// blue channel is exactly one.
pub proof fn lemma_sky_range(r: RayV)
    requires
        -(SCALE as int) <= vunit(r.dir).y <= SCALE as int,
    ensures
        0 <= sky_v(r).x <= SCALE as int,
        0 <= sky_v(r).y <= SCALE as int,
        sky_v(r).z == SCALE as int,
{
    let sc = SCALE as int;
    let x = fadd(vunit(r.dir).y, fx_int(1));
    assert(0 <= x <= 2 * sc);
    let t = fmul(500000, x);
    assert(0 <= t <= sc) by {
        vstd::arithmetic::div_mod::lemma_div_pos_is_pos(500000 * x, sc);
        vstd::arithmetic::div_mod::lemma_div_is_ordered(500000 * x, 1000000000000, sc);
        vstd::arithmetic::div_mod::lemma_div_by_multiple(1000000, sc);
    }
    crate::fixed::lemma_fmul_scale(fsub(fx_int(1), t));
    crate::fixed::lemma_fmul_scale(t);
    assert(0 <= fmul(t, 500000) <= t) by {
        vstd::arithmetic::div_mod::lemma_div_pos_is_pos(t * 500000, sc);
        vstd::arithmetic::div_mod::lemma_div_is_ordered(t * 500000, t * 1000000, sc);
        vstd::arithmetic::div_mod::lemma_div_by_multiple(t, sc);
    }
    assert(0 <= fmul(t, 700000) <= t) by {
        vstd::arithmetic::div_mod::lemma_div_pos_is_pos(t * 700000, sc);
        vstd::arithmetic::div_mod::lemma_div_is_ordered(t * 700000, t * 1000000, sc);
        vstd::arithmetic::div_mod::lemma_div_by_multiple(t, sc);
    }
}

/// The radiance estimate under a fixed sampler, where every draw is the
/// raw `c`: the whole recursion is then a function of the scene, the
/// ray, the depth bound and that one draw.
pub open spec fn ray_color_fixed(objs: Seq<SphereV>, r: RayV, depth: nat, c: int) -> V3
    decreases depth,
{
    if depth == 0 {
        vzero()
    } else {
        match list_hit_v(objs, r, T_MIN_RAW as int, MAX_RAW as int) {
            Option::Some(h) => match scatter_fixed(h.material, r, h, c) {
                Option::Some((att, sc)) => vmul(
                    att,
                    ray_color_fixed(objs, sc, (depth - 1) as nat, c),
                ),
                Option::None => vzero(),
            },
            Option::None => sky_v(r),
        }
    }
}

/// The recursive radiance estimate of one ray.
///
/// At depth zero the estimate is black; a ray that escapes the scene
/// takes the sky gradient; a scattered hit recurses with the attenuation
/// applied; an absorbed hit is black. Under a fixed sampler the whole
/// estimate equals its deterministic mirror.
pub fn ray_color(r: Ray, world: &HittableList, depth: usize, s: &mut Sampler) -> (c: Color)
    ensures
        *final(s) == *old(s),
        depth == 0 ==> c@ == vzero(),
        depth > 0 && list_hit_v(world@, r@, T_MIN_RAW as int, MAX_RAW as int) is None ==> c@
            == sky_v(r@),
        depth > 0 ==> (list_hit_v(world@, r@, T_MIN_RAW as int, MAX_RAW as int) matches Option::Some(
            h,
        ) ==> c@ == vzero() || exists|sub: V3| c@ == #[trigger] vmul(
            attenuation_of(h.material),
            sub,
        )),
        *old(s) is Fixed ==> c@ == ray_color_fixed(
            world@,
            r@,
            depth as nat,
            fixed_of(*old(s)),
        ),
    decreases depth,
{
    if depth == 0 {
        return Vec3::new();
    }
    let t_min: Fx = Fx { raw: T_MIN_RAW };
    let t_max: Fx = Fx { raw: MAX_RAW };
    match world.hit(&r, t_min, t_max) {
        Option::Some(rec) => {
            let scat: Option<(Color, Ray)> = rec.material.scatter(&r, &rec, s);
            proof {
                lemma_scatter_attenuation(rec.material, r@, rec@, *old(s), scat);
                if *old(s) is Fixed {
                    lemma_scatter_fixed(rec.material, r@, rec@, *old(s), scat);
                }
            }
            match scat {
                Option::Some((attenuation, scattered)) => {
                    let bounced: Color = ray_color(scattered, world, depth - 1, s);
                    let out: Color = attenuation.mul(bounced);
                    proof {
                        assert(out@ == vmul(attenuation_of(rec@.material), bounced@));
                    }
                    out
                },
                Option::None => Vec3::new(),
            }
        },
        Option::None => {
            let unit_direction: Vec3 = Vec3::unit_vector(*r.direction());
            let t: Fx = Fx { raw: 500000 }.mul(unit_direction.y().add(Fx::from_int(1)));
            let one: Fx = Fx::from_int(1);
            let white: Color = Vec3::from(one, one, one);
            let blue: Color = Vec3::from(Fx { raw: 500000 }, Fx { raw: 700000 }, one);
            white.scale(one.sub(t)).add(blue.scale(t))
        },
    }
}

/// The gamma-corrected 8-bit level of one channel: average the channel
/// over the samples, apply the square-root tone curve, clamp into
/// `[0, 0.999]` and quantize to `0..=255`.
pub open spec fn level_v(c: int, n: int) -> int {
    let avg = fdiv(c, fx_int(n));
    let g = fsqrt(avg);
    let cl = fmax(0, fmin(g, 999000));
    (256 * cl) / (SCALE as int)
}

/// Quantize one channel of an accumulated color.
pub fn color_level(c: Fx, samples: u32) -> (r: u8)
    requires
        samples >= 1,
    ensures
        r as int == level_v(c@, samples as int),
{
    let n: Fx = Fx::from_int(samples as i64);
    let avg: Fx = c.div(n);
    let g: Fx = avg.sqrt();
    let cl: Fx = g.max(Fx { raw: 0 }).min(Fx { raw: 999000 });
    let lv: u64 = (256u64 * (cl.raw as u64)) / (SCALE as u64);
    lv as u8
}

/// Pack three 8-bit channels into one word, red high.
pub fn pack_rgb(r: u8, g: u8, b: u8) -> (w: u32)
    ensures
        w as int == (r as int) * 65536 + (g as int) * 256 + b as int,
{
    (r as u32) * 65536 + (g as u32) * 256 + (b as u32)
}

/// The packed display word of one accumulated pixel color.
pub fn color_word(c: Color, samples: u32) -> (w: u32)
    requires
        samples >= 1,
    ensures
        w as int == level_v(c@.x, samples as int) * 65536 + level_v(c@.y, samples as int) * 256
            + level_v(c@.z, samples as int),
{
    let r: u8 = color_level(c.x(), samples);
    let g: u8 = color_level(c.y(), samples);
    let b: u8 = color_level(c.z(), samples);
    pack_rgb(r, g, b)
}

/// The camera ray of one jittered sample of the pixel at column `px`
/// and row line `py`, under a fixed draw.
pub open spec fn pixel_ray_fixed(
    cam: crate::camera::CamV,
    px: int,
    py: int,
    width: int,
    height: int,
    c: int,
) -> RayV {
    let u = fdiv(fadd(fx_int(px), unit_clamp(c)), fx_int(width - 1));
    let v = fdiv(fadd(fx_int(py), unit_clamp(c)), fx_int(height - 1));
    crate::camera::camera_ray_v(cam, u, v, vscale(cam.lens_radius, fixed_disk(c)))
}

/// The color a pixel accumulates from `k` samples under a fixed draw:
/// the samples are identical, summed on the clipped grid.
pub open spec fn pixel_acc_fixed(
    objs: Seq<SphereV>,
    cam: crate::camera::CamV,
    px: int,
    py: int,
    width: int,
    height: int,
    depth: nat,
    c: int,
    k: nat,
) -> V3
    decreases k,
{
    if k == 0 {
        vzero()
    } else {
        vadd(
            pixel_acc_fixed(objs, cam, px, py, width, height, depth, c, (k - 1) as nat),
            ray_color_fixed(objs, pixel_ray_fixed(cam, px, py, width, height, c), depth, c),
        )
    }
}

/// The accumulated color of the pixel at raster index `i` under a fixed
/// draw.
pub open spec fn pixel_fixed(
    objs: Seq<SphereV>,
    cam: crate::camera::CamV,
    i: int,
    width: int,
    height: int,
    samples: nat,
    depth: nat,
    c: int,
) -> V3 {
    pixel_acc_fixed(objs, cam, i % width, height - i / width, width, height, depth, c, samples)
}

/// The packed display word of the pixel at raster index `i` under a
/// fixed draw.
pub open spec fn pixel_word_fixed(
    objs: Seq<SphereV>,
    cam: crate::camera::CamV,
    i: int,
    width: int,
    height: int,
    samples: nat,
    depth: nat,
    c: int,
) -> int {
    let acc = pixel_fixed(objs, cam, i, width, height, samples, depth, c);
    level_v(acc.x, samples as int) * 65536 + level_v(acc.y, samples as int) * 256 + level_v(
        acc.z,
        samples as int,
    )
}

/// Accumulate the jittered radiance samples of the pixel at raster
/// index `i` in a `width` by `height` image. Under a fixed sampler the
/// accumulated color equals its deterministic mirror.
pub fn sample_pixel(
    cam: &Camera,
    world: &HittableList,
    i: usize,
    width: u32,
    height: u32,
    samples: u32,
    max_depth: usize,
    s: &mut Sampler,
) -> (c: Color)
    requires
        width >= 2,
        height >= 2,
        i < width as int * height as int,
    ensures
        *final(s) == *old(s),
        samples == 0 ==> c@ == vzero(),
        *old(s) is Fixed ==> c@ == pixel_fixed(
            world@,
            cam@,
            i as int,
            width as int,
            height as int,
            samples as nat,
            max_depth as nat,
            fixed_of(*old(s)),
        ),
{
    let mut color: Color = Vec3::new();
    let px: u32 = (i % (width as usize)) as u32;
    proof {
        vstd::arithmetic::div_mod::lemma_multiply_divide_lt(
            i as int,
            width as int,
            height as int,
        );
    }
    let py: u32 = height - (i / (width as usize)) as u32;
    let mut k: u32 = 0;
    while k < samples
        invariant
            *s == *old(s),
            width >= 2,
            height >= 2,
            px < width,
            px as int == i as int % width as int,
            py as int == height as int - i as int / width as int,
            k <= samples,
            k == 0 ==> color@ == vzero(),
            *old(s) is Fixed ==> color@ == pixel_acc_fixed(
                world@,
                cam@,
                px as int,
                py as int,
                width as int,
                height as int,
                max_depth as nat,
                fixed_of(*old(s)),
                k as nat,
            ),
        decreases samples - k,
    {
        let ju: Fx = gen(s);
        let jv: Fx = gen(s);
        let u: Fx = Fx::from_int(px as i64).add(ju).div(Fx::from_int((width - 1) as i64));
        let v: Fx = Fx::from_int(py as i64).add(jv).div(Fx::from_int((height - 1) as i64));
        let r: Ray = cam.get_ray(u, v, s);
        color = color.add(ray_color(r, world, max_depth, s));
        k = k + 1;
    }
    color
}

/// Render a whole frame in raster order: one packed word per pixel,
/// exactly once, at the index of its pixel.
pub fn render(
    cam: &Camera,
    world: &HittableList,
    width: u32,
    height: u32,
    samples: u32,
    max_depth: usize,
    s: &mut Sampler,
) -> (frame: Vec<u32>)
    requires
        width >= 2,
        height >= 2,
        samples >= 1,
        width as int * height as int <= usize::MAX as int,
    ensures
        frame@.len() == width as int * height as int,
        *old(s) is Fixed ==> forall|j: int|
            0 <= j < frame@.len() ==> frame@[j] == pixel_word_fixed(
                world@,
                cam@,
                j,
                width as int,
                height as int,
                samples as nat,
                max_depth as nat,
                fixed_of(*old(s)),
            ),
{
    let n: usize = (width as usize) * (height as usize);
    let mut frame: Vec<u32> = Vec::new();
    let mut i: usize = 0;
    while i < n
        invariant
            i <= n,
            n == width as int * height as int,
            width >= 2,
            height >= 2,
            samples >= 1,
            frame@.len() == i,
            *s == *old(s),
            *old(s) is Fixed ==> forall|j: int|
                0 <= j < i ==> frame@[j] == pixel_word_fixed(
                    world@,
                    cam@,
                    j,
                    width as int,
                    height as int,
                    samples as nat,
                    max_depth as nat,
                    fixed_of(*old(s)),
                ),
        decreases n - i,
    {
        let c: Color = sample_pixel(cam, world, i, width, height, samples, max_depth, s);
        let w: u32 = color_word(c, samples);
        frame.push(w);
        i = i + 1;
    }
    frame
}

/// The keep-out anchor of the demo scene: small spheres stand only
/// farther than 0.9 from it.
pub open spec fn scene_anchor_v() -> V3 {
    V3 { x: 4000000, y: 200000, z: 0 }
}

/// The book's closing scene: a ground sphere, a field of at most 484
/// small spheres with randomly drawn materials kept clear of the
/// anchor, and three large feature spheres.
pub fn random_scene(s: &mut Sampler) -> (world: HittableList)
    ensures
        *final(s) == *old(s),
        4 <= world@.len() <= 488,
        world@[0] == ground_sphere_v(),
        world@[world@.len() - 3] == big_glass_v(),
        world@[world@.len() - 2] == big_matte_v(),
        world@[world@.len() - 1] == big_metal_v(),
        forall|j: int|
            1 <= j < world@.len() - 3 ==> (#[trigger] world@[j]).radius == 200000
                && world@[j].center.y == 200000
                && vlen(vsub(world@[j].center, scene_anchor_v())) > 900000,
{
    let ground = Sphere {
        center: Vec3::from(Fx::from_int(0), Fx::from_int(-1000), Fx::from_int(0)),
        radius: Fx::from_int(1000),
        material: MaterialKind::Lambertian(
            Lambertian {
                albedo: Vec3 {
                    x: Fx { raw: 500000 },
                    y: Fx { raw: 500000 },
                    z: Fx { raw: 500000 },
                },
            },
        ),
    };
    let mut world: HittableList = HittableList::with(vec![ground]);
    proof {
        assert(world@ =~= Seq::empty().push(ground@));
    }

    let mut a: i64 = -11;
    while a < 11
        invariant
            *s == *old(s),
            world@.len() >= 1,
            world@.len() <= 1 + (a + 11) * 22,
            -11 <= a <= 11,
            world@[0] == ground_sphere_v(),
            forall|j: int|
                1 <= j < world@.len() ==> (#[trigger] world@[j]).radius == 200000
                    && world@[j].center.y == 200000
                    && vlen(vsub(world@[j].center, scene_anchor_v())) > 900000,
        decreases 11 - a,
    {
        let mut b: i64 = -11;
        while b < 11
            invariant
                *s == *old(s),
                world@.len() >= 1,
                world@.len() <= 1 + (a + 11) * 22 + (b + 11),
                -11 <= a <= 10,
                -11 <= b <= 11,
                world@[0] == ground_sphere_v(),
                forall|j: int|
                    1 <= j < world@.len() ==> (#[trigger] world@[j]).radius == 200000
                        && world@[j].center.y == 200000
                        && vlen(vsub(world@[j].center, scene_anchor_v())) > 900000,
            decreases 11 - b,
        {
            let center: Point = Vec3::from(
                Fx::from_int(a).add(Fx { raw: 900000 }.mul(gen(s))),
                Fx { raw: 200000 },
                Fx::from_int(b).add(Fx { raw: 900000 }.mul(gen(s))),
            );
            let anchor: Point = Vec3::from(Fx::from_int(4), Fx { raw: 200000 }, Fx::from_int(0));
            if center.sub(anchor).length().raw > 900000 {
                let choice: Fx = gen(s);
                let material: MaterialKind = if choice.raw < 800000 {
                    MaterialKind::Lambertian(
                        Lambertian { albedo: Vec3::random(s).mul(Vec3::random(s)) },
                    )
                } else if choice.raw < 950000 {
                    MaterialKind::Metal(
                        Metal {
                            albedo: Vec3::random_in(s, Fx { raw: 500000 }, Fx::from_int(1)),
                            fuzz: sample(s, Fx::from_int(0), Fx { raw: 500000 }),
                        },
                    )
                } else {
                    MaterialKind::Dielectric(Dielectric { ir: Fx { raw: 1500000 } })
                };
                world.add(Sphere { center, radius: Fx { raw: 200000 }, material });
            }
            b = b + 1;
        }
        a = a + 1;
    }

    world.add(
        Sphere {
            center: Vec3::from(Fx::from_int(0), Fx::from_int(1), Fx::from_int(0)),
            radius: Fx::from_int(1),
            material: MaterialKind::Dielectric(Dielectric { ir: Fx { raw: 1500000 } }),
        },
    );
    world.add(
        Sphere {
            center: Vec3::from(Fx::from_int(-4), Fx::from_int(1), Fx::from_int(0)),
            radius: Fx::from_int(1),
            material: MaterialKind::Lambertian(
                Lambertian {
                    albedo: Vec3 {
                        x: Fx { raw: 400000 },
                        y: Fx { raw: 200000 },
                        z: Fx { raw: 100000 },
                    },
                },
            ),
        },
    );
    world.add(
        Sphere {
            center: Vec3::from(Fx::from_int(4), Fx::from_int(1), Fx::from_int(0)),
            radius: Fx::from_int(1),
            material: MaterialKind::Metal(
                Metal::new(
                    Fx { raw: 700000 },
                    Fx { raw: 600000 },
                    Fx { raw: 500000 },
                    Fx::from_int(0),
                ),
            ),
        },
    );
    world
}

/// The ground sphere of the demo scene.
pub open spec fn ground_sphere_v() -> SphereV {
    SphereV {
        center: V3 { x: 0, y: -1000000000, z: 0 },
        radius: 1000000000,
        material: MaterialKind::Lambertian(
            Lambertian {
                albedo: Vec3 {
                    x: Fx { raw: 500000 },
                    y: Fx { raw: 500000 },
                    z: Fx { raw: 500000 },
                },
            },
        ),
    }
}

/// The large glass sphere of the demo scene.
pub open spec fn big_glass_v() -> SphereV {
    SphereV {
        center: V3 { x: 0, y: 1000000, z: 0 },
        radius: 1000000,
        material: MaterialKind::Dielectric(Dielectric { ir: Fx { raw: 1500000 } }),
    }
}

/// The large matte sphere of the demo scene.
pub open spec fn big_matte_v() -> SphereV {
    SphereV {
        center: V3 { x: -4000000, y: 1000000, z: 0 },
        radius: 1000000,
        material: MaterialKind::Lambertian(
            Lambertian {
                albedo: Vec3 {
                    x: Fx { raw: 400000 },
                    y: Fx { raw: 200000 },
                    z: Fx { raw: 100000 },
                },
            },
        ),
    }
}

/// The large metal sphere of the demo scene.
pub open spec fn big_metal_v() -> SphereV {
    SphereV {
        center: V3 { x: 4000000, y: 1000000, z: 0 },
        radius: 1000000,
        material: MaterialKind::Metal(
            Metal {
                albedo: Vec3 {
                    x: Fx { raw: 700000 },
                    y: Fx { raw: 600000 },
                    z: Fx { raw: 500000 },
                },
                fuzz: Fx { raw: 0 },
            },
        ),
    }
}

} // verus!
