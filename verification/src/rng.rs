//! Sources of uniform random draws.
//!
//! Every function that needs randomness takes a `Sampler` handle, so no
//! global generator state exists. An `Entropy` sampler draws from the
//! process's thread-local generator; a `Fixed` sampler returns the same
//! value on every draw, which makes a whole render reproducible.
use vstd::prelude::*;

use crate::fixed::{fadd, fmul, fsub, Fx, SCALE};

verus! {

/// A handle to a stream of uniform draws in `[0, 1)`.
#[derive(Clone, Copy, Debug, PartialEq, Eq, Structural)]
pub enum Sampler {
    /// Draw from the thread-local entropy generator.
    Entropy,
    /// Every draw returns this value, clamped into `[0, 1)`.
    Fixed(Fx),
}

/// The raw a `Fixed` sampler holds; zero for an entropy sampler.
pub open spec fn fixed_of(s: Sampler) -> int {
    match s {
        Sampler::Entropy => 0,
        Sampler::Fixed(c) => c@,
    }
}

/// Clamp a raw into the unit interval `[0, SCALE)`.
pub open spec fn unit_clamp(c: int) -> int {
    if c < 0 {
        0
    } else if c >= SCALE as int {
        SCALE as int - 1
    } else {
        c
    }
}

/// The raw a `Fixed` sampler hands back for one draw over `[min, max)`.
pub open spec fn sample_v(c: int, min: int, max: int) -> int {
    fadd(min, fmul(unit_clamp(c), fsub(max, min)))
}

/// Relies on rand::Rng::gen_range over the thread-local generator
/// rand::thread_rng: the draw lies within the given half-open range.
#[verifier::external_body]
fn draw_raw() -> (r: i64)
    ensures
        0 <= r < SCALE,
{
    rand::Rng::gen_range(&mut rand::thread_rng(), 0i64..SCALE)
}

/// One draw, uniform in `[0, 1)` when the sampler draws from entropy.
pub fn gen(s: &mut Sampler) -> (r: Fx)
    ensures
        0 <= r@ < SCALE as int,
        *final(s) == *old(s),
        *old(s) is Fixed ==> r@ == unit_clamp(fixed_of(*old(s))),
{
    match *s {
        Sampler::Entropy => {
            let raw: i64 = draw_raw();
            Fx { raw }
        },
        Sampler::Fixed(c) => {
            if c.raw < 0 {
                Fx { raw: 0 }
            } else if c.raw >= SCALE {
                Fx { raw: SCALE - 1 }
            } else {
                c
            }
        },
    }
}

/// One draw, uniform over the half-open interval `[min, max)` when the
/// sampler draws from entropy.
pub fn sample(s: &mut Sampler, min: Fx, max: Fx) -> (r: Fx)
    ensures
        exists|d: int|
            0 <= d < SCALE as int && r@ == fadd(min@, #[trigger] fmul(d, fsub(max@, min@))),
        *final(s) == *old(s),
        *old(s) is Fixed ==> r@ == sample_v(fixed_of(*old(s)), min@, max@),
{
    let d: Fx = gen(s);
    let r: Fx = min.add(d.mul(max.sub(min)));
    proof {
        assert(0 <= d@ < SCALE as int && r@ == fadd(min@, fmul(d@, fsub(max@, min@))));
    }
    r
}

} // verus!
