//! Random cells, drawn from the calling thread's generator of the `rand`
//! crate. What this file states of that crate is believed, not proved.

use rand::Rng;
use vstd::prelude::*;

use crate::physics::Position;

verus! {

/// `rand::rngs::ThreadRng`, the handle to the calling thread's random number
/// generator. It is carried from `rand::thread_rng` to `Rng::gen_range`, and
/// nothing inside it is read.
#[verifier::external_type_specification]
#[verifier::external_body]
pub struct ExThreadRng(rand::rngs::ThreadRng);

/// `rand::thread_rng` hands out the calling thread's random number generator.
/// It takes no input, and nothing is stated of what it returns. (It fails
/// only where the operating system has no random source to seed it from.)
pub assume_specification[ rand::thread_rng ]() -> (rng: rand::rngs::ThreadRng);

/// Draws a number below `bound` by `rng.gen_range(0..bound)`.
///
/// `Rng::gen_range` panics on an empty range, which `bound > 0` rules out,
/// and returns a value of the half-open range it is given. Which value is
/// not stated: two calls may differ.
#[verifier::external_body]
fn random_below(rng: &mut rand::rngs::ThreadRng, bound: i32) -> (n: i32)
    requires
        bound > 0,
    ensures
        0 <= n < bound,
{
    rng.gen_range(0..bound)
}

/// A random cell of a grid of `width` by `height` cells.
pub(crate) fn calc_random_pos(width: u32, height: u32) -> (p: Position)
    requires
        0 < width <= i32::MAX,
        0 < height <= i32::MAX,
    ensures
        0 <= p.x < width,
        0 <= p.y < height,
{
    let mut rng = rand::thread_rng();
    let x: i32 = random_below(&mut rng, width as i32);
    let y: i32 = random_below(&mut rng, height as i32);
    Position { x, y }
}

} // verus!
