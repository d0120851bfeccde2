//! The random source behind spawning and periodic re-randomization. The
//! draw itself comes from the `rand` crate; the verified part maps the raw
//! draw onto a symmetric velocity range.

use vstd::prelude::*;
use crate::limits::SPEED_MAX;

verus! {

/// Relies on `rand::random`: a draw from the thread-local generator.
/// Nothing can be promised of which value comes back.
#[verifier::external_body]
fn random_u32() -> u32 {
    rand::random::<u32>()
}

/// Map a raw draw onto the symmetric range `[-speed, speed]`.
pub fn spread_component(raw: u32, speed: i64) -> (v: i64)
    requires
        0 < speed <= SPEED_MAX,
    ensures
        v == (raw as int) % (2 * speed + 1) - speed,
        -speed <= v <= speed,
{
    let m: u64 = (2 * speed + 1) as u64;
    let q: u64 = (raw as u64) % m;
    (q as i64) - speed
}

/// A freshly drawn velocity component in `[-speed, speed]`.
pub fn random_component(speed: i64) -> (v: i64)
    requires
        0 < speed <= SPEED_MAX,
    ensures
        -speed <= v <= speed,
{
    let raw: u32 = random_u32();
    spread_component(raw, speed)
}

} // verus!
