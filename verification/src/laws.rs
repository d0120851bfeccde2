//! General properties of the simulation, stated over the same spec
//! functions that the executable functions' contracts use.

use vstd::prelude::*;
use vstd::math::abs;
use crate::fx::FX_ONE;
use crate::fx::fx_mul_spec;
use crate::motion::bounced_vx;
use crate::motion::bounced_vy;
use crate::motion::moved_x;
use crate::motion::moved_y;
use crate::motion::next_blend;
use crate::motion::out_of_band;
use crate::motion::smoothed_vx;
use crate::motion::smoothed_vy;
use crate::timer::RepeatTimer;
use crate::timer::timer_fires;
use crate::world::Particle;
use crate::world::Vec2;

verus! {

/// A boundary flip inverts the sign of the affected velocity component
/// and leaves its magnitude unchanged; a component whose coordinate is
/// inside the band is untouched.
pub proof fn lemma_bounce_inverts_sign(p: Particle, pos: Vec2, w: int, h: int, margin: int)
    ensures
        out_of_band(pos.x as int, w, margin) ==> bounced_vx(p, pos, w, margin) == -(
        p.velocity.x as int),
        out_of_band(pos.y as int, h, margin) ==> bounced_vy(p, pos, h, margin) == -(
        p.velocity.y as int),
        abs(bounced_vx(p, pos, w, margin)) == abs(p.velocity.x as int),
        abs(bounced_vy(p, pos, h, margin)) == abs(p.velocity.y as int),
        !out_of_band(pos.x as int, w, margin) ==> bounced_vx(p, pos, w, margin)
            == p.velocity.x as int,
        !out_of_band(pos.y as int, h, margin) ==> bounced_vy(p, pos, h, margin)
            == p.velocity.y as int,
{
}

/// The blend factor never leaves the unit interval, however much elapsed
/// time accumulates into it.
pub proof fn lemma_blend_factor_clamped(blend: int, dt: int, smoothing: int)
    ensures
        0 <= next_blend(blend, dt, smoothing) <= FX_ONE,
{
}

/// A frame with no elapsed time moves nothing: every position is left
/// exactly where it was, a particle inside the bounds keeps its velocity,
/// and a well-formed timer does not fire.
pub proof fn lemma_zero_dt_is_stationary(p: Particle, pos: Vec2, t: RepeatTimer, w: int, h: int, margin: int)
    ensures
        moved_x(p, pos, w, margin, 0) == pos.x as int,
        moved_y(p, pos, h, margin, 0) == pos.y as int,
        !out_of_band(pos.x as int, w, margin) ==> bounced_vx(p, pos, w, margin)
            == p.velocity.x as int,
        !out_of_band(pos.y as int, h, margin) ==> bounced_vy(p, pos, h, margin)
            == p.velocity.y as int,
        t.wf() ==> !timer_fires(t, 0),
{
    assert(fx_mul_spec(smoothed_vx(p, pos, w, margin), 0) == 0);
    assert(fx_mul_spec(smoothed_vy(p, pos, h, margin), 0) == 0);
}

} // verus!
