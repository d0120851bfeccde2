//! The motion updater: once per frame it either reflects particles off the
//! window edges and advances them by their smoothed velocity, or — when the
//! repeat timer fires — redraws every particle's velocity at random.

use vstd::prelude::*;
use vstd::arithmetic::div_mod::lemma_div_nonincreasing;
use crate::fx::FX_ONE;
use crate::fx::clamp_unit_spec;
use crate::fx::fx_lerp;
use crate::fx::fx_mul;
use crate::fx::fx_mul_spec;
use crate::fx::isqrt;
use crate::fx::isqrt_spec;
use crate::fx::lemma_fx_mul_bound;
use crate::fx::lemma_lerp_bounds;
use crate::fx::lerp_spec;
use crate::limits::DT_MAX;
use crate::limits::INTERVAL_MAX;
use crate::limits::POS_MAX;
use crate::limits::SPEED_MAX;
use crate::limits::STEP_MAX;
use crate::rng::random_component;
use crate::timer::RepeatTimer;
use crate::timer::timer_fires;
use crate::world::Particle;
use crate::world::ParticleWorld;
use crate::world::Vec2;

verus! {

/// The behavioral choices on which the source variants differ: how far the
/// usable area is inset from the window edges, and how long a velocity
/// change takes to blend in.
#[derive(Clone, Copy, PartialEq, Eq, Structural, Debug)]
pub struct MotionConfig {
    /// Boundary margin: half the particle's visual size, or zero.
    pub margin: i64,
    /// Duration over which a velocity change is blended in, in
    /// thousandths of a second.
    pub smoothing: i64,
}

impl MotionConfig {
    pub open spec fn wf(self) -> bool {
        &&& 0 <= self.margin <= POS_MAX
        &&& 0 < self.smoothing <= INTERVAL_MAX
    }
}

/// Whether a coordinate lies outside the usable band
/// `[-half + margin, half - margin]`; the comparison is strict, so a
/// coordinate exactly on the edge is still inside.
pub open spec fn out_of_band(x: int, half: int, margin: int) -> bool {
    x < -half + margin || x > half - margin
}

/// The x velocity after the boundary check: reflected when the position
/// is outside the band, unchanged otherwise.
pub open spec fn bounced_vx(p: Particle, pos: Vec2, w: int, margin: int) -> int {
    if out_of_band(pos.x as int, w, margin) {
        -(p.velocity.x as int)
    } else {
        p.velocity.x as int
    }
}

/// The y velocity after the boundary check.
pub open spec fn bounced_vy(p: Particle, pos: Vec2, h: int, margin: int) -> int {
    if out_of_band(pos.y as int, h, margin) {
        -(p.velocity.y as int)
    } else {
        p.velocity.y as int
    }
}

/// The x velocity the particle moves with this frame: the interpolation
/// from its previous velocity toward its post-bounce current velocity.
pub open spec fn smoothed_vx(p: Particle, pos: Vec2, w: int, margin: int) -> int {
    lerp_spec(p.last_velocity.x as int, bounced_vx(p, pos, w, margin), p.blend_factor as int)
}

/// The y velocity the particle moves with this frame.
pub open spec fn smoothed_vy(p: Particle, pos: Vec2, h: int, margin: int) -> int {
    lerp_spec(p.last_velocity.y as int, bounced_vy(p, pos, h, margin), p.blend_factor as int)
}

/// The blend factor one frame later: advanced by `dt / smoothing` and
/// clamped to the unit interval.
pub open spec fn next_blend(blend: int, dt: int, smoothing: int) -> int {
    clamp_unit_spec(blend + dt * (FX_ONE as int) / smoothing)
}

/// The visual scale drawn this frame: the moving velocity's length over
/// the particle's speed scale.
pub open spec fn scale_of(vx: int, vy: int, speed: int) -> int {
    isqrt_spec((vx * vx + vy * vy) as nat) * (FX_ONE as int) / speed
}

/// The x coordinate after the frame: advanced by the smoothed velocity
/// times the elapsed time.
pub open spec fn moved_x(p: Particle, pos: Vec2, w: int, margin: int, dt: int) -> int {
    pos.x + fx_mul_spec(smoothed_vx(p, pos, w, margin), dt)
}

/// The y coordinate after the frame.
pub open spec fn moved_y(p: Particle, pos: Vec2, h: int, margin: int, dt: int) -> int {
    pos.y + fx_mul_spec(smoothed_vy(p, pos, h, margin), dt)
}

/// How one particle, its position and its scale change in a frame in
/// which the timer does not fire.
pub open spec fn stepped(
    p0: Particle,
    pos0: Vec2,
    p1: Particle,
    pos1: Vec2,
    scale1: int,
    w: int,
    h: int,
    margin: int,
    smoothing: int,
    dt: int,
) -> bool {
    &&& p1.id == p0.id
    &&& p1.speed == p0.speed
    &&& p1.velocity.x == bounced_vx(p0, pos0, w, margin)
    &&& p1.velocity.y == bounced_vy(p0, pos0, h, margin)
    &&& p1.last_velocity == p0.last_velocity
    &&& p1.blend_factor == next_blend(p0.blend_factor as int, dt, smoothing)
    &&& pos1.x == moved_x(p0, pos0, w, margin, dt)
    &&& pos1.y == moved_y(p0, pos0, h, margin, dt)
    &&& scale1 == scale_of(
        smoothed_vx(p0, pos0, w, margin),
        smoothed_vy(p0, pos0, h, margin),
        p0.speed as int,
    )
}

/// How one particle changes in a frame in which the timer fires: a fresh
/// velocity within the speed scale on each axis, the old velocity
/// remembered as the interpolation source, and the blend restarted.
pub open spec fn randomized(p0: Particle, p1: Particle) -> bool {
    &&& p1.id == p0.id
    &&& p1.speed == p0.speed
    &&& -p0.speed <= p1.velocity.x <= p0.speed
    &&& -p0.speed <= p1.velocity.y <= p0.speed
    &&& p1.last_velocity == p0.velocity
    &&& p1.blend_factor == 0
}

/// Bounce, smooth and advance a single particle for one frame.
fn move_one(
    p: &mut Particle,
    pos: &mut Vec2,
    w: i64,
    h: i64,
    margin: i64,
    smoothing: i64,
    dt: i64,
) -> (scale: i64)
    requires
        old(p).wf(),
        -POS_MAX <= old(pos).x <= POS_MAX,
        -POS_MAX <= old(pos).y <= POS_MAX,
        0 <= w <= POS_MAX,
        0 <= h <= POS_MAX,
        0 <= margin <= POS_MAX,
        0 < smoothing <= INTERVAL_MAX,
        0 <= dt <= DT_MAX,
    ensures
        stepped(
            *old(p),
            *old(pos),
            *final(p),
            *final(pos),
            scale as int,
            w as int,
            h as int,
            margin as int,
            smoothing as int,
            dt as int,
        ),
        final(p).wf(),
        -POS_MAX - STEP_MAX <= final(pos).x <= POS_MAX + STEP_MAX,
        -POS_MAX - STEP_MAX <= final(pos).y <= POS_MAX + STEP_MAX,
{
    if pos.x < -w + margin || pos.x > w - margin {
        p.velocity.x = -p.velocity.x;
    }
    if pos.y < -h + margin || pos.y > h - margin {
        p.velocity.y = -p.velocity.y;
    }
    let lx: i64 = fx_lerp(p.last_velocity.x, p.velocity.x, p.blend_factor);
    let ly: i64 = fx_lerp(p.last_velocity.y, p.velocity.y, p.blend_factor);
    proof {
        lemma_lerp_bounds(
            p.last_velocity.x as int,
            p.velocity.x as int,
            p.blend_factor as int,
            p.speed as int,
        );
        lemma_lerp_bounds(
            p.last_velocity.y as int,
            p.velocity.y as int,
            p.blend_factor as int,
            p.speed as int,
        );
        assert(0 <= lx * lx <= 1_000_000_000_000) by (nonlinear_arith)
            requires
                -1_000_000 <= lx <= 1_000_000,
        ;
        assert(0 <= ly * ly <= 1_000_000_000_000) by (nonlinear_arith)
            requires
                -1_000_000 <= ly <= 1_000_000,
        ;
    }
    let sqx: i64 = lx * lx;
    let sqy: i64 = ly * ly;
    let sq: u64 = (sqx as u64) + (sqy as u64);
    let len: u64 = isqrt(sq);
    proof {
        assert(len <= 2_000_000) by (nonlinear_arith)
            requires
                len * len <= 2_000_000_000_000int,
        ;
        assert(len * (FX_ONE as u64) <= 2_000_000_000) by (nonlinear_arith)
            requires
                len <= 2_000_000,
                FX_ONE == 1000,
        ;
        lemma_div_nonincreasing((len * (FX_ONE as u64)) as int, p.speed as int);
    }
    let scale: i64 = ((len * (FX_ONE as u64)) / (p.speed as u64)) as i64;
    proof {
        lemma_fx_mul_bound(lx as int, dt as int, SPEED_MAX as int, DT_MAX as int);
        lemma_fx_mul_bound(ly as int, dt as int, SPEED_MAX as int, DT_MAX as int);
    }
    pos.x = pos.x + fx_mul(lx, dt);
    pos.y = pos.y + fx_mul(ly, dt);
    proof {
        lemma_div_nonincreasing(dt * (FX_ONE as int), smoothing as int);
    }
    let inc: i64 = (((dt as u64) * (FX_ONE as u64)) / (smoothing as u64)) as i64;
    let nb: i64 = p.blend_factor + inc;
    p.blend_factor = if nb > FX_ONE {
        FX_ONE
    } else {
        nb
    };
    scale
}

/// Run one frame of the simulation over every particle.
///
/// The timer accumulates `dt` whatever else happens. If it fires, every
/// particle's velocity is replaced by a fresh random draw within its speed
/// scale and positions and scales are left untouched; otherwise every
/// particle is bounced off the window edges, moved by its smoothed
/// velocity, and its blend factor advanced.
pub fn move_particles(
    world: &mut ParticleWorld,
    timer: &mut RepeatTimer,
    dt: i64,
    w: i64,
    h: i64,
    config: &MotionConfig,
) -> (fired: bool)
    requires
        old(world).wf(),
        old(world).positions_within(POS_MAX as int),
        old(timer).wf(),
        0 <= dt <= DT_MAX,
        0 <= w <= POS_MAX,
        0 <= h <= POS_MAX,
        config.wf(),
    ensures
        fired == timer_fires(*old(timer), dt as int),
        final(timer).interval == old(timer).interval,
        final(timer).elapsed == if fired {
            0int
        } else {
            old(timer).elapsed + dt
        },
        final(timer).wf(),
        final(world).wf(),
        final(world).particles@.len() == old(world).particles@.len(),
        final(world).positions@.len() == old(world).positions@.len(),
        final(world).scales@.len() == old(world).scales@.len(),
        fired ==> forall|i: int|
            0 <= i < old(world).particles@.len() ==> randomized(
                old(world).particles@[i],
                #[trigger] final(world).particles@[i],
            ),
        fired ==> final(world).positions@ == old(world).positions@,
        fired ==> final(world).scales@ == old(world).scales@,
        !fired ==> forall|i: int|
            0 <= i < old(world).particles@.len() ==> stepped(
                old(world).particles@[i],
                old(world).positions@[i],
                #[trigger] final(world).particles@[i],
                final(world).positions@[i],
                final(world).scales@[i] as int,
                w as int,
                h as int,
                config.margin as int,
                config.smoothing as int,
                dt as int,
            ),
        final(world).positions_within(POS_MAX as int + STEP_MAX as int),
{
    let fired: bool = timer.tick(dt);
    let n: usize = world.particles.len();
    if fired {
        let mut i: usize = 0;
        while i < n
            invariant
                old(world).wf(),
                n == old(world).particles@.len(),
                world.particles@.len() == n,
                world.positions@ == old(world).positions@,
                world.scales@ == old(world).scales@,
                i <= n,
                forall|j: int| i <= j < n ==> world.particles@[j] == old(world).particles@[j],
                forall|j: int|
                    0 <= j < i ==> randomized(
                        old(world).particles@[j],
                        #[trigger] world.particles@[j],
                    ),
                forall|j: int| 0 <= j < i ==> (#[trigger] world.particles@[j]).wf(),
            decreases n - i,
        {
            let mut p: Particle = world.particles[i];
            let vx: i64 = random_component(p.speed);
            let vy: i64 = random_component(p.speed);
            p.last_velocity = p.velocity;
            p.velocity = Vec2 { x: vx, y: vy };
            p.blend_factor = 0;
            world.particles.set(i, p);
            i = i + 1;
        }
    } else {
        let mut i: usize = 0;
        while i < n
            invariant
                old(world).wf(),
                old(world).positions_within(POS_MAX as int),
                0 <= dt <= DT_MAX,
                0 <= w <= POS_MAX,
                0 <= h <= POS_MAX,
                config.wf(),
                n == old(world).particles@.len(),
                world.particles@.len() == n,
                world.positions@.len() == n,
                world.scales@.len() == n,
                i <= n,
                forall|j: int| i <= j < n ==> world.particles@[j] == old(world).particles@[j],
                forall|j: int| i <= j < n ==> world.positions@[j] == old(world).positions@[j],
                forall|j: int| i <= j < n ==> world.scales@[j] == old(world).scales@[j],
                forall|j: int|
                    0 <= j < i ==> stepped(
                        old(world).particles@[j],
                        old(world).positions@[j],
                        #[trigger] world.particles@[j],
                        world.positions@[j],
                        world.scales@[j] as int,
                        w as int,
                        h as int,
                        config.margin as int,
                        config.smoothing as int,
                        dt as int,
                    ),
                forall|j: int| 0 <= j < i ==> (#[trigger] world.particles@[j]).wf(),
                forall|j: int|
                    0 <= j < i ==> {
                        let q = #[trigger] world.positions@[j];
                        -POS_MAX - STEP_MAX <= q.x <= POS_MAX + STEP_MAX
                            && -POS_MAX - STEP_MAX <= q.y <= POS_MAX + STEP_MAX
                    },
            decreases n - i,
        {
            let mut p: Particle = world.particles[i];
            let mut pos: Vec2 = world.positions[i];
            let s: i64 = move_one(&mut p, &mut pos, w, h, config.margin, config.smoothing, dt);
            world.particles.set(i, p);
            world.positions.set(i, pos);
            world.scales.set(i, s);
            i = i + 1;
        }
    }
    fired
}

} // verus!
