//! The spawner: it creates the fixed-size particle population with random
//! initial velocities.

use vstd::prelude::*;
use crate::fx::FX_ONE;
use crate::limits::POS_MAX;
use crate::limits::SPEED_MAX;
use crate::rng::random_component;
use crate::world::Particle;
use crate::world::ParticleWorld;
use crate::world::Vec2;

verus! {

/// What holds of a freshly spawned particle with identifier `id`.
pub open spec fn spawned(p: Particle, id: int, speed: int) -> bool {
    &&& p.id == id
    &&& p.speed == speed
    &&& -speed <= p.velocity.x <= speed
    &&& -speed <= p.velocity.y <= speed
    &&& p.last_velocity == p.velocity
    &&& p.blend_factor == 0
}

/// Create `count` particles with sequential identifiers and velocity
/// components drawn from `[-speed, speed]`. Every particle starts at the
/// origin with full visual scale, its previous velocity equal to its
/// current one, and its blend factor at zero.
pub fn spawn_particles(count: usize, speed: i64) -> (world: ParticleWorld)
    requires
        0 < speed <= SPEED_MAX,
        count <= 0xffff_ffff,
    ensures
        world.wf(),
        world.particles@.len() == count,
        world.positions@.len() == count,
        world.scales@.len() == count,
        forall|i: int| 0 <= i < count ==> spawned(#[trigger] world.particles@[i], i, speed as int),
        forall|i: int| 0 <= i < count ==> (#[trigger] world.positions@[i]) == (Vec2 { x: 0i64, y: 0i64 }),
        forall|i: int| 0 <= i < count ==> (#[trigger] world.scales@[i]) == FX_ONE,
        world.positions_within(POS_MAX as int),
{
    let mut particles: Vec<Particle> = Vec::new();
    let mut positions: Vec<Vec2> = Vec::new();
    let mut scales: Vec<i64> = Vec::new();
    let mut i: usize = 0;
    while i < count
        invariant
            0 < speed <= SPEED_MAX,
            count <= 0xffff_ffff,
            i <= count,
            particles@.len() == i,
            positions@.len() == i,
            scales@.len() == i,
            forall|j: int| 0 <= j < i ==> spawned(#[trigger] particles@[j], j, speed as int),
            forall|j: int| 0 <= j < i ==> (#[trigger] positions@[j]) == (Vec2 { x: 0i64, y: 0i64 }),
            forall|j: int| 0 <= j < i ==> (#[trigger] scales@[j]) == FX_ONE,
        decreases count - i,
    {
        let vx: i64 = random_component(speed);
        let vy: i64 = random_component(speed);
        let v = Vec2 { x: vx, y: vy };
        particles.push(Particle {
            id: i as u32,
            velocity: v,
            last_velocity: v,
            blend_factor: 0,
            speed,
        });
        positions.push(Vec2 { x: 0, y: 0 });
        scales.push(FX_ONE);
        i = i + 1;
    }
    ParticleWorld { particles, positions, scales }
}

} // verus!
