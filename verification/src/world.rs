//! The particle population and its associated render state: one velocity
//! record per particle, with a position and a visual scale held alongside
//! in parallel vectors.

use vstd::prelude::*;
use crate::fx::FX_ONE;
use crate::limits::SPEED_MAX;

verus! {

/// A two-dimensional vector in fixed-point thousandths.
#[derive(Clone, Copy, PartialEq, Eq, Structural, Debug)]
pub struct Vec2 {
    pub x: i64,
    pub y: i64,
}

/// One simulated point mass.
#[derive(Clone, Copy, PartialEq, Eq, Structural, Debug)]
pub struct Particle {
    /// Sequential identifier assigned at spawn time; never used for lookup.
    pub id: u32,
    /// Current velocity, in thousandths of a world unit per second.
    pub velocity: Vec2,
    /// Velocity before the last randomization, the interpolation source.
    pub last_velocity: Vec2,
    /// Interpolation weight in `[0, FX_ONE]`: 0 is fully `last_velocity`,
    /// `FX_ONE` is fully `velocity`.
    pub blend_factor: i64,
    /// Speed scale used when drawing new random velocity components.
    pub speed: i64,
}

impl Particle {
    /// Velocities never exceed the particle's speed scale and the blend
    /// factor stays inside the unit interval.
    pub open spec fn wf(self) -> bool {
        &&& 0 < self.speed <= SPEED_MAX
        &&& -self.speed <= self.velocity.x <= self.speed
        &&& -self.speed <= self.velocity.y <= self.speed
        &&& -self.speed <= self.last_velocity.x <= self.speed
        &&& -self.speed <= self.last_velocity.y <= self.speed
        &&& 0 <= self.blend_factor <= FX_ONE
    }
}

/// The whole population, with positions and visual scales stored in
/// parallel arrays of the same length.
pub struct ParticleWorld {
    pub particles: Vec<Particle>,
    pub positions: Vec<Vec2>,
    pub scales: Vec<i64>,
}

impl ParticleWorld {
    /// The three parallel arrays agree in length and every particle is
    /// well formed.
    pub open spec fn wf(self) -> bool {
        &&& self.positions@.len() == self.particles@.len()
        &&& self.scales@.len() == self.particles@.len()
        &&& forall|i: int|
            0 <= i < self.particles@.len() ==> (#[trigger] self.particles@[i]).wf()
    }

    /// Every coordinate has magnitude at most `bound`.
    pub open spec fn positions_within(self, bound: int) -> bool {
        forall|i: int|
            0 <= i < self.positions@.len() ==> {
                let p = #[trigger] self.positions@[i];
                -bound <= p.x <= bound && -bound <= p.y <= bound
            }
    }
}

} // verus!
