use particles::motion::{move_particles, MotionConfig};
use particles::spawn::spawn_particles;
use particles::timer::RepeatTimer;
use particles::world::{Particle, ParticleWorld, Vec2};

fn one_particle_world(velocity: Vec2, blend_factor: i64, speed: i64, pos: Vec2) -> ParticleWorld {
    ParticleWorld {
        particles: vec![Particle {
            id: 0,
            velocity,
            last_velocity: velocity,
            blend_factor,
            speed,
        }],
        positions: vec![pos],
        scales: vec![1000],
    }
}

#[test]
fn spawn_hundred_components_in_range() {
    let world = spawn_particles(100, 32000);
    assert_eq!(world.particles.len(), 100);
    assert_eq!(world.positions.len(), 100);
    assert_eq!(world.scales.len(), 100);
    for (i, p) in world.particles.iter().enumerate() {
        assert_eq!(p.id, i as u32);
        assert!(-32000 <= p.velocity.x && p.velocity.x <= 32000);
        assert!(-32000 <= p.velocity.y && p.velocity.y <= 32000);
        assert_eq!(p.last_velocity, p.velocity);
        assert_eq!(p.blend_factor, 0);
        assert_eq!(p.speed, 32000);
    }
    for pos in &world.positions {
        assert_eq!(*pos, Vec2 { x: 0, y: 0 });
    }
    for s in &world.scales {
        assert_eq!(*s, 1000);
    }
}

#[test]
fn bounce_lags_one_frame() {
    // A particle one unit short of the right edge moving outward: the
    // frame that carries it out does not flip it; the next frame does.
    let mut world = one_particle_world(Vec2 { x: 10000, y: 0 }, 0, 10000, Vec2 { x: 99000, y: 0 });
    let mut timer = RepeatTimer::new(1_000_000_000);
    let config = MotionConfig { margin: 0, smoothing: 1000 };

    let fired = move_particles(&mut world, &mut timer, 1000, 100000, 100000, &config);
    assert!(!fired);
    assert_eq!(world.positions[0], Vec2 { x: 109000, y: 0 });
    assert_eq!(world.particles[0].velocity, Vec2 { x: 10000, y: 0 });
    assert_eq!(world.scales[0], 1000);

    let fired = move_particles(&mut world, &mut timer, 1000, 100000, 100000, &config);
    assert!(!fired);
    assert_eq!(world.particles[0].velocity, Vec2 { x: -10000, y: 0 });
    assert_eq!(world.positions[0], Vec2 { x: 99000, y: 0 });
}

#[test]
fn flip_inverts_sign_and_keeps_magnitude() {
    // Out of bounds on both axes at once: both components flip,
    // independently, and the magnitudes are preserved exactly.
    let mut world =
        one_particle_world(Vec2 { x: 7000, y: -3000 }, 1000, 32000, Vec2 { x: 150000, y: -150000 });
    let mut timer = RepeatTimer::new(1_000_000_000);
    let config = MotionConfig { margin: 0, smoothing: 1000 };

    move_particles(&mut world, &mut timer, 1000, 100000, 100000, &config);
    assert_eq!(world.particles[0].velocity, Vec2 { x: -7000, y: 3000 });
    // With the blend factor at one, movement uses the flipped velocity.
    assert_eq!(world.positions[0], Vec2 { x: 143000, y: -147000 });
}

#[test]
fn margin_insets_the_bounds() {
    let config = MotionConfig { margin: 32000, smoothing: 1000 };
    let mut timer = RepeatTimer::new(1_000_000_000);

    // Exactly on the inset edge: strictly inside, no flip.
    let mut world = one_particle_world(Vec2 { x: 500, y: 0 }, 0, 32000, Vec2 { x: 68000, y: 0 });
    move_particles(&mut world, &mut timer, 0, 100000, 100000, &config);
    assert_eq!(world.particles[0].velocity, Vec2 { x: 500, y: 0 });

    // One thousandth beyond it: flipped.
    let mut world = one_particle_world(Vec2 { x: 500, y: 0 }, 0, 32000, Vec2 { x: 68001, y: 0 });
    move_particles(&mut world, &mut timer, 0, 100000, 100000, &config);
    assert_eq!(world.particles[0].velocity, Vec2 { x: -500, y: 0 });
}

#[test]
fn zero_dt_changes_nothing() {
    let mut world = one_particle_world(Vec2 { x: 8000, y: -2000 }, 500, 32000, Vec2 { x: 5000, y: 6000 });
    let mut timer = RepeatTimer::new(2000);
    let config = MotionConfig { margin: 0, smoothing: 1000 };

    let fired = move_particles(&mut world, &mut timer, 0, 100000, 100000, &config);
    assert!(!fired);
    assert_eq!(world.positions[0], Vec2 { x: 5000, y: 6000 });
    assert_eq!(world.particles[0].velocity, Vec2 { x: 8000, y: -2000 });
    assert_eq!(world.particles[0].blend_factor, 500);
    assert_eq!(timer.elapsed, 0);
}

#[test]
fn fired_frame_redraws_velocities() {
    let mut world = spawn_particles(100, 32000);
    let before: Vec<_> = world.particles.clone();
    let mut timer = RepeatTimer::new(1000);
    let config = MotionConfig { margin: 0, smoothing: 1000 };

    let fired = move_particles(&mut world, &mut timer, 1000, 100000, 100000, &config);
    assert!(fired);
    assert_eq!(timer.elapsed, 0);
    for (p, old) in world.particles.iter().zip(before.iter()) {
        assert!(-32000 <= p.velocity.x && p.velocity.x <= 32000);
        assert!(-32000 <= p.velocity.y && p.velocity.y <= 32000);
        assert_eq!(p.last_velocity, old.velocity);
        assert_eq!(p.blend_factor, 0);
        assert_eq!(p.id, old.id);
    }
    // Positions and scales are untouched on a fired frame.
    for pos in &world.positions {
        assert_eq!(*pos, Vec2 { x: 0, y: 0 });
    }
    for s in &world.scales {
        assert_eq!(*s, 1000);
    }
}

#[test]
fn blend_factor_stays_clamped() {
    let mut world = one_particle_world(Vec2 { x: 100, y: 0 }, 900, 32000, Vec2 { x: 0, y: 0 });
    let mut timer = RepeatTimer::new(1_000_000_000);
    let config = MotionConfig { margin: 0, smoothing: 1000 };

    for _ in 0..5 {
        move_particles(&mut world, &mut timer, 1000, 100000, 100000, &config);
        let b = world.particles[0].blend_factor;
        assert!(0 <= b && b <= 1000);
    }
    assert_eq!(world.particles[0].blend_factor, 1000);
}

#[test]
fn scale_tracks_the_velocity_length() {
    // A 3-4-5 triangle: length 5000 over speed 5000 gives full scale.
    let mut world = one_particle_world(Vec2 { x: 3000, y: 4000 }, 0, 5000, Vec2 { x: 0, y: 0 });
    let mut timer = RepeatTimer::new(1_000_000_000);
    let config = MotionConfig { margin: 0, smoothing: 1000 };

    move_particles(&mut world, &mut timer, 0, 100000, 100000, &config);
    assert_eq!(world.scales[0], 1000);

    // Half the speed scale gives half the visual scale.
    let mut world = one_particle_world(Vec2 { x: 3000, y: 4000 }, 0, 10000, Vec2 { x: 0, y: 0 });
    move_particles(&mut world, &mut timer, 0, 100000, 100000, &config);
    assert_eq!(world.scales[0], 500);
}

#[test]
fn smoothing_blends_from_last_toward_current() {
    // Last velocity zero, current velocity set by hand: at blend 500 the
    // particle moves with half the current velocity.
    let mut world = ParticleWorld {
        particles: vec![Particle {
            id: 0,
            velocity: Vec2 { x: 10000, y: 0 },
            last_velocity: Vec2 { x: 0, y: 0 },
            blend_factor: 500,
            speed: 10000,
        }],
        positions: vec![Vec2 { x: 0, y: 0 }],
        scales: vec![1000],
    };
    let mut timer = RepeatTimer::new(1_000_000_000);
    let config = MotionConfig { margin: 0, smoothing: 1000 };

    move_particles(&mut world, &mut timer, 1000, 100000, 100000, &config);
    assert_eq!(world.positions[0], Vec2 { x: 5000, y: 0 });
    assert_eq!(world.scales[0], 500);
    assert_eq!(world.particles[0].blend_factor, 1000);
}
