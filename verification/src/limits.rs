//! Bounds on the fixed-point quantities the simulation handles. They are
//! far beyond anything a particle demo reaches and exist so that every
//! arithmetic step provably fits in 64 bits.

use vstd::prelude::*;

verus! {

/// Largest speed scale: one thousand world units per second, in thousandths.
pub const SPEED_MAX: i64 = 1_000_000;

/// Largest frame time: one thousand seconds, in thousandths.
pub const DT_MAX: i64 = 1_000_000;

/// Largest coordinate magnitude the updater accepts, in thousandths.
pub const POS_MAX: i64 = 1_000_000_000_000;

/// Largest distance a particle can travel in one frame, in thousandths:
/// `SPEED_MAX * DT_MAX / FX_ONE`.
pub const STEP_MAX: i64 = 1_000_000_000;

/// Largest timer interval: a thousand seconds, in thousandths.
pub const INTERVAL_MAX: i64 = 1_000_000_000_000;

} // verus!
