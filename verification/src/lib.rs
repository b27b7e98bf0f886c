//! A verified n-body gravitational integrator for a solar-system simulation.
//!
//! Once per simulation tick the library computes the pairwise gravitational
//! forces among all tracked bodies, derives each body's instantaneous
//! acceleration, advances velocity and then position (semi-implicit Euler),
//! and maps the new physical position into the bounded coordinate space that
//! a rendering layer consumes.
//!
//! All physical state is carried in fixed-point integers so that every step
//! of the computation has an exact mathematical meaning:
//!
//! - positions, velocities and accelerations are signed integers in
//!   nano-SI units (1 unit = 1e-9 m, m/s, or m/s^2);
//! - masses are unsigned integers in whole kilograms;
//! - forces are signed integers in milli-newtons;
//! - pair distances are measured in milli-meters;
//! - the elapsed time of a tick is given in whole microseconds.
//!
//! The gravitational constant 6.6743e-11 m^3 kg^-1 s^-2 is held as the exact
//! rational `GRAV_NUMERATOR / GRAV_DENOMINATOR`.
//!
//! Two bodies closer than `MIN_SEPARATION_MILLI` (a distance well inside the
//! radius of any star or planet the simulation is meant for) contribute no
//! force to each other.  This is the library's explicit policy for the
//! otherwise-degenerate zero-separation case: it replaces a division by zero
//! with a documented minimum-separation floor, and at the same time keeps
//! every intermediate product of the force computation within 128 bits.

use vstd::prelude::*;

pub mod body;
pub mod force;
pub mod integrate;
pub mod laws;
pub mod numeric;
pub mod render;
pub mod sim;

verus! {

/// Numerator of the gravitational constant: G = 66743 / 10^15 in SI units.
pub const GRAV_NUMERATOR: u128 = 66_743;

/// Denominator of the gravitational constant.
pub const GRAV_DENOMINATOR: u128 = 1_000_000_000_000_000;

/// Mass of the sun in kilograms.
pub const SUN_MASS: u128 = 1_989_000_000_000_000_000_000_000_000_000;

/// Default multiplier that compresses real orbital periods into an
/// observable session.
pub const SOLAR_SYSTEM_TIME_FACTOR: u64 = 100_000;

/// Meters of physical space per render-space unit.
pub const RADIUS_TO_TRANSLATION_RATIO: u128 = 644_444_444;

/// Nano-units per SI unit: positions, velocities and accelerations.
pub const NANOS_PER_UNIT: u128 = 1_000_000_000;

/// Milli-units per SI unit: forces and pair distances.
pub const MILLIS_PER_UNIT: u128 = 1_000;

/// Nano-units per milli-unit.
pub const NANOS_PER_MILLI: u128 = 1_000_000;

/// Microseconds per second: the time scale of a tick's elapsed time.
pub const MICROS_PER_SECOND: u128 = 1_000_000;

/// Divisor that takes a nano-meter position to a milli-unit render
/// coordinate: `RADIUS_TO_TRANSLATION_RATIO * NANOS_PER_MILLI`.
pub const RENDER_DIVISOR_NANO: u128 = RADIUS_TO_TRANSLATION_RATIO * NANOS_PER_MILLI;

/// Largest admissible body mass, in kilograms (about 1.26 solar masses).
pub const MAX_MASS_KG: u128 = 2_500_000_000_000_000_000_000_000_000_000;

/// Bodies closer to each other than this distance (in milli-meters; 3e8 m)
/// exert no force on each other.
pub const MIN_SEPARATION_MILLI: u128 = 300_000_000_000;

/// Largest admissible position component, in nano-meters (5e12 m).
pub const MAX_COORDINATE_NANO: i128 = 5_000_000_000_000_000_000_000;

/// Largest admissible velocity component, in nano-meters per second (1e6 m/s).
pub const MAX_SPEED_NANO: i128 = 1_000_000_000_000_000;

/// Largest number of bodies a registry may hold.
pub const MAX_BODIES: usize = 32;

/// Largest admissible elapsed time for one tick, in microseconds (1000 s).
pub const MAX_ELAPSED_MICROS: u64 = 1_000_000_000;

/// Largest admissible time-acceleration factor.
pub const MAX_TIME_FACTOR: u64 = 10_000_000;

/// The force either body of a pair receives is at most its own mass times
/// this constant (in milli-newtons per kilogram).  The bound follows from
/// `MAX_MASS_KG` and `MIN_SEPARATION_MILLI` and is what keeps the net-force
/// accumulation inside an `i128`.
pub const PAIR_FORCE_PER_KG: u128 = 1_900_000;

} // verus!
