//! The integrator: converts a body's net force to an instantaneous
//! acceleration and advances velocity, then position, by one tick.
//!
//! The step is semi-implicit (symplectic) Euler, and the order matters:
//!
//! 1. `acceleration = net_force / mass` (component-wise);
//! 2. `velocity += acceleration * elapsed_time * time_factor`;
//! 3. `position += velocity * elapsed_time * time_factor`,
//!    using the velocity **already updated** in step 2.
//!
//! `elapsed_time * time_factor` is written `tk` below; the elapsed time is
//! in microseconds, so each scaled delta divides by
//! [`MICROS_PER_SECOND`](crate::MICROS_PER_SECOND).

use crate::body::{BodyState, SolarSystemObjectData};
use crate::numeric::{lemma_tmuldiv_cap, mul_div_signed, tmuldiv};
use crate::{
    MAX_BODIES, MAX_ELAPSED_MICROS, MAX_MASS_KG, MAX_TIME_FACTOR, MICROS_PER_SECOND,
    NANOS_PER_MILLI, PAIR_FORCE_PER_KG,
};
use vstd::math::abs;
use vstd::prelude::*;

verus! {

/// Acceleration in nano-m/s^2 from a net force in milli-newtons:
/// `force * 1e6 / mass`, truncated toward zero.
pub open spec fn accel_from_force(f: int, mass: int) -> int {
    tmuldiv(f, NANOS_PER_MILLI as int, mass)
}

/// One tick's scaled delta: `x * tk / 1e6` truncated toward zero, where
/// `tk` is the elapsed time in microseconds times the time factor.
pub open spec fn time_scaled(x: int, tk: int) -> int {
    tmuldiv(x, tk, MICROS_PER_SECOND as int)
}

/// One body's semi-implicit Euler step, as a total function on the ghost
/// state: acceleration from force, velocity from acceleration, position
/// from the updated velocity.
pub open spec fn integrate_state(b: BodyState, f: (int, int, int), tk: int) -> BodyState {
    let ax = accel_from_force(f.0, b.mass);
    let ay = accel_from_force(f.1, b.mass);
    let az = accel_from_force(f.2, b.mass);
    let vx = b.vx + time_scaled(ax, tk);
    let vy = b.vy + time_scaled(ay, tk);
    let vz = b.vz + time_scaled(az, tk);
    let px = b.px + time_scaled(vx, tk);
    let py = b.py + time_scaled(vy, tk);
    let pz = b.pz + time_scaled(vz, tk);
    BodyState {
        name: b.name,
        mass: b.mass,
        px: px,
        py: py,
        pz: pz,
        vx: vx,
        vy: vy,
        vz: vz,
        ax: ax,
        ay: ay,
        az: az,
    }
}

/// Advances one body by one tick under the given net force.
///
/// The returned record reflects exactly one tick's advancement: the stored
/// acceleration is this tick's `force / mass`, the velocity is advanced by
/// that acceleration, and the position is advanced by the **updated**
/// velocity.  Name, mass and the rendering-only fields are untouched.
pub fn integrate_object(
    obj: &SolarSystemObjectData,
    fx: i128,
    fy: i128,
    fz: i128,
    elapsed_micros: u64,
    time_factor: u64,
) -> (updated: SolarSystemObjectData)
    requires
        obj.valid(),
        abs(fx as int) <= MAX_BODIES * (obj.mass_kg * PAIR_FORCE_PER_KG),
        abs(fy as int) <= MAX_BODIES * (obj.mass_kg * PAIR_FORCE_PER_KG),
        abs(fz as int) <= MAX_BODIES * (obj.mass_kg * PAIR_FORCE_PER_KG),
        elapsed_micros <= MAX_ELAPSED_MICROS,
        1 <= time_factor <= MAX_TIME_FACTOR,
    ensures
        updated.state() == integrate_state(
            obj.state(),
            (fx as int, fy as int, fz as int),
            elapsed_micros * time_factor,
        ),
        updated.name@ == obj.name@,
        updated.mass_kg == obj.mass_kg,
        updated.spin == obj.spin,
        updated.tilt == obj.tilt,
        updated.optimal_camera_distance == obj.optimal_camera_distance,
        updated.speed_x as int == obj.speed_x + time_scaled(
            accel_from_force(fx as int, obj.mass_kg as int),
            elapsed_micros * time_factor,
        ),
        updated.position_x as int == obj.position_x + time_scaled(
            updated.speed_x as int,
            elapsed_micros * time_factor,
        ),
        abs(updated.speed_x as int) <= 620_000_000_000_000_000_000_000int,
        abs(updated.speed_y as int) <= 620_000_000_000_000_000_000_000int,
        abs(updated.speed_z as int) <= 620_000_000_000_000_000_000_000int,
        abs(updated.position_x as int) <= 6_200_000_000_000_000_000_000_000_000_000_000int,
        abs(updated.position_y as int) <= 6_200_000_000_000_000_000_000_000_000_000_000int,
        abs(updated.position_z as int) <= 6_200_000_000_000_000_000_000_000_000_000_000int,
{
    proof {
        assert((elapsed_micros as int) * (time_factor as int) <= 10_000_000_000_000_000int)
            by (nonlinear_arith)
            requires
                0 <= elapsed_micros <= MAX_ELAPSED_MICROS && 0 <= time_factor <= MAX_TIME_FACTOR,
        ;
    }
    let tk: u128 = (elapsed_micros as u128) * (time_factor as u128);
    proof {
        assert(MAX_BODIES * (obj.mass_kg * PAIR_FORCE_PER_KG)
            <= 152_000_000_000_000_000_000_000_000_000_000_000_000int) by (nonlinear_arith)
            requires
                obj.mass_kg <= MAX_MASS_KG,
        ;
        lemma_force_to_accel_cap(fx as int, obj.mass_kg as int);
        lemma_force_to_accel_cap(fy as int, obj.mass_kg as int);
        lemma_force_to_accel_cap(fz as int, obj.mass_kg as int);
    }
    let ax = mul_div_signed(fx, 1_000_000, obj.mass_kg);
    let ay = mul_div_signed(fy, 1_000_000, obj.mass_kg);
    let az = mul_div_signed(fz, 1_000_000, obj.mass_kg);
    proof {
        lemma_tmuldiv_cap(ax as int, tk as int, 1_000_000int, 61_000_000_000_000int,
            610_000_000_000_000_000_000_000int);
        lemma_tmuldiv_cap(ay as int, tk as int, 1_000_000int, 61_000_000_000_000int,
            610_000_000_000_000_000_000_000int);
        lemma_tmuldiv_cap(az as int, tk as int, 1_000_000int, 61_000_000_000_000int,
            610_000_000_000_000_000_000_000int);
    }
    let vx = obj.speed_x + mul_div_signed(ax, tk, 1_000_000);
    let vy = obj.speed_y + mul_div_signed(ay, tk, 1_000_000);
    let vz = obj.speed_z + mul_div_signed(az, tk, 1_000_000);
    proof {
        lemma_tmuldiv_cap(vx as int, tk as int, 1_000_000int, 611_000_000_000_000_000_000_000int,
            6_110_000_000_000_000_000_000_000_000_000_000int);
        lemma_tmuldiv_cap(vy as int, tk as int, 1_000_000int, 611_000_000_000_000_000_000_000int,
            6_110_000_000_000_000_000_000_000_000_000_000int);
        lemma_tmuldiv_cap(vz as int, tk as int, 1_000_000int, 611_000_000_000_000_000_000_000int,
            6_110_000_000_000_000_000_000_000_000_000_000int);
    }
    let px = obj.position_x + mul_div_signed(vx, tk, 1_000_000);
    let py = obj.position_y + mul_div_signed(vy, tk, 1_000_000);
    let pz = obj.position_z + mul_div_signed(vz, tk, 1_000_000);
    SolarSystemObjectData {
        name: obj.name.clone(),
        mass_kg: obj.mass_kg,
        position_x: px,
        position_y: py,
        position_z: pz,
        speed_x: vx,
        speed_y: vy,
        speed_z: vz,
        acceleration_x: ax,
        acceleration_y: ay,
        acceleration_z: az,
        spin: obj.spin,
        tilt: obj.tilt,
        optimal_camera_distance: obj.optimal_camera_distance,
    }
}

/// A net force within the accumulator's bound maps to an acceleration of at
/// most 6.1e13 nano-m/s^2, whatever the body's mass.
proof fn lemma_force_to_accel_cap(f: int, mass: int)
    requires
        1 <= mass,
        abs(f) <= MAX_BODIES * (mass * PAIR_FORCE_PER_KG),
    ensures
        abs(tmuldiv(f, NANOS_PER_MILLI as int, mass)) <= 61_000_000_000_000int,
        abs(tmuldiv(f, NANOS_PER_MILLI as int, mass)) == (abs(f) * NANOS_PER_MILLI) / mass,
{
    assert((MAX_BODIES * (mass * PAIR_FORCE_PER_KG)) * NANOS_PER_MILLI <= 61_000_000_000_000int
        * mass) by (nonlinear_arith)
        requires
            mass >= 1,
    ;
    lemma_tmuldiv_cap(f, NANOS_PER_MILLI as int, mass, MAX_BODIES * (mass * PAIR_FORCE_PER_KG),
        61_000_000_000_000int);
}

} // verus!
