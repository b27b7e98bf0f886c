use solar_nbody::body::{SolarSystemObjectData, SolarSystemRegistry};
use solar_nbody::force::{accumulate_forces, net_force_on_object, take_snapshot};
use solar_nbody::integrate::integrate_object;
use solar_nbody::SUN_MASS;

const EARTH_MASS: u128 = 5_972_000_000_000_000_000_000_000;
const EARTH_X_NANO: i128 = 149_600_000_000_000_000_000; // 1.496e11 m
const SUN_EARTH_FORCE_MILLI: i128 = 35_423_960_813_684_978_123_480_797; // ~3.54e22 N

fn body_at(name: &str, mass_kg: u128, x: i128, vx: i128) -> SolarSystemObjectData {
    SolarSystemObjectData {
        name: name.to_string(),
        mass_kg,
        position_x: x,
        position_y: 0,
        position_z: 0,
        speed_x: vx,
        speed_y: 0,
        speed_z: 0,
        acceleration_x: 0,
        acceleration_y: 0,
        acceleration_z: 0,
        spin: 0,
        tilt: 0,
        optimal_camera_distance: 0,
    }
}

#[test]
fn force_symmetry_small_masses() {
    // Two bodies of mass 5.0 kg, one at the origin, one at (10, 0, 0) m:
    // the forces are equal in magnitude and anti-parallel.  (At this mass
    // and distance the fixed-point force is zero on both sides, which
    // satisfies the symmetry exactly.)
    let objects = vec![body_at("A", 5, 0, 0), body_at("B", 5, 10_000_000_000, 0)];
    let snap = take_snapshot(&objects);
    let fa = net_force_on_object(&snap, 0);
    let fb = net_force_on_object(&snap, 1);
    assert_eq!(fa.0, -fb.0);
    assert_eq!(fa.1, -fb.1);
    assert_eq!(fa.2, -fb.2);
    assert_eq!(fa, (0, 0, 0));
}

#[test]
fn force_symmetry_solar_masses() {
    let objects = vec![
        body_at("Sun", SUN_MASS, 0, 0),
        body_at("Earth", EARTH_MASS, EARTH_X_NANO, 0),
    ];
    let snap = take_snapshot(&objects);
    let f_sun = net_force_on_object(&snap, 0);
    let f_earth = net_force_on_object(&snap, 1);
    // Anti-parallel, equal magnitude, and the exact fixed-point value of
    // G * m1 * m2 / r^2 in milli-newtons.
    assert_eq!(f_sun.0, SUN_EARTH_FORCE_MILLI);
    assert_eq!(f_earth.0, -SUN_EARTH_FORCE_MILLI);
    assert_eq!(f_sun.1, 0);
    assert_eq!(f_sun.2, 0);
    assert_eq!(f_earth.1, 0);
    assert_eq!(f_earth.2, 0);
}

#[test]
fn self_exclusion_single_body() {
    // A single-body system: zero net force, zero acceleration, and an
    // unchanged position after a tick for a body at rest.
    let objects = vec![body_at("Lonely", 7, 123, 0)];
    let snap = take_snapshot(&objects);
    assert_eq!(net_force_on_object(&snap, 0), (0, 0, 0));

    let mut reg = SolarSystemRegistry::new();
    assert!(reg.add_object(body_at("Lonely", 7, 123, 0)));
    solar_nbody::sim::tick(&mut reg, 1_000_000, 100_000);
    let after = reg.get(0);
    assert_eq!(after.acceleration_x, 0);
    assert_eq!(after.acceleration_y, 0);
    assert_eq!(after.acceleration_z, 0);
    assert_eq!(after.speed_x, 0);
    assert_eq!(after.position_x, 123);
    assert_eq!(after.position_y, 0);
    assert_eq!(after.position_z, 0);
}

#[test]
fn integration_order_uses_updated_velocity() {
    // Constant force F = 6.4e7 milli-N, mass 2 kg, elapsed 2 s, factor 3.
    let obj = body_at("Probe", 2, 500, 1_000);
    let updated = integrate_object(&obj, 64_000_000, 0, 0, 2_000_000, 3);
    // a = F * 1e6 / m = 3.2e13 nano-m/s^2.
    assert_eq!(updated.acceleration_x, 32_000_000_000_000);
    // v' = v + a * tk / 1e6 with tk = 6e6 microseconds.
    assert_eq!(updated.speed_x, 192_000_000_001_000);
    // p' = p + v' * tk / 1e6, with the *updated* velocity; the pre-tick
    // velocity would have moved the position by only 6000.
    assert_eq!(updated.position_x, 500 + 192_000_000_001_000 * 6);
    // Untouched fields carry over.
    assert_eq!(updated.name, "Probe");
    assert_eq!(updated.mass_kg, 2);
    assert_eq!(updated.speed_y, 0);
    assert_eq!(updated.position_y, 0);
}

#[test]
fn end_to_end_two_body_tick() {
    // Sun and earth separated by 1.496e11 m along x, both at rest; one
    // tick of one simulated second (time factor 1).  Each body's velocity
    // moves toward the other, by the fixed-point value of G*m1*m2/r^2
    // divided by its own mass.
    let mut reg = SolarSystemRegistry::new();
    assert!(reg.add_object(body_at("Sun", SUN_MASS, 0, 0)));
    assert!(reg.add_object(body_at("Earth", EARTH_MASS, EARTH_X_NANO, 0)));
    let renders = solar_nbody::sim::tick(&mut reg, 1_000_000, 1);

    let sun = reg.get(0);
    assert_eq!(sun.acceleration_x, 17); // 1.78e-8 m/s^2, floored
    assert_eq!(sun.speed_x, 17);
    assert_eq!(sun.position_x, 17);

    let earth = reg.get(1);
    assert_eq!(earth.acceleration_x, -5_931_674); // -5.93e-3 m/s^2
    assert_eq!(earth.speed_x, -5_931_674);
    assert_eq!(earth.position_x, EARTH_X_NANO - 5_931_674);

    assert_eq!(renders.len(), 2);
    assert_eq!(renders[0].x, 0);
    assert_eq!(renders[1].x, 232_137); // 1.496e11 m / 6.44e8, milli-units
    assert_eq!(renders[1].y, 0);
    assert_eq!(renders[1].z, 0);
}

#[test]
fn momentum_is_approximately_conserved() {
    // Ten ticks of a sun-earth system at the solar-system time factor:
    // the total momentum drifts by no more than
    // n * (m0 + m1) * (tk + 1e6) millionths.
    let mut reg = SolarSystemRegistry::new();
    assert!(reg.add_object(body_at("Sun", SUN_MASS, 0, 0)));
    assert!(reg.add_object(body_at("Earth", EARTH_MASS, EARTH_X_NANO, 0)));
    let momentum = |reg: &SolarSystemRegistry| -> i128 {
        (reg.get(0).mass_kg as i128) * reg.get(0).speed_x
            + (reg.get(1).mass_kg as i128) * reg.get(1).speed_x
    };
    let before = momentum(&reg);
    let elapsed: u64 = 16_667;
    let factor: u64 = 100_000;
    let ticks: u32 = 10;
    for _ in 0..ticks {
        solar_nbody::sim::tick(&mut reg, elapsed, factor);
    }
    let after = momentum(&reg);
    let tk = (elapsed as i128) * (factor as i128);
    let bound = (ticks as i128) * ((SUN_MASS + EARTH_MASS) as i128 / 1_000_000) * (tk + 1_000_000);
    let drift = after - before;
    assert!(drift.abs() <= bound, "momentum drift {} exceeds bound {}", drift, bound);
    // The earth has been falling toward the sun the whole time.
    assert!(reg.get(1).speed_x < 0);
    assert!(reg.get(0).speed_x > 0);
}

#[test]
fn tick_leaves_presentation_fields_untouched() {
    let mut reg = SolarSystemRegistry::new();
    let mut earth = body_at("Earth", EARTH_MASS, EARTH_X_NANO, 0);
    earth.spin = 1_000;
    earth.tilt = 23_000;
    earth.optimal_camera_distance = 3_000;
    assert!(reg.add_object(body_at("Sun", SUN_MASS, 0, 0)));
    assert!(reg.add_object(earth));
    solar_nbody::sim::tick(&mut reg, 16_667, 100_000);
    let after = reg.get(1);
    assert_eq!(after.name, "Earth");
    assert_eq!(after.mass_kg, EARTH_MASS);
    assert_eq!(after.spin, 1_000);
    assert_eq!(after.tilt, 23_000);
    assert_eq!(after.optimal_camera_distance, 3_000);
}

#[test]
fn forces_are_computed_from_one_snapshot() {
    // The per-name force records match the per-index net forces, and the
    // snapshot copies exactly the fields the force phase reads.
    let objects = vec![
        body_at("Sun", SUN_MASS, 0, 0),
        body_at("Earth", EARTH_MASS, EARTH_X_NANO, 29_780_000_000_000),
    ];
    let snap = take_snapshot(&objects);
    assert_eq!(snap.len(), 2);
    assert_eq!(snap[0].name, "Sun");
    assert_eq!(snap[1].mass_kg, EARTH_MASS);
    assert_eq!(snap[1].position_x, EARTH_X_NANO);
    let forces = accumulate_forces(&snap);
    assert_eq!(forces.len(), 2);
    assert_eq!(forces[0].name, "Sun");
    assert_eq!(forces[1].name, "Earth");
    let f0 = net_force_on_object(&snap, 0);
    assert_eq!(forces[0].force_x, f0.0);
    assert_eq!(forces[1].force_x, -f0.0);
}
