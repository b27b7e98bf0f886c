use solar_nbody::body::{SolarSystemObjectData, SolarSystemRegistry};
use solar_nbody::{MAX_BODIES, MAX_COORDINATE_NANO, MAX_MASS_KG, SUN_MASS};

fn body_named(name: &str, mass_kg: u128, x: i128) -> SolarSystemObjectData {
    SolarSystemObjectData {
        name: name.to_string(),
        mass_kg,
        position_x: x,
        position_y: 0,
        position_z: 0,
        speed_x: 0,
        speed_y: 0,
        speed_z: 0,
        acceleration_x: 0,
        acceleration_y: 0,
        acceleration_z: 0,
        spin: 0,
        tilt: 0,
        optimal_camera_distance: 0,
    }
}

#[test]
fn add_object_accepts_valid_bodies() {
    let mut reg = SolarSystemRegistry::new();
    assert_eq!(reg.len(), 0);
    assert!(reg.add_object(body_named("Sun", SUN_MASS, 0)));
    assert!(reg.add_object(body_named("Earth", 5_972_000_000_000_000_000_000_000, 1)));
    assert_eq!(reg.len(), 2);
    assert_eq!(reg.get(0).name, "Sun");
    assert_eq!(reg.get(1).name, "Earth");
}

#[test]
fn add_object_rejects_duplicate_names() {
    let mut reg = SolarSystemRegistry::new();
    assert!(reg.add_object(body_named("Mars", 10, 0)));
    assert!(!reg.add_object(body_named("Mars", 20, 5)));
    assert_eq!(reg.len(), 1);
    assert_eq!(reg.get(0).mass_kg, 10);
}

#[test]
fn add_object_rejects_out_of_range_state() {
    let mut reg = SolarSystemRegistry::new();
    assert!(!reg.add_object(body_named("Massless", 0, 0)));
    assert!(!reg.add_object(body_named("TooHeavy", MAX_MASS_KG + 1, 0)));
    assert!(!reg.add_object(body_named("TooFar", 5, MAX_COORDINATE_NANO + 1)));
    assert_eq!(reg.len(), 0);
    assert!(reg.add_object(body_named("EdgeHeavy", MAX_MASS_KG, MAX_COORDINATE_NANO)));
    assert_eq!(reg.len(), 1);
}

#[test]
fn add_object_rejects_overfull_registry() {
    let mut reg = SolarSystemRegistry::new();
    for i in 0..MAX_BODIES {
        assert!(reg.add_object(body_named(&format!("body{}", i), 1, i as i128)));
    }
    assert_eq!(reg.len(), MAX_BODIES);
    assert!(!reg.add_object(body_named("one_too_many", 1, 0)));
    assert_eq!(reg.len(), MAX_BODIES);
}

#[test]
fn well_formedness_check_matches_invariant() {
    let mut reg = SolarSystemRegistry::new();
    assert!(reg.is_well_formed());
    assert!(reg.add_object(body_named("Sun", SUN_MASS, 0)));
    assert!(reg.add_object(body_named("Earth", 5_972_000_000_000_000_000_000_000, 1)));
    assert!(reg.is_well_formed());
    // Mutating a body out of range from outside is caught.
    reg.objects[0].mass_kg = 0;
    assert!(!reg.is_well_formed());
    reg.objects[0].mass_kg = SUN_MASS;
    assert!(reg.is_well_formed());
    reg.objects[1].name = "Sun".to_string();
    assert!(!reg.is_well_formed());
}

#[test]
fn contains_name_finds_registered_bodies() {
    let mut reg = SolarSystemRegistry::new();
    assert!(!reg.contains_name(&"Venus".to_string()));
    assert!(reg.add_object(body_named("Venus", 4_867_000_000_000_000_000_000_000, 0)));
    assert!(reg.contains_name(&"Venus".to_string()));
    assert!(!reg.contains_name(&"venus".to_string()));
}
