use solar_nbody::body::SolarSystemObjectData;
use solar_nbody::render::{render_coordinate, render_position};

#[test]
fn scale_mapping_is_deterministic() {
    // A pure function of the position: two calls on the same input give
    // identical output.
    let p: i128 = 149_600_000_000_000_000_000;
    let first = render_coordinate(p);
    let second = render_coordinate(p);
    assert_eq!(first, second);
    assert_eq!(first, 232_137);
}

#[test]
fn scale_mapping_divides_by_the_ratio() {
    // One render milli-unit per 6.44444444e8 m, i.e. per
    // 6.44444444e14 nano-meters, truncated toward zero.
    assert_eq!(render_coordinate(0), 0);
    assert_eq!(render_coordinate(644_444_444_000_000), 1);
    assert_eq!(render_coordinate(644_444_443_999_999), 0);
    assert_eq!(render_coordinate(-644_444_444_000_000), -1);
    assert_eq!(render_coordinate(-644_444_443_999_999), 0);
    assert_eq!(render_coordinate(1_288_888_888_000_000), 2);
}

#[test]
fn render_position_maps_all_three_axes() {
    let obj = SolarSystemObjectData {
        name: "Neptune".to_string(),
        mass_kg: 102_400_000_000_000_000_000_000_000,
        position_x: 4_495_000_000_000_000_000_000,
        position_y: -644_444_444_000_000,
        position_z: 0,
        speed_x: 0,
        speed_y: 0,
        speed_z: 5_430_000_000_000,
        acceleration_x: 0,
        acceleration_y: 0,
        acceleration_z: 0,
        spin: 1_500,
        tilt: 46_000,
        optimal_camera_distance: 14_000,
    };
    let rc = render_position(&obj);
    assert_eq!(rc.x, 4_495_000_000_000_000_000_000 / 644_444_444_000_000);
    assert_eq!(rc.y, -1);
    assert_eq!(rc.z, 0);
    let again = render_position(&obj);
    assert_eq!(rc, again);
}
