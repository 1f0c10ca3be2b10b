use pomiar_myszy::config::COORD_LIMIT;
use pomiar_myszy::config::Config;
use pomiar_myszy::geometry::Point;

#[test]
fn config_validity() {
    let good = Config {
        width: 1920,
        height: 1080,
        target_size: 20,
        delay_threshold: 200_000,
        trial_count: 5,
        ignore_first: 3,
    };
    assert!(good.is_valid());
    assert!(!Config { target_size: 0, ..good }.is_valid());
    assert!(!Config { width: 0, ..good }.is_valid());
    assert!(!Config { height: -5, ..good }.is_valid());
    assert!(!Config { trial_count: 0, ..good }.is_valid());
    assert!(!Config { width: COORD_LIMIT + 1, ..good }.is_valid());
}

#[test]
fn clamped_point_passes_in_range_values_through() {
    assert_eq!(Point::new_clamped(12, -7), Point { x: 12, y: -7 });
    assert_eq!(Point::new_clamped(COORD_LIMIT, -COORD_LIMIT), Point {
        x: COORD_LIMIT,
        y: -COORD_LIMIT,
    });
}

#[test]
fn clamped_point_forces_extremes_into_range() {
    let p = Point::new_clamped(i64::MAX, i64::MIN);
    assert_eq!(p, Point { x: COORD_LIMIT, y: -COORD_LIMIT });
}
