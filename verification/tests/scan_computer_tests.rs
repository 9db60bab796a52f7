use startrek::computer::{calculate_direction_and_distance, warp_units};
use startrek::constants::Device;
use startrek::events::GameError;
use startrek::galaxy::Galaxy;
use startrek::navigation_types::{Course, WarpFactor};
use startrek::position::SectorPosition;
use startrek::constants::{Condition, INITIAL_ENERGY, INITIAL_SHIELDS, INITIAL_TORPEDOES, SectorContent};
use startrek::scan::{long_range_scan, short_range_scan};
use startrek::sector_map::SectorMap;

#[test]
fn short_range_scan_does_not_panic() {
    let mut galaxy = Galaxy::new(42);
    let view = short_range_scan(&mut galaxy).unwrap();
    assert_eq!(view.rows.len(), 8);
}

#[test]
fn short_range_scan_blocked_when_sensors_damaged() {
    let mut galaxy = Galaxy::new(42);
    galaxy.enterprise_mut().damage_device(Device::ShortRangeSensors, 1);
    let r = short_range_scan(&mut galaxy);
    assert_eq!(
        r.err().map(|e| format!("{:?}", e)),
        Some(format!("{:?}", GameError::DeviceDamaged(Device::ShortRangeSensors)))
    );
}

#[test]
fn long_range_scan_does_not_panic() {
    let mut galaxy = Galaxy::new(42);
    let cells = long_range_scan(&mut galaxy).unwrap();
    assert_eq!(cells.len(), 9);
}

#[test]
fn long_range_scan_blocked_when_sensors_damaged() {
    let mut galaxy = Galaxy::new(42);
    galaxy.enterprise_mut().damage_device(Device::LongRangeSensors, 1);
    assert!(long_range_scan(&mut galaxy).is_err());
}

#[test]
fn long_range_scan_updates_computer_memory() {
    let mut galaxy = Galaxy::new(42);
    // Reset computer memory to verify the scan populates it
    *galaxy.computer_memory_mut() = vec![None; 64];

    long_range_scan(&mut galaxy).unwrap();

    let qx = galaxy.enterprise().quadrant().x;
    let qy = galaxy.enterprise().quadrant().y;

    // The current quadrant and its in-bounds neighbors should now be recorded
    for dy in -1..=1i32 {
        for dx in -1..=1i32 {
            let sx = qx + dx;
            let sy = qy + dy;
            if sx >= 1 && sx <= 8 && sy >= 1 && sy <= 8 {
                let i = ((sy - 1) * 8 + (sx - 1)) as usize;
                let mem = galaxy.computer_memory()[i];
                let actual = galaxy.quadrants()[i];
                assert_eq!(
                    mem,
                    Some(actual),
                    "memory at ({},{}) should match quadrant data",
                    sx,
                    sy
                );
            }
        }
    }
}

#[test]
fn long_range_scan_does_not_record_when_computer_damaged() {
    let mut galaxy = Galaxy::new(42);
    *galaxy.computer_memory_mut() = vec![None; 64];
    galaxy.enterprise_mut().damage_device(Device::Computer, 1);

    long_range_scan(&mut galaxy).unwrap();

    // All memory should remain unscanned
    for i in 0..64 {
        assert_eq!(galaxy.computer_memory()[i], None);
    }
}

#[test]
fn short_range_scan_docks_when_starbase_adjacent() {
    let mut galaxy = Galaxy::new(42);
    *galaxy.sector_map_mut() = SectorMap::new();
    let sector = SectorPosition { x: 4, y: 4 };
    let quadrant = galaxy.enterprise().quadrant();
    galaxy.enterprise_mut().move_to(quadrant, sector);
    galaxy.sector_map_mut().set(sector, SectorContent::Enterprise);
    let base = SectorPosition { x: 5, y: 4 };
    galaxy.sector_map_mut().set(base, SectorContent::Starbase);
    galaxy.sector_map_mut().starbase = Some(base);
    galaxy.enterprise_mut().set_energy(100);
    galaxy.enterprise_mut().set_shields(70);
    galaxy.enterprise_mut().set_torpedoes(1);

    let view = short_range_scan(&mut galaxy).unwrap();
    assert!(view.docked);
    assert_eq!(galaxy.enterprise().energy(), INITIAL_ENERGY);
    assert_eq!(galaxy.enterprise().shields(), INITIAL_SHIELDS);
    assert_eq!(galaxy.enterprise().torpedoes(), INITIAL_TORPEDOES);
    assert_eq!(view.condition, Condition::Docked);
}

// ========== Library-computer direction and distance ==========

#[test]
fn direction_calculation_east() {
    let source = SectorPosition { x: 4, y: 4 };
    let target = SectorPosition { x: 7, y: 4 };
    let (direction, _distance) = calculate_direction_and_distance(source, target);
    assert_eq!(direction, 1000, "east should be course 1");
}

#[test]
fn direction_calculation_north() {
    let source = SectorPosition { x: 4, y: 4 };
    let target = SectorPosition { x: 4, y: 1 };
    let (direction, _distance) = calculate_direction_and_distance(source, target);
    assert_eq!(direction, 3000, "north should be course 3");
}

#[test]
fn direction_calculation_west() {
    let source = SectorPosition { x: 4, y: 4 };
    let target = SectorPosition { x: 1, y: 4 };
    let (direction, _distance) = calculate_direction_and_distance(source, target);
    assert_eq!(direction, 5000, "west should be course 5");
}

#[test]
fn direction_calculation_south() {
    let source = SectorPosition { x: 4, y: 4 };
    let target = SectorPosition { x: 4, y: 7 };
    let (direction, _distance) = calculate_direction_and_distance(source, target);
    assert_eq!(direction, 7000, "south should be course 7");
}

#[test]
fn distance_calculation_horizontal() {
    // 3 units east
    let source = SectorPosition { x: 2, y: 5 };
    let target = SectorPosition { x: 5, y: 5 };
    let (_direction, distance) = calculate_direction_and_distance(source, target);
    assert_eq!(distance, 3000, "distance should be 3");
}

#[test]
fn distance_calculation_diagonal() {
    // 3 units east, 4 units south -> distance = 5 (3-4-5 triangle)
    let source = SectorPosition { x: 2, y: 2 };
    let target = SectorPosition { x: 5, y: 6 };
    let (_direction, distance) = calculate_direction_and_distance(source, target);
    assert_eq!(distance, 5000, "distance should be 5");
}

// ========== Course and warp factor wrappers ==========

#[test]
fn course_valid_range() {
    assert!(Course::new(1000).is_ok());
    assert!(Course::new(5500).is_ok());
    assert!(Course::new(8999).is_ok());
}

#[test]
fn course_invalid_range() {
    assert!(Course::new(0).is_err());
    assert!(Course::new(500).is_err());
    assert!(Course::new(9000).is_err());
    assert!(Course::new(9100).is_err());
    assert!(Course::new(10000).is_err());
}

#[test]
fn warp_valid_range() {
    assert!(WarpFactor::new(0).is_ok());
    assert!(WarpFactor::new(4500).is_ok());
    assert!(WarpFactor::new(8000).is_ok());
}

#[test]
fn warp_invalid_range() {
    assert!(WarpFactor::new(-100).is_err());
    assert!(WarpFactor::new(8100).is_err());
    assert!(WarpFactor::new(10000).is_err());
}

#[test]
fn warp_subwarp_check() {
    let sub = WarpFactor::new(500).unwrap();
    let full = WarpFactor::new(2000).unwrap();

    assert!(sub.is_subwarp());
    assert!(!sub.is_warp());

    assert!(!full.is_subwarp());
    assert!(full.is_warp());
}

#[test]
fn warp_units_is_chebyshev_distance() {
    let a = SectorPosition { x: 2, y: 3 };
    let b = SectorPosition { x: 5, y: 1 };
    assert_eq!(warp_units(a, b), 3);
    assert_eq!(warp_units(b, a), 3);
    assert_eq!(warp_units(a, a), 0);
}

// ========== Galaxy-level shield control ==========

#[test]
fn galaxy_shield_control_conserves_and_reports() {
    let mut galaxy = Galaxy::new(42);
    let total = galaxy.enterprise().energy() + galaxy.enterprise().shields();

    assert!(startrek::combat::shield_control(&mut galaxy, 500).is_ok());
    assert_eq!(galaxy.enterprise().shields(), 500);
    assert_eq!(galaxy.enterprise().energy() + galaxy.enterprise().shields(), total);

    assert_eq!(
        startrek::combat::shield_control(&mut galaxy, 0),
        Err(GameError::InvalidInput)
    );
    assert_eq!(
        startrek::combat::shield_control(&mut galaxy, total + 1),
        Err(GameError::InsufficientResources { required: total + 1, available: total })
    );

    galaxy.enterprise_mut().damage_device(Device::ShieldControl, 2);
    assert_eq!(
        startrek::combat::shield_control(&mut galaxy, 100),
        Err(GameError::DeviceDamaged(Device::ShieldControl))
    );
}
