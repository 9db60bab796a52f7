use startrek::constants::SectorContent;
use startrek::events::GameError;
use startrek::galaxy::Galaxy;
use startrek::navigation::{NavOutcome, calculate_direction, calculate_quadrant_crossing, navigate};
use startrek::position::{QuadrantPosition, SectorPosition};
use startrek::sector_map::SectorMap;

// --- Direction vector tests (milli-units) ---

#[test]
fn direction_integer_courses() {
    let cases = [
        (1000, (1000, 0)),     // east
        (2000, (1000, -1000)), // northeast
        (3000, (0, -1000)),    // north
        (4000, (-1000, -1000)),// northwest
        (5000, (-1000, 0)),    // west
        (6000, (-1000, 1000)), // southwest
        (7000, (0, 1000)),     // south
        (8000, (1000, 1000)),  // southeast
    ];
    for (course, (expected_dx, expected_dy)) in &cases {
        let (dx, dy) = calculate_direction(*course);
        assert_eq!(
            (dx, dy),
            (*expected_dx, *expected_dy),
            "course {} expected ({}, {}), got ({}, {})",
            course,
            expected_dx,
            expected_dy,
            dx,
            dy,
        );
    }
}

#[test]
fn direction_fractional_interpolation() {
    // Course 1.5: midpoint between course 1 (1,0) and course 2 (1,-1) -> (1.0, -0.5)
    let (dx, dy) = calculate_direction(1500);
    assert_eq!(dx, 1000);
    assert_eq!(dy, -500);

    // Course 4.5: midpoint between course 4 (-1,-1) and course 5 (-1,0) -> (-1.0, -0.5)
    let (dx, dy) = calculate_direction(4500);
    assert_eq!(dx, -1000);
    assert_eq!(dy, -500);
}

// --- Quadrant crossing tests ---

#[test]
fn quadrant_crossing_basic_east() {
    // Quadrant (1,1), sector (8,4), moving east (dx=1, dy=0), 8 steps
    let (quad, sect) = calculate_quadrant_crossing(1, 1, 8, 4, 1000, 0, 8);
    assert_eq!(quad.x, 2, "should move to quadrant 2");
    assert_eq!(quad.y, 1, "y quadrant unchanged");
    assert_eq!(sect.x, 8);
}

#[test]
fn quadrant_crossing_galaxy_edge_west() {
    // Quadrant (1,4), sector (1,4), moving west (dx=-1, dy=0), 8 steps
    let (quad, _sect) = calculate_quadrant_crossing(1, 4, 1, 4, -1000, 0, 8);
    assert_eq!(quad.x, 1, "should clamp to galaxy edge");
}

#[test]
fn quadrant_crossing_galaxy_edge_north() {
    // Quadrant (4,1), sector (4,1), moving north (dx=0, dy=-1), 8 steps
    let (quad, _sect) = calculate_quadrant_crossing(4, 1, 4, 1, 0, -1000, 8);
    assert_eq!(quad.y, 1, "should clamp to galaxy edge");
}

#[test]
fn quadrant_crossing_galaxy_edge_east() {
    // Quadrant (8,4), sector (8,4), moving east (dx=1, dy=0), 8 steps
    let (quad, _sect) = calculate_quadrant_crossing(8, 4, 8, 4, 1000, 0, 8);
    assert_eq!(quad.x, 8, "should clamp to galaxy edge");
}

#[test]
fn quadrant_crossing_galaxy_edge_south() {
    // Quadrant (4,8), sector (4,8), moving south (dx=0, dy=1), 8 steps
    let (quad, _sect) = calculate_quadrant_crossing(4, 8, 4, 8, 0, 1000, 8);
    assert_eq!(quad.y, 8, "should clamp to galaxy edge");
}

#[test]
fn quadrant_crossing_sector_zero_correction() {
    // Quadrant (2,2), sector (8,8), moving east 8 steps:
    // abs_x = 2*8 + 8 + 1*8 = 32, new_quad_x = floor(32/8) = 4
    // new_sect_x = floor(32 - 4*8 + 0.5) = floor(0.5) = 0
    // Correction: quad_x = 3, sect_x = 8
    let (quad, sect) = calculate_quadrant_crossing(2, 2, 8, 8, 1000, 0, 8);
    assert_eq!(quad.x, 3);
    assert_eq!(sect.x, 8);
}

// --- Helper ---

/// Place the Enterprise at a specific position, clearing the sector map
/// around it for clean test setup.
fn place_enterprise_for_test(
    galaxy: &mut Galaxy,
    quad_x: i32,
    quad_y: i32,
    sect_x: i32,
    sect_y: i32,
) {
    let quadrant = QuadrantPosition { x: quad_x, y: quad_y };
    let sector = SectorPosition { x: sect_x, y: sect_y };
    galaxy.enterprise_mut().move_to(quadrant, sector);

    // Clear the sector map and place Enterprise
    *galaxy.sector_map_mut() = SectorMap::new();
    galaxy.sector_map_mut().set(sector, SectorContent::Enterprise);
}

// --- Energy cost tests ---

#[test]
fn energy_cost_warp_1() {
    let mut galaxy = Galaxy::new(42);
    let initial_energy = galaxy.enterprise().energy();
    place_enterprise_for_test(&mut galaxy, 4, 4, 4, 4);

    // Warp 1.0 -> n=8, cost = 8-5 = 3
    let r = navigate(&mut galaxy, 3000, 1000);
    assert!(r.is_ok());
    assert_eq!(galaxy.enterprise().energy(), initial_energy - 3);
}

#[test]
fn energy_cost_warp_half_gains_energy() {
    let mut galaxy = Galaxy::new(42);
    let initial_energy = galaxy.enterprise().energy();
    place_enterprise_for_test(&mut galaxy, 4, 4, 4, 4);

    // Warp 0.5 -> n=4, cost = 4-5 = -1 -> gains 1 energy
    let r = navigate(&mut galaxy, 3000, 500);
    assert!(r.is_ok());
    assert_eq!(galaxy.enterprise().energy(), initial_energy + 1);
}

#[test]
fn energy_cost_warp_8() {
    let mut galaxy = Galaxy::new(42);
    let initial_energy = galaxy.enterprise().energy();
    place_enterprise_for_test(&mut galaxy, 4, 4, 4, 4);

    // Warp 8.0 -> n=64, cost = 64-5 = 59
    // Will cross a boundary, but the energy cost still applies
    let r = navigate(&mut galaxy, 3000, 8000);
    assert!(r.is_ok());
    assert_eq!(galaxy.enterprise().energy(), initial_energy - 59);
}

// --- Time advancement tests ---

#[test]
fn time_advances_at_warp_1() {
    let mut galaxy = Galaxy::new(42);
    let initial_stardate = galaxy.stardate();
    place_enterprise_for_test(&mut galaxy, 4, 4, 1, 4);

    // Course 1 (east), warp 1.0 — crosses the quadrant boundary
    let r = navigate(&mut galaxy, 1000, 1000);
    assert!(r.is_ok());
    assert!(
        galaxy.stardate() > initial_stardate,
        "stardate should advance at warp >= 1.0",
    );
}

#[test]
fn time_unchanged_sub_warp_no_crossing() {
    let mut galaxy = Galaxy::new(42);
    let initial_stardate = galaxy.stardate();
    place_enterprise_for_test(&mut galaxy, 4, 4, 4, 4);

    // Course 3 (north), warp 0.25 -> n=2 steps, stays in quadrant
    let r = navigate(&mut galaxy, 3000, 250);
    assert!(r.is_ok());
    assert_eq!(galaxy.stardate(), initial_stardate);
}

// --- Intra-quadrant movement tests ---

#[test]
fn move_east_within_quadrant() {
    let mut galaxy = Galaxy::new(42);
    place_enterprise_for_test(&mut galaxy, 4, 4, 2, 4);

    // Course 1 (east), warp 0.25 -> n=2 steps
    let r = navigate(&mut galaxy, 1000, 250);
    assert!(r.is_ok());
    assert_eq!(galaxy.enterprise().sector().x, 4);
    assert_eq!(galaxy.enterprise().sector().y, 4);
}

#[test]
fn move_north_within_quadrant() {
    let mut galaxy = Galaxy::new(42);
    place_enterprise_for_test(&mut galaxy, 4, 4, 4, 6);

    // Course 3 (north, dy=-1), warp 0.375 -> n=3 steps
    let r = navigate(&mut galaxy, 3000, 375);
    assert!(r.is_ok());
    assert_eq!(galaxy.enterprise().sector().x, 4);
    assert_eq!(galaxy.enterprise().sector().y, 3);
}

#[test]
fn move_south_within_quadrant() {
    let mut galaxy = Galaxy::new(42);
    place_enterprise_for_test(&mut galaxy, 4, 4, 4, 2);

    // Course 7 (south, dy=+1), warp 0.25 -> n=2 steps
    let r = navigate(&mut galaxy, 7000, 250);
    assert!(r.is_ok());
    assert_eq!(galaxy.enterprise().sector().x, 4);
    assert_eq!(galaxy.enterprise().sector().y, 4);
}

// --- Collision detection test ---

#[test]
fn collision_stops_before_occupied_sector() {
    let mut galaxy = Galaxy::new(42);
    place_enterprise_for_test(&mut galaxy, 4, 4, 1, 4);

    // Place a star at sector (4, 4)
    galaxy.sector_map_mut().set(SectorPosition { x: 4, y: 4 }, SectorContent::Star);

    // Course 1 (east), warp 0.5 -> n=4 steps from sector (1,4)
    // Should stop at (3,4) — one before the star
    let r = navigate(&mut galaxy, 1000, 500);
    assert!(r.is_ok());
    assert_eq!(galaxy.enterprise().sector().x, 3);
    assert_eq!(galaxy.enterprise().sector().y, 4);
}

// --- Quadrant boundary crossing integration test ---

#[test]
fn crosses_quadrant_boundary_east() {
    let mut galaxy = Galaxy::new(42);
    place_enterprise_for_test(&mut galaxy, 4, 4, 7, 4);

    let initial_quad_x = galaxy.enterprise().quadrant().x;

    // Course 1 (east), warp 0.5 -> n=4 steps from sector 7
    let r = navigate(&mut galaxy, 1000, 500);
    assert!(r.is_ok());

    // Should have crossed into a new quadrant
    assert_ne!(
        galaxy.enterprise().quadrant().x,
        initial_quad_x,
        "should have crossed to a new quadrant"
    );
}

// --- Validation tests ---

#[test]
fn navigate_rejects_bad_course_and_warp() {
    let mut galaxy = Galaxy::new(42);
    assert_eq!(navigate(&mut galaxy, 9000, 1000), Err(GameError::InvalidInput));
    assert_eq!(navigate(&mut galaxy, 500, 1000), Err(GameError::InvalidInput));
    assert_eq!(navigate(&mut galaxy, 1000, 8001), Err(GameError::InvalidInput));
    assert_eq!(navigate(&mut galaxy, 1000, -1), Err(GameError::InvalidInput));
}

#[test]
fn navigate_caps_warp_with_damaged_engines() {
    let mut galaxy = Galaxy::new(42);
    place_enterprise_for_test(&mut galaxy, 4, 4, 4, 4);
    galaxy
        .enterprise_mut()
        .damage_device(startrek::constants::Device::WarpEngines, 3);

    let r = navigate(&mut galaxy, 1000, 1000);
    assert_eq!(
        r,
        Err(GameError::DeviceDamaged(startrek::constants::Device::WarpEngines))
    );

    // Warp 0.2 is still accepted.
    let r = navigate(&mut galaxy, 1000, 200);
    assert!(r.is_ok());
}

#[test]
fn navigate_refuses_move_without_energy_but_with_shields() {
    let mut galaxy = Galaxy::new(42);
    place_enterprise_for_test(&mut galaxy, 4, 4, 4, 4);
    galaxy.enterprise_mut().set_energy(0);
    galaxy.enterprise_mut().set_shields(50);

    let (_, outcome) = navigate(&mut galaxy, 1000, 1000).unwrap();
    assert_eq!(outcome, NavOutcome::InsufficientEnergy);
    assert_eq!(galaxy.enterprise().sector().x, 4);
    assert_eq!(galaxy.enterprise().energy(), 0);
}

/// Scenario: no energy, no shields, and no live raider in the quadrant:
/// the stranded contingency resolves to survival, not destruction.
#[test]
fn dead_in_space_survives_without_raiders() {
    let mut galaxy = Galaxy::new(42);
    place_enterprise_for_test(&mut galaxy, 4, 4, 4, 4);
    galaxy.enterprise_mut().set_energy(0);
    galaxy.enterprise_mut().set_shields(0);
    let stardate_before = galaxy.stardate();

    let (_, outcome) = navigate(&mut galaxy, 1000, 1000).unwrap();
    assert_eq!(outcome, NavOutcome::DeadInSpaceSurvived);
    assert_eq!(galaxy.enterprise().energy(), 0);
    assert_eq!(galaxy.enterprise().shields(), 0);
    assert_eq!(galaxy.stardate(), stardate_before);
}

#[test]
fn warp_zero_moves_nothing() {
    let mut galaxy = Galaxy::new(42);
    place_enterprise_for_test(&mut galaxy, 4, 4, 4, 4);
    let energy_before = galaxy.enterprise().energy();
    let stardate_before = galaxy.stardate();

    let (events, outcome) = navigate(&mut galaxy, 1000, 0).unwrap();
    assert_eq!(outcome, NavOutcome::Moved);
    assert!(events.is_empty());
    assert_eq!(galaxy.enterprise().sector(), SectorPosition { x: 4, y: 4 });
    assert_eq!(galaxy.enterprise().energy(), energy_before);
    assert_eq!(galaxy.stardate(), stardate_before);
}

#[test]
fn dead_in_space_destroyed_with_raiders() {
    let mut galaxy = Galaxy::new(42);
    place_enterprise_for_test(&mut galaxy, 4, 4, 4, 4);
    let kpos = SectorPosition { x: 4, y: 5 };
    galaxy.sector_map_mut().set(kpos, SectorContent::Klingon);
    galaxy
        .sector_map_mut()
        .klingons
        .push(startrek::klingon::Klingon::new(kpos));
    galaxy.enterprise_mut().set_energy(0);
    galaxy.enterprise_mut().set_shields(0);

    let (_, outcome) = navigate(&mut galaxy, 1000, 1000).unwrap();
    // Counter-fire resolves first; either it already destroys the ship, or
    // the stranded contingency does. Survival needs an empty quadrant.
    assert!(
        outcome == NavOutcome::ShipDestroyed || outcome == NavOutcome::DeadInSpaceDestroyed
    );
    assert!(galaxy.enterprise().shields() < 0);
}

#[test]
fn devices_auto_repair_on_move() {
    let mut galaxy = Galaxy::new(42);
    place_enterprise_for_test(&mut galaxy, 4, 4, 4, 4);
    let device = startrek::constants::Device::Computer;
    galaxy.enterprise_mut().damage_device(device, 5);
    let before = galaxy.enterprise().devices()[device.index()];

    // A short move triggers the per-move repair of one unit; the random
    // event may also touch one device by at most five units.
    let r = navigate(&mut galaxy, 1000, 250);
    assert!(r.is_ok());
    let after = galaxy.enterprise().devices()[device.index()];
    assert!(after >= before + 1 - 5);
    assert!(after <= before + 1 + 5);
}
