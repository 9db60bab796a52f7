use startrek::constants::{
    Condition, GALAXY_SIZE, INITIAL_ENERGY, INITIAL_SHIELDS, INITIAL_TORPEDOES, MISSION_DURATION,
    SECTOR_SIZE, SectorContent,
};
use startrek::galaxy::Galaxy;
use startrek::generation::{record_from_draws, starting_stardate_from_draw};
use startrek::klingon::Klingon;
use startrek::position::SectorPosition;
use startrek::sector_map::SectorMap;

#[test]
fn new_galaxy_has_positive_klingons_and_starbases() {
    let galaxy = Galaxy::new(0);
    assert!(galaxy.total_klingons() > 0, "must have at least one Klingon");
    assert!(galaxy.total_starbases() > 0, "must have at least one starbase");
}

#[test]
fn initial_klingons_equals_total_klingons() {
    let galaxy = Galaxy::new(42);
    assert_eq!(galaxy.initial_klingons(), galaxy.total_klingons());
}

#[test]
fn stardate_is_multiple_of_100() {
    for seed in 0..20 {
        let galaxy = Galaxy::new(seed);
        assert_eq!(
            galaxy.stardate() % 100,
            0,
            "seed {}: stardate {} should be a multiple of 100",
            seed,
            galaxy.stardate()
        );
    }
}

#[test]
fn stardate_in_valid_range() {
    for seed in 0..20 {
        let galaxy = Galaxy::new(seed);
        assert!(
            galaxy.stardate() >= 2000 && galaxy.stardate() <= 3900,
            "seed {}: stardate {} out of range [2000, 3900]",
            seed,
            galaxy.stardate()
        );
    }
}

#[test]
fn mission_duration_is_30() {
    let galaxy = Galaxy::new(0);
    assert_eq!(galaxy.mission_duration(), MISSION_DURATION);
}

#[test]
fn enterprise_position_in_valid_range() {
    for seed in 0..20 {
        let galaxy = Galaxy::new(seed);
        let q = galaxy.enterprise().quadrant();
        let s = galaxy.enterprise().sector();
        assert!(q.x >= 1 && q.x <= 8, "quadrant x out of range");
        assert!(q.y >= 1 && q.y <= 8, "quadrant y out of range");
        assert!(s.x >= 1 && s.x <= 8, "sector x out of range");
        assert!(s.y >= 1 && s.y <= 8, "sector y out of range");
    }
}

#[test]
fn enterprise_starts_with_full_resources() {
    let galaxy = Galaxy::new(0);
    assert_eq!(galaxy.enterprise().energy(), INITIAL_ENERGY);
    assert_eq!(galaxy.enterprise().torpedoes(), INITIAL_TORPEDOES);
    assert_eq!(galaxy.enterprise().shields(), INITIAL_SHIELDS);
}

#[test]
fn quadrant_klingon_counts_sum_to_total() {
    let galaxy = Galaxy::new(42);
    let mut sum = 0;
    for i in 0..64 {
        let k = galaxy.quadrants()[i].klingons;
        assert!(k >= 0 && k <= 3, "klingon count out of [0,3]");
        sum += k;
    }
    assert_eq!(sum, galaxy.total_klingons());
}

#[test]
fn quadrant_starbase_counts_sum_to_total() {
    let galaxy = Galaxy::new(42);
    let mut sum = 0;
    for i in 0..64 {
        let b = galaxy.quadrants()[i].starbases;
        assert!(b == 0 || b == 1, "starbase count not 0 or 1");
        sum += b;
    }
    assert_eq!(sum, galaxy.total_starbases());
}

#[test]
fn stars_in_valid_range() {
    let galaxy = Galaxy::new(42);
    for i in 0..64 {
        let s = galaxy.quadrants()[i].stars;
        assert!(s >= 1 && s <= 8, "stars {} out of range [1,8]", s);
    }
}

#[test]
fn computer_memory_starts_unscanned_except_starting_quadrant() {
    let galaxy = Galaxy::new(0);
    let qx = galaxy.enterprise().quadrant().x;
    let qy = galaxy.enterprise().quadrant().y;
    let start = ((qy - 1) * 8 + (qx - 1)) as usize;
    for i in 0..64 {
        if i == start {
            // Starting quadrant should be recorded
            let expected = galaxy.quadrants()[i];
            assert_eq!(galaxy.computer_memory()[i], Some(expected));
        } else {
            // All other quadrants should be unscanned
            assert_eq!(galaxy.computer_memory()[i], None);
        }
    }
}

#[test]
fn sector_map_has_enterprise_after_init() {
    let galaxy = Galaxy::new(42);
    let content = galaxy.sector_map().get(galaxy.enterprise().sector());
    assert_eq!(content, SectorContent::Enterprise);
}

#[test]
fn sector_map_entity_counts_match_quadrant_data() {
    let galaxy = Galaxy::new(42);
    let q = galaxy.enterprise().quadrant();
    let qdata = galaxy.quadrants()[((q.y - 1) * 8 + (q.x - 1)) as usize];

    assert_eq!(
        galaxy.sector_map().klingons.len() as i32,
        qdata.klingons,
        "klingon count mismatch"
    );

    if qdata.starbases > 0 {
        assert!(galaxy.sector_map().starbase.is_some());
    } else {
        assert!(galaxy.sector_map().starbase.is_none());
    }

    // Count stars in the sector map
    let mut star_count = 0;
    for y in 1..=8 {
        for x in 1..=8 {
            if galaxy.sector_map().get(SectorPosition { x, y }) == SectorContent::Star {
                star_count += 1;
            }
        }
    }
    assert_eq!(star_count, qdata.stars, "star count mismatch");
}

#[test]
fn deterministic_with_same_seed() {
    let g1 = Galaxy::new(123);
    let g2 = Galaxy::new(123);
    assert_eq!(g1.stardate(), g2.stardate());
    assert_eq!(g1.total_klingons(), g2.total_klingons());
    assert_eq!(g1.total_starbases(), g2.total_starbases());
    assert_eq!(g1.enterprise().quadrant(), g2.enterprise().quadrant());
    assert_eq!(g1.enterprise().sector(), g2.enterprise().sector());
}

#[test]
fn mod_different_seeds_produce_different_galaxies() {
    let g1 = Galaxy::new(1);
    let g2 = Galaxy::new(2);
    // At least one of these should differ
    let same = g1.stardate() == g2.stardate()
        && g1.total_klingons() == g2.total_klingons()
        && g1.enterprise().quadrant() == g2.enterprise().quadrant();
    assert!(!same, "different seeds should produce different state");
}

// ========== Condition evaluation tests ==========

#[test]
fn condition_green_no_klingons_full_energy() {
    let mut galaxy = Galaxy::new(42);
    *galaxy.sector_map_mut() = SectorMap::new();
    let sector = SectorPosition { x: 4, y: 4 };
    let quadrant = galaxy.enterprise().quadrant();
    galaxy.enterprise_mut().move_to(quadrant, sector);
    galaxy.sector_map_mut().set(sector, SectorContent::Enterprise);
    galaxy.enterprise_mut().set_energy(INITIAL_ENERGY);

    assert_eq!(galaxy.evaluate_condition(), Condition::Green);
}

#[test]
fn condition_yellow_low_energy() {
    let mut galaxy = Galaxy::new(42);
    *galaxy.sector_map_mut() = SectorMap::new();
    let sector = SectorPosition { x: 4, y: 4 };
    let quadrant = galaxy.enterprise().quadrant();
    galaxy.enterprise_mut().move_to(quadrant, sector);
    galaxy.sector_map_mut().set(sector, SectorContent::Enterprise);
    galaxy.enterprise_mut().set_energy(150);  // below 10% of the initial reserve

    assert_eq!(galaxy.evaluate_condition(), Condition::Yellow);
}

#[test]
fn condition_red_klingons_present() {
    let mut galaxy = Galaxy::new(42);
    *galaxy.sector_map_mut() = SectorMap::new();
    let sector = SectorPosition { x: 4, y: 4 };
    let quadrant = galaxy.enterprise().quadrant();
    galaxy.enterprise_mut().move_to(quadrant, sector);
    galaxy.sector_map_mut().set(sector, SectorContent::Enterprise);
    // Add a Klingon
    let kpos = SectorPosition { x: 1, y: 1 };
    galaxy.sector_map_mut().set(kpos, SectorContent::Klingon);
    galaxy.sector_map_mut().klingons.push(Klingon::new(kpos));

    assert_eq!(galaxy.evaluate_condition(), Condition::Red);
}

/// Helper: set up a galaxy with a starbase at a known position.
fn setup_galaxy_with_starbase(
    enterprise_sector: SectorPosition,
    starbase_sector: SectorPosition,
) -> Galaxy {
    let mut galaxy = Galaxy::new(42);
    *galaxy.sector_map_mut() = SectorMap::new();
    let quadrant = galaxy.enterprise().quadrant();
    galaxy.enterprise_mut().move_to(quadrant, enterprise_sector);
    galaxy.sector_map_mut().set(enterprise_sector, SectorContent::Enterprise);
    galaxy.sector_map_mut().set(starbase_sector, SectorContent::Starbase);
    galaxy.sector_map_mut().starbase = Some(starbase_sector);
    galaxy
}

#[test]
fn condition_docked_adjacent_to_starbase() {
    let enterprise = SectorPosition { x: 4, y: 4 };
    let starbase = SectorPosition { x: 5, y: 4 };
    let galaxy = setup_galaxy_with_starbase(enterprise, starbase);

    assert_eq!(galaxy.evaluate_condition(), Condition::Docked);
}

#[test]
fn render_row_shows_enterprise_symbol() {
    let galaxy = Galaxy::new(42);
    let ey = galaxy.enterprise().sector().y;
    let row = galaxy.sector_map().render_row(ey);
    assert!(
        row.contains("<*>"),
        "row {} should contain Enterprise symbol <*>, got: {}",
        ey,
        row
    );
}

#[test]
fn render_row_length_is_24_chars() {
    let galaxy = Galaxy::new(42);
    for y in 1..=SECTOR_SIZE as i32 {
        let row = galaxy.sector_map().render_row(y);
        assert_eq!(
            row.len(),
            SECTOR_SIZE * 3,
            "row {} should be {} chars, got {}",
            y,
            SECTOR_SIZE * 3,
            row.len()
        );
    }
}

// ========== Game over condition tests ==========

#[test]
fn all_klingons_destroyed_when_no_klingons() {
    let mut galaxy = Galaxy::new(42);
    galaxy.set_total_klingons(0);
    assert!(galaxy.all_klingons_destroyed());
}

#[test]
fn not_all_klingons_destroyed_when_klingons_remain() {
    let galaxy = Galaxy::new(42);
    assert!(!galaxy.all_klingons_destroyed());
    assert!(galaxy.total_klingons() > 0);
}

#[test]
fn efficiency_rating_calculation() {
    let mut galaxy = Galaxy::new(42);
    galaxy.set_initial_klingons(15);
    galaxy.set_stardate(2010);
    galaxy.set_starting_stardate(2000);
    // (15 / 10) * 1000 = 1500
    assert_eq!(galaxy.efficiency_rating(), 1500);
}

#[test]
fn efficiency_rating_truncates_to_integer() {
    let mut galaxy = Galaxy::new(42);
    galaxy.set_initial_klingons(17);
    galaxy.set_stardate(2007);
    galaxy.set_starting_stardate(2000);
    // (17 / 7) * 1000 = 2428.571... truncated to 2428
    assert_eq!(galaxy.efficiency_rating(), 2428);
}

#[test]
fn decrement_quadrant_klingons_updates_count() {
    let mut galaxy = Galaxy::new(42);
    let q = galaxy.enterprise().quadrant();
    let qi = ((q.y - 1) * 8 + (q.x - 1)) as usize;
    let initial_count = galaxy.quadrants()[qi].klingons;

    galaxy.decrement_quadrant_klingons();

    let new_count = galaxy.quadrants()[qi].klingons;
    assert_eq!(new_count, initial_count - 1);
}

#[test]
fn record_from_draws_matches_thresholds() {
    // Klingon thresholds: top 2% give three, next 3% two, next 15% one.
    assert_eq!(record_from_draws(99, 0, 0).klingons, 3);
    assert_eq!(record_from_draws(98, 0, 0).klingons, 3);
    assert_eq!(record_from_draws(97, 0, 0).klingons, 2);
    assert_eq!(record_from_draws(95, 0, 0).klingons, 2);
    assert_eq!(record_from_draws(94, 0, 0).klingons, 1);
    assert_eq!(record_from_draws(80, 0, 0).klingons, 1);
    assert_eq!(record_from_draws(79, 0, 0).klingons, 0);
    assert_eq!(record_from_draws(0, 0, 0).klingons, 0);
    // Starbase on the top 4% of its draw.
    assert_eq!(record_from_draws(0, 96, 0).starbases, 1);
    assert_eq!(record_from_draws(0, 95, 0).starbases, 0);
    // Stars: draw + 1, in 1..=8.
    assert_eq!(record_from_draws(0, 0, 0).stars, 1);
    assert_eq!(record_from_draws(0, 0, 7).stars, 8);
}

#[test]
fn starting_stardate_matches_draw() {
    assert_eq!(starting_stardate_from_draw(0), 2000);
    assert_eq!(starting_stardate_from_draw(7), 2700);
    assert_eq!(starting_stardate_from_draw(19), 3900);
}

#[test]
fn new_galaxy_devices_all_operational() {
    let galaxy = Galaxy::new(42);
    for i in 0..8 {
        assert_eq!(galaxy.enterprise().devices()[i], 0);
    }
}

#[test]
fn galaxy_grid_is_eight_by_eight() {
    let galaxy = Galaxy::new(7);
    assert_eq!(galaxy.quadrants().len(), GALAXY_SIZE * GALAXY_SIZE);
    assert_eq!(galaxy.computer_memory().len(), GALAXY_SIZE * GALAXY_SIZE);
    assert_eq!(galaxy.sector_map().grid.len(), SECTOR_SIZE * SECTOR_SIZE);
}
