use startrek::constants::{Device, INITIAL_ENERGY, INITIAL_SHIELDS, INITIAL_TORPEDOES};
use startrek::enterprise::{Enterprise, ShieldControlError};
use startrek::position::{QuadrantPosition, SectorPosition};

/// Helper: create an Enterprise with reduced resources at a given sector.
fn enterprise_at(sector: SectorPosition) -> Enterprise {
    let mut e = Enterprise::new(QuadrantPosition { x: 1, y: 1 }, sector);
    e.set_energy(1000);
    e.set_shields(500);
    e.set_torpedoes(3);
    e
}

#[test]
fn docking_when_adjacent_horizontally() {
    let mut e = enterprise_at(SectorPosition { x: 4, y: 4 });
    let starbase = Some(SectorPosition { x: 5, y: 4 });

    assert!(e.check_docking(starbase));
    assert_eq!(e.energy(), INITIAL_ENERGY);
    assert_eq!(e.torpedoes(), INITIAL_TORPEDOES);
    assert_eq!(e.shields(), INITIAL_SHIELDS);
}

#[test]
fn docking_when_adjacent_diagonally() {
    let mut e = enterprise_at(SectorPosition { x: 3, y: 3 });
    let starbase = Some(SectorPosition { x: 4, y: 4 });

    assert!(e.check_docking(starbase));
}

#[test]
fn no_docking_when_too_far() {
    let mut e = enterprise_at(SectorPosition { x: 1, y: 1 });
    let starbase = Some(SectorPosition { x: 4, y: 4 });

    assert!(!e.check_docking(starbase));
    assert_eq!(e.energy(), 1000);
    assert_eq!(e.torpedoes(), 3);
}

#[test]
fn no_docking_when_no_starbase() {
    let mut e = enterprise_at(SectorPosition { x: 4, y: 4 });

    assert!(!e.check_docking(None));
}

#[test]
fn docking_when_distance_exactly_one() {
    let base = SectorPosition { x: 4, y: 4 };
    let adjacent_positions = [
        SectorPosition { x: 3, y: 3 },
        SectorPosition { x: 4, y: 3 },
        SectorPosition { x: 5, y: 3 },
        SectorPosition { x: 3, y: 4 },
        SectorPosition { x: 5, y: 4 },
        SectorPosition { x: 3, y: 5 },
        SectorPosition { x: 4, y: 5 },
        SectorPosition { x: 5, y: 5 },
    ];
    for pos in &adjacent_positions {
        let mut e = enterprise_at(*pos);
        assert!(
            e.check_docking(Some(base)),
            "should dock at ({}, {}) next to base at (4, 4)",
            pos.x,
            pos.y
        );
    }
}

// Shield Control Tests

#[test]
fn shield_control_transfers_energy_to_shields() {
    let mut e = enterprise_at(SectorPosition { x: 1, y: 1 });
    // Initial: energy = 1000, shields = 500
    let initial_total = e.energy() + e.shields();  // 1500

    // Transfer 300 more to shields (total shields = 800)
    let result = e.shield_control(800);

    assert!(result.is_ok());
    assert_eq!(e.shields(), 800);
    assert_eq!(e.energy(), 700);
    assert_eq!(e.energy() + e.shields(), initial_total);  // Total conserved
}

#[test]
fn shield_control_transfers_shields_to_energy() {
    let mut e = enterprise_at(SectorPosition { x: 1, y: 1 });
    // Initial: energy = 1000, shields = 500

    // Transfer shields back to energy (reduce shields to 100)
    let result = e.shield_control(100);

    assert!(result.is_ok());
    assert_eq!(e.shields(), 100);
    assert_eq!(e.energy(), 1400);
}

#[test]
fn shield_control_blocked_when_system_damaged() {
    let mut e = enterprise_at(SectorPosition { x: 1, y: 1 });
    e.damage_device(Device::ShieldControl, 2);

    let result = e.shield_control(600);

    assert_eq!(result, Err(ShieldControlError::SystemDamaged));
    // Energy and shields unchanged
    assert_eq!(e.energy(), 1000);
    assert_eq!(e.shields(), 500);
}

#[test]
fn shield_control_rejects_zero_input() {
    let mut e = enterprise_at(SectorPosition { x: 1, y: 1 });

    let result = e.shield_control(0);

    assert_eq!(result, Err(ShieldControlError::InvalidInput));
    // Energy and shields unchanged
    assert_eq!(e.energy(), 1000);
    assert_eq!(e.shields(), 500);
}

#[test]
fn shield_control_rejects_negative_input() {
    let mut e = enterprise_at(SectorPosition { x: 1, y: 1 });

    let result = e.shield_control(-100);

    assert_eq!(result, Err(ShieldControlError::InvalidInput));
    // Energy and shields unchanged
    assert_eq!(e.energy(), 1000);
    assert_eq!(e.shields(), 500);
}

#[test]
fn shield_control_rejects_insufficient_energy() {
    let mut e = enterprise_at(SectorPosition { x: 1, y: 1 });
    // Total available: 1000 + 500 = 1500

    let result = e.shield_control(2000);

    assert_eq!(result, Err(ShieldControlError::InsufficientEnergy));
    // Energy and shields unchanged
    assert_eq!(e.energy(), 1000);
    assert_eq!(e.shields(), 500);
}

#[test]
fn shield_control_can_use_all_energy_for_shields() {
    let mut e = enterprise_at(SectorPosition { x: 1, y: 1 });
    let total = e.energy() + e.shields();  // 1500

    // Put all energy into shields
    let result = e.shield_control(total);

    assert!(result.is_ok());
    assert_eq!(e.shields(), total);
    assert_eq!(e.energy(), 0);
}

#[test]
fn shield_control_can_remove_all_shields() {
    let mut e = enterprise_at(SectorPosition { x: 1, y: 1 });
    e.set_shields(1000);
    e.set_energy(500);

    // Minimum valid input is one unit
    let result = e.shield_control(1);

    assert!(result.is_ok());
    assert_eq!(e.shields(), 1);
    assert_eq!(e.energy(), 1499);
}

#[test]
fn shield_control_exact_boundary_at_total_energy() {
    let mut e = enterprise_at(SectorPosition { x: 1, y: 1 });
    e.set_shields(800);
    e.set_energy(200);

    // Exactly at the boundary (should succeed)
    let result = e.shield_control(1000);

    assert!(result.is_ok());
    assert_eq!(e.shields(), 1000);
    assert_eq!(e.energy(), 0);

    // Just above the boundary (should fail)
    let result = e.shield_control(1001);
    assert_eq!(result, Err(ShieldControlError::InsufficientEnergy));
}

#[test]
fn shield_control_preserves_total_energy() {
    let mut e = enterprise_at(SectorPosition { x: 1, y: 1 });
    e.set_energy(2000);
    e.set_shields(300);
    let initial_total = 2300;

    // Multiple transfers
    let _ = e.shield_control(1000);
    assert_eq!(e.energy() + e.shields(), initial_total);

    let _ = e.shield_control(500);
    assert_eq!(e.energy() + e.shields(), initial_total);

    let _ = e.shield_control(2000);
    assert_eq!(e.energy() + e.shields(), initial_total);
}

#[test]
fn device_damage_clamps_and_accumulates() {
    let mut e = enterprise_at(SectorPosition { x: 1, y: 1 });
    e.damage_device(Device::Computer, 4);
    assert_eq!(e.devices()[Device::Computer.index()], -4);
    assert!(e.is_damaged(Device::Computer));
    e.repair_device(Device::Computer, 1);
    assert_eq!(e.devices()[Device::Computer.index()], -3);
    e.repair_device(Device::Computer, 3);
    assert!(!e.is_damaged(Device::Computer));
}

#[test]
fn consume_energy_rejects_when_short() {
    let mut e = enterprise_at(SectorPosition { x: 1, y: 1 });
    assert!(e.consume_energy(1500).is_err());
    assert_eq!(e.energy(), 1000);
    assert!(e.consume_energy(400).is_ok());
    assert_eq!(e.energy(), 600);
}

#[test]
fn consume_torpedo_counts_down_to_zero() {
    let mut e = enterprise_at(SectorPosition { x: 1, y: 1 });
    assert!(e.consume_torpedo().is_ok());
    assert!(e.consume_torpedo().is_ok());
    assert!(e.consume_torpedo().is_ok());
    assert_eq!(e.torpedoes(), 0);
    assert!(e.consume_torpedo().is_err());
}
