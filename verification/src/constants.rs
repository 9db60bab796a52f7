//! Game-wide constants, the device roster, sector contents and the ship's
//! alert condition.

use vstd::prelude::*;

verus! {

/// Galaxy and sector grids are both 8 x 8.
pub const GALAXY_SIZE: usize = 8;
pub const SECTOR_SIZE: usize = 8;
pub const MAX_KLINGONS_PER_QUADRANT: usize = 3;

/// Starting resources of the ship.
pub const INITIAL_ENERGY: i64 = 3000;
pub const INITIAL_TORPEDOES: i32 = 10;
pub const INITIAL_SHIELDS: i64 = 0;
/// Shield pool a Klingon starts with when a quadrant is entered.
pub const KLINGON_INITIAL_SHIELDS: i64 = 200;
/// Mission deadline: stardates allowed past the starting stardate.
pub const MISSION_DURATION: i64 = 30;

pub const NUM_DEVICES: usize = 8;

/// One whole unit in the milli-unit fixed-point scale used for courses,
/// warp factors, distances and random scaling factors.
pub const MILLI: i64 = 1000;

/// Cap on the magnitude of every energy-like quantity the engine stores.
/// All mutations clamp at this bound, so additions of any two stored
/// quantities stay far away from `i64` overflow.
pub const RESOURCE_LIMIT: i64 = 0x1000_0000_0000_0000;

/// Cap on a single Klingon's shield pool; half of `RESOURCE_LIMIT`, so a
/// counter-fire hit (at most twice the shield pool) still fits under
/// `RESOURCE_LIMIT`.
pub const KLINGON_SHIELD_LIMIT: i64 = 0x800_0000_0000_0000;

/// The eight damageable ship subsystems.
#[derive(Debug, Clone, Copy, PartialEq, Eq, Structural)]
pub enum Device {
    WarpEngines,
    ShortRangeSensors,
    LongRangeSensors,
    PhaserControl,
    PhotonTubes,
    DamageControl,
    ShieldControl,
    Computer,
}

impl Device {
    /// Index of this device in the ship's damage vector.
    pub open spec fn spec_index(self) -> usize {
        match self {
            Device::WarpEngines => 0,
            Device::ShortRangeSensors => 1,
            Device::LongRangeSensors => 2,
            Device::PhaserControl => 3,
            Device::PhotonTubes => 4,
            Device::DamageControl => 5,
            Device::ShieldControl => 6,
            Device::Computer => 7,
        }
    }

    /// Index of this device in the ship's damage vector.
    #[verifier::when_used_as_spec(spec_index)]
    pub fn index(self) -> (r: usize)
        ensures
            r == self.spec_index(),
            r < NUM_DEVICES,
    {
        match self {
            Device::WarpEngines => 0,
            Device::ShortRangeSensors => 1,
            Device::LongRangeSensors => 2,
            Device::PhaserControl => 3,
            Device::PhotonTubes => 4,
            Device::DamageControl => 5,
            Device::ShieldControl => 6,
            Device::Computer => 7,
        }
    }

    /// The device numbered `i` in the damage vector.
    pub fn from_index(i: usize) -> (r: Device)
        requires
            i < NUM_DEVICES,
        ensures
            r.spec_index() == i,
    {
        if i == 0 {
            Device::WarpEngines
        } else if i == 1 {
            Device::ShortRangeSensors
        } else if i == 2 {
            Device::LongRangeSensors
        } else if i == 3 {
            Device::PhaserControl
        } else if i == 4 {
            Device::PhotonTubes
        } else if i == 5 {
            Device::DamageControl
        } else if i == 6 {
            Device::ShieldControl
        } else {
            Device::Computer
        }
    }

    /// Display name of the device.
    pub open spec fn spec_name(self) -> Seq<char> {
        match self {
            Device::WarpEngines => "WARP ENGINES"@,
            Device::ShortRangeSensors => "S.R. SENSORS"@,
            Device::LongRangeSensors => "L.R. SENSORS"@,
            Device::PhaserControl => "PHASER CNTRL"@,
            Device::PhotonTubes => "PHOTON TUBES"@,
            Device::DamageControl => "DAMAGE CNTRL"@,
            Device::ShieldControl => "SHIELD CNTRL"@,
            Device::Computer => "COMPUTER"@,
        }
    }

    /// Display name of the device.
    pub fn name(&self) -> (r: &'static str)
        ensures
            r@ == self.spec_name(),
    {
        match self {
            Device::WarpEngines => "WARP ENGINES",
            Device::ShortRangeSensors => "S.R. SENSORS",
            Device::LongRangeSensors => "L.R. SENSORS",
            Device::PhaserControl => "PHASER CNTRL",
            Device::PhotonTubes => "PHOTON TUBES",
            Device::DamageControl => "DAMAGE CNTRL",
            Device::ShieldControl => "SHIELD CNTRL",
            Device::Computer => "COMPUTER",
        }
    }
}

/// What a cell of the current quadrant's sector grid holds.
#[derive(Debug, Clone, Copy, PartialEq, Eq, Structural)]
pub enum SectorContent {
    Empty,
    Enterprise,
    Klingon,
    Starbase,
    Star,
}

impl SectorContent {
    /// The three-character map symbol for this content.
    pub open spec fn spec_symbol(self) -> Seq<char> {
        match self {
            SectorContent::Empty => "   "@,
            SectorContent::Enterprise => "<*>"@,
            SectorContent::Klingon => "+++"@,
            SectorContent::Starbase => ">!<"@,
            SectorContent::Star => " * "@,
        }
    }

    /// The three-character map symbol for this content.
    pub fn symbol(&self) -> (r: &'static str)
        ensures
            r@ == self.spec_symbol(),
            r@.len() == 3,
    {
        proof {
            reveal_strlit("   ");
            reveal_strlit("<*>");
            reveal_strlit("+++");
            reveal_strlit(">!<");
            reveal_strlit(" * ");
        }
        match self {
            SectorContent::Empty => "   ",
            SectorContent::Enterprise => "<*>",
            SectorContent::Klingon => "+++",
            SectorContent::Starbase => ">!<",
            SectorContent::Star => " * ",
        }
    }
}

/// The ship's alert condition, shown by the short-range scan.
#[derive(Debug, Clone, Copy, PartialEq, Eq, Structural)]
pub enum Condition {
    Green,
    Yellow,
    Red,
    Docked,
}

impl Condition {
    /// Display label of the condition.
    pub open spec fn spec_label(self) -> Seq<char> {
        match self {
            Condition::Green => "GREEN"@,
            Condition::Yellow => "YELLOW"@,
            Condition::Red => "RED"@,
            Condition::Docked => "DOCKED"@,
        }
    }

    /// Display label of the condition.
    pub fn label(&self) -> (r: &'static str)
        ensures
            r@ == self.spec_label(),
    {
        match self {
            Condition::Green => "GREEN",
            Condition::Yellow => "YELLOW",
            Condition::Red => "RED",
            Condition::Docked => "DOCKED",
        }
    }
}

} // verus!
