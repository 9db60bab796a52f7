//! The player's starship: position, resources and device damage.

use vstd::prelude::*;

use crate::constants::{
    Device, INITIAL_ENERGY, INITIAL_SHIELDS, INITIAL_TORPEDOES, NUM_DEVICES, RESOURCE_LIMIT,
};
use crate::position::{QuadrantPosition, SectorPosition};

verus! {

/// Result of clamping a lowered quantity at the representable floor.
pub open spec fn sat_low(v: int) -> int {
    if v < -RESOURCE_LIMIT {
        -RESOURCE_LIMIT
    } else {
        v
    }
}

/// Result of clamping a raised quantity at the representable ceiling.
pub open spec fn sat_high(v: int, cap: int) -> int {
    if v > cap {
        cap
    } else {
        v
    }
}

/// Errors that can occur during shield control operations.
#[derive(Debug, Clone, Copy, PartialEq, Eq, Structural)]
pub enum ShieldControlError {
    /// Shield control system is damaged
    SystemDamaged,
    /// Requested shield value is invalid (not positive)
    InvalidInput,
    /// Not enough total energy available
    InsufficientEnergy,
}

/// The player's starship.
#[derive(Debug)]
pub struct Enterprise {
    pub quadrant: QuadrantPosition,
    pub sector: SectorPosition,
    pub energy: i64,
    pub torpedoes: i32,
    pub shields: i64,
    /// Damage state for each of the 8 devices.
    /// 0 = operational, negative = damaged, positive = improved.
    pub devices: Vec<i64>,
}

impl Enterprise {
    /// Energy and shields are individually above the representable floor and
    /// their sum is below the representable ceiling, so transfers between
    /// them and additions of hits never overflow.
    pub open spec fn wf_resources(self) -> bool {
        &&& -RESOURCE_LIMIT <= self.energy
        &&& -RESOURCE_LIMIT <= self.shields
        &&& self.energy + self.shields <= RESOURCE_LIMIT
    }

    /// Structural well-formedness of the ship.
    pub open spec fn wf(self) -> bool {
        &&& self.quadrant.wf()
        &&& self.sector.wf()
        &&& self.wf_resources()
        &&& 0 <= self.torpedoes
        &&& self.devices@.len() == NUM_DEVICES
        &&& forall|i: int|
            0 <= i < NUM_DEVICES ==> -RESOURCE_LIMIT <= #[trigger] self.devices@[i]
                <= RESOURCE_LIMIT
    }

    /// Damage entry of one device.
    pub open spec fn device_state(self, device: Device) -> i64 {
        self.devices@[device.spec_index() as int]
    }

    /// A device is damaged exactly while its damage entry is negative.
    pub open spec fn spec_is_damaged(self, device: Device) -> bool {
        self.device_state(device) < 0
    }

    /// A fresh ship at the given position with full starting resources and
    /// all devices operational.
    pub fn new(quadrant: QuadrantPosition, sector: SectorPosition) -> (r: Enterprise)
        ensures
            r.quadrant == quadrant,
            r.sector == sector,
            r.energy == INITIAL_ENERGY,
            r.torpedoes == INITIAL_TORPEDOES,
            r.shields == INITIAL_SHIELDS,
            r.devices@ =~= Seq::new(NUM_DEVICES as nat, |i: int| 0i64),
            quadrant.wf() && sector.wf() ==> r.wf(),
    {
        let mut devices: Vec<i64> = Vec::new();
        let mut i: usize = 0;
        while i < NUM_DEVICES
            invariant
                i <= NUM_DEVICES,
                devices@.len() == i,
                forall|j: int| 0 <= j < i ==> devices@[j] == 0i64,
            decreases NUM_DEVICES - i,
        {
            devices.push(0);
            i = i + 1;
        }
        Enterprise {
            quadrant,
            sector,
            energy: INITIAL_ENERGY,
            torpedoes: INITIAL_TORPEDOES,
            shields: INITIAL_SHIELDS,
            devices,
        }
    }

    // Getters
    pub fn quadrant(&self) -> (r: QuadrantPosition)
        ensures
            r == self.quadrant,
    {
        self.quadrant
    }

    pub fn sector(&self) -> (r: SectorPosition)
        ensures
            r == self.sector,
    {
        self.sector
    }

    pub fn energy(&self) -> (r: i64)
        ensures
            r == self.energy,
    {
        self.energy
    }

    pub fn shields(&self) -> (r: i64)
        ensures
            r == self.shields,
    {
        self.shields
    }

    pub fn torpedoes(&self) -> (r: i32)
        ensures
            r == self.torpedoes,
    {
        self.torpedoes
    }

    pub fn devices(&self) -> (r: &Vec<i64>)
        ensures
            r@ == self.devices@,
    {
        &self.devices
    }

    /// Deduct `amount` from the main energy reserve, failing without any
    /// change when the reserve is smaller than `amount`.
    pub fn consume_energy(&mut self, amount: i64) -> (r: Result<(), &'static str>)
        requires
            0 <= amount,
        ensures
            old(self).energy >= amount ==> r is Ok && final(self).energy == old(self).energy
                - amount,
            old(self).energy < amount ==> r is Err && final(self).energy == old(self).energy,
            *final(self) == (Enterprise { energy: final(self).energy, ..*old(self) }),
    {
        if self.energy >= amount {
            self.energy = self.energy - amount;
            Ok(())
        } else {
            Err("Insufficient energy")
        }
    }

    /// Relocate the ship.
    pub fn move_to(&mut self, quadrant: QuadrantPosition, sector: SectorPosition)
        ensures
            *final(self) == (Enterprise { quadrant, sector, ..*old(self) }),
    {
        self.quadrant = quadrant;
        self.sector = sector;
    }

    pub fn set_shields(&mut self, value: i64)
        requires
            -RESOURCE_LIMIT <= value,
            old(self).energy + value <= RESOURCE_LIMIT,
        ensures
            *final(self) == (Enterprise { shields: value, ..*old(self) }),
    {
        self.shields = value;
    }

    /// Expend one torpedo, failing without any change when none are left.
    pub fn consume_torpedo(&mut self) -> (r: Result<(), &'static str>)
        ensures
            old(self).torpedoes > 0 ==> r is Ok && final(self).torpedoes == old(self).torpedoes
                - 1,
            old(self).torpedoes <= 0 ==> r is Err && final(self).torpedoes == old(
                self,
            ).torpedoes,
            *final(self) == (Enterprise { torpedoes: final(self).torpedoes, ..*old(self) }),
    {
        if self.torpedoes > 0 {
            self.torpedoes = self.torpedoes - 1;
            Ok(())
        } else {
            Err("No torpedoes remaining")
        }
    }

    /// Worsen a device's damage entry by `amount`, clamped at the
    /// representable floor.
    pub fn damage_device(&mut self, device: Device, amount: i64)
        requires
            0 <= amount <= RESOURCE_LIMIT,
            old(self).devices@.len() == NUM_DEVICES,
            -RESOURCE_LIMIT <= old(self).device_state(device),
        ensures
            final(self).devices@ == old(self).devices@.update(
                device.spec_index() as int,
                sat_low(old(self).device_state(device) - amount) as i64,
            ),
            *final(self) == (Enterprise { devices: final(self).devices, ..*old(self) }),
    {
        let i = device.index();
        let d = self.devices[i];
        let v: i64 = if d - amount < -RESOURCE_LIMIT {
            -RESOURCE_LIMIT
        } else {
            d - amount
        };
        self.devices.set(i, v);
    }

    /// Improve a device's damage entry by `amount`, clamped at the
    /// representable ceiling.
    pub fn repair_device(&mut self, device: Device, amount: i64)
        requires
            0 <= amount <= RESOURCE_LIMIT,
            old(self).devices@.len() == NUM_DEVICES,
            old(self).device_state(device) <= RESOURCE_LIMIT,
        ensures
            final(self).devices@ == old(self).devices@.update(
                device.spec_index() as int,
                sat_high(old(self).device_state(device) + amount, RESOURCE_LIMIT as int) as i64,
            ),
            *final(self) == (Enterprise { devices: final(self).devices, ..*old(self) }),
    {
        let i = device.index();
        let d = self.devices[i];
        let v: i64 = if d + amount > RESOURCE_LIMIT {
            RESOURCE_LIMIT
        } else {
            d + amount
        };
        self.devices.set(i, v);
    }

    pub fn set_energy(&mut self, value: i64)
        requires
            -RESOURCE_LIMIT <= value,
            value + old(self).shields <= RESOURCE_LIMIT,
        ensures
            *final(self) == (Enterprise { energy: value, ..*old(self) }),
    {
        self.energy = value;
    }

    pub fn set_torpedoes(&mut self, value: i32)
        requires
            0 <= value,
        ensures
            *final(self) == (Enterprise { torpedoes: value, ..*old(self) }),
    {
        self.torpedoes = value;
    }

    /// Raise the main energy reserve by `amount`; the sum of energy and
    /// shields is clamped at the representable ceiling.
    pub fn add_energy(&mut self, amount: i64)
        requires
            0 <= amount <= RESOURCE_LIMIT,
            old(self).wf_resources(),
        ensures
            final(self).energy == sat_high(
                old(self).energy + amount,
                RESOURCE_LIMIT - old(self).shields,
            ),
            *final(self) == (Enterprise { energy: final(self).energy, ..*old(self) }),
            final(self).wf_resources(),
    {
        let v: i64 = if self.energy + amount + self.shields > RESOURCE_LIMIT {
            RESOURCE_LIMIT - self.shields
        } else {
            self.energy + amount
        };
        self.energy = v;
    }

    /// Lower the main energy reserve by `amount`, clamped at the
    /// representable floor.
    pub fn subtract_energy(&mut self, amount: i64)
        requires
            0 <= amount <= RESOURCE_LIMIT,
            old(self).wf_resources(),
        ensures
            final(self).energy == sat_low(old(self).energy - amount),
            *final(self) == (Enterprise { energy: final(self).energy, ..*old(self) }),
            final(self).wf_resources(),
    {
        let v: i64 = if self.energy - amount < -RESOURCE_LIMIT {
            -RESOURCE_LIMIT
        } else {
            self.energy - amount
        };
        self.energy = v;
    }

    /// Lower the shield pool by `amount`, clamped at the representable
    /// floor.  Shields may go negative: that is the destruction signal read
    /// by the game-outcome state machine.
    pub fn subtract_shields(&mut self, amount: i64)
        requires
            0 <= amount <= RESOURCE_LIMIT,
            old(self).wf_resources(),
        ensures
            final(self).shields == sat_low(old(self).shields - amount),
            *final(self) == (Enterprise { shields: final(self).shields, ..*old(self) }),
            final(self).wf_resources(),
    {
        let v: i64 = if self.shields - amount < -RESOURCE_LIMIT {
            -RESOURCE_LIMIT
        } else {
            self.shields - amount
        };
        self.shields = v;
    }

    /// A device is damaged exactly while its damage entry is negative.
    pub fn is_damaged(&self, device: Device) -> (r: bool)
        requires
            self.devices@.len() == NUM_DEVICES,
        ensures
            r == self.spec_is_damaged(device),
    {
        self.devices[device.index()] < 0
    }

    /// Reset ship resources when docking at a starbase.
    pub fn dock(&mut self)
        ensures
            *final(self) == (Enterprise {
                energy: INITIAL_ENERGY,
                torpedoes: INITIAL_TORPEDOES,
                shields: INITIAL_SHIELDS,
                ..*old(self)
            }),
    {
        self.energy = INITIAL_ENERGY;
        self.torpedoes = INITIAL_TORPEDOES;
        self.shields = INITIAL_SHIELDS;
    }

    /// Chebyshev adjacency of the ship's sector to `starbase`.
    pub open spec fn spec_adjacent_to_starbase(self, starbase: Option<SectorPosition>) -> bool {
        match starbase {
            Some(base) => -1 <= self.sector.x - base.x <= 1 && -1 <= self.sector.y - base.y <= 1,
            None => false,
        }
    }

    /// Check if the Enterprise is adjacent to (or at) a starbase.
    pub fn is_adjacent_to_starbase(&self, starbase: Option<SectorPosition>) -> (r: bool)
        requires
            self.sector.wf(),
            starbase is Some ==> starbase->0.wf(),
        ensures
            r == self.spec_adjacent_to_starbase(starbase),
    {
        if let Some(base) = starbase {
            let dx = self.sector.x - base.x;
            let dy = self.sector.y - base.y;
            -1 <= dx && dx <= 1 && -1 <= dy && dy <= 1
        } else {
            false
        }
    }

    /// Check if the Enterprise is adjacent to a starbase and dock if so.
    /// Returns true if docked.
    pub fn check_docking(&mut self, starbase: Option<SectorPosition>) -> (r: bool)
        requires
            old(self).sector.wf(),
            starbase is Some ==> starbase->0.wf(),
        ensures
            r == old(self).spec_adjacent_to_starbase(starbase),
            r ==> *final(self) == (Enterprise {
                energy: INITIAL_ENERGY,
                torpedoes: INITIAL_TORPEDOES,
                shields: INITIAL_SHIELDS,
                ..*old(self)
            }),
            !r ==> *final(self) == *old(self),
    {
        if self.is_adjacent_to_starbase(starbase) {
            self.dock();
            true
        } else {
            false
        }
    }

    /// Shield control: set the shield pool to `new_shield_value`, drawing
    /// the difference from (or returning it to) the main energy reserve.
    /// A successful transfer preserves the sum of energy and shields
    /// exactly.
    pub fn shield_control(&mut self, new_shield_value: i64) -> (r: Result<
        (),
        ShieldControlError,
    >)
        requires
            old(self).wf_resources(),
            old(self).devices@.len() == NUM_DEVICES,
        ensures
            final(self).wf_resources(),
            old(self).spec_is_damaged(Device::ShieldControl) <==> r == Err::<
                (),
                ShieldControlError,
            >(ShieldControlError::SystemDamaged),
            r == Err::<(), ShieldControlError>(ShieldControlError::InvalidInput) <==> (!old(
                self,
            ).spec_is_damaged(Device::ShieldControl) && new_shield_value <= 0),
            r == Err::<(), ShieldControlError>(ShieldControlError::InsufficientEnergy) <==> (!old(
                self,
            ).spec_is_damaged(Device::ShieldControl) && new_shield_value > 0 && new_shield_value
                > old(self).energy + old(self).shields),
            r is Err ==> *final(self) == *old(self),
            r is Ok ==> {
                &&& final(self).shields == new_shield_value
                &&& final(self).energy == old(self).energy + old(self).shields - new_shield_value
                &&& final(self).energy + final(self).shields == old(self).energy + old(
                    self,
                ).shields
                &&& *final(self) == (Enterprise {
                    energy: final(self).energy,
                    shields: final(self).shields,
                    ..*old(self)
                })
            },
    {
        if self.is_damaged(Device::ShieldControl) {
            return Err(ShieldControlError::SystemDamaged);
        }
        if new_shield_value <= 0 {
            return Err(ShieldControlError::InvalidInput);
        }
        let total_available = self.energy + self.shields;
        if new_shield_value > total_available {
            return Err(ShieldControlError::InsufficientEnergy);
        }
        self.energy = total_available - new_shield_value;
        self.shields = new_shield_value;
        Ok(())
    }
}

} // verus!
