//! A small self-contained starship model with bounded shields.

use vstd::prelude::*;

verus! {

/// Represents a starship in the game
#[derive(Debug, Clone)]
pub struct Starship {
    pub name: String,
    pub energy: u32,
    pub shields: u32,
}

impl Starship {
    /// Creates a new starship with default values
    pub fn new(name: String) -> (r: Starship)
        ensures
            r.name@ == name@,
            r.energy == 100,
            r.shields == 100,
    {
        Starship { name, energy: 100, shields: 100 }
    }

    /// Fires torpedoes, consuming 10 units of energy; fails without any
    /// change when less than that is left.
    pub fn fire_torpedoes(&mut self) -> (r: Result<(), String>)
        ensures
            old(self).energy >= 10 ==> r is Ok && final(self).energy == old(self).energy - 10,
            old(self).energy < 10 ==> r is Err && final(self).energy == old(self).energy,
            final(self).shields == old(self).shields,
            final(self).name == old(self).name,
    {
        if self.energy >= 10 {
            self.energy = self.energy - 10;
            Ok(())
        } else {
            Err(String::from_str("Not enough energy to fire torpedoes"))
        }
    }

    /// Recharges shields using energy: `amount` units of energy become
    /// shield units, and the shields top out at 100.  Fails without any
    /// change when the energy reserve is below `amount`.
    pub fn recharge_shields(&mut self, amount: u32) -> (r: Result<(), String>)
        ensures
            old(self).energy >= amount ==> {
                &&& r is Ok
                &&& final(self).energy == old(self).energy - amount
                &&& final(self).shields == if old(self).shields + amount > 100 {
                    100int
                } else {
                    old(self).shields + amount
                }
            },
            old(self).energy < amount ==> r is Err && final(self).energy == old(self).energy
                && final(self).shields == old(self).shields,
            final(self).name == old(self).name,
    {
        if self.energy >= amount {
            self.energy = self.energy - amount;
            let topped: u64 = self.shields as u64 + amount as u64;
            let new_shields: u32 = if topped > 100 {
                100
            } else {
                topped as u32
            };
            self.shields = new_shields;
            Ok(())
        } else {
            Err(String::from_str("Not enough energy to recharge shields"))
        }
    }
}

} // verus!
