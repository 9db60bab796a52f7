//! The game-outcome state machine: evaluates victory and defeat from the
//! galaxy state after each action, and stays terminal once it leaves
//! Playing.

use vstd::prelude::*;

use crate::constants::RESOURCE_LIMIT;
use crate::galaxy::Galaxy;

verus! {

#[derive(Debug, Clone, Copy, PartialEq, Eq, Structural)]
pub enum DefeatReason {
    ShipDestroyed,
    TimeExpired,
    DeadInSpace,
}

#[derive(Debug, Clone, Copy, PartialEq, Eq, Structural)]
pub enum GameState {
    Playing,
    Victory { rating: i32 },
    Defeat { reason: DefeatReason },
}

/// Core game engine that manages game state and victory/defeat conditions.
#[derive(Debug)]
pub struct GameEngine {
    pub galaxy: Galaxy,
    pub state: GameState,
}

impl GameEngine {
    /// The state the machine moves to on the next evaluation, in priority
    /// order: a terminal state persists unchanged; no Klingons left is
    /// victory with the efficiency rating; shields below zero is
    /// destruction; a stardate past the deadline is time expiry.
    pub open spec fn spec_next_state(self) -> GameState {
        if self.state != GameState::Playing {
            self.state
        } else if self.galaxy.total_klingons == 0 {
            GameState::Victory { rating: self.galaxy.spec_efficiency_rating() as i32 }
        } else if self.galaxy.enterprise.shields < 0 {
            GameState::Defeat { reason: DefeatReason::ShipDestroyed }
        } else if self.galaxy.stardate > self.galaxy.starting_stardate
            + self.galaxy.mission_duration {
            GameState::Defeat { reason: DefeatReason::TimeExpired }
        } else {
            GameState::Playing
        }
    }

    /// Creates a new game engine with a procedurally generated galaxy,
    /// in the Playing state.
    pub fn new(seed: u64) -> (r: GameEngine)
        ensures
            r.galaxy.wf(),
            r.state == GameState::Playing,
            r.galaxy.total_klingons > 0,
            r.galaxy.total_starbases > 0,
            r.galaxy.initial_klingons == r.galaxy.total_klingons,
            r.galaxy.stardate == r.galaxy.starting_stardate,
    {
        GameEngine { galaxy: Galaxy::new(seed), state: GameState::Playing }
    }

    /// Returns an immutable reference to the galaxy.
    pub fn galaxy(&self) -> (r: &Galaxy)
        ensures
            r == self.galaxy,
    {
        &self.galaxy
    }

    /// Returns a mutable reference to the galaxy.
    pub fn galaxy_mut(&mut self) -> (r: &mut Galaxy)
        ensures
            *r == old(self).galaxy,
            *final(self) == (GameEngine { galaxy: *final(r), ..*old(self) }),
    {
        &mut self.galaxy
    }

    /// Returns the current game state.
    pub fn state(&self) -> (r: &GameState)
        ensures
            r == self.state,
    {
        &self.state
    }

    /// Checks for game-over conditions and updates the game state.
    /// Returns the terminal state when the game has ended, None while it
    /// is still in progress.  Once terminal, repeated evaluations return
    /// the same state unchanged.
    pub fn check_game_over(&mut self) -> (r: Option<GameState>)
        requires
            -RESOURCE_LIMIT <= old(self).galaxy.stardate <= RESOURCE_LIMIT,
            -RESOURCE_LIMIT <= old(self).galaxy.starting_stardate <= RESOURCE_LIMIT,
            0 <= old(self).galaxy.mission_duration <= RESOURCE_LIMIT,
            0 <= old(self).galaxy.initial_klingons,
        ensures
            final(self).galaxy == old(self).galaxy,
            final(self).state == old(self).spec_next_state(),
            r == if old(self).spec_next_state() == GameState::Playing {
                None::<GameState>
            } else {
                Some(old(self).spec_next_state())
            },
            old(self).state != GameState::Playing ==> final(self).state == old(self).state && r
                == Some(old(self).state),
    {
        if !matches!(self.state, GameState::Playing) {
            return Some(self.state);
        }

        // Victory: all Klingons destroyed.
        if self.galaxy.all_klingons_destroyed() {
            let rating = self.galaxy.efficiency_rating();
            self.state = GameState::Victory { rating };
            return Some(self.state);
        }

        // Defeat: ship destroyed (shields below zero).
        if self.galaxy.enterprise.shields < 0 {
            self.state = GameState::Defeat { reason: DefeatReason::ShipDestroyed };
            return Some(self.state);
        }

        // Defeat: time expired.
        if self.galaxy.is_time_expired() {
            self.state = GameState::Defeat { reason: DefeatReason::TimeExpired };
            return Some(self.state);
        }

        None
    }
}

} // verus!
