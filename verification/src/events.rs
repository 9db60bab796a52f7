//! Typed reports of what an action did, and typed failures.
//!
//! The engine performs no I/O: every observable occurrence worth
//! reporting (hits, destructions, torpedo tracking, warp shutdowns) is
//! returned as a `GameEvent`, with the computed values the report must
//! carry; the presentation layer turns them into text.

use vstd::prelude::*;

use crate::constants::Device;
use crate::position::SectorPosition;

verus! {

/// Typed failures of the player actions.
#[derive(Debug, Clone, Copy, PartialEq, Eq, Structural)]
pub enum GameError {
    /// Out-of-domain numeric input (course, warp factor, energy amount).
    InvalidInput,
    /// The subsystem the action needs is damaged.
    DeviceDamaged(Device),
    /// Energy or torpedoes below the requirement.
    InsufficientResources { required: i64, available: i64 },
    /// No live Klingon in this quadrant to fire at.
    NoEnemies,
}

/// One observable occurrence during an action, with the values the report
/// of it must carry.
#[derive(Debug, Clone, Copy, PartialEq, Eq, Structural)]
pub enum GameEvent {
    /// A phaser hit of `hit` units on the Klingon at `sector`, leaving it
    /// `remaining` shield units.
    KlingonHit { sector: SectorPosition, hit: i64, remaining: i64 },
    /// The Klingon at `sector` was destroyed.
    KlingonDestroyed { sector: SectorPosition },
    /// Counter-fire of `hit` units from the Klingon at `sector`, leaving
    /// the ship `shields_left` shield units.
    EnterpriseHit { sector: SectorPosition, hit: i64, shields_left: i64 },
    /// A starbase adjacent to the ship absorbed all counter-fire.
    StarbaseProtects,
    /// The torpedo passed through the sector at (`x`, `y`).
    TorpedoTrack { x: i32, y: i32 },
    /// The torpedo left the quadrant without hitting anything.
    TorpedoMissed,
    /// The torpedo was absorbed by a star.
    StarAbsorbsTorpedo,
    /// The starbase at `sector` was destroyed by a torpedo.
    StarbaseDestroyed { sector: SectorPosition },
    /// Warp engines shut down at `sector`: the next step was blocked.
    NavigationBlocked { sector: SectorPosition },
    /// A random event improved the state of repair of `device`.
    DeviceRepaired { device: Device },
    /// A random event damaged `device`.
    DeviceDamagedBy { device: Device },
    /// Entering a combat area with dangerously low shields.
    LowShieldsWarning,
}

/// Total of the counter-fire hits among `s`.
pub open spec fn sum_enterprise_hits(s: Seq<GameEvent>) -> int
    decreases s.len(),
{
    if s.len() == 0 {
        0
    } else {
        sum_enterprise_hits(s.drop_last()) + match s.last() {
            GameEvent::EnterpriseHit { hit, .. } => hit as int,
            _ => 0,
        }
    }
}

/// Appending an event adds its hit (if it is a counter-fire hit) to the
/// total.
pub proof fn lemma_sum_hits_push(s: Seq<GameEvent>, e: GameEvent)
    ensures
        sum_enterprise_hits(s.push(e)) == sum_enterprise_hits(s) + match e {
            GameEvent::EnterpriseHit { hit, .. } => hit as int,
            _ => 0,
        },
{
    assert(s.push(e).drop_last() =~= s);
}

/// Whatever a report already contains, it still contains after more
/// events are appended.
pub proof fn lemma_contains_append<T>(s: Seq<T>, t: Seq<T>, x: T)
    requires
        s.contains(x),
    ensures
        (s + t).contains(x),
{
    let i = choose|i: int| 0 <= i < s.len() && s[i] == x;
    assert((s + t)[i] == x);
}

} // verus!
