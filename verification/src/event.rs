//! Events that change the state of structures, and the trait of their consumers.

use vstd::prelude::*;

use crate::common::{GameTimer, Lane, Team};
use crate::ecs::structures::turret::TurretIndex;
use crate::wave::Wave;

verus! {

/// Something that happens to a structure or a lane.
#[allow(inconsistent_fields)]
#[derive(Debug, Clone, Copy)]
pub enum Event {
    Turret(TurretIndex, TurretEvent),
    Inhibitor { team: Team, lane: Lane, event: InhibitorEvent },
    Wave { team: Team, lane: Lane, event: WaveEvent },
}

/// What can happen to a turret.
#[derive(Debug, Clone, Copy, PartialEq, Eq, Structural)]
pub enum TurretEvent {
    Fall,
    TakePlate,
}

/// What can happen to an inhibitor: it falls at a given time.
#[derive(Debug, Clone, Copy, PartialEq, Eq, Structural)]
pub enum InhibitorEvent {
    Fall(GameTimer),
}

/// What can happen in a lane: a wave spawns.
#[derive(Debug, Clone, Copy)]
pub enum WaveEvent {
    Spawn(Wave),
}

/// A part of the game that follows the clock and reacts to events of type `T`.
pub trait EventConsumer<T = Event> {
    /// Brings the state to the time `timer`.
    fn on_timer_consume(&mut self, timer: GameTimer);

    /// Reacts to `event`; by default nothing changes.
    fn on_event(&mut self, _event: T) {
    }
}

} // verus!
