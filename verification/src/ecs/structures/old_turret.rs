//! Turrets as values that follow the clock and react to events.

use vstd::prelude::*;

use crate::common::{GameTimer, Lane, Team};
use crate::event::{EventConsumer, TurretEvent};

pub use crate::ecs::structures::turret::{TurretIndex, TurretKind, TurretState};

verus! {

/// A turret and whether it still stands.
#[derive(Debug, Clone, Copy, PartialEq, Eq, Structural)]
pub struct Turret {
    pub index: TurretIndex,
    state: TurretState,
}

/// The state after `event`: a fallen turret is down, and taking a plate removes one
/// plate from a turret that still has its plates (none below zero).
pub open spec fn spec_after_event(state: TurretState, event: TurretEvent) -> TurretState {
    match event {
        TurretEvent::Fall => TurretState::Down,
        TurretEvent::TakePlate => match state {
            TurretState::UpWithPlates { plates } => TurretState::UpWithPlates {
                plates: if plates > 0 {
                    (plates - 1) as usize
                } else {
                    0
                },
            },
            _ => state,
        },
    }
}

/// The state at time `timer`: turrets lose their plates at fourteen minutes.
pub open spec fn spec_after_timer(state: TurretState, timer: GameTimer) -> TurretState {
    match state {
        TurretState::UpWithPlates { .. } => if timer@ >= 840_000_000_000 {
            TurretState::Up
        } else {
            state
        },
        _ => state,
    }
}

/// A fallen turret stays down: neither an event nor the clock raises it again.
pub proof fn lemma_down_stays_down(event: TurretEvent, timer: GameTimer)
    ensures
        spec_after_event(TurretState::Down, event) == TurretState::Down,
        spec_after_timer(TurretState::Down, timer) == TurretState::Down,
{
}

/// The clock never brings a turret down, and only a fall does: a standing turret
/// still stands after the clock moves or after a plate is taken.
pub proof fn lemma_only_fall_takes_down(state: TurretState, timer: GameTimer)
    requires
        !(state is Down),
    ensures
        !(spec_after_timer(state, timer) is Down),
        !(spec_after_event(state, TurretEvent::TakePlate) is Down),
        spec_after_event(state, TurretEvent::Fall) is Down,
{
}

/// Plates are only ever lost: after an event or a clock step, a turret that still has
/// plates has no more than before, and one without plates never gets them back.
pub proof fn lemma_plates_never_grow(state: TurretState, event: TurretEvent, timer: GameTimer)
    ensures
        match (state, spec_after_event(state, event)) {
            (TurretState::UpWithPlates { plates: before }, TurretState::UpWithPlates { plates: after }) => after <= before,
            (_, TurretState::UpWithPlates { .. }) => false,
            _ => true,
        },
        match (state, spec_after_timer(state, timer)) {
            (TurretState::UpWithPlates { plates: before }, TurretState::UpWithPlates { plates: after }) => after == before,
            (_, TurretState::UpWithPlates { .. }) => false,
            _ => true,
        },
{
}

/// Bringing a turret to a time and then to a later time is the same as bringing it
/// straight to the later time; in particular bringing it twice to one time changes
/// nothing the second time.
pub proof fn lemma_timer_steps_compose(state: TurretState, first: GameTimer, second: GameTimer)
    requires
        first@ <= second@,
    ensures
        spec_after_timer(spec_after_timer(state, first), second) == spec_after_timer(state, second),
        spec_after_timer(spec_after_timer(state, second), second) == spec_after_timer(state, second),
{
}

impl Turret {
    /// The turret's index.
    pub closed spec fn spec_index(&self) -> TurretIndex {
        self.index
    }

    /// The turret's state.
    pub closed spec fn spec_state(&self) -> TurretState {
        self.state
    }

    /// The turret's state.
    pub fn state(&self) -> (r: TurretState)
        ensures
            r == self.spec_state(),
    {
        self.state
    }

    /// The turret's kind.
    pub fn kind(&self) -> (r: TurretKind)
        ensures
            r == self.spec_index().2,
    {
        self.index.2
    }

    /// The turret's team.
    pub fn team(&self) -> (r: Team)
        ensures
            r == self.spec_index().0,
    {
        self.index.0
    }

    /// The outer turret of `team` in `lane`, with its five plates.
    pub fn outer(team: Team, lane: Lane) -> (r: Self)
        ensures
            r.spec_index() == TurretIndex(team, lane, TurretKind::Outer),
            r.spec_state() == (TurretState::UpWithPlates { plates: 5 }),
    {
        Turret {
            index: TurretIndex(team, lane, TurretKind::Outer),
            state: TurretState::UpWithPlates { plates: 5 },
        }
    }

    /// The inner turret of `team` in `lane`, standing.
    pub fn inner(team: Team, lane: Lane) -> (r: Self)
        ensures
            r.spec_index() == TurretIndex(team, lane, TurretKind::Inner),
            r.spec_state() == TurretState::Up,
    {
        Turret { index: TurretIndex(team, lane, TurretKind::Inner), state: TurretState::Up }
    }

    /// The inhibitor turret of `team` in `lane`, standing.
    pub fn inhib(team: Team, lane: Lane) -> (r: Self)
        ensures
            r.spec_index() == TurretIndex(team, lane, TurretKind::Inhib),
            r.spec_state() == TurretState::Up,
    {
        Turret { index: TurretIndex(team, lane, TurretKind::Inhib), state: TurretState::Up }
    }

    /// One of the two nexus turrets of `team`, standing.
    pub fn nexus(team: Team, top: bool) -> (r: Self)
        ensures
            r.spec_index() == TurretIndex(
                team,
                Lane::Nexus,
                if top {
                    TurretKind::NexusTop
                } else {
                    TurretKind::NexusBot
                },
            ),
            r.spec_state() == TurretState::Up,
    {
        Turret {
            index: TurretIndex(
                team,
                Lane::Nexus,
                if top {
                    TurretKind::NexusTop
                } else {
                    TurretKind::NexusBot
                },
            ),
            state: TurretState::Up,
        }
    }

    /// Returns whether the turret still stands.
    pub fn is_up(&self) -> (r: bool)
        ensures
            r == !(self.spec_state() is Down),
    {
        !matches!(self.state, TurretState::Down)
    }
}

impl EventConsumer<TurretEvent> for Turret {
    /// Turrets lose their plates at fourteen minutes.
    fn on_timer_consume(&mut self, timer: GameTimer)
        ensures
            final(self).spec_state() == spec_after_timer(old(self).spec_state(), timer),
            final(self).spec_index() == old(self).spec_index(),
    {
        match self.state {
            TurretState::UpWithPlates { .. } => {
                if GameTimer::minutes_14().le(&timer) {
                    self.state = TurretState::Up;
                }
            },
            _ => {},
        }
    }

    /// A fallen turret goes down; taking a plate removes one.
    fn on_event(&mut self, event: TurretEvent)
        ensures
            final(self).spec_state() == spec_after_event(old(self).spec_state(), event),
            final(self).spec_index() == old(self).spec_index(),
    {
        match event {
            TurretEvent::Fall => self.state = TurretState::Down,
            TurretEvent::TakePlate => match self.state {
                TurretState::UpWithPlates { plates } => {
                    self.state = TurretState::UpWithPlates { plates: plates.saturating_sub(1) }
                },
                _ => {},
            },
        }
    }
}

/// The outer, inner and inhibitor turrets of one lane.
#[derive(Debug, Clone, Copy)]
pub struct LaneTurrets {
    pub turrets: [Turret; 3],
}

impl LaneTurrets {
    /// The three turrets of `team` in `lane`, as at the start of the game.
    pub fn from(team: Team, lane: Lane) -> (r: Self)
        ensures
            r.turrets@[0].spec_index() == TurretIndex(team, lane, TurretKind::Outer),
            r.turrets@[0].spec_state() == (TurretState::UpWithPlates { plates: 5 }),
            r.turrets@[1].spec_index() == TurretIndex(team, lane, TurretKind::Inner),
            r.turrets@[1].spec_state() == TurretState::Up,
            r.turrets@[2].spec_index() == TurretIndex(team, lane, TurretKind::Inhib),
            r.turrets@[2].spec_state() == TurretState::Up,
    {
        LaneTurrets {
            turrets: [Turret::outer(team, lane), Turret::inner(team, lane), Turret::inhib(team, lane)],
        }
    }

    /// The turret of kind `kind`, which must not be a nexus turret: those do not
    /// belong to a lane.
    pub fn index(&self, kind: TurretKind) -> (r: &Turret)
        requires
            !kind.spec_is_nexus(),
        ensures
            *r == self.turrets@[kind.spec_index() as int],
    {
        &self.turrets[kind.index()]
    }

    /// Replaces the turret of kind `kind`, which must not be a nexus turret.
    pub fn set(&mut self, kind: TurretKind, turret: Turret)
        requires
            !kind.spec_is_nexus(),
        ensures
            final(self).turrets@ == old(self).turrets@.update(kind.spec_index() as int, turret),
    {
        self.turrets[kind.index()] = turret;
    }
}

impl EventConsumer for LaneTurrets {
    /// Brings each turret of the lane to the time `timer`.
    fn on_timer_consume(&mut self, timer: GameTimer)
        ensures
            forall|i: int|
                0 <= i < 3 ==> (#[trigger] final(self).turrets@[i]).spec_state() == spec_after_timer(
                    old(self).turrets@[i].spec_state(),
                    timer,
                ) && final(self).turrets@[i].spec_index() == old(self).turrets@[i].spec_index(),
    {
        let mut i: usize = 0;
        while i < 3
            invariant
                0 <= i <= 3,
                forall|j: int|
                    0 <= j < i ==> (#[trigger] self.turrets@[j]).spec_state() == spec_after_timer(
                        old(self).turrets@[j].spec_state(),
                        timer,
                    ) && self.turrets@[j].spec_index() == old(self).turrets@[j].spec_index(),
                forall|j: int| i <= j < 3 ==> #[trigger] self.turrets@[j] == old(self).turrets@[j],
            decreases 3 - i,
        {
            let mut t = self.turrets[i];
            t.on_timer_consume(timer);
            self.turrets[i] = t;
            i = i + 1;
        }
    }
}

} // verus!
