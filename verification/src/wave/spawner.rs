//! The spawner of the waves of one lane.

use vstd::prelude::*;

use crate::common::{GameTimer, Lane, Team};
use crate::ecs::spawners::wave::{lemma_spawn_secs_sound, spec_spawn_secs, timer_to_wave_spawn};
use crate::event::EventConsumer;
use crate::wave::Wave;

verus! {

/// Spawns the waves of one team in one lane, from its current time on.
#[derive(Debug, Clone, Copy, PartialEq, Eq, Structural)]
pub struct WaveSpawner {
    pub(crate) team: Team,
    pub(crate) lane: Lane,
    pub(crate) current_timer: GameTimer,
}

impl WaveSpawner {
    /// Before fifteen minutes, every third wave carries a siege minion.
    pub const CANNON_PRE_15_PERIOD: usize = 3;

    /// Between fifteen and twenty-five minutes, every second wave carries a siege minion.
    pub const CANNON_PRE_25_PERIOD: usize = 2;

    /// The team whose waves are spawned.
    pub closed spec fn spec_team(&self) -> Team {
        self.team
    }

    /// The lane whose waves are spawned.
    pub closed spec fn spec_lane(&self) -> Lane {
        self.lane
    }

    /// The time the spawner has reached.
    pub closed spec fn spec_current_timer(&self) -> GameTimer {
        self.current_timer
    }

    /// A spawner at the time of the first spawn.
    pub fn from_first_spawn(team: Team, lane: Lane) -> (r: WaveSpawner)
        ensures
            r.spec_team() == team,
            r.spec_lane() == lane,
            r.spec_current_timer()@ == 65_000_000_000,
    {
        WaveSpawner { team, lane, current_timer: GameTimer::first_spawn() }
    }

    /// A spawner at the time `current_timer`.
    pub fn from_timer(current_timer: GameTimer, team: Team, lane: Lane) -> (r: WaveSpawner)
        ensures
            r.spec_team() == team,
            r.spec_lane() == lane,
            r.spec_current_timer() == current_timer,
    {
        WaveSpawner { team, lane, current_timer }
    }

    /// The wave spawning at `spawn` with `superm` super minions: three melee and
    /// three ranged minions, and a siege minion when the schedule gives one and the
    /// wave has no super minion.
    pub open spec fn spec_wave(&self, spawn: GameTimer, superm: usize) -> Wave {
        Wave {
            spawn,
            lane: self.spec_lane(),
            team: self.spec_team(),
            melee: 3,
            siege: if Wave::spec_has_siege(spawn) && superm == 0 {
                1
            } else {
                0
            },
            ranged: 3,
            superm,
        }
    }

    /// The waves spawning from the spawner's time up to `to`, each with `superm`
    /// super minions; `to` must not be earlier than the spawner's time.
    pub fn waves(&self, to: &GameTimer, superm: usize) -> (r: Vec<Wave>)
        requires
            self.spec_current_timer()@ <= to@,
        ensures
            r@.len() == spec_spawn_secs(self.spec_current_timer(), *to).len(),
            forall|i: int|
                0 <= i < r@.len() ==> #[trigger] r@[i] == self.spec_wave(r@[i].spawn, superm)
                    && r@[i].spawn.spec_secs() == spec_spawn_secs(self.spec_current_timer(), *to)[i]
                    && r@[i].spawn@ == spec_spawn_secs(self.spec_current_timer(), *to)[i]
                    * 1_000_000_000,
    {
        let spawns = timer_to_wave_spawn(self.current_timer, *to);
        let mut r: Vec<Wave> = Vec::new();
        let mut i: usize = 0;
        while i < spawns.len()
            invariant
                i <= spawns@.len(),
                r@.len() == i,
                spawns@.len() == spec_spawn_secs(self.current_timer, *to).len(),
                forall|j: int|
                    0 <= j < spawns@.len() ==> (#[trigger] spawns@[j])@ == spec_spawn_secs(
                        self.current_timer,
                        *to,
                    )[j] * 1_000_000_000 && spawns@[j].spec_secs() == spec_spawn_secs(
                        self.current_timer,
                        *to,
                    )[j],
                forall|j: int|
                    0 <= j < r@.len() ==> #[trigger] r@[j] == self.spec_wave(r@[j].spawn, superm)
                        && r@[j].spawn == spawns@[j],
            decreases spawns@.len() - i,
        {
            let spawn = spawns[i];
            proof {
                lemma_spawn_secs_sound(self.current_timer, *to);
                assert(spec_spawn_secs(self.current_timer, *to)[i as int] >= 65);
            }
            let siege: usize = if Wave::has_siege(spawn) && superm == 0 {
                1
            } else {
                0
            };
            r.push(
                Wave {
                    spawn,
                    lane: self.lane,
                    team: self.team,
                    melee: 3,
                    siege,
                    ranged: 3,
                    superm,
                },
            );
            i = i + 1;
        }
        r
    }
}

impl EventConsumer for WaveSpawner {
    /// Moves the spawner to the time `timer`.
    fn on_timer_consume(&mut self, timer: GameTimer)
        ensures
            final(self).spec_current_timer() == timer,
            final(self).spec_team() == old(self).spec_team(),
            final(self).spec_lane() == old(self).spec_lane(),
    {
        self.current_timer = timer;
    }
}

} // verus!
