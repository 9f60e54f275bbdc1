//! The engine of a lane minimap: the map's structures, the entity store, the minion
//! waves and when they spawn, and the engine that moves a game forward.

pub mod common;
pub mod display_manager;
pub mod ecs;
pub mod engine_renderer;
pub mod event;
pub mod grid;
pub mod stats;
pub mod wave;

use vstd::prelude::*;
use vstd::std_specs::ops::AddSpec;

use crate::common::{spec_saturating_add, GameTimer, Lane, Team};
use crate::ecs::entity::SpecificComponentBuilder;
use crate::ecs::generic::spawner::EntitySpawner;
use crate::ecs::spawners::wave::{
    has_siege, lemma_spawn_secs_split, lemma_spawn_sequence, lemma_wave_kinds_index, on_schedule,
    sequence_kinds, wave_kinds, spec_has_siege, spec_spawn_secs,
    timer_to_wave_spawn, WaveBuilder, WaveBuilderView,
};
use crate::ecs::store::{EntityStore, EntityStoreBuilder};
use crate::ecs::structures::nexus::NexusIndex;
use crate::ecs::structures::inhibitor::{InhibitorComponent, InhibitorIndex};
use crate::ecs::structures::turret::{TurretComponent, TurretIndex, TurretKind, TurretState};
use crate::ecs::structures::{
    lemma_structure_raw_injective, lemma_structure_raw_nonzero, StructureIndex,
};
use crate::ecs::units::minion::MinionBuilder;
use crate::ecs::units::old_minion::MinionType;
use crate::ecs::{lemma_nexus_raw_id, UnitId};

verus! {

/// The engine that runs the minimap: the time it has reached.
pub struct MinimapEngine {
    pub timer: GameTimer,
}

/// The minions of one wave to spawn, in spawning order, with the time the wave
/// spawned and its team and lane.
pub struct SpawnOrder {
    pub spawn: GameTimer,
    pub team: Team,
    pub lane: Lane,
    pub minions: Vec<MinionBuilder>,
}

/// The lanes in the order waves are spawned: blue top, mid, bot, then red top, mid, bot.
pub open spec fn spec_lane_order(i: int) -> (Team, Lane) {
    let team = if i < 3 {
        Team::Blue
    } else {
        Team::Red
    };
    let lane = if i % 3 == 0 {
        Lane::Top
    } else if i % 3 == 1 {
        Lane::Mid
    } else {
        Lane::Bot
    };
    (team, lane)
}

/// The team and lane of the `i`-th wave of a spawn.
fn lane_order(i: usize) -> (r: (Team, Lane))
    requires
        i < 6,
    ensures
        r == spec_lane_order(i as int),
{
    let team = if i < 3 {
        Team::Blue
    } else {
        Team::Red
    };
    let lane = if i % 3 == 0 {
        Lane::Top
    } else if i % 3 == 1 {
        Lane::Mid
    } else {
        Lane::Bot
    };
    (team, lane)
}

/// The `i`-th structure spawned when a game starts: the outer, inner and inhibitor
/// turrets of blue then red, in top, mid and bot; the nexus turrets of blue (top, bot)
/// then red; the inhibitors of red then blue, in top, mid and bot; the blue then the
/// red nexus.
pub open spec fn spec_start_structure(i: int) -> StructureIndex {
    if i < 18 {
        let lane = if i / 6 == 0 {
            Lane::Top
        } else if i / 6 == 1 {
            Lane::Mid
        } else {
            Lane::Bot
        };
        let team = if i % 6 < 3 {
            Team::Blue
        } else {
            Team::Red
        };
        let kind = if i % 3 == 0 {
            TurretKind::Outer
        } else if i % 3 == 1 {
            TurretKind::Inner
        } else {
            TurretKind::Inhib
        };
        StructureIndex::Turret(TurretIndex(team, lane, kind))
    } else if i < 22 {
        let team = if i < 20 {
            Team::Blue
        } else {
            Team::Red
        };
        let kind = if i % 2 == 0 {
            TurretKind::NexusTop
        } else {
            TurretKind::NexusBot
        };
        StructureIndex::Turret(TurretIndex(team, Lane::Nexus, kind))
    } else if i < 28 {
        let team = if i < 25 {
            Team::Red
        } else {
            Team::Blue
        };
        let lane = if (i - 22) % 3 == 0 {
            Lane::Top
        } else if (i - 22) % 3 == 1 {
            Lane::Mid
        } else {
            Lane::Bot
        };
        StructureIndex::Inhibitor(InhibitorIndex(team, lane))
    } else {
        StructureIndex::Nexus(
            NexusIndex {
                team: if i == 28 {
                    Team::Blue
                } else {
                    Team::Red
                },
            },
        )
    }
}

/// The number of structures a game starts with.
pub const START_STRUCTURES: usize = 30;

/// The place of a structure in the order of `spec_start_structure`.
pub open spec fn spec_start_rank(s: StructureIndex) -> int {
    let team_rank = |t: Team|
        if t == Team::Blue {
            0int
        } else {
            1int
        };
    let lane_rank = |l: Lane|
        match l {
            Lane::Top => 0int,
            Lane::Mid => 1int,
            _ => 2int,
        };
    match s {
        StructureIndex::Turret(TurretIndex(team, lane, kind)) => match kind {
            TurretKind::Outer => lane_rank(lane) * 6 + team_rank(team) * 3,
            TurretKind::Inner => lane_rank(lane) * 6 + team_rank(team) * 3 + 1,
            TurretKind::Inhib => lane_rank(lane) * 6 + team_rank(team) * 3 + 2,
            TurretKind::NexusTop => 18 + team_rank(team) * 2,
            TurretKind::NexusBot => 19 + team_rank(team) * 2,
        },
        StructureIndex::Inhibitor(InhibitorIndex(team, lane)) => 22 + (1 - team_rank(team)) * 3
            + lane_rank(lane),
        StructureIndex::Nexus(n) => 28 + team_rank(n.team),
    }
}

/// The structures a game starts with are pairwise distinct, so no two of them share
/// an identifier.
proof fn lemma_start_structures_distinct(i: int, j: int)
    requires
        0 <= i < START_STRUCTURES,
        0 <= j < START_STRUCTURES,
        i != j,
    ensures
        spec_start_structure(i).spec_raw() != spec_start_structure(j).spec_raw(),
{
    assert(spec_start_rank(spec_start_structure(i)) == i);
    assert(spec_start_rank(spec_start_structure(j)) == j);
    lemma_structure_raw_injective(spec_start_structure(i), spec_start_structure(j));
}

/// The `i`-th structure spawned when a game starts.
fn start_structure(i: usize) -> (r: StructureIndex)
    requires
        i < START_STRUCTURES,
    ensures
        r == spec_start_structure(i as int),
{
    if i < 18 {
        let lane = if i / 6 == 0 {
            Lane::Top
        } else if i / 6 == 1 {
            Lane::Mid
        } else {
            Lane::Bot
        };
        let team = if i % 6 < 3 {
            Team::Blue
        } else {
            Team::Red
        };
        let kind = if i % 3 == 0 {
            TurretKind::Outer
        } else if i % 3 == 1 {
            TurretKind::Inner
        } else {
            TurretKind::Inhib
        };
        StructureIndex::Turret(TurretIndex(team, lane, kind))
    } else if i < 22 {
        let team = if i < 20 {
            Team::Blue
        } else {
            Team::Red
        };
        let kind = if i % 2 == 0 {
            TurretKind::NexusTop
        } else {
            TurretKind::NexusBot
        };
        StructureIndex::Turret(TurretIndex(team, Lane::Nexus, kind))
    } else if i < 28 {
        let team = if i < 25 {
            Team::Red
        } else {
            Team::Blue
        };
        let lane = if (i - 22) % 3 == 0 {
            Lane::Top
        } else if (i - 22) % 3 == 1 {
            Lane::Mid
        } else {
            Lane::Bot
        };
        StructureIndex::Inhibitor(InhibitorIndex(team, lane))
    } else {
        StructureIndex::Nexus(NexusIndex::from(if i == 28 { Team::Blue } else { Team::Red }))
    }
}

/// The structure `s` is in `store` with the position key `position`, the pathfinding
/// key `nopath` and the component it starts the game with.
pub open spec fn started(store: EntityStore, s: StructureIndex, position: usize, nopath: usize) -> bool {
    &&& store.spec_entities().contains_key(s.spec_raw())
    &&& store.spec_entities()[s.spec_raw()].position == position
    &&& store.spec_entities()[s.spec_raw()].pathfinding == nopath
    &&& store.spec_component(store.spec_entities()[s.spec_raw()]) == s.spec_initial()
}

/// `k` is the identifier of none of the structures a game starts with.
pub open spec fn not_a_start_structure(k: u64) -> bool {
    forall|i: int| 0 <= i < START_STRUCTURES ==> k != #[trigger] spec_start_structure(i).spec_raw()
}

/// `s` names a structure of the map: a lane turret (outer, inner or inhibitor
/// turret) in the top, mid or bot lane, a nexus turret by the nexus, a lane
/// inhibitor, or a nexus.
pub open spec fn on_the_map(s: StructureIndex) -> bool {
    match s {
        StructureIndex::Turret(TurretIndex(_, lane, kind)) => (lane == Lane::Nexus) == (kind
            is NexusTop || kind is NexusBot),
        StructureIndex::Inhibitor(InhibitorIndex(_, lane)) => lane != Lane::Nexus,
        StructureIndex::Nexus(_) => true,
    }
}

/// Every structure of the map is among those a game starts with.
pub proof fn lemma_start_has_every_structure(s: StructureIndex)
    requires
        on_the_map(s),
    ensures
        exists|i: int| 0 <= i < START_STRUCTURES && #[trigger] spec_start_structure(i) == s,
{
    let team_rank = |t: Team|
        if t == Team::Blue {
            0int
        } else {
            1int
        };
    let lane_rank = |l: Lane|
        match l {
            Lane::Top => 0int,
            Lane::Mid => 1int,
            _ => 2int,
        };
    let i: int = match s {
        StructureIndex::Turret(TurretIndex(team, lane, kind)) => match kind {
            TurretKind::Outer => lane_rank(lane) * 6 + team_rank(team) * 3,
            TurretKind::Inner => lane_rank(lane) * 6 + team_rank(team) * 3 + 1,
            TurretKind::Inhib => lane_rank(lane) * 6 + team_rank(team) * 3 + 2,
            TurretKind::NexusTop => 18 + team_rank(team) * 2,
            TurretKind::NexusBot => 19 + team_rank(team) * 2,
        },
        StructureIndex::Inhibitor(InhibitorIndex(team, lane)) => 22 + (1 - team_rank(team)) * 3
            + lane_rank(lane),
        StructureIndex::Nexus(n) => 28 + team_rank(n.team),
    };
    assert(spec_start_structure(i) == s);
}

/// How many of the first `i` structures a game starts with are turrets.
pub open spec fn start_turrets_before(i: int) -> int {
    if i < 22 {
        i
    } else {
        22
    }
}

/// How many of the first `i` structures a game starts with are inhibitors.
pub open spec fn start_inhibitors_before(i: int) -> int {
    if i < 22 {
        0
    } else if i < 28 {
        i - 22
    } else {
        6
    }
}

/// None of the structures a game starts with is in `store` yet.
pub open spec fn fresh_for_start(store: EntityStore) -> bool {
    forall|i: int|
        0 <= i < START_STRUCTURES ==> !store.spec_entities().contains_key(
            #[trigger] spec_start_structure(i).spec_raw(),
        )
}

/// On a store where none of them is yet, spawning the structures a game starts with
/// adds 22 turret slots and 6 inhibitor slots, and keeps every slot owned.
pub open spec fn start_slots(before: EntityStore, after: EntityStore) -> bool {
    fresh_for_start(before) ==> {
        &&& after.spec_turrets().dom().len() == before.spec_turrets().dom().len() + 22
        &&& after.spec_inhibitors().dom().len() == before.spec_inhibitors().dom().len() + 6
        &&& (before.slots_owned() ==> after.slots_owned())
    }
}

/// `after` holds the same entities as `before` under every identifier that is not
/// one of a structure a game starts with.
pub open spec fn keeps_other_entities(before: EntityStore, after: EntityStore) -> bool {
    forall|k: u64|
        not_a_start_structure(k) ==> (#[trigger] after.spec_entities().contains_key(k)
            == before.spec_entities().contains_key(k)) && (before.spec_entities().contains_key(k)
            ==> after.spec_entities()[k] == before.spec_entities()[k])
}

/// The kinds and offsets of a sequence of minion descriptions.
pub open spec fn builder_kinds(ms: Seq<MinionBuilder>) -> Seq<(MinionType, i64)> {
    ms.map_values(|m: MinionBuilder| (m.spec_kind()->0, m.spec_offset()))
}

/// A game engine: sets the entities of a game up and moves the game forward.
pub trait Engine {
    /// Spawns the structures a game starts with into `builder`, the `i`-th one with the
    /// position key `positions[i]`, all with the pathfinding key `nopath` of an entity
    /// that never moves.
    fn on_start(&self, builder: &mut EntityStoreBuilder, positions: &[usize], nopath: usize)
        requires
            old(builder).spec_store().wf(),
            positions@.len() == START_STRUCTURES,
        ensures
            final(builder).spec_store().wf(),
    ;

    /// Some wave spawns while the game moves forward by `step`.
    spec fn spawns_during(&self, step: GameTimer) -> bool;

    /// Moves the game forward by `step`, and returns the waves that spawn in between.
    /// When a wave spawns, the store must hold the six lane inhibitors.
    fn on_step(&mut self, store: &EntityStore, step: GameTimer) -> (r: Vec<SpawnOrder>)
        requires
            store.wf(),
            old(self).spawns_during(step) ==> MinimapEngine::has_all_inhibitors(*store),
    ;
}

impl Engine for MinimapEngine {
    /// A spawn time lies between the engine's time and that time plus `step`.
    open spec fn spawns_during(&self, step: GameTimer) -> bool {
        spec_spawn_secs(self.timer, self.timer.add_spec(step)).len() > 0
    }

    /// Spawns the structures a game starts with into `builder`, in the order of
    /// `spec_start_structure`: the `i`-th one with the position key `positions[i]`,
    /// all with the pathfinding key `nopath` of a structure that never moves.  Every
    /// other entity of the builder stays as it was.
    fn on_start(&self, builder: &mut EntityStoreBuilder, positions: &[usize], nopath: usize)
        ensures
            final(builder).spec_store().wf(),
            forall|i: int|
                0 <= i < START_STRUCTURES ==> started(
                    final(builder).spec_store(),
                    #[trigger] spec_start_structure(i),
                    positions@[i],
                    nopath,
                ),
            keeps_other_entities(old(builder).spec_store(), final(builder).spec_store()),
            final(builder).spec_store().spec_minions() == old(builder).spec_store().spec_minions(),
            start_slots(old(builder).spec_store(), final(builder).spec_store()),
    {
        let mut i: usize = 0;
        while i < START_STRUCTURES
            invariant
                i <= START_STRUCTURES,
                positions@.len() == START_STRUCTURES,
                builder.spec_store().wf(),
                forall|j: int|
                    0 <= j < i ==> started(
                        builder.spec_store(),
                        #[trigger] spec_start_structure(j),
                        positions@[j],
                        nopath,
                    ),
                keeps_other_entities(old(builder).spec_store(), builder.spec_store()),
                builder.spec_store().spec_minions() == old(builder).spec_store().spec_minions(),
                fresh_for_start(old(builder).spec_store()) ==> {
                    &&& builder.spec_store().spec_turrets().dom().len()
                        == old(builder).spec_store().spec_turrets().dom().len() + start_turrets_before(i as int)
                    &&& builder.spec_store().spec_inhibitors().dom().len()
                        == old(builder).spec_store().spec_inhibitors().dom().len() + start_inhibitors_before(i as int)
                    &&& (old(builder).spec_store().slots_owned() ==> builder.spec_store().slots_owned())
                    &&& forall|j: int|
                        i <= j < START_STRUCTURES ==> !builder.spec_store().spec_entities().contains_key(
                            #[trigger] spec_start_structure(j).spec_raw(),
                        )
                },
            decreases START_STRUCTURES - i,
        {
            let s = start_structure(i);
            let ghost before = builder.spec_store();
            proof {
                lemma_structure_raw_nonzero(s);
            }
            builder.spawn(s.guid(), positions[i], nopath, s.specific());
            proof {
                if fresh_for_start(old(builder).spec_store()) {
                    assert(!before.spec_entities().contains_key(s.spec_raw()));
                    assert forall|j: int|
                        i + 1 <= j < START_STRUCTURES implies !builder.spec_store().spec_entities().contains_key(
                        #[trigger] spec_start_structure(j).spec_raw(),
                    ) by {
                        lemma_start_structures_distinct(j, i as int);
                        assert(!before.spec_entities().contains_key(spec_start_structure(j).spec_raw()));
                    }
                }
            }
            proof {
                assert forall|j: int| 0 <= j <= i implies started(
                    builder.spec_store(),
                    #[trigger] spec_start_structure(j),
                    positions@[j],
                    nopath,
                ) by {
                    if j < i {
                        lemma_start_structures_distinct(j, i as int);
                        assert(before.spec_entities().contains_key(spec_start_structure(j).spec_raw()));
                    }
                }
                assert forall|k: u64| not_a_start_structure(k) implies (#[trigger] builder.spec_store().spec_entities().contains_key(k)
                    == old(builder).spec_store().spec_entities().contains_key(k)) && (old(
                    builder,
                ).spec_store().spec_entities().contains_key(k) ==> builder.spec_store().spec_entities()[k]
                    == old(builder).spec_store().spec_entities()[k]) by {
                    assert(k != spec_start_structure(i as int).spec_raw());
                    assert(builder.spec_store().spec_entities().contains_key(k)
                        == before.spec_entities().contains_key(k));
                    if before.spec_entities().contains_key(k) {
                        assert(builder.spec_store().spec_entities()[k] == before.spec_entities()[k]);
                    }
                }
            }
            i = i + 1;
        }
    }

    /// Moves the game forward by `step`: the clock advances, saturating at the
    /// largest time, and the waves spawning in between are returned, as
    /// `spawn_orders` gives them.  Moving the minions along their paths, which works
    /// on map coordinates, is left to the caller.
    fn on_step(&mut self, store: &EntityStore, step: GameTimer) -> (r: Vec<SpawnOrder>)
        ensures
            final(self).timer@ == spec_saturating_add(old(self).timer@, step@),
            Self::orders_match(*store, old(self).timer, final(self).timer, r@),
    {
        let new_timer = self.timer + step;
        let orders = self.spawn_orders(store, new_timer);
        self.timer = new_timer;
        orders
    }
}

impl MinimapEngine {
    /// The entity under the raw identifier of the inhibitor of `team` in `lane` is an
    /// inhibitor of `store`.
    pub open spec fn has_inhibitor(store: EntityStore, team: Team, lane: Lane) -> bool {
        let raw = UnitId::spec_inhibitor_raw(InhibitorIndex(team, lane));
        &&& store.spec_entities().contains_key(raw)
        &&& store.spec_entities()[raw].specific is Inhibitor
    }

    /// The inhibitor of `team` in `lane` has fallen.
    pub open spec fn inhibitor_down(store: EntityStore, team: Team, lane: Lane) -> bool {
        let raw = UnitId::spec_inhibitor_raw(InhibitorIndex(team, lane));
        match store.spec_component(store.spec_entities()[raw]) {
            SpecificComponentBuilder::Inhibitor(c) => c.down is Some,
            _ => false,
        }
    }

    /// The store holds the three lane inhibitors of both teams.
    pub open spec fn has_all_inhibitors(store: EntityStore) -> bool {
        forall|team: Team, lane: Lane|
            lane != Lane::Nexus ==> #[trigger] Self::has_inhibitor(store, team, lane)
    }

    /// The wave of `team` in `lane` spawning at `spawn`, as it starts handing out minions:
    /// three melee and three ranged minions, a siege minion on the siege schedule,
    /// and super minions against fallen enemy inhibitors, which replace the siege one.
    pub open spec fn spec_wave(
        store: EntityStore,
        spawn: GameTimer,
        team: Team,
        lane: Lane,
    ) -> WaveBuilderView {
        let enemy = team.spec_opposite();
        let down = seq![
            Self::inhibitor_down(store, enemy, Lane::Top),
            Self::inhibitor_down(store, enemy, Lane::Mid),
            Self::inhibitor_down(store, enemy, Lane::Bot),
        ];
        let superm = WaveBuilder::spec_super_count(0, lane, down);
        WaveBuilderView {
            base_pos: 0,
            lane: Some(lane),
            team: Some(team),
            melee: 3,
            siege: if superm > 0 {
                false
            } else {
                spec_has_siege(spawn)
            },
            ranged: 3,
            superm,
        }
    }

    /// `orders` are the waves to spawn while the clock goes from `from` to `to`: for
    /// each spawn time, one wave per lane of each team, in the order of
    /// `spec_lane_order`, each with the minions its wave builder hands out, set to the
    /// wave's lane and team.
    pub open spec fn orders_match(
        store: EntityStore,
        from: GameTimer,
        to: GameTimer,
        orders: Seq<SpawnOrder>,
    ) -> bool {
        &&& orders.len() == 6 * spec_spawn_secs(from, to).len()
        &&& forall|i: int|
            0 <= i < orders.len() ==> {
                let order = #[trigger] orders[i];
                &&& order.spawn@ == spec_spawn_secs(from, to)[i / 6] * 1_000_000_000
                &&& (order.team, order.lane) == spec_lane_order(i % 6)
                &&& builder_kinds(order.minions@) == Self::spec_wave(
                    store,
                    order.spawn,
                    order.team,
                    order.lane,
                ).spawn_sequence()
                &&& forall|j: int|
                    0 <= j < order.minions@.len() ==> (#[trigger] order.minions@[j]).spec_lane()
                        == Some(order.lane) && order.minions@[j].spec_team() == Some(order.team)
            }
    }

    /// The structures a game starts with, in spawning order.
    pub fn start_structures() -> (r: Vec<StructureIndex>)
        ensures
            r@ == Seq::new(START_STRUCTURES as nat, |i: int| spec_start_structure(i)),
    {
        let mut r: Vec<StructureIndex> = Vec::new();
        let mut i: usize = 0;
        while i < START_STRUCTURES
            invariant
                i <= START_STRUCTURES,
                r@ == Seq::new(i as nat, |j: int| spec_start_structure(j)),
            decreases START_STRUCTURES - i,
        {
            r.push(start_structure(i));
            i = i + 1;
            assert(r@ =~= Seq::new(i as nat, |j: int| spec_start_structure(j)));
        }
        r
    }

    /// A game at its start: the clock at zero, and a store holding exactly the
    /// structures of `on_start`, placed as `on_start` places them.
    pub fn init(positions: &[usize], nopath: usize) -> (r: (MinimapEngine, EntityStore))
        requires
            positions@.len() == START_STRUCTURES,
        ensures
            r.0.timer@ == 0,
            r.1.wf(),
            Self::has_all_inhibitors(r.1),
            forall|i: int|
                0 <= i < START_STRUCTURES ==> started(r.1, #[trigger] spec_start_structure(i), positions@[i], nopath),
            forall|k: u64| #[trigger] r.1.spec_entities().contains_key(k) ==> !not_a_start_structure(k),
            r.1.slots_owned(),
            r.1.spec_turrets().dom().len() == 22,
            r.1.spec_inhibitors().dom().len() == 6,
            r.1.spec_minions().is_empty(),
            r.1.spec_get(UnitId::spec_nexus_raw_id(NexusIndex { team: Team::Blue })) is Some,
            r.1.spec_get(UnitId::spec_nexus_raw_id(NexusIndex { team: Team::Red })) is Some,
            forall|s: StructureIndex|
                on_the_map(s) ==> {
                    &&& r.1.spec_entities().contains_key(#[trigger] s.spec_raw())
                    &&& r.1.spec_component(r.1.spec_entities()[s.spec_raw()]) == match s {
                        StructureIndex::Turret(TurretIndex(_, _, kind)) => SpecificComponentBuilder::Turret(
                            TurretComponent {
                                state: if kind == TurretKind::Outer {
                                    TurretState::UpWithPlates { plates: 5 }
                                } else {
                                    TurretState::Up
                                },
                            },
                        ),
                        StructureIndex::Inhibitor(_) => SpecificComponentBuilder::Inhibitor(
                            InhibitorComponent { down: None },
                        ),
                        StructureIndex::Nexus(_) => SpecificComponentBuilder::Nothing,
                    }
                },
    {
        let mut builder = EntityStoreBuilder::new();
        let engine = MinimapEngine { timer: GameTimer::game_start() };
        engine.on_start(&mut builder, positions, nopath);
        let store = builder.build();
        proof {
            lemma_nexus_raw_id(NexusIndex { team: Team::Blue });
            lemma_nexus_raw_id(NexusIndex { team: Team::Red });
            lemma_structure_raw_nonzero(spec_start_structure(28));
            lemma_structure_raw_nonzero(spec_start_structure(29));
            assert(started(store, spec_start_structure(28), positions@[28], nopath));
            assert(started(store, spec_start_structure(29), positions@[29], nopath));
            assert forall|s: StructureIndex| on_the_map(s) implies store.spec_entities().contains_key(
                #[trigger] s.spec_raw(),
            ) && store.spec_component(store.spec_entities()[s.spec_raw()]) == s.spec_initial() by {
                lemma_start_has_every_structure(s);
                let i = choose|i: int| 0 <= i < START_STRUCTURES && #[trigger] spec_start_structure(i) == s;
                assert(started(store, spec_start_structure(i), positions@[i], nopath));
            }
            assert forall|team: Team, lane: Lane| lane != Lane::Nexus implies #[trigger] Self::has_inhibitor(store, team, lane) by {
                let i: int = 22 + (if team == Team::Red { 0int } else { 3int }) + lane.spec_index();
                assert(spec_start_structure(i) == StructureIndex::Inhibitor(InhibitorIndex(team, lane)));
                assert(started(store, spec_start_structure(i), positions@[i], nopath));
                let raw = UnitId::spec_inhibitor_raw(InhibitorIndex(team, lane));
                assert(store.spec_entities().contains_key(raw));
                assert(store.component_consistent(store.spec_entities()[raw]));
            }
        }
        (engine, store)
    }

    /// The turret a minion walks to when it has no objective: the enemy outer turret
    /// of its lane.  The identifier must carry a team and a lane.
    pub fn default_objective(guid: UnitId) -> (r: UnitId)
        requires
            guid.spec_team() is Some,
            guid.spec_lane() is Some,
        ensures
            r@ == UnitId::spec_turret_raw(
                TurretIndex(
                    guid.spec_team()->0.spec_opposite(),
                    guid.spec_lane()->0,
                    TurretKind::Outer,
                ),
            ),
    {
        let team = guid.team().unwrap();
        let lane = guid.lane().unwrap();
        TurretIndex(team.opposite(), lane, TurretKind::Outer).guid()
    }

    /// The waves to spawn while the clock goes from the engine's time to `new_timer`:
    /// for each spawn time, one wave per lane of each team, in the order of
    /// `spec_lane_order`, each with the minions its wave builder hands out.  When a
    /// wave spawns, the store must hold the six lane inhibitors; the clock must not go
    /// back.
    pub fn spawn_orders(&self, store: &EntityStore, new_timer: GameTimer) -> (r: Vec<SpawnOrder>)
        requires
            store.wf(),
            spec_spawn_secs(self.timer, new_timer).len() > 0 ==> Self::has_all_inhibitors(*store),
            self.timer@ <= new_timer@,
        ensures
            Self::orders_match(*store, self.timer, new_timer, r@),
    {
        let spawns = timer_to_wave_spawn(self.timer, new_timer);
        let ghost secs = spec_spawn_secs(self.timer, new_timer);
        let mut r: Vec<SpawnOrder> = Vec::new();
        let mut si: usize = 0;
        while si < spawns.len()
            invariant
                si <= spawns@.len(),
                spawns@.len() == secs.len(),
                forall|j: int|
                    0 <= j < spawns@.len() ==> (#[trigger] spawns@[j])@ == secs[j] * 1_000_000_000,
                store.wf(),
                secs.len() > 0 ==> Self::has_all_inhibitors(*store),
                r@.len() == 6 * si,
                forall|i: int|
                    0 <= i < r@.len() ==> {
                        let order = #[trigger] r@[i];
                        &&& order.spawn@ == secs[i / 6] * 1_000_000_000
                        &&& (order.team, order.lane) == spec_lane_order(i % 6)
                        &&& builder_kinds(order.minions@) == Self::spec_wave(
                            *store,
                            order.spawn,
                            order.team,
                            order.lane,
                        ).spawn_sequence()
                        &&& forall|j: int|
                            0 <= j < order.minions@.len() ==> (#[trigger] order.minions@[j]).spec_lane()
                                == Some(order.lane) && order.minions@[j].spec_team() == Some(order.team)
                    },
            decreases spawns@.len() - si,
        {
            let spawn = spawns[si];
            let mut li: usize = 0;
            while li < 6
                invariant
                    si < spawns@.len(),
                    spawn == spawns@[si as int],
                    spawns@.len() == secs.len(),
                    forall|j: int|
                        0 <= j < spawns@.len() ==> (#[trigger] spawns@[j])@ == secs[j] * 1_000_000_000,
                    store.wf(),
                    secs.len() > 0 ==> Self::has_all_inhibitors(*store),
                    li <= 6,
                    r@.len() == 6 * si + li,
                    forall|i: int|
                        0 <= i < r@.len() ==> {
                            let order = #[trigger] r@[i];
                            &&& order.spawn@ == secs[i / 6] * 1_000_000_000
                            &&& (order.team, order.lane) == spec_lane_order(i % 6)
                            &&& builder_kinds(order.minions@) == Self::spec_wave(
                                *store,
                                order.spawn,
                                order.team,
                                order.lane,
                            ).spawn_sequence()
                            &&& forall|j: int|
                                0 <= j < order.minions@.len() ==> (#[trigger] order.minions@[j]).spec_lane()
                                    == Some(order.lane) && order.minions@[j].spec_team() == Some(order.team)
                        },
                decreases 6 - li,
            {
                let (team, lane) = lane_order(li);
                let minions = Self::wave_minions(store, spawn, team, lane);
                let ghost before = r@;
                r.push(SpawnOrder { spawn, team, lane, minions });
                proof {
                    let n = r@.len() - 1;
                    assert(n / 6 == si as int) by (nonlinear_arith)
                        requires
                            n == 6 * si + li,
                            li < 6,
                    ;
                    assert(n % 6 == li as int) by (nonlinear_arith)
                        requires
                            n == 6 * si + li,
                            li < 6,
                    ;
                    assert forall|i: int| 0 <= i < r@.len() implies {
                        let order = #[trigger] r@[i];
                        &&& order.spawn@ == secs[i / 6] * 1_000_000_000
                        &&& (order.team, order.lane) == spec_lane_order(i % 6)
                        &&& builder_kinds(order.minions@) == Self::spec_wave(
                            *store,
                            order.spawn,
                            order.team,
                            order.lane,
                        ).spawn_sequence()
                        &&& forall|j: int|
                            0 <= j < order.minions@.len() ==> (#[trigger] order.minions@[j]).spec_lane()
                                == Some(order.lane) && order.minions@[j].spec_team() == Some(order.team)
                    } by {
                        if i < n {
                            assert(r@[i] == before[i]);
                        }
                    }
                }
                li = li + 1;
            }
            si = si + 1;
        }
        r
    }

    /// The minions of the wave of `team` in `lane` spawning at `spawn`, in the order
    /// its wave builder hands them out.
    fn wave_minions(store: &EntityStore, spawn: GameTimer, team: Team, lane: Lane) -> (r: Vec<
        MinionBuilder,
    >)
        requires
            store.wf(),
            Self::has_all_inhibitors(*store),
            lane != Lane::Nexus,
        ensures
            builder_kinds(r@) == Self::spec_wave(*store, spawn, team, lane).spawn_sequence(),
            forall|j: int|
                0 <= j < r@.len() ==> (#[trigger] r@[j]).spec_lane() == Some(lane) && r@[j].spec_team()
                    == Some(team),
    {
        let enemy = team.opposite();
        assert(Self::has_inhibitor(*store, enemy, Lane::Top));
        assert(Self::has_inhibitor(*store, enemy, Lane::Mid));
        assert(Self::has_inhibitor(*store, enemy, Lane::Bot));
        let top = store.get_inhib(InhibitorIndex(enemy, Lane::Top).guid()).unwrap();
        let mid = store.get_inhib(InhibitorIndex(enemy, Lane::Mid).guid()).unwrap();
        let bot = store.get_inhib(InhibitorIndex(enemy, Lane::Bot).guid()).unwrap();
        let wave = WaveBuilder::default().set_lane(lane).set_team(team).has_siege(
            has_siege(spawn),
        );
        let inhibs = [top, mid, bot];
        proof {
            let down = Seq::new(3, |i: int| inhibs@[i].spec_state().down is Some);
            assert(down =~= seq![
                Self::inhibitor_down(*store, enemy, Lane::Top),
                Self::inhibitor_down(*store, enemy, Lane::Mid),
                Self::inhibitor_down(*store, enemy, Lane::Bot),
            ]);
        }
        let mut wave = wave.set_super(inhibs);
        let ghost init = wave@;
        assert(init == Self::spec_wave(*store, spawn, team, lane));
        let mut minions: Vec<MinionBuilder> = Vec::new();
        let mut done = false;
        while !done
            invariant
                wave@.lane == Some(lane),
                wave@.team == Some(team),
                wave@.remaining() <= 9,
                wave@.base_pos >= -165 * (9 - wave@.remaining()) - if done {
                    100int
                } else {
                    0int
                },
                done ==> wave@.next_kind() is None,
                builder_kinds(minions@) + wave@.spawn_sequence() == init.spawn_sequence(),
                forall|j: int|
                    0 <= j < minions@.len() ==> (#[trigger] minions@[j]).spec_lane() == Some(lane)
                        && minions@[j].spec_team() == Some(team) && minions@[j].spec_kind() is Some,
            decreases wave@.remaining() + if done {
                0int
            } else {
                1int
            },
        {
            let ghost before = wave@;
            match wave.spawn_next() {
                Some(m) => {
                    let ghost prev = minions@;
                    minions.push(m);
                    assert(builder_kinds(minions@) =~= builder_kinds(prev).push(
                        (before.next_kind()->0, before.base_pos),
                    ));
                    assert(before.spawn_sequence() == seq![(before.next_kind()->0, before.base_pos)]
                        + wave@.spawn_sequence());
                    assert(builder_kinds(minions@) + wave@.spawn_sequence() =~= builder_kinds(prev)
                        + before.spawn_sequence());
                },
                None => {
                    done = true;
                },
            }
        }
        minions
    }
}

/// Moving the game forward in two steps spawns the same waves, in the same order, as
/// moving it forward in one step over the same time, as long as the clock stops
/// before the first spawn or on the spawn schedule.
pub proof fn lemma_steps_compose(
    store: EntityStore,
    a: GameTimer,
    b: GameTimer,
    c: GameTimer,
    first: Seq<SpawnOrder>,
    second: Seq<SpawnOrder>,
)
    requires
        a@ <= b@ <= c@,
        on_schedule(a),
        on_schedule(b),
        MinimapEngine::orders_match(store, a, b, first),
        MinimapEngine::orders_match(store, b, c, second),
    ensures
        MinimapEngine::orders_match(store, a, c, first + second),
{
    lemma_spawn_secs_split(a, b, c);
    let ab = spec_spawn_secs(a, b);
    let bc = spec_spawn_secs(b, c);
    let ac = spec_spawn_secs(a, c);
    let all = first + second;
    let n = first.len() as int;
    assert forall|i: int| 0 <= i < all.len() implies {
        let order = #[trigger] all[i];
        &&& order.spawn@ == ac[i / 6] * 1_000_000_000
        &&& (order.team, order.lane) == spec_lane_order(i % 6)
        &&& builder_kinds(order.minions@) == MinimapEngine::spec_wave(
            store,
            order.spawn,
            order.team,
            order.lane,
        ).spawn_sequence()
        &&& forall|j: int|
            0 <= j < order.minions@.len() ==> (#[trigger] order.minions@[j]).spec_lane() == Some(
                order.lane,
            ) && order.minions@[j].spec_team() == Some(order.team)
    } by {
        if i < n {
            assert(all[i] == first[i]);
            assert(i / 6 < ab.len()) by (nonlinear_arith)
                requires
                    0 <= i < n,
                    n == 6 * ab.len(),
            ;
            assert(ac[i / 6] == ab[i / 6]);
        } else {
            let k = i - n;
            assert(all[i] == second[k]);
            assert(k / 6 == i / 6 - ab.len() && k % 6 == i % 6) by (nonlinear_arith)
                requires
                    k == i - n,
                    n == 6 * ab.len(),
                    k >= 0,
            ;
            assert(k / 6 < bc.len()) by (nonlinear_arith)
                requires
                    0 <= k < second.len(),
                    second.len() == 6 * bc.len(),
            ;
            assert(ac[i / 6] == bc[k / 6]);
        }
    }
}


/// Each wave of a step carries super minions exactly when the enemy inhibitor of its
/// own lane is down, or all three enemy lane inhibitors are: one in the first case,
/// two in the second, handed out first; and a wave with super minions carries no
/// siege minion.  Every wave has at least three melee and three ranged minions.
pub proof fn lemma_order_super_minions(
    store: EntityStore,
    from: GameTimer,
    to: GameTimer,
    orders: Seq<SpawnOrder>,
    i: int,
)
    requires
        MinimapEngine::orders_match(store, from, to, orders),
        0 <= i < orders.len(),
    ensures
        ({
            let o = orders[i];
            let kinds = builder_kinds(o.minions@);
            let enemy = o.team.spec_opposite();
            let all_down = MinimapEngine::inhibitor_down(store, enemy, Lane::Top)
                && MinimapEngine::inhibitor_down(store, enemy, Lane::Mid)
                && MinimapEngine::inhibitor_down(store, enemy, Lane::Bot);
            let own_down = MinimapEngine::inhibitor_down(store, enemy, o.lane);
            &&& o.lane != Lane::Nexus
            &&& kinds.len() >= 6
            &&& (kinds[0].0 == MinionType::SuperMinion <==> (own_down || all_down))
            &&& (kinds[1].0 == MinionType::SuperMinion <==> all_down)
            &&& (own_down || all_down) ==> forall|j: int|
                0 <= j < kinds.len() ==> kinds[j].0 != MinionType::Siege
        }),
{
    let o = orders[i];
    let v = MinimapEngine::spec_wave(store, o.spawn, o.team, o.lane);
    assert(builder_kinds(o.minions@) == v.spawn_sequence());
    lemma_spawn_sequence(v);
    let kinds = builder_kinds(o.minions@);
    assert forall|j: int| 0 <= j < kinds.len() implies kinds[j].0 == wave_kinds(v)[j] by {
        assert(sequence_kinds(v.spawn_sequence())[j] == v.spawn_sequence()[j].0);
    }
    lemma_wave_kinds_index(v, 0);
    lemma_wave_kinds_index(v, 1);
    assert forall|j: int| 0 <= j < kinds.len() && v.superm > 0 implies kinds[j].0
        != MinionType::Siege by {
        lemma_wave_kinds_index(v, j);
    }
}

} // verus!
