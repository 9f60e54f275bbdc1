//! Turrets as entities of the store.

use vstd::prelude::*;

use crate::common::{Lane, Team};
use crate::ecs::entity::{Entity, SpecificComponentBuilder};
use crate::ecs::store::{slab_get, EntityStore};
use crate::ecs::UnitId;

verus! {

/// The state the store keeps for a turret entity.
#[derive(Debug, Clone, Copy, PartialEq, Eq, Structural)]
pub struct TurretComponent {
    pub state: TurretState,
}

/// Where a turret stands in its lane.
#[derive(Debug, Clone, Copy, Hash, PartialEq, Eq, Structural)]
pub enum TurretKind {
    Outer,
    Inner,
    Inhib,
    NexusBot,
    NexusTop,
}

/// Whether a turret stands, and with how many plates.
#[derive(Debug, Clone, Copy, Hash, PartialEq, Eq, Structural)]
pub enum TurretState {
    UpWithPlates { plates: usize },
    Up,
    Down,
}

impl TurretKind {
    /// The kind guards the nexus rather than a lane.
    pub open spec fn spec_is_nexus(self) -> bool {
        self is NexusBot || self is NexusTop
    }

    /// Returns whether the kind guards the nexus rather than a lane.
    pub fn is_nexus(&self) -> (r: bool)
        ensures
            r == self.spec_is_nexus(),
    {
        matches!(self, TurretKind::NexusBot | TurretKind::NexusTop)
    }

    /// Position of the kind in `Outer, Inner, Inhib, NexusBot, NexusTop` order.
    pub open spec fn spec_index(self) -> usize {
        match self {
            TurretKind::Outer => 0,
            TurretKind::Inner => 1,
            TurretKind::Inhib => 2,
            TurretKind::NexusBot => 3,
            TurretKind::NexusTop => 4,
        }
    }

    /// Position of the kind in `Outer, Inner, Inhib, NexusBot, NexusTop` order.
    pub fn index(&self) -> (r: usize)
        ensures
            r == self.spec_index(),
    {
        match self {
            TurretKind::Outer => 0,
            TurretKind::Inner => 1,
            TurretKind::Inhib => 2,
            TurretKind::NexusBot => 3,
            TurretKind::NexusTop => 4,
        }
    }
}

/// Names a turret by team, lane and kind.
#[derive(Debug, Clone, Copy, Hash, PartialEq, Eq, Structural)]
pub struct TurretIndex(pub Team, pub Lane, pub TurretKind);

impl TurretIndex {
    pub fn red_top_outer() -> (r: Self)
        ensures
            r == TurretIndex(Team::Red, Lane::Top, TurretKind::Outer),
    {
        TurretIndex(Team::Red, Lane::Top, TurretKind::Outer)
    }

    pub fn blue_top_outer() -> (r: Self)
        ensures
            r == TurretIndex(Team::Blue, Lane::Top, TurretKind::Outer),
    {
        TurretIndex(Team::Blue, Lane::Top, TurretKind::Outer)
    }

    pub fn red_mid_outer() -> (r: Self)
        ensures
            r == TurretIndex(Team::Red, Lane::Mid, TurretKind::Outer),
    {
        TurretIndex(Team::Red, Lane::Mid, TurretKind::Outer)
    }

    pub fn blue_mid_outer() -> (r: Self)
        ensures
            r == TurretIndex(Team::Blue, Lane::Mid, TurretKind::Outer),
    {
        TurretIndex(Team::Blue, Lane::Mid, TurretKind::Outer)
    }

    pub fn red_bot_outer() -> (r: Self)
        ensures
            r == TurretIndex(Team::Red, Lane::Bot, TurretKind::Outer),
    {
        TurretIndex(Team::Red, Lane::Bot, TurretKind::Outer)
    }

    pub fn blue_bot_outer() -> (r: Self)
        ensures
            r == TurretIndex(Team::Blue, Lane::Bot, TurretKind::Outer),
    {
        TurretIndex(Team::Blue, Lane::Bot, TurretKind::Outer)
    }

    pub fn red_top_inner() -> (r: Self)
        ensures
            r == TurretIndex(Team::Red, Lane::Top, TurretKind::Inner),
    {
        TurretIndex(Team::Red, Lane::Top, TurretKind::Inner)
    }

    pub fn blue_top_inner() -> (r: Self)
        ensures
            r == TurretIndex(Team::Blue, Lane::Top, TurretKind::Inner),
    {
        TurretIndex(Team::Blue, Lane::Top, TurretKind::Inner)
    }

    pub fn red_mid_inner() -> (r: Self)
        ensures
            r == TurretIndex(Team::Red, Lane::Mid, TurretKind::Inner),
    {
        TurretIndex(Team::Red, Lane::Mid, TurretKind::Inner)
    }

    pub fn blue_mid_inner() -> (r: Self)
        ensures
            r == TurretIndex(Team::Blue, Lane::Mid, TurretKind::Inner),
    {
        TurretIndex(Team::Blue, Lane::Mid, TurretKind::Inner)
    }

    pub fn red_bot_inner() -> (r: Self)
        ensures
            r == TurretIndex(Team::Red, Lane::Bot, TurretKind::Inner),
    {
        TurretIndex(Team::Red, Lane::Bot, TurretKind::Inner)
    }

    pub fn blue_bot_inner() -> (r: Self)
        ensures
            r == TurretIndex(Team::Blue, Lane::Bot, TurretKind::Inner),
    {
        TurretIndex(Team::Blue, Lane::Bot, TurretKind::Inner)
    }

    pub fn red_top_inhib() -> (r: Self)
        ensures
            r == TurretIndex(Team::Red, Lane::Top, TurretKind::Inhib),
    {
        TurretIndex(Team::Red, Lane::Top, TurretKind::Inhib)
    }

    pub fn blue_top_inhib() -> (r: Self)
        ensures
            r == TurretIndex(Team::Blue, Lane::Top, TurretKind::Inhib),
    {
        TurretIndex(Team::Blue, Lane::Top, TurretKind::Inhib)
    }

    pub fn red_mid_inhib() -> (r: Self)
        ensures
            r == TurretIndex(Team::Red, Lane::Mid, TurretKind::Inhib),
    {
        TurretIndex(Team::Red, Lane::Mid, TurretKind::Inhib)
    }

    pub fn blue_mid_inhib() -> (r: Self)
        ensures
            r == TurretIndex(Team::Blue, Lane::Mid, TurretKind::Inhib),
    {
        TurretIndex(Team::Blue, Lane::Mid, TurretKind::Inhib)
    }

    pub fn red_bot_inhib() -> (r: Self)
        ensures
            r == TurretIndex(Team::Red, Lane::Bot, TurretKind::Inhib),
    {
        TurretIndex(Team::Red, Lane::Bot, TurretKind::Inhib)
    }

    pub fn blue_bot_inhib() -> (r: Self)
        ensures
            r == TurretIndex(Team::Blue, Lane::Bot, TurretKind::Inhib),
    {
        TurretIndex(Team::Blue, Lane::Bot, TurretKind::Inhib)
    }

    pub fn blue_top_nexus() -> (r: Self)
        ensures
            r == TurretIndex(Team::Blue, Lane::Nexus, TurretKind::NexusTop),
    {
        TurretIndex(Team::Blue, Lane::Nexus, TurretKind::NexusTop)
    }

    pub fn red_top_nexus() -> (r: Self)
        ensures
            r == TurretIndex(Team::Red, Lane::Nexus, TurretKind::NexusTop),
    {
        TurretIndex(Team::Red, Lane::Nexus, TurretKind::NexusTop)
    }

    pub fn blue_bot_nexus() -> (r: Self)
        ensures
            r == TurretIndex(Team::Blue, Lane::Nexus, TurretKind::NexusBot),
    {
        TurretIndex(Team::Blue, Lane::Nexus, TurretKind::NexusBot)
    }

    pub fn red_bot_nexus() -> (r: Self)
        ensures
            r == TurretIndex(Team::Red, Lane::Nexus, TurretKind::NexusBot),
    {
        TurretIndex(Team::Red, Lane::Nexus, TurretKind::NexusBot)
    }

    /// The state a turret starts the game in: outer turrets carry five plates.
    pub open spec fn spec_initial_state(self) -> TurretState {
        match self.2 {
            TurretKind::Outer => TurretState::UpWithPlates { plates: 5 },
            _ => TurretState::Up,
        }
    }

    /// The identifier of the turret named by this index.
    pub fn guid(&self) -> (r: UnitId)
        ensures
            r@ == UnitId::spec_turret_raw(*self),
    {
        UnitId::from(*self)
    }

    /// The turret component the store keeps for this turret when it is spawned.
    pub fn specific(&self) -> (r: SpecificComponentBuilder)
        ensures
            r == SpecificComponentBuilder::Turret(TurretComponent { state: self.spec_initial_state() }),
    {
        let state = match self.2 {
            TurretKind::Outer => TurretState::UpWithPlates { plates: 5 },
            _ => TurretState::Up,
        };
        SpecificComponentBuilder::Turret(TurretComponent { state })
    }
}

/// A turret entity of a store.
pub struct Turret<'store> {
    pub(crate) store: &'store EntityStore,
    pub(crate) entity: &'store Entity,
}

impl<'store> Turret<'store> {
    #[verifier::type_invariant]
    spec fn in_store(&self) -> bool {
        &&& self.store.wf()
        &&& self.store.spec_get(self.entity.guid) == Some(*self.entity)
        &&& self.entity.specific is Turret
    }

    /// The store the turret belongs to.
    pub closed spec fn spec_store(&self) -> EntityStore {
        *self.store
    }

    /// The turret's entity.
    pub closed spec fn spec_entity(&self) -> Entity {
        *self.entity
    }

    /// A handle on `entity`, a turret of `store`.
    pub(crate) fn new(store: &'store EntityStore, entity: &'store Entity) -> (r: Turret<'store>)
        requires
            store.wf(),
            store.spec_get(entity.guid) == Some(*entity),
            entity.specific is Turret,
        ensures
            r.spec_store() == *store,
            r.spec_entity() == *entity,
    {
        Turret { store, entity }
    }

    /// The turret's identifier.
    pub fn guid(&self) -> (r: UnitId)
        ensures
            r == self.spec_entity().guid,
    {
        self.entity.guid
    }

    /// The turret component the store holds for this turret.
    pub fn get_state(&self) -> (r: &TurretComponent)
        ensures
            SpecificComponentBuilder::Turret(*r) == self.spec_store().spec_component(
                self.spec_entity(),
            ),
    {
        proof {
            use_type_invariant(self);
            self.store.lemma_views();
            assert(self.store.spec_entities().contains_key(self.entity.guid@));
        }
        let key = self.entity.get_specific_unchecked().unwrap();
        match slab_get(&self.store.turrets, key) {
            Some((_, SpecificComponentBuilder::Turret(component))) => component,
            _ => vstd::pervasive::unreached(),
        }
    }
}

} // verus!
