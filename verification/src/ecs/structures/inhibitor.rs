//! Inhibitors as entities of the store.

use vstd::prelude::*;

use crate::common::{GameTimer, Lane, Team};
use crate::ecs::entity::{Entity, SpecificComponentBuilder};
use crate::ecs::store::{slab_get, EntityStore};
use crate::ecs::UnitId;

verus! {

/// The state the store keeps for an inhibitor: the time it fell, while it is down.
#[derive(Debug, Clone, Copy, PartialEq, Eq, Structural)]
pub struct InhibitorComponent {
    pub down: Option<GameTimer>,
}

impl InhibitorComponent {
    /// A standing inhibitor.
    pub fn default() -> (r: InhibitorComponent)
        ensures
            r.down is None,
    {
        InhibitorComponent { down: None }
    }
}

/// Names an inhibitor by team and lane.
#[derive(Debug, Clone, Copy, PartialEq, Eq, Structural, Hash)]
pub struct InhibitorIndex(pub Team, pub Lane);

impl InhibitorIndex {
    pub fn red_top() -> (r: Self)
        ensures
            r == InhibitorIndex(Team::Red, Lane::Top),
    {
        InhibitorIndex(Team::Red, Lane::Top)
    }

    pub fn red_mid() -> (r: Self)
        ensures
            r == InhibitorIndex(Team::Red, Lane::Mid),
    {
        InhibitorIndex(Team::Red, Lane::Mid)
    }

    pub fn red_bot() -> (r: Self)
        ensures
            r == InhibitorIndex(Team::Red, Lane::Bot),
    {
        InhibitorIndex(Team::Red, Lane::Bot)
    }

    pub fn blue_top() -> (r: Self)
        ensures
            r == InhibitorIndex(Team::Blue, Lane::Top),
    {
        InhibitorIndex(Team::Blue, Lane::Top)
    }

    pub fn blue_mid() -> (r: Self)
        ensures
            r == InhibitorIndex(Team::Blue, Lane::Mid),
    {
        InhibitorIndex(Team::Blue, Lane::Mid)
    }

    pub fn blue_bot() -> (r: Self)
        ensures
            r == InhibitorIndex(Team::Blue, Lane::Bot),
    {
        InhibitorIndex(Team::Blue, Lane::Bot)
    }

    /// The identifier of the inhibitor named by this index.
    pub fn guid(&self) -> (r: UnitId)
        ensures
            r@ == UnitId::spec_inhibitor_raw(*self),
    {
        UnitId::from(*self)
    }

    /// The inhibitor component the store keeps when it is spawned: standing.
    pub fn specific(&self) -> (r: SpecificComponentBuilder)
        ensures
            r == SpecificComponentBuilder::Inhibitor(InhibitorComponent { down: None }),
    {
        SpecificComponentBuilder::Inhibitor(InhibitorComponent { down: None })
    }
}

/// An inhibitor entity of a store.
pub struct Inhibitor<'a> {
    pub(crate) store: &'a EntityStore,
    pub(crate) entity: &'a Entity,
}

impl<'a> Inhibitor<'a> {
    #[verifier::type_invariant]
    spec fn in_store(&self) -> bool {
        &&& self.store.wf()
        &&& self.store.spec_get(self.entity.guid) == Some(*self.entity)
        &&& self.entity.specific is Inhibitor
    }

    /// The store the inhibitor belongs to.
    pub closed spec fn spec_store(&self) -> EntityStore {
        *self.store
    }

    /// The inhibitor's entity.
    pub closed spec fn spec_entity(&self) -> Entity {
        *self.entity
    }

    /// The inhibitor component the store holds for this inhibitor.
    pub open spec fn spec_state(&self) -> InhibitorComponent {
        match self.spec_store().spec_component(self.spec_entity()) {
            SpecificComponentBuilder::Inhibitor(c) => c,
            _ => InhibitorComponent { down: None },
        }
    }

    /// A handle on `entity`, an inhibitor of `store`.
    pub(crate) fn new(store: &'a EntityStore, entity: &'a Entity) -> (r: Inhibitor<'a>)
        requires
            store.wf(),
            store.spec_get(entity.guid) == Some(*entity),
            entity.specific is Inhibitor,
        ensures
            r.spec_store() == *store,
            r.spec_entity() == *entity,
    {
        Inhibitor { store, entity }
    }

    /// The inhibitor's identifier.
    pub fn guid(&self) -> (r: UnitId)
        ensures
            r == self.spec_entity().guid,
    {
        self.entity.guid
    }

    /// Returns whether the inhibitor stands.
    pub fn is_up(&self) -> (r: bool)
        ensures
            r == (self.spec_state().down is None),
    {
        self.get_state().down.is_none()
    }

    /// Returns whether the inhibitor has fallen.
    pub fn is_down(&self) -> (r: bool)
        ensures
            r == (self.spec_state().down is Some),
    {
        self.get_state().down.is_some()
    }

    /// The inhibitor component the store holds for this inhibitor.
    pub fn get_state(&self) -> (r: &InhibitorComponent)
        ensures
            SpecificComponentBuilder::Inhibitor(*r) == self.spec_store().spec_component(
                self.spec_entity(),
            ),
            *r == self.spec_state(),
    {
        proof {
            use_type_invariant(self);
            self.store.lemma_views();
            assert(self.store.spec_entities().contains_key(self.entity.guid@));
        }
        let key = self.entity.get_specific_unchecked().unwrap();
        match slab_get(&self.store.inhibitors, key) {
            Some((_, SpecificComponentBuilder::Inhibitor(component))) => component,
            _ => vstd::pervasive::unreached(),
        }
    }
}

} // verus!
