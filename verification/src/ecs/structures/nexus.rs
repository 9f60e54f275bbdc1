//! The nexus of each team as an entity of the store.

use vstd::prelude::*;

use crate::common::Team;
use crate::ecs::entity::{Entity, SpecificComponentBuilder};
use crate::ecs::store::EntityStore;
use crate::ecs::UnitId;

verus! {

/// Names the nexus of a team.
#[derive(Debug, Clone, Copy, PartialEq, Eq, Structural)]
pub struct NexusIndex {
    pub team: Team,
}

impl NexusIndex {
    /// The nexus of `team`.
    pub fn from(team: Team) -> (r: NexusIndex)
        ensures
            r.team == team,
    {
        NexusIndex { team }
    }

    /// The identifier of the nexus.
    pub fn guid(&self) -> (r: UnitId)
        ensures
            r@ == UnitId::spec_nexus_raw(*self),
    {
        UnitId::from(self)
    }

    /// A nexus has no kind-specific component.
    pub fn specific(&self) -> (r: SpecificComponentBuilder)
        ensures
            r == SpecificComponentBuilder::Nothing,
    {
        SpecificComponentBuilder::Nothing
    }
}

/// The nexus entity of a store.
pub struct Nexus<'a> {
    pub(crate) store: &'a EntityStore,
    pub(crate) entity: &'a Entity,
}

impl<'a> Nexus<'a> {
    /// The store the nexus belongs to.
    pub closed spec fn spec_store(&self) -> EntityStore {
        *self.store
    }

    /// The nexus's entity.
    pub closed spec fn spec_entity(&self) -> Entity {
        *self.entity
    }

    /// A handle on `entity`, an entity of `store`.
    pub(crate) fn new(store: &'a EntityStore, entity: &'a Entity) -> (r: Nexus<'a>)
        ensures
            r.spec_store() == *store,
            r.spec_entity() == *entity,
    {
        Nexus { store, entity }
    }

    /// The nexus's identifier.
    pub fn guid(&self) -> (r: UnitId)
        ensures
            r == self.spec_entity().guid,
    {
        self.entity.guid
    }
}

} // verus!
