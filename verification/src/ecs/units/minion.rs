//! Minions as entities of the store.

use vstd::prelude::*;

use crate::ecs::entity::{Entity, SpecificComponentBuilder};
use crate::ecs::store::{slab_get, EntityStore};
use crate::common::{Lane, Team};
use crate::ecs::units::old_minion::MinionType;
use crate::ecs::{UnitId, HIGH};

verus! {

/// The state the store keeps for a minion: its kind.
#[derive(Debug, Clone, Copy, PartialEq, Eq, Structural)]
pub struct MinionComponent {
    pub kind: MinionType,
}

/// A minion entity of a store, for reading.
pub struct Minion<'store> {
    pub(crate) store: &'store EntityStore,
    pub(crate) entity: &'store Entity,
}

impl<'store> Minion<'store> {
    #[verifier::type_invariant]
    spec fn in_store(&self) -> bool {
        &&& self.store.wf()
        &&& self.store.spec_get(self.entity.guid) == Some(*self.entity)
        &&& self.entity.specific is Minion
    }

    /// The store the minion belongs to.
    pub closed spec fn spec_store(&self) -> EntityStore {
        *self.store
    }

    /// The minion's entity.
    pub closed spec fn spec_entity(&self) -> Entity {
        *self.entity
    }

    /// A handle on `entity`, a minion of `store`.
    pub(crate) fn new(store: &'store EntityStore, entity: &'store Entity) -> (r: Minion<'store>)
        requires
            store.wf(),
            store.spec_get(entity.guid) == Some(*entity),
            entity.specific is Minion,
        ensures
            r.spec_store() == *store,
            r.spec_entity() == *entity,
    {
        Minion { store, entity }
    }

    /// The minion's identifier.
    pub fn guid(&self) -> (r: UnitId)
        ensures
            r == self.spec_entity().guid,
    {
        self.entity.guid
    }
}

/// A minion entity of a store, with the right to change the store.
pub struct MinionMut<'store> {
    pub store: &'store mut EntityStore,
    pub guid: UnitId,
}

impl<'store> MinionMut<'store> {
    /// The store the minion belongs to.
    pub closed spec fn spec_store(&self) -> EntityStore {
        *self.store
    }

    /// The minion's identifier.
    pub closed spec fn spec_guid(&self) -> UnitId {
        self.guid
    }

    /// The handle names a minion of a consistent store.
    pub open spec fn valid(&self) -> bool {
        &&& self.spec_store().wf()
        &&& self.spec_store().spec_get(self.spec_guid()) matches Some(e)
        &&& e.specific is Minion
    }

    /// A handle on the minion `guid` of `store`.
    pub(crate) fn new(store: &'store mut EntityStore, guid: UnitId) -> (r: MinionMut<'store>)
        ensures
            r.spec_store() == *old(store),
            r.spec_guid() == guid,
    {
        MinionMut { store, guid }
    }

    /// The minion's identifier.
    pub fn guid(&self) -> (r: UnitId)
        ensures
            r == self.spec_guid(),
    {
        self.guid
    }

    /// The minion component the store holds for this minion.
    pub fn get_state(&self) -> (r: &MinionComponent)
        requires
            self.valid(),
        ensures
            SpecificComponentBuilder::Minion(*r) == self.spec_store().spec_component(
                self.spec_store().spec_get(self.spec_guid())->0,
            ),
    {
        proof {
            self.store.lemma_views();
        }
        let entity = self.store.get_raw_by_id(self.guid).unwrap();
        let key = entity.get_specific_unchecked().unwrap();
        match slab_get(&self.store.minions, key) {
            Some((_, SpecificComponentBuilder::Minion(component))) => component,
            _ => vstd::pervasive::unreached(),
        }
    }

    /// Removes the minion from its store; every other entity stays.
    pub fn delete(self) -> (r: Result<UnitId, String>)
        requires
            self.valid(),
        ensures
            r == Ok::<UnitId, String>(self.spec_guid()),
            final(self.store).wf(),
            final(self.store).spec_entities() == self.spec_store().spec_entities().remove(
                self.spec_guid()@,
            ),
            final(self.store).spec_get(self.spec_guid()) is None,
            forall|other: UnitId|
                other@ != self.spec_guid()@ ==> #[trigger] final(self.store).spec_get(other)
                    == self.spec_store().spec_get(other),
    {
        self.store.remove_by_id(self.guid)
    }
}

} // verus!

verus! {

/// Describes a minion to spawn: its kind, lane and team, and how far behind the head
/// of its wave it starts on the lane path (in map units, zero or less).
#[derive(Debug, Clone, Copy, PartialEq, Eq, Structural)]
pub struct MinionBuilder {
    pub(crate) kind: Option<MinionType>,
    pub(crate) lane: Option<Lane>,
    pub(crate) team: Option<Team>,
    pub(crate) offset: i64,
}

impl MinionBuilder {
    /// The kind, if set.
    pub closed spec fn spec_kind(&self) -> Option<MinionType> {
        self.kind
    }

    /// The lane, if set.
    pub closed spec fn spec_lane(&self) -> Option<Lane> {
        self.lane
    }

    /// The team, if set.
    pub closed spec fn spec_team(&self) -> Option<Team> {
        self.team
    }

    /// The offset on the lane path.
    pub closed spec fn spec_offset(&self) -> i64 {
        self.offset
    }

    /// A minion of kind `kind`, with nothing else set.
    pub open spec fn of_kind(kind: MinionType, r: MinionBuilder) -> bool {
        &&& r.spec_kind() == Some(kind)
        &&& r.spec_lane() is None
        &&& r.spec_team() is None
        &&& r.spec_offset() == 0
    }

    /// A ranged minion, with nothing else set.
    pub fn ranged() -> (r: Self)
        ensures
            Self::of_kind(MinionType::Ranged, r),
    {
        MinionBuilder { kind: Some(MinionType::Ranged), lane: None, team: None, offset: 0 }
    }

    /// A melee minion, with nothing else set.
    pub fn melee() -> (r: Self)
        ensures
            Self::of_kind(MinionType::Melee, r),
    {
        MinionBuilder { kind: Some(MinionType::Melee), lane: None, team: None, offset: 0 }
    }

    /// A siege minion, with nothing else set.
    pub fn siege() -> (r: Self)
        ensures
            Self::of_kind(MinionType::Siege, r),
    {
        MinionBuilder { kind: Some(MinionType::Siege), lane: None, team: None, offset: 0 }
    }

    /// A super minion, with nothing else set.
    pub fn superm() -> (r: Self)
        ensures
            Self::of_kind(MinionType::SuperMinion, r),
    {
        MinionBuilder { kind: Some(MinionType::SuperMinion), lane: None, team: None, offset: 0 }
    }

    /// The same minion in `lane`.
    pub fn set_lane(self, lane: Lane) -> (r: Self)
        ensures
            r.spec_lane() == Some(lane),
            r.spec_kind() == self.spec_kind(),
            r.spec_team() == self.spec_team(),
            r.spec_offset() == self.spec_offset(),
    {
        MinionBuilder { lane: Some(lane), ..self }
    }

    /// The same minion in `team`.
    pub fn set_team(self, team: Team) -> (r: Self)
        ensures
            r.spec_team() == Some(team),
            r.spec_kind() == self.spec_kind(),
            r.spec_lane() == self.spec_lane(),
            r.spec_offset() == self.spec_offset(),
    {
        MinionBuilder { team: Some(team), ..self }
    }

    /// The same minion, starting `offset` map units along the lane path.
    pub fn set_offset(self, offset: i64) -> (r: Self)
        ensures
            r.spec_offset() == offset,
            r.spec_kind() == self.spec_kind(),
            r.spec_lane() == self.spec_lane(),
            r.spec_team() == self.spec_team(),
    {
        MinionBuilder { offset, ..self }
    }

    /// The kind, which must be set.
    pub fn kind(&self) -> (r: MinionType)
        requires
            self.spec_kind() is Some,
        ensures
            r == self.spec_kind()->0,
    {
        self.kind.unwrap()
    }

    /// The team, which must be set.
    pub fn team(&self) -> (r: Team)
        requires
            self.spec_team() is Some,
        ensures
            r == self.spec_team()->0,
    {
        self.team.unwrap()
    }

    /// The lane, which must be set.
    pub fn lane(&self) -> (r: Lane)
        requires
            self.spec_lane() is Some,
        ensures
            r == self.spec_lane()->0,
    {
        self.lane.unwrap()
    }

    /// The offset along the lane path.
    pub fn offset(&self) -> (r: i64)
        ensures
            r == self.spec_offset(),
    {
        self.offset
    }

    /// The radius of a minion of kind `kind`: 48 for melee and ranged, 65 for siege and super.
    pub open spec fn spec_radius(kind: MinionType) -> u32 {
        match kind {
            MinionType::Melee => 48,
            MinionType::Ranged => 48,
            MinionType::Siege => 65,
            MinionType::SuperMinion => 65,
        }
    }

    /// The radius of the minion, whose kind must be set.
    pub fn radius(&self) -> (r: u32)
        requires
            self.spec_kind() is Some,
        ensures
            r == Self::spec_radius(self.spec_kind()->0),
    {
        match self.kind() {
            MinionType::Melee => 48,
            MinionType::Ranged => 48,
            MinionType::Siege => 65,
            MinionType::SuperMinion => 65,
        }
    }

    /// A fresh identifier for the minion, carrying its team and lane.
    pub fn guid(&self) -> (r: UnitId)
        requires
            self.spec_team() is Some,
            self.spec_lane() is Some,
        ensures
            r.spec_team() == self.spec_team(),
            r.spec_lane() == self.spec_lane(),
            !r.spec_is_turret(),
            r@ / HIGH > 256,
    {
        UnitId::new(Some(self.team()), Some(self.lane()))
    }

    /// The minion component the store keeps for this minion.
    pub fn specific(&self) -> (r: SpecificComponentBuilder)
        requires
            self.spec_kind() is Some,
        ensures
            r == SpecificComponentBuilder::Minion(MinionComponent { kind: self.spec_kind()->0 }),
    {
        SpecificComponentBuilder::Minion(MinionComponent { kind: self.kind() })
    }
}

} // verus!
