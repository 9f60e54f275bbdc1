//! The entity store: entities by identifier, and slabs of kind-specific components.

use vstd::prelude::*;

use crate::common::Team;
use crate::ecs::entity::{Entity, SpecificComponent, SpecificComponentBuilder};
use crate::ecs::structures::inhibitor::Inhibitor;
use crate::ecs::structures::nexus::{Nexus, NexusIndex};
use crate::ecs::structures::turret::Turret;
use crate::ecs::units::minion::{Minion, MinionMut};
use crate::ecs::UnitId;
use std::collections::HashMap;

verus! {

broadcast use vstd::std_specs::hash::group_hash_axioms;

/// A slot of a component slab: the owning entity and its component.
pub type ComponentSlot = (UnitId, SpecificComponentBuilder);

#[verifier::external_type_specification]
#[verifier::external_body]
#[verifier::reject_recursive_types(T)]
pub struct ExSlab<T>(slab::Slab<T>);

/// What a slab of components holds: the occupied keys and their slots.
pub uninterp spec fn slab_slots(slab: slab::Slab<ComponentSlot>) -> Map<usize, ComponentSlot>;

/// Calls `slab::Slab::with_capacity`, which the crate's source shows to build a slab
/// with no occupied key.
#[verifier::external_body]
fn slab_with_capacity(capacity: usize) -> (r: slab::Slab<ComponentSlot>)
    ensures
        slab_slots(r).is_empty(),
{
    slab::Slab::with_capacity(capacity)
}

/// Calls `slab::Slab::insert`, which stores `slot` under a key that was vacant and
/// returns that key; the other keys keep their slots.  The source panics only when
/// the allocation exceeds `isize::MAX` bytes, which this contract does not state.
#[verifier::external_body]
fn slab_insert(slab: &mut slab::Slab<ComponentSlot>, slot: ComponentSlot) -> (key: usize)
    ensures
        !slab_slots(*old(slab)).contains_key(key),
        slab_slots(*final(slab)) == slab_slots(*old(slab)).insert(key, slot),
{
    slab.insert(slot)
}

/// Calls `slab::Slab::try_remove`, which takes the slot out of an occupied key and
/// gives it back, and leaves the slab unchanged for a vacant key.
#[verifier::external_body]
fn slab_try_remove(slab: &mut slab::Slab<ComponentSlot>, key: usize) -> (r: Option<ComponentSlot>)
    ensures
        slab_slots(*old(slab)).contains_key(key) ==> r == Some(slab_slots(*old(slab))[key])
            && slab_slots(*final(slab)) == slab_slots(*old(slab)).remove(key),
        !slab_slots(*old(slab)).contains_key(key) ==> r is None && slab_slots(*final(slab))
            == slab_slots(*old(slab)),
{
    slab.try_remove(key)
}

/// Calls `slab::Slab::get`, which returns the slot of an occupied key and nothing for
/// a vacant one.
#[verifier::external_body]
pub(crate) fn slab_get(slab: &slab::Slab<ComponentSlot>, key: usize) -> (r: Option<&ComponentSlot>)
    ensures
        slab_slots(*slab).contains_key(key) ==> r == Some(&slab_slots(*slab)[key]),
        !slab_slots(*slab).contains_key(key) ==> r is None,
{
    slab.get(key)
}

/// Calls `slab::Slab::iter` and keeps the key of each slot: the source walks the
/// entries in increasing key order and yields every occupied one.
#[verifier::external_body]
fn slab_keys(slab: &slab::Slab<ComponentSlot>) -> (r: Vec<usize>)
    ensures
        forall|i: int, j: int| 0 <= i < j < r@.len() ==> r@[i] < r@[j],
        forall|i: int| 0 <= i < r@.len() ==> slab_slots(*slab).contains_key(#[trigger] r@[i]),
        forall|k: usize| slab_slots(*slab).contains_key(k) ==> r@.contains(k),
{
    slab.iter().map(|(key, _)| key).collect()
}

/// The store of all entities of a game.
pub struct EntityStore {
    pub(crate) entities: HashMap<u64, Entity>,
    pub(crate) turrets: slab::Slab<ComponentSlot>,
    pub(crate) inhibitors: slab::Slab<ComponentSlot>,
    pub(crate) minions: slab::Slab<ComponentSlot>,
}

/// The slot `key` of `slots` exists, belongs to `guid` and holds a component matching `kind`.
pub open spec fn slot_matches(
    slots: Map<usize, ComponentSlot>,
    key: usize,
    guid: UnitId,
    kind: SpecificComponent,
) -> bool {
    &&& slots.contains_key(key)
    &&& slots[key].0 == guid
    &&& match kind {
        SpecificComponent::Turret(_) => slots[key].1 is Turret,
        SpecificComponent::Inhibitor(_) => slots[key].1 is Inhibitor,
        SpecificComponent::Minion(_) => slots[key].1 is Minion,
        SpecificComponent::Nothing => true,
    }
}

/// The entity `owner` is stored, is not the null identifier, and its component key
/// is `key`.
pub open spec fn owns_slot(store: EntityStore, owner: UnitId, key: SpecificComponent) -> bool {
    &&& owner@ != 0
    &&& store.spec_entities().contains_key(owner@)
    &&& store.spec_entities()[owner@].specific == key
}

/// From `before` to `after`, the slot `(guid, specific)` went into a key of the slab
/// of its kind that was vacant, and that key is the component key of the entity
/// `guid`; the other slabs did not change.  A nexus (no component) changes no slab.
pub open spec fn spawned_slot(
    before: EntityStore,
    after: EntityStore,
    guid: UnitId,
    specific: SpecificComponentBuilder,
) -> bool {
    let key = after.spec_entities()[guid@].specific;
    match specific {
        SpecificComponentBuilder::Nothing => {
            &&& key == SpecificComponent::Nothing
            &&& after.spec_turrets() == before.spec_turrets()
            &&& after.spec_inhibitors() == before.spec_inhibitors()
            &&& after.spec_minions() == before.spec_minions()
        },
        SpecificComponentBuilder::Turret(_) => match key {
            SpecificComponent::Turret(k) => {
                &&& !before.spec_turrets().contains_key(k)
                &&& after.spec_turrets() == before.spec_turrets().insert(k, (guid, specific))
                &&& after.spec_inhibitors() == before.spec_inhibitors()
                &&& after.spec_minions() == before.spec_minions()
            },
            _ => false,
        },
        SpecificComponentBuilder::Inhibitor(_) => match key {
            SpecificComponent::Inhibitor(k) => {
                &&& !before.spec_inhibitors().contains_key(k)
                &&& after.spec_inhibitors() == before.spec_inhibitors().insert(k, (guid, specific))
                &&& after.spec_turrets() == before.spec_turrets()
                &&& after.spec_minions() == before.spec_minions()
            },
            _ => false,
        },
        SpecificComponentBuilder::Minion(_) => match key {
            SpecificComponent::Minion(k) => {
                &&& !before.spec_minions().contains_key(k)
                &&& after.spec_minions() == before.spec_minions().insert(k, (guid, specific))
                &&& after.spec_turrets() == before.spec_turrets()
                &&& after.spec_inhibitors() == before.spec_inhibitors()
            },
            _ => false,
        },
    }
}

/// From `before` to `after`, exactly the slot under the component key `key` left the
/// slab of its kind; the other slabs did not change.
pub open spec fn removed_slot(before: EntityStore, after: EntityStore, key: SpecificComponent) -> bool {
    match key {
        SpecificComponent::Nothing => {
            &&& after.spec_turrets() == before.spec_turrets()
            &&& after.spec_inhibitors() == before.spec_inhibitors()
            &&& after.spec_minions() == before.spec_minions()
        },
        SpecificComponent::Turret(k) => {
            &&& after.spec_turrets() == before.spec_turrets().remove(k)
            &&& after.spec_inhibitors() == before.spec_inhibitors()
            &&& after.spec_minions() == before.spec_minions()
        },
        SpecificComponent::Inhibitor(k) => {
            &&& after.spec_inhibitors() == before.spec_inhibitors().remove(k)
            &&& after.spec_turrets() == before.spec_turrets()
            &&& after.spec_minions() == before.spec_minions()
        },
        SpecificComponent::Minion(k) => {
            &&& after.spec_minions() == before.spec_minions().remove(k)
            &&& after.spec_turrets() == before.spec_turrets()
            &&& after.spec_inhibitors() == before.spec_inhibitors()
        },
    }
}

impl EntityStore {
    /// The closed views of the store are those of its fields.
    pub(crate) proof fn lemma_views(&self)
        ensures
            self.spec_entities() == self.entities@,
            self.spec_turrets() == slab_slots(self.turrets),
            self.spec_inhibitors() == slab_slots(self.inhibitors),
            self.spec_minions() == slab_slots(self.minions),
    {
    }

    /// The entities by raw identifier.
    pub closed spec fn spec_entities(&self) -> Map<u64, Entity> {
        self.entities@
    }

    /// The turret slab.
    pub closed spec fn spec_turrets(&self) -> Map<usize, ComponentSlot> {
        slab_slots(self.turrets)
    }

    /// The inhibitor slab.
    pub closed spec fn spec_inhibitors(&self) -> Map<usize, ComponentSlot> {
        slab_slots(self.inhibitors)
    }

    /// The minion slab.
    pub closed spec fn spec_minions(&self) -> Map<usize, ComponentSlot> {
        slab_slots(self.minions)
    }

    /// The entity's kind-specific component sits in the right slab, under the
    /// entity's identifier.
    pub open spec fn component_consistent(&self, e: Entity) -> bool {
        match e.specific {
            SpecificComponent::Nothing => true,
            SpecificComponent::Turret(k) => slot_matches(self.spec_turrets(), k, e.guid, e.specific),
            SpecificComponent::Inhibitor(k) => slot_matches(
                self.spec_inhibitors(),
                k,
                e.guid,
                e.specific,
            ),
            SpecificComponent::Minion(k) => slot_matches(self.spec_minions(), k, e.guid, e.specific),
        }
    }

    /// Every entity is stored under its own identifier, and its component is where
    /// its key says.
    pub open spec fn wf(&self) -> bool {
        &&& forall|k: u64| #[trigger]
            self.spec_entities().contains_key(k) ==> self.spec_entities()[k].guid@ == k
                && self.component_consistent(self.spec_entities()[k])
        &&& self.spec_turrets().dom().finite()
        &&& self.spec_inhibitors().dom().finite()
        &&& self.spec_minions().dom().finite()
    }

    /// Every slot of the three component slabs belongs to a stored entity with a
    /// non-null identifier whose component key is that slot: no slot is left over
    /// from an entity that was replaced.
    pub open spec fn slots_owned(&self) -> bool {
        &&& forall|k: usize| #[trigger]
            self.spec_turrets().contains_key(k) ==> owns_slot(
                *self,
                self.spec_turrets()[k].0,
                SpecificComponent::Turret(k),
            )
        &&& forall|k: usize| #[trigger]
            self.spec_inhibitors().contains_key(k) ==> owns_slot(
                *self,
                self.spec_inhibitors()[k].0,
                SpecificComponent::Inhibitor(k),
            )
        &&& forall|k: usize| #[trigger]
            self.spec_minions().contains_key(k) ==> owns_slot(
                *self,
                self.spec_minions()[k].0,
                SpecificComponent::Minion(k),
            )
    }

    /// The entity stored under `id`, as `get_raw_by_id` finds it.
    pub open spec fn spec_get(&self, id: UnitId) -> Option<Entity> {
        if id@ != 0 && self.spec_entities().contains_key(id@) {
            Some(self.spec_entities()[id@])
        } else {
            None
        }
    }

    /// A store with no entity.
    pub(crate) fn empty() -> (r: EntityStore)
        ensures
            r.wf(),
            r.slots_owned(),
            r.spec_entities() == Map::<u64, Entity>::empty(),
            r.spec_turrets().is_empty(),
            r.spec_inhibitors().is_empty(),
            r.spec_minions().is_empty(),
    {
        EntityStore {
            entities: HashMap::with_capacity(128),
            turrets: slab_with_capacity(64),
            inhibitors: slab_with_capacity(64),
            minions: slab_with_capacity(8 * 3 * 2 * 3),
        }
    }

    /// Adds an entity with identifier `guid` whose position and pathfinding
    /// components sit under the given keys, storing its kind-specific component in
    /// the slab of its kind.  An entity already stored under `guid` is replaced.
    pub fn spawn(
        &mut self,
        guid: UnitId,
        position: usize,
        pathfinding: usize,
        specific: SpecificComponentBuilder,
    ) -> (r: UnitId)
        requires
            old(self).wf(),
        ensures
            r == guid,
            final(self).wf(),
            final(self).spec_entities().contains_key(guid@),
            final(self).spec_entities()[guid@].guid == guid,
            final(self).spec_entities()[guid@].position == position,
            final(self).spec_entities()[guid@].pathfinding == pathfinding,
            final(self).spec_component(final(self).spec_entities()[guid@]) == specific,
            guid@ != 0 ==> final(self).spec_get(guid) == Some(final(self).spec_entities()[guid@]),
            forall|id: UnitId| id@ != guid@ ==> #[trigger] final(self).spec_get(id) == old(self).spec_get(id),
            spawned_slot(*old(self), *final(self), guid, specific),
            old(self).slots_owned() && guid@ != 0 && !old(self).spec_entities().contains_key(guid@)
                ==> final(self).slots_owned(),
            forall|k: u64|
                k != guid@ ==> #[trigger] final(self).spec_entities().contains_key(k)
                    == old(self).spec_entities().contains_key(k),
            forall|k: u64|
                k != guid@ && #[trigger] old(self).spec_entities().contains_key(k) ==> final(self).spec_entities()[k] == old(self).spec_entities()[k] && final(self).spec_component(
                    old(self).spec_entities()[k],
                ) == old(self).spec_component(old(self).spec_entities()[k]),
    {
        let ghost old_store = *self;
        let spec_kind = match specific {
            SpecificComponentBuilder::Nothing => SpecificComponent::Nothing,
            SpecificComponentBuilder::Turret(_) => {
                SpecificComponent::Turret(slab_insert(&mut self.turrets, (guid, specific)))
            },
            SpecificComponentBuilder::Inhibitor(_) => {
                SpecificComponent::Inhibitor(slab_insert(&mut self.inhibitors, (guid, specific)))
            },
            SpecificComponentBuilder::Minion(_) => {
                SpecificComponent::Minion(slab_insert(&mut self.minions, (guid, specific)))
            },
        };
        let components = Entity { guid, position, specific: spec_kind, pathfinding };
        let raw = guid.to_bits();
        self.entities.insert(raw, components);
        proof {
            assert forall|k: u64| #[trigger] self.spec_entities().contains_key(k) implies self.spec_entities()[k].guid@
                == k && self.component_consistent(self.spec_entities()[k]) by {
                if k != raw {
                    assert(old_store.spec_entities().contains_key(k));
                }
            }
        }
        guid
    }

    /// The kind-specific component of `e`, as the store holds it.
    pub open spec fn spec_component(&self, e: Entity) -> SpecificComponentBuilder {
        match e.specific {
            SpecificComponent::Nothing => SpecificComponentBuilder::Nothing,
            SpecificComponent::Turret(k) => self.spec_turrets()[k].1,
            SpecificComponent::Inhibitor(k) => self.spec_inhibitors()[k].1,
            SpecificComponent::Minion(k) => self.spec_minions()[k].1,
        }
    }

    /// The entity stored under `id`; nothing for the null identifier.
    pub fn get_raw_by_id(&self, id: UnitId) -> (r: Option<&Entity>)
        ensures
            r == match self.spec_get(id) {
                Some(e) => Some(&e),
                None => None,
            },
    {
        if id.is_null() {
            return None;
        }
        let raw = id.to_bits();
        self.entities.get(&raw)
    }

    /// Removes the entity stored under `id` and its kind-specific component; fails,
    /// with the source location of the failed lookup, when no entity is stored there.
    pub fn remove_by_id(&mut self, id: UnitId) -> (r: Result<UnitId, String>)
        requires
            old(self).wf(),
        ensures
            final(self).wf(),
            old(self).spec_entities().contains_key(id@) <==> r is Ok,
            r is Ok ==> r->Ok_0 == id,
            r is Err ==> r->Err_0@ == spec_missing_entity_message(),
            final(self).spec_entities() == old(self).spec_entities().remove(id@),
            final(self).spec_get(id) is None,
            forall|other: UnitId| other@ != id@ ==> #[trigger] final(self).spec_get(other) == old(self).spec_get(other),
            r is Err ==> removed_slot(*old(self), *final(self), SpecificComponent::Nothing),
            r is Ok ==> removed_slot(*old(self), *final(self), old(self).spec_entities()[id@].specific),
            old(self).slots_owned() ==> final(self).slots_owned(),
            forall|k: u64|
                k != id@ && #[trigger] old(self).spec_entities().contains_key(k) ==> final(self).spec_component(old(self).spec_entities()[k]) == old(self).spec_component(
                    old(self).spec_entities()[k],
                ),
    {
        let ghost old_store = *self;
        let raw = id.to_bits();
        let entity = match self.entities.remove(&raw) {
            Some(e) => e,
            None => {
                return Err(missing_entity_message());
            },
        };
        let removed = match entity.specific {
            SpecificComponent::Nothing => true,
            SpecificComponent::Turret(key) => slab_try_remove(&mut self.turrets, key).is_some(),
            SpecificComponent::Inhibitor(key) => slab_try_remove(
                &mut self.inhibitors,
                key,
            ).is_some(),
            SpecificComponent::Minion(key) => slab_try_remove(&mut self.minions, key).is_some(),
        };
        proof {
            assert(old_store.spec_entities().contains_key(raw));
            assert(removed);
            assert forall|k: u64| #[trigger] self.spec_entities().contains_key(k) implies self.spec_entities()[k].guid@
                == k && self.component_consistent(self.spec_entities()[k]) && self.spec_component(self.spec_entities()[k]) == old_store.spec_component(self.spec_entities()[k]) by {
                assert(old_store.spec_entities().contains_key(k));
                let e2 = old_store.spec_entities()[k];
                assert(old_store.component_consistent(e2));
            }
        }
        Ok(entity.guid)
    }
}

/// The three kinds of entities that have a component slab.
#[derive(Debug, Clone, Copy, PartialEq, Eq, Structural)]
pub enum ComponentKind {
    Turret,
    Inhibitor,
    Minion,
}

impl ComponentKind {
    /// `specific` is the key of a component of this kind.
    pub open spec fn matches(self, specific: SpecificComponent) -> bool {
        match self {
            ComponentKind::Turret => specific is Turret,
            ComponentKind::Inhibitor => specific is Inhibitor,
            ComponentKind::Minion => specific is Minion,
        }
    }
}

/// `ks` lists the occupied keys of `slots` in increasing order.
pub open spec fn keys_in_order(ks: Seq<usize>, slots: Map<usize, ComponentSlot>) -> bool {
    &&& forall|i: int, j: int| 0 <= i < j < ks.len() ==> ks[i] < ks[j]
    &&& forall|i: int| 0 <= i < ks.len() ==> slots.contains_key(#[trigger] ks[i])
    &&& forall|k: usize| slots.contains_key(k) ==> ks.contains(k)
}

impl EntityStore {
    /// Walking the slots under `ks`, the entities that own them and whose kind-specific
    /// component satisfies `is_kind`, in walking order.
    pub open spec fn listed(
        &self,
        slots: Map<usize, ComponentSlot>,
        ks: Seq<usize>,
        kind: ComponentKind,
    ) -> Seq<Entity>
        decreases ks.len(),
    {
        if ks.len() == 0 {
            Seq::empty()
        } else {
            let prev = self.listed(slots, ks.drop_last(), kind);
            match self.spec_get(slots[ks.last()].0) {
                Some(e) => if kind.matches(e.specific) {
                    prev.push(e)
                } else {
                    prev
                },
                None => prev,
            }
        }
    }

    /// When every slot under `ks` belongs to a stored entity whose component key of
    /// kind `kind` is that slot, walking `ks` lists one entity per key.
    proof fn lemma_listed_len(
        &self,
        slots: Map<usize, ComponentSlot>,
        ks: Seq<usize>,
        kind: ComponentKind,
        key_of: spec_fn(usize) -> SpecificComponent,
    )
        requires
            forall|k: usize| #[trigger] kind.matches(key_of(k)),
            forall|i: int|
                0 <= i < ks.len() ==> slots.contains_key(#[trigger] ks[i]) && owns_slot(
                    *self,
                    slots[ks[i]].0,
                    key_of(ks[i]),
                ),
        ensures
            self.listed(slots, ks, kind).len() == ks.len(),
        decreases ks.len(),
    {
        if ks.len() > 0 {
            let rest = ks.drop_last();
            assert forall|i: int|
                0 <= i < rest.len() implies slots.contains_key(#[trigger] rest[i]) && owns_slot(
                *self,
                slots[rest[i]].0,
                key_of(rest[i]),
            ) by {
                assert(rest[i] == ks[i]);
            }
            self.lemma_listed_len(slots, rest, kind, key_of);
            let last = ks[ks.len() - 1];
            assert(owns_slot(*self, slots[last].0, key_of(last)));
            assert(kind.matches(key_of(last)));
        }
    }

    /// The keys listed in order are as many as the occupied keys of a slab with a
    /// finite set of keys.
    proof fn lemma_keys_len(ks: Seq<usize>, slots: Map<usize, ComponentSlot>)
        requires
            keys_in_order(ks, slots),
            slots.dom().finite(),
        ensures
            ks.len() == slots.dom().len(),
    {
        assert(ks.no_duplicates()) by {
            assert forall|i: int, j: int|
                0 <= i < ks.len() && 0 <= j < ks.len() && i != j implies ks[i] != ks[j] by {
                if i < j {
                    assert(ks[i] < ks[j]);
                } else {
                    assert(ks[j] < ks[i]);
                }
            }
        }
        ks.unique_seq_to_set();
        assert(ks.to_set() =~= slots.dom()) by {
            assert forall|k: usize| ks.to_set().contains(k) implies slots.dom().contains(k) by {
                let i = choose|i: int| 0 <= i < ks.len() && ks[i] == k;
                assert(slots.contains_key(ks[i]));
            }
        }
    }

    /// When the slots of the store are owned, the turrets, inhibitors and minions it
    /// lists are as many as the occupied keys of their slab.
    pub proof fn lemma_listed_counts(&self, ks: Seq<usize>, kind: ComponentKind)
        requires
            self.wf(),
            self.slots_owned(),
            keys_in_order(
                ks,
                match kind {
                    ComponentKind::Turret => self.spec_turrets(),
                    ComponentKind::Inhibitor => self.spec_inhibitors(),
                    ComponentKind::Minion => self.spec_minions(),
                },
            ),
        ensures
            ({
                let slots = match kind {
                    ComponentKind::Turret => self.spec_turrets(),
                    ComponentKind::Inhibitor => self.spec_inhibitors(),
                    ComponentKind::Minion => self.spec_minions(),
                };
                self.listed(slots, ks, kind).len() == slots.dom().len()
            }),
    {
        match kind {
            ComponentKind::Turret => {
                let key_of = |k: usize| SpecificComponent::Turret(k);
                assert forall|i: int| 0 <= i < ks.len() implies self.spec_turrets().contains_key(#[trigger] ks[i])
                    && owns_slot(*self, self.spec_turrets()[ks[i]].0, key_of(ks[i])) by {
                    assert(self.spec_turrets().contains_key(ks[i]));
                }
                self.lemma_listed_len(self.spec_turrets(), ks, kind, key_of);
                Self::lemma_keys_len(ks, self.spec_turrets());
            },
            ComponentKind::Inhibitor => {
                let key_of = |k: usize| SpecificComponent::Inhibitor(k);
                assert forall|i: int| 0 <= i < ks.len() implies self.spec_inhibitors().contains_key(#[trigger] ks[i])
                    && owns_slot(*self, self.spec_inhibitors()[ks[i]].0, key_of(ks[i])) by {
                    assert(self.spec_inhibitors().contains_key(ks[i]));
                }
                self.lemma_listed_len(self.spec_inhibitors(), ks, kind, key_of);
                Self::lemma_keys_len(ks, self.spec_inhibitors());
            },
            ComponentKind::Minion => {
                let key_of = |k: usize| SpecificComponent::Minion(k);
                assert forall|i: int| 0 <= i < ks.len() implies self.spec_minions().contains_key(#[trigger] ks[i])
                    && owns_slot(*self, self.spec_minions()[ks[i]].0, key_of(ks[i])) by {
                    assert(self.spec_minions().contains_key(ks[i]));
                }
                self.lemma_listed_len(self.spec_minions(), ks, kind, key_of);
                Self::lemma_keys_len(ks, self.spec_minions());
            },
        }
    }

    /// The turret stored under `id`, if the entity under `id` is a turret.
    pub fn get_turret(&self, id: UnitId) -> (r: Option<Turret<'_>>)
        requires
            self.wf(),
        ensures
            match self.spec_get(id) {
                Some(e) => if e.specific is Turret {
                    r is Some && r->0.spec_entity() == e && r->0.spec_store() == *self
                } else {
                    r is None
                },
                None => r is None,
            },
    {
        match self.get_raw_by_id(id) {
            Some(entity) => if entity.is_turret() {
                Some(Turret::new(self, entity))
            } else {
                None
            },
            None => None,
        }
    }

    /// The inhibitor stored under `id`, if the entity under `id` is an inhibitor.
    pub fn get_inhib(&self, id: UnitId) -> (r: Option<Inhibitor<'_>>)
        requires
            self.wf(),
        ensures
            match self.spec_get(id) {
                Some(e) => if e.specific is Inhibitor {
                    r is Some && r->0.spec_entity() == e && r->0.spec_store() == *self
                } else {
                    r is None
                },
                None => r is None,
            },
    {
        match self.get_raw_by_id(id) {
            Some(entity) => if entity.is_inhib() {
                Some(Inhibitor::new(self, entity))
            } else {
                None
            },
            None => None,
        }
    }

    /// The minion stored under `id`, if the entity under `id` is a minion.
    pub fn get_minion(&self, id: UnitId) -> (r: Option<Minion<'_>>)
        requires
            self.wf(),
        ensures
            match self.spec_get(id) {
                Some(e) => if e.specific is Minion {
                    r is Some && r->0.spec_entity() == e && r->0.spec_store() == *self
                } else {
                    r is None
                },
                None => r is None,
            },
    {
        match self.get_raw_by_id(id) {
            Some(entity) => if entity.is_minion() {
                Some(Minion::new(self, entity))
            } else {
                None
            },
            None => None,
        }
    }

    /// The minion stored under `id`, for changing, if the entity under `id` is a minion.
    pub fn get_minion_mut(&mut self, id: UnitId) -> (r: Option<MinionMut<'_>>)
        requires
            old(self).wf(),
        ensures
            match old(self).spec_get(id) {
                Some(e) => if e.specific is Minion {
                    r is Some && r->0.spec_guid() == id && r->0.spec_store() == *old(self)
                        && r->0.valid()
                } else {
                    r is None
                },
                None => r is None,
            },
    {
        let is_minion = match self.get_raw_by_id(id) {
            Some(entity) => entity.is_minion(),
            None => false,
        };
        if is_minion {
            Some(MinionMut::new(self, id))
        } else {
            None
        }
    }

    /// The nexus of `team`, if it was spawned.
    pub fn get_nexus(&self, team: Team) -> (r: Option<Nexus<'_>>)
        requires
            self.wf(),
        ensures
            match self.spec_get(UnitId::spec_nexus_raw_id(NexusIndex { team })) {
                Some(e) => r is Some && r->0.spec_entity() == e && r->0.spec_store() == *self,
                None => r is None,
            },
    {
        let index = NexusIndex::from(team);
        match self.get_raw_by_id(index.guid()) {
            Some(entity) => Some(Nexus::new(self, entity)),
            None => None,
        }
    }

    /// The nexus of the blue team, then the one of the red team, as far as they were spawned.
    pub fn nexuses(&self) -> (r: Vec<Nexus<'_>>)
        requires
            self.wf(),
        ensures
            r@.map_values(|n: Nexus| n.spec_entity()) == (match self.spec_get(
                UnitId::spec_nexus_raw_id(NexusIndex { team: Team::Blue }),
            ) {
                Some(e) => seq![e],
                None => Seq::empty(),
            }) + (match self.spec_get(UnitId::spec_nexus_raw_id(NexusIndex { team: Team::Red })) {
                Some(e) => seq![e],
                None => Seq::empty(),
            }),
            forall|i: int| 0 <= i < r@.len() ==> (#[trigger] r@[i]).spec_store() == *self,
    {
        let mut r = Vec::new();
        if let Some(n) = self.get_nexus(Team::Blue) {
            r.push(n);
        }
        if let Some(n) = self.get_nexus(Team::Red) {
            r.push(n);
        }
        assert(r@.map_values(|n: Nexus| n.spec_entity()) =~= (match self.spec_get(
            UnitId::spec_nexus_raw_id(NexusIndex { team: Team::Blue }),
        ) {
            Some(e) => seq![e],
            None => Seq::empty(),
        }) + (match self.spec_get(UnitId::spec_nexus_raw_id(NexusIndex { team: Team::Red })) {
            Some(e) => seq![e],
            None => Seq::empty(),
        }));
        r
    }

    /// The turrets of the store, walking the turret slab in increasing key order.
    pub fn turrets(&self) -> (r: Vec<Turret<'_>>)
        requires
            self.wf(),
        ensures
            exists|ks: Seq<usize>|
                keys_in_order(ks, self.spec_turrets()) && turret_entities(r@)
                    == self.listed(self.spec_turrets(), ks, ComponentKind::Turret),
            forall|i: int| 0 <= i < r@.len() ==> (#[trigger] r@[i]).spec_store() == *self,
            self.slots_owned() ==> r@.len() == self.spec_turrets().dom().len(),
    {
        proof {
            self.lemma_views();
        }
        let keys = slab_keys(&self.turrets);
        let ghost kind = ComponentKind::Turret;
        let mut r: Vec<Turret<'_>> = Vec::new();
        let mut i: usize = 0;
        while i < keys.len()
            invariant
                i <= keys@.len(),
                kind == ComponentKind::Turret,
                self.wf(),
                self.spec_turrets() == slab_slots(self.turrets),
                forall|j: int| 0 <= j < keys@.len() ==> slab_slots(self.turrets).contains_key(#[trigger] keys@[j]),
                turret_entities(r@) == self.listed(
                    self.spec_turrets(),
                    keys@.take(i as int),
                    kind,
                ),
                forall|j: int| 0 <= j < r@.len() ==> (#[trigger] r@[j]).spec_store() == *self,
            decreases keys@.len() - i,
        {
            let key = keys[i];
            let owner = slab_get(&self.turrets, key).unwrap().0;
            let ghost before = r@;
            match self.get_turret(owner) {
                Some(t) => {
                    r.push(t);
                    assert(turret_entities(r@) =~= turret_entities(before).push(t.spec_entity()));
                },
                None => {},
            }
            proof {
                let ks1 = keys@.take(i + 1);
                assert(ks1.drop_last() =~= keys@.take(i as int));
                assert(ks1.last() == key);
                assert(self.spec_turrets()[key].0 == owner);
            }
            i = i + 1;
        }
        assert(keys@.take(keys@.len() as int) =~= keys@);
        assert(keys_in_order(keys@, self.spec_turrets()));
        proof {
            if self.slots_owned() {
                self.lemma_listed_counts(keys@, ComponentKind::Turret);
                assert(r@.len() == turret_entities(r@).len());
            }
        }
        r
    }

    /// The inhibitors of the store, walking the inhibitor slab in increasing key order.
    pub fn inhibitors(&self) -> (r: Vec<Inhibitor<'_>>)
        requires
            self.wf(),
        ensures
            exists|ks: Seq<usize>|
                keys_in_order(ks, self.spec_inhibitors()) && inhibitor_entities(r@)
                    == self.listed(self.spec_inhibitors(), ks, ComponentKind::Inhibitor),
            forall|i: int| 0 <= i < r@.len() ==> (#[trigger] r@[i]).spec_store() == *self,
            self.slots_owned() ==> r@.len() == self.spec_inhibitors().dom().len(),
    {
        proof {
            self.lemma_views();
        }
        let keys = slab_keys(&self.inhibitors);
        let ghost kind = ComponentKind::Inhibitor;
        let mut r: Vec<Inhibitor<'_>> = Vec::new();
        let mut i: usize = 0;
        while i < keys.len()
            invariant
                i <= keys@.len(),
                kind == ComponentKind::Inhibitor,
                self.wf(),
                self.spec_inhibitors() == slab_slots(self.inhibitors),
                forall|j: int| 0 <= j < keys@.len() ==> slab_slots(self.inhibitors).contains_key(#[trigger] keys@[j]),
                inhibitor_entities(r@) == self.listed(
                    self.spec_inhibitors(),
                    keys@.take(i as int),
                    kind,
                ),
                forall|j: int| 0 <= j < r@.len() ==> (#[trigger] r@[j]).spec_store() == *self,
            decreases keys@.len() - i,
        {
            let key = keys[i];
            let owner = slab_get(&self.inhibitors, key).unwrap().0;
            let ghost before = r@;
            match self.get_inhib(owner) {
                Some(t) => {
                    r.push(t);
                    assert(inhibitor_entities(r@) =~= inhibitor_entities(before).push(t.spec_entity()));
                },
                None => {},
            }
            proof {
                let ks1 = keys@.take(i + 1);
                assert(ks1.drop_last() =~= keys@.take(i as int));
                assert(ks1.last() == key);
                assert(self.spec_inhibitors()[key].0 == owner);
            }
            i = i + 1;
        }
        assert(keys@.take(keys@.len() as int) =~= keys@);
        assert(keys_in_order(keys@, self.spec_inhibitors()));
        proof {
            if self.slots_owned() {
                self.lemma_listed_counts(keys@, ComponentKind::Inhibitor);
                assert(r@.len() == inhibitor_entities(r@).len());
            }
        }
        r
    }

    /// The minions of the store, walking the minion slab in increasing key order.
    pub fn minions(&self) -> (r: Vec<Minion<'_>>)
        requires
            self.wf(),
        ensures
            exists|ks: Seq<usize>|
                keys_in_order(ks, self.spec_minions()) && minion_entities(r@)
                    == self.listed(self.spec_minions(), ks, ComponentKind::Minion),
            forall|i: int| 0 <= i < r@.len() ==> (#[trigger] r@[i]).spec_store() == *self,
            self.slots_owned() ==> r@.len() == self.spec_minions().dom().len(),
    {
        proof {
            self.lemma_views();
        }
        let keys = slab_keys(&self.minions);
        let ghost kind = ComponentKind::Minion;
        let mut r: Vec<Minion<'_>> = Vec::new();
        let mut i: usize = 0;
        while i < keys.len()
            invariant
                i <= keys@.len(),
                kind == ComponentKind::Minion,
                self.wf(),
                self.spec_minions() == slab_slots(self.minions),
                forall|j: int| 0 <= j < keys@.len() ==> slab_slots(self.minions).contains_key(#[trigger] keys@[j]),
                minion_entities(r@) == self.listed(
                    self.spec_minions(),
                    keys@.take(i as int),
                    kind,
                ),
                forall|j: int| 0 <= j < r@.len() ==> (#[trigger] r@[j]).spec_store() == *self,
            decreases keys@.len() - i,
        {
            let key = keys[i];
            let owner = slab_get(&self.minions, key).unwrap().0;
            let ghost before = r@;
            match self.get_minion(owner) {
                Some(t) => {
                    r.push(t);
                    assert(minion_entities(r@) =~= minion_entities(before).push(t.spec_entity()));
                },
                None => {},
            }
            proof {
                let ks1 = keys@.take(i + 1);
                assert(ks1.drop_last() =~= keys@.take(i as int));
                assert(ks1.last() == key);
                assert(self.spec_minions()[key].0 == owner);
            }
            i = i + 1;
        }
        assert(keys@.take(keys@.len() as int) =~= keys@);
        assert(keys_in_order(keys@, self.spec_minions()));
        proof {
            if self.slots_owned() {
                self.lemma_listed_counts(keys@, ComponentKind::Minion);
                assert(r@.len() == minion_entities(r@).len());
            }
        }
        r
    }
}

impl EntityStore {
    /// The identifiers of the minions of the store, walking the minion slab in
    /// increasing key order; each can be handed to `get_minion_mut`.
    pub fn minion_ids(&self) -> (r: Vec<UnitId>)
        requires
            self.wf(),
        ensures
            exists|ks: Seq<usize>|
                keys_in_order(ks, self.spec_minions()) && r@ == self.listed(
                    self.spec_minions(),
                    ks,
                    ComponentKind::Minion,
                ).map_values(|e: Entity| e.guid),
            self.slots_owned() ==> r@.len() == self.spec_minions().dom().len(),
    {
        let minions = self.minions();
        let ghost ks = choose|ks: Seq<usize>|
            keys_in_order(ks, self.spec_minions()) && minion_entities(minions@) == self.listed(
                self.spec_minions(),
                ks,
                ComponentKind::Minion,
            );
        let mut r: Vec<UnitId> = Vec::new();
        let mut i: usize = 0;
        while i < minions.len()
            invariant
                i <= minions@.len(),
                r@ == minion_entities(minions@).take(i as int).map_values(|e: Entity| e.guid),
            decreases minions@.len() - i,
        {
            r.push(minions[i].guid());
            assert(minion_entities(minions@).take(i + 1).map_values(|e: Entity| e.guid) =~= minion_entities(minions@).take(i as int).map_values(|e: Entity| e.guid).push(minions@[i as int].spec_entity().guid));
            i = i + 1;
        }
        assert(minion_entities(minions@).take(minions@.len() as int) =~= minion_entities(minions@));
        r
    }
}

/// Builds the store of a game before it starts.
pub struct EntityStoreBuilder {
    store: EntityStore,
}

impl EntityStoreBuilder {
    /// The entities spawned so far.
    pub closed spec fn spec_store(&self) -> EntityStore {
        self.store
    }

    /// A builder with no entity.
    pub fn new() -> (r: EntityStoreBuilder)
        ensures
            r.spec_store().wf(),
            r.spec_store().slots_owned(),
            r.spec_store().spec_entities() == Map::<u64, Entity>::empty(),
            r.spec_store().spec_turrets().is_empty(),
            r.spec_store().spec_inhibitors().is_empty(),
            r.spec_store().spec_minions().is_empty(),
    {
        EntityStoreBuilder { store: EntityStore::empty() }
    }

    /// Adds an entity, as `EntityStore::spawn` does.
    pub fn spawn(
        &mut self,
        guid: UnitId,
        position: usize,
        pathfinding: usize,
        specific: SpecificComponentBuilder,
    ) -> (r: UnitId)
        requires
            old(self).spec_store().wf(),
        ensures
            r == guid,
            final(self).spec_store().wf(),
            final(self).spec_store().spec_entities().contains_key(guid@),
            final(self).spec_store().spec_entities()[guid@] == (Entity {
                guid,
                position,
                pathfinding,
                specific: final(self).spec_store().spec_entities()[guid@].specific,
            }),
            final(self).spec_store().spec_component(final(self).spec_store().spec_entities()[guid@])
                == specific,
            guid@ != 0 ==> final(self).spec_store().spec_get(guid) == Some(
                final(self).spec_store().spec_entities()[guid@],
            ),
            forall|id: UnitId|
                id@ != guid@ ==> #[trigger] final(self).spec_store().spec_get(id) == old(
                    self,
                ).spec_store().spec_get(id),
            spawned_slot(old(self).spec_store(), final(self).spec_store(), guid, specific),
            old(self).spec_store().slots_owned() && guid@ != 0
                && !old(self).spec_store().spec_entities().contains_key(guid@)
                ==> final(self).spec_store().slots_owned(),
            forall|k: u64|
                k != guid@ ==> #[trigger] final(self).spec_store().spec_entities().contains_key(k)
                    == old(self).spec_store().spec_entities().contains_key(k),
            forall|k: u64|
                k != guid@ && #[trigger] old(self).spec_store().spec_entities().contains_key(k)
                    ==> final(self).spec_store().spec_entities()[k] == old(
                    self,
                ).spec_store().spec_entities()[k] && final(self).spec_store().spec_component(
                    old(self).spec_store().spec_entities()[k],
                ) == old(self).spec_store().spec_component(old(self).spec_store().spec_entities()[k]),
    {
        self.store.spawn(guid, position, pathfinding, specific)
    }

    /// The store holding the spawned entities.
    pub fn build(self) -> (r: EntityStore)
        ensures
            r == self.spec_store(),
    {
        self.store
    }
}

/// The entities of a sequence of turret handles.
pub open spec fn turret_entities(ts: Seq<Turret>) -> Seq<Entity> {
    ts.map_values(|t: Turret| t.spec_entity())
}

/// The entities of a sequence of inhibitor handles.
pub open spec fn inhibitor_entities(ts: Seq<Inhibitor>) -> Seq<Entity> {
    ts.map_values(|t: Inhibitor| t.spec_entity())
}

/// The entities of a sequence of minion handles.
pub open spec fn minion_entities(ts: Seq<Minion>) -> Seq<Entity> {
    ts.map_values(|t: Minion| t.spec_entity())
}

/// The message of a failed removal: the file and line, in this crate, of the lookup
/// in `remove_by_id` that found no entity.
pub open spec fn spec_missing_entity_message() -> Seq<char> {
    "src/ecs/store.rs:414"@
}

/// The message of a failed removal: the file and line, in this crate, of the lookup
/// in `remove_by_id` that found no entity.
fn missing_entity_message() -> (r: String)
    ensures
        r@ == spec_missing_entity_message(),
{
    String::from_str("src/ecs/store.rs:414")
}

} // verus!
