//! The structures of the map: turrets, inhibitors and nexuses.

pub mod inhibitor;
pub mod nexus;
pub mod old_nexus;
pub mod old_turret;
pub mod turret;

use vstd::prelude::*;

use crate::common::{Lane, Team};
use crate::ecs::entity::SpecificComponentBuilder;
use crate::ecs::structures::inhibitor::{InhibitorComponent, InhibitorIndex};
use crate::ecs::structures::nexus::NexusIndex;
use crate::ecs::structures::turret::{TurretComponent, TurretIndex, TurretKind};
use crate::ecs::{lemma_structure_ids_distinct, lemma_structure_raws_nonzero, UnitId};

verus! {

/// Names one structure of the map, whatever its kind.
#[derive(Debug, Clone, Copy, PartialEq, Eq, Structural)]
pub enum StructureIndex {
    Turret(TurretIndex),
    Inhibitor(InhibitorIndex),
    Nexus(NexusIndex),
}

impl StructureIndex {
    /// The identifier of the structure.
    pub open spec fn spec_raw(self) -> u64 {
        match self {
            StructureIndex::Turret(t) => UnitId::spec_turret_raw(t),
            StructureIndex::Inhibitor(i) => UnitId::spec_inhibitor_raw(i),
            StructureIndex::Nexus(n) => UnitId::spec_nexus_raw(n),
        }
    }

    /// The kind-specific component the structure starts the game with.
    pub open spec fn spec_initial(self) -> SpecificComponentBuilder {
        match self {
            StructureIndex::Turret(t) => SpecificComponentBuilder::Turret(
                TurretComponent { state: t.spec_initial_state() },
            ),
            StructureIndex::Inhibitor(_) => SpecificComponentBuilder::Inhibitor(
                InhibitorComponent { down: None },
            ),
            StructureIndex::Nexus(_) => SpecificComponentBuilder::Nothing,
        }
    }

    /// The identifier of the structure.
    pub fn guid(&self) -> (r: UnitId)
        ensures
            r@ == self.spec_raw(),
    {
        match self {
            StructureIndex::Turret(t) => t.guid(),
            StructureIndex::Inhibitor(i) => i.guid(),
            StructureIndex::Nexus(n) => n.guid(),
        }
    }

    /// The kind-specific component the structure starts the game with.
    pub fn specific(&self) -> (r: SpecificComponentBuilder)
        ensures
            r == self.spec_initial(),
    {
        match self {
            StructureIndex::Turret(t) => t.specific(),
            StructureIndex::Inhibitor(i) => i.specific(),
            StructureIndex::Nexus(n) => n.specific(),
        }
    }
}

/// No structure has the null identifier.
pub proof fn lemma_structure_raw_nonzero(s: StructureIndex)
    ensures
        s.spec_raw() != 0,
{
    let t = TurretIndex(Team::Blue, Lane::Top, TurretKind::Outer);
    let i = InhibitorIndex(Team::Blue, Lane::Top);
    let n = NexusIndex { team: Team::Blue };
    match s {
        StructureIndex::Turret(x) => lemma_structure_raws_nonzero(x, i, n),
        StructureIndex::Inhibitor(x) => lemma_structure_raws_nonzero(t, x, n),
        StructureIndex::Nexus(x) => lemma_structure_raws_nonzero(t, i, x),
    }
}

/// Distinct structures have distinct identifiers.
pub proof fn lemma_structure_raw_injective(a: StructureIndex, b: StructureIndex)
    requires
        a != b,
    ensures
        a.spec_raw() != b.spec_raw(),
{
    match (a, b) {
        (StructureIndex::Turret(t1), StructureIndex::Turret(t2)) => {
            lemma_structure_ids_distinct(t1, t2, InhibitorIndex(t1.0, t1.1), InhibitorIndex(t1.0, t1.1), NexusIndex { team: t1.0 }, NexusIndex { team: t1.0 });
        },
        (StructureIndex::Inhibitor(i1), StructureIndex::Inhibitor(i2)) => {
            lemma_structure_ids_distinct(TurretIndex(i1.0, i1.1, TurretKind::Outer), TurretIndex(i1.0, i1.1, TurretKind::Outer), i1, i2, NexusIndex { team: i1.0 }, NexusIndex { team: i1.0 });
        },
        (StructureIndex::Nexus(n1), StructureIndex::Nexus(n2)) => {
            lemma_structure_ids_distinct(TurretIndex(n1.team, Lane::Top, TurretKind::Outer), TurretIndex(n1.team, Lane::Top, TurretKind::Outer), InhibitorIndex(n1.team, Lane::Top), InhibitorIndex(n1.team, Lane::Top), n1, n2);
        },
        (StructureIndex::Turret(t), StructureIndex::Inhibitor(i)) | (StructureIndex::Inhibitor(i), StructureIndex::Turret(t)) => {
            lemma_structure_ids_distinct(t, t, i, i, NexusIndex { team: t.0 }, NexusIndex { team: t.0 });
        },
        (StructureIndex::Turret(t), StructureIndex::Nexus(n)) | (StructureIndex::Nexus(n), StructureIndex::Turret(t)) => {
            lemma_structure_ids_distinct(t, t, InhibitorIndex(t.0, t.1), InhibitorIndex(t.0, t.1), n, n);
        },
        (StructureIndex::Inhibitor(i), StructureIndex::Nexus(n)) | (StructureIndex::Nexus(n), StructureIndex::Inhibitor(i)) => {
            lemma_structure_ids_distinct(TurretIndex(i.0, i.1, TurretKind::Outer), TurretIndex(i.0, i.1, TurretKind::Outer), i, i, n, n);
        },
    }
}

} // verus!
