//! Entities and the components the store attaches to them.

use vstd::prelude::*;

use crate::ecs::structures::inhibitor::InhibitorComponent;
use crate::ecs::structures::turret::TurretComponent;
use crate::ecs::units::minion::MinionComponent;
use crate::ecs::UnitId;

verus! {

/// Which kind-specific component an entity has, and its key in that component's slab.
#[derive(Debug, Clone, Copy, PartialEq, Eq, Structural)]
pub enum SpecificComponent {
    Nothing,
    Turret(usize),
    Inhibitor(usize),
    Minion(usize),
}

/// The kind-specific component handed to the store when an entity is spawned.
#[derive(Debug, Clone, Copy, PartialEq, Eq, Structural)]
pub enum SpecificComponentBuilder {
    Nothing,
    Turret(TurretComponent),
    Inhibitor(InhibitorComponent),
    Minion(MinionComponent),
}

/// An entity of the store: its identifier and the keys of its components.
#[derive(Debug, Clone, Copy, PartialEq, Eq, Structural)]
pub struct Entity {
    pub guid: UnitId,
    pub position: usize,
    pub pathfinding: usize,
    pub specific: SpecificComponent,
}

impl Entity {
    /// Returns whether the entity is a turret.
    pub fn is_turret(&self) -> (r: bool)
        ensures
            r == (self.specific is Turret),
    {
        matches!(self.specific, SpecificComponent::Turret(_))
    }

    /// Returns whether the entity is an inhibitor.
    pub fn is_inhib(&self) -> (r: bool)
        ensures
            r == (self.specific is Inhibitor),
    {
        matches!(self.specific, SpecificComponent::Inhibitor(_))
    }

    /// Returns whether the entity is a minion.
    pub fn is_minion(&self) -> (r: bool)
        ensures
            r == (self.specific is Minion),
    {
        matches!(self.specific, SpecificComponent::Minion(_))
    }

    /// The key of the entity's kind-specific component, in whichever slab holds it.
    pub open spec fn spec_specific_key(self) -> Option<usize> {
        match self.specific {
            SpecificComponent::Turret(a) => Some(a),
            SpecificComponent::Inhibitor(a) => Some(a),
            SpecificComponent::Minion(a) => Some(a),
            SpecificComponent::Nothing => None,
        }
    }

    /// Returns the key of the entity's kind-specific component, if it has one.
    pub fn get_specific_unchecked(&self) -> (r: Option<usize>)
        ensures
            r == self.spec_specific_key(),
    {
        match self.specific {
            SpecificComponent::Turret(a) => Some(a),
            SpecificComponent::Inhibitor(a) => Some(a),
            SpecificComponent::Minion(a) => Some(a),
            SpecificComponent::Nothing => None,
        }
    }
}

} // verus!
