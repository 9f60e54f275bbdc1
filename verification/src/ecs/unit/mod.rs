//! Units that move along the lanes.

use vstd::prelude::*;

use crate::common::Team;
use crate::ecs::units::old_minion::Minion;

verus! {

/// A unit of the map.
#[derive(Debug, Clone, Copy, PartialEq, Eq, Structural)]
pub enum UnitKind {
    Minion(Minion),
}

impl UnitKind {
    /// The unit's team.
    pub fn team(&self) -> (r: Team)
        ensures
            r == match self {
                UnitKind::Minion(m) => m.team,
            },
    {
        match self {
            UnitKind::Minion(minion) => minion.team,
        }
    }
}

} // verus!
