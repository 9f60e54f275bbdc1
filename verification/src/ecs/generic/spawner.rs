//! The trait of what hands out entities to spawn, one after the other.

use vstd::prelude::*;

verus! {

/// Hands out descriptions of entities to spawn until it has none left.
pub trait EntitySpawner {
    /// What describes an entity to spawn.
    type Builder;

    /// The spawner can hand out its next entity.
    spec fn can_spawn(&self) -> bool;

    /// The next entity to spawn, or nothing once all are handed out.
    fn spawn_next(&mut self) -> Option<Self::Builder>
        requires
            old(self).can_spawn(),
    ;
}

} // verus!
