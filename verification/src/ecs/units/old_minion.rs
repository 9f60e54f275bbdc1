//! Minion kinds, and minions as a wave carries them.

use vstd::prelude::*;

use crate::common::Team;
use crate::stats::{sum_last_hits, GoldCollectable};

verus! {

/// The four kinds of lane minions.
#[derive(Debug, Clone, Copy, PartialEq, Eq, Structural)]
pub enum MinionType {
    Melee,
    Ranged,
    Siege,
    SuperMinion,
}

impl GoldCollectable for MinionType {
    open spec fn spec_golds(&self) -> nat {
        0
    }

    open spec fn golds_in_range(&self) -> bool {
        true
    }

    open spec fn spec_to_last_hit(&self) -> nat {
        0
    }

    fn golds(&self) -> (r: usize) {
        0
    }

    fn to_last_hit(&self) -> (r: usize) {
        0
    }
}

/// A minion of a wave, with what its gold and speed depend on.
#[derive(Debug, Clone, Copy, PartialEq, Eq, Structural)]
pub struct Minion {
    pub team: Team,
    pub ty: MinionType,
    pub upgrades: usize,
    pub ms_upgrades: usize,
    pub mid_debuf: bool,
}

/// Gold of a melee minion.
pub const MELEE_GOLD: usize = 21;

/// Gold of a ranged minion.
pub const RANGED_GOLD: usize = 14;

/// Base gold of a siege or super minion.
pub const BIG_GOLD: usize = 57;

/// Largest gold of a siege or super minion, before the midlane cut.
pub const BIG_GOLD_CAP: usize = 90;

impl Minion {
    /// Movement speed: 325, and 25 more for each upgrade.
    pub open spec fn spec_movespeed(&self) -> int {
        325 + 25 * self.ms_upgrades
    }

    /// Movement speed: 325, and 25 more for each upgrade; it must fit a `usize`.
    pub fn movespeed(&self) -> (r: usize)
        requires
            self.spec_movespeed() <= usize::MAX,
        ensures
            r == self.spec_movespeed(),
    {
        325 + 25 * self.ms_upgrades
    }
}

/// Each minion killed counts as one last hit, so a group of minions is worth as many
/// last hits as it has minions.
pub proof fn lemma_minion_last_hits(minions: Seq<Minion>)
    ensures
        sum_last_hits(minions) == minions.len(),
    decreases minions.len(),
{
    if minions.len() > 0 {
        lemma_minion_last_hits(minions.drop_last());
    }
}

impl GoldCollectable for Minion {
    /// Melee 21 and ranged 14; siege and super minions 57 plus 3 per upgrade, at most
    /// 90; one less in each case when the midlane cut applies.
    open spec fn spec_golds(&self) -> nat {
        let cut: int = if self.mid_debuf {
            1
        } else {
            0
        };
        (match self.ty {
            MinionType::Melee => MELEE_GOLD - cut,
            MinionType::Ranged => RANGED_GOLD - cut,
            MinionType::Siege | MinionType::SuperMinion => {
                let big: int = BIG_GOLD + 3 * self.upgrades;
                (if big <= BIG_GOLD_CAP {
                    big
                } else {
                    BIG_GOLD_CAP as int
                }) - cut
            },
        }) as nat
    }

    /// Adding the upgrades of a big minion must not overflow.
    open spec fn golds_in_range(&self) -> bool {
        (self.ty is Siege || self.ty is SuperMinion) ==> BIG_GOLD + 3 * self.upgrades <= usize::MAX
    }

    open spec fn spec_to_last_hit(&self) -> nat {
        1
    }

    fn golds(&self) -> (r: usize) {
        let cut: usize = if self.mid_debuf {
            1
        } else {
            0
        };
        match self.ty {
            MinionType::Melee => MELEE_GOLD - cut,
            MinionType::Ranged => RANGED_GOLD - cut,
            MinionType::Siege | MinionType::SuperMinion => {
                let big = BIG_GOLD + 3 * self.upgrades;
                let capped = if big <= BIG_GOLD_CAP {
                    big
                } else {
                    BIG_GOLD_CAP
                };
                capped - cut
            },
        }
    }

    fn to_last_hit(&self) -> (r: usize) {
        1
    }
}

} // verus!
