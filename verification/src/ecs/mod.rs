//! Entity identifiers, and the modules of the entity store.

pub mod entity;
pub mod generic;
pub mod spawners;
pub mod store;
pub mod structures;
pub mod unit;
pub mod units;

use vstd::prelude::*;

use crate::common::{Lane, Team};
use crate::ecs::structures::inhibitor::InhibitorIndex;
use crate::ecs::structures::nexus::NexusIndex;
use crate::ecs::structures::turret::{TurretIndex, TurretKind};
use vstd::std_specs::convert::FromSpecImpl;

verus! {

/// Two to the power 32: the factor of the upper half of an identifier.
pub const HIGH: u64 = 0x1_0000_0000;

/// Identifies an entity.
///
/// The lowest four bits hold the team (1 blue, 2 red, 0 none), the next four the
/// lane (1 top, 2 mid, 3 bot, 4 nexus, 0 none) and the upper 32 bits either the
/// kind of a structure (1 to 5 turrets by kind, 6 inhibitor, 7 nexus) or a random
/// number above 256 for a unit.  The identifier 0 stands for no entity.
#[derive(Debug, Clone, Copy, PartialEq, Eq, Structural, Hash)]
pub struct UnitId(u64);

impl View for UnitId {
    type V = u64;

    closed spec fn view(&self) -> u64 {
        self.0
    }
}

/// Code of an optional team in an identifier.
pub open spec fn team_code(team: Option<Team>) -> u64 {
    match team {
        None => 0,
        Some(Team::Blue) => 1,
        Some(Team::Red) => 2,
    }
}

/// Code of an optional lane in an identifier.
pub open spec fn lane_code(lane: Option<Lane>) -> u64 {
    match lane {
        None => 0,
        Some(Lane::Top) => 1,
        Some(Lane::Mid) => 2,
        Some(Lane::Bot) => 3,
        Some(Lane::Nexus) => 4,
    }
}

/// Code of a turret kind in the upper half of an identifier.
pub open spec fn turret_kind_code(kind: TurretKind) -> u64 {
    match kind {
        TurretKind::Outer => 1,
        TurretKind::Inner => 2,
        TurretKind::Inhib => 3,
        TurretKind::NexusTop => 4,
        TurretKind::NexusBot => 5,
    }
}

/// Code of an inhibitor in the upper half of an identifier.
pub const INHIBITOR_CODE: u64 = 6;

/// Code of a nexus in the upper half of an identifier.
pub const NEXUS_CODE: u64 = 7;

/// The largest upper half that marks a turret.
pub const NEXUS_BOT_TURRET: u64 = 5;

impl UnitId {
    /// The lower eight bits for a team and a lane.
    pub open spec fn spec_tl(team: Option<Team>, lane: Option<Lane>) -> u64 {
        (team_code(team) + 16 * lane_code(lane)) as u64
    }

    /// The identifier of the turret named by `index`.
    pub open spec fn spec_turret_raw(index: TurretIndex) -> u64 {
        (Self::spec_tl(Some(index.0), Some(index.1)) + turret_kind_code(index.2) * HIGH) as u64
    }

    /// The identifier of the inhibitor named by `index`.
    pub open spec fn spec_inhibitor_raw(index: InhibitorIndex) -> u64 {
        (Self::spec_tl(Some(index.0), Some(index.1)) + INHIBITOR_CODE * HIGH) as u64
    }

    /// The identifier of the nexus named by `index`.
    pub open spec fn spec_nexus_raw(index: NexusIndex) -> u64 {
        (Self::spec_tl(Some(index.team), Some(Lane::Nexus)) + NEXUS_CODE * HIGH) as u64
    }

    /// The identifier of the nexus named by `index`.
    pub open spec fn spec_nexus_raw_id(index: NexusIndex) -> UnitId {
        choose|id: UnitId| id@ == Self::spec_nexus_raw(index)
    }

    /// The team an identifier carries.
    pub open spec fn spec_team(self) -> Option<Team> {
        if self@ % 16 == 1 {
            Some(Team::Blue)
        } else if self@ % 16 == 2 {
            Some(Team::Red)
        } else {
            None
        }
    }

    /// The lane an identifier carries.
    pub open spec fn spec_lane(self) -> Option<Lane> {
        let code = (self@ / 16) % 16;
        if code == 1 {
            Some(Lane::Top)
        } else if code == 2 {
            Some(Lane::Mid)
        } else if code == 3 {
            Some(Lane::Bot)
        } else if code == 4 {
            Some(Lane::Nexus)
        } else {
            None
        }
    }

    /// The identifier names a turret, or nothing.
    pub open spec fn spec_is_turret(self) -> bool {
        self@ / HIGH <= NEXUS_BOT_TURRET
    }

    /// A fresh identifier for a unit of `team` in `lane`: the lower eight bits carry
    /// them, the upper 32 bits a random number above 256.
    pub fn new(team: Option<Team>, lane: Option<Lane>) -> (r: UnitId)
        ensures
            r@ % HIGH == Self::spec_tl(team, lane),
            r@ / HIGH > 256,
            r.spec_team() == team,
            r.spec_lane() == lane,
            !r.spec_is_turret(),
    {
        let (id, _offset) = Self::from_tl(team, lane);
        let guid = Self::get_guid();
        let guid64 = guid as u64;
        assert(id | (guid64 << 32u64) == id + guid64 * 0x1_0000_0000) by (bit_vector)
            requires
                id < 256,
                guid64 <= 0xffff_ffff,
        ;
        let r = UnitId(id | (guid64 << 32u64));
        proof {
            Self::lemma_decode(id, guid64);
        }
        r
    }

    /// Decoding an identifier assembled from lower eight bits and an upper half.
    proof fn lemma_decode(low: u64, high: u64)
        requires
            low < 256,
            high <= 0xffff_ffff,
        ensures
            ((low + high * HIGH) as u64) % HIGH == low,
            ((low + high * HIGH) as u64) / HIGH == high,
            ((low + high * HIGH) as u64) % 16 == low % 16,
            (((low + high * HIGH) as u64) / 16) % 16 == low / 16,
    {
        assert(((low + high * HIGH) as u64) % 16 == low % 16) by (nonlinear_arith)
            requires
                low < 256,
                high <= 0xffff_ffff,
        ;
        assert((((low + high * HIGH) as u64) / 16) % 16 == low / 16) by (nonlinear_arith)
            requires
                low < 256,
                high <= 0xffff_ffff,
        ;
    }

    /// The lower eight bits for a team and a lane, and the number of bits they take.
    fn from_tl(team: Option<Team>, lane: Option<Lane>) -> (r: (u64, usize))
        ensures
            r.0 == Self::spec_tl(team, lane),
            r.0 < 256,
            r.1 == 8,
    {
        let mut id: u64 = 0;
        let mut offset: u64 = 0;
        let t: u64 = match team {
            None => 0,
            Some(Team::Blue) => 1,
            Some(Team::Red) => 2,
        };
        id = id | (t << offset);
        assert(0u64 | (t << 0u64) == t) by (bit_vector);
        offset = offset + 4;
        let l: u64 = match lane {
            None => 0,
            Some(Lane::Top) => 1,
            Some(Lane::Mid) => 2,
            Some(Lane::Bot) => 3,
            Some(Lane::Nexus) => 4,
        };
        assert(t | (l << 4u64) == t + 16 * l) by (bit_vector)
            requires
                t < 16,
                l < 16,
        ;
        id = id | (l << offset);
        offset = offset + 4;
        (id, offset as usize)
    }

    /// A random number above 256 for the upper half of a unit's identifier.
    fn get_guid() -> (r: u32)
        ensures
            r > 256,
    {
        random_u32_from(257)
    }

    /// The identifier that stands for no entity.
    pub fn null() -> (r: UnitId)
        ensures
            r@ == 0,
    {
        UnitId(0)
    }

    /// Returns whether the identifier stands for no entity.
    pub fn is_null(&self) -> (r: bool)
        ensures
            r == (self@ == 0),
    {
        self.0 == 0
    }

    /// Returns whether the upper half marks a turret (true as well for no entity).
    pub fn is_turret(&self) -> (r: bool)
        ensures
            r == self.spec_is_turret(),
    {
        let raw = self.0;
        let id = raw >> 32u64;
        assert(raw >> 32u64 == raw / 0x1_0000_0000) by (bit_vector);
        id <= NEXUS_BOT_TURRET
    }

    /// The team the identifier carries.
    pub fn team(&self) -> (r: Option<Team>)
        ensures
            r == self.spec_team(),
    {
        let raw = self.0;
        let masked = raw & 0b1111;
        assert(raw & 0b1111u64 == raw % 16) by (bit_vector);
        match masked {
            1 => Some(Team::Blue),
            2 => Some(Team::Red),
            _ => None,
        }
    }

    /// The lane the identifier carries.
    pub fn lane(&self) -> (r: Option<Lane>)
        ensures
            r == self.spec_lane(),
    {
        let raw = self.0;
        let masked = (raw >> 4u64) & 0b1111;
        assert((raw >> 4u64) & 0b1111u64 == (raw / 16) % 16) by (bit_vector);
        match masked {
            1 => Some(Lane::Top),
            2 => Some(Lane::Mid),
            3 => Some(Lane::Bot),
            4 => Some(Lane::Nexus),
            _ => None,
        }
    }

    /// The raw bits of the identifier.
    pub fn to_bits(&self) -> (r: u64)
        ensures
            r == self@,
    {
        self.0
    }
}

impl UnitId {
    /// The lower eight bits and the upper half of a structure identifier.
    proof fn lemma_structure_raw(team: Team, lane: Lane, code: u64)
        requires
            1 <= code <= 7,
        ensures
            ((Self::spec_tl(Some(team), Some(lane)) + code * HIGH) as u64) % HIGH == Self::spec_tl(
                Some(team),
                Some(lane),
            ),
            ((Self::spec_tl(Some(team), Some(lane)) + code * HIGH) as u64) / HIGH == code,
            ((Self::spec_tl(Some(team), Some(lane)) + code * HIGH) as u64) % 16 == team_code(
                Some(team),
            ),
            (((Self::spec_tl(Some(team), Some(lane)) + code * HIGH) as u64) / 16) % 16 == lane_code(
                Some(lane),
            ),
    {
        let low = Self::spec_tl(Some(team), Some(lane));
        Self::lemma_decode(low, code);
    }
}

/// The identifier of a turret carries back the team and the lane of its index, is
/// not the null identifier, and is recognised as a turret.
pub proof fn lemma_turret_id_decodes(id: UnitId, index: TurretIndex)
    requires
        id@ == UnitId::spec_turret_raw(index),
    ensures
        id.spec_team() == Some(index.0),
        id.spec_lane() == Some(index.1),
        id@ != 0,
        id.spec_is_turret(),
{
    UnitId::lemma_structure_raw(index.0, index.1, turret_kind_code(index.2));
}

/// The identifier of an inhibitor carries back the team and the lane of its index,
/// is not the null identifier, and is not taken for a turret.
pub proof fn lemma_inhibitor_id_decodes(id: UnitId, index: InhibitorIndex)
    requires
        id@ == UnitId::spec_inhibitor_raw(index),
    ensures
        id.spec_team() == Some(index.0),
        id.spec_lane() == Some(index.1),
        id@ != 0,
        !id.spec_is_turret(),
{
    UnitId::lemma_structure_raw(index.0, index.1, INHIBITOR_CODE);
}

/// The identifier of a nexus carries back its team and the nexus lane, is not the
/// null identifier, and is not taken for a turret.
pub proof fn lemma_nexus_id_decodes(id: UnitId, index: NexusIndex)
    requires
        id@ == UnitId::spec_nexus_raw(index),
    ensures
        id.spec_team() == Some(index.team),
        id.spec_lane() == Some(Lane::Nexus),
        id@ != 0,
        !id.spec_is_turret(),
{
    UnitId::lemma_structure_raw(index.team, Lane::Nexus, NEXUS_CODE);
}

/// Two structures share an identifier only when they are the same structure:
/// distinct turrets, distinct inhibitors and distinct nexuses get distinct
/// identifiers, and a turret, an inhibitor and a nexus never share one.
pub proof fn lemma_structure_ids_distinct(
    t1: TurretIndex,
    t2: TurretIndex,
    i1: InhibitorIndex,
    i2: InhibitorIndex,
    n1: NexusIndex,
    n2: NexusIndex,
)
    ensures
        UnitId::spec_turret_raw(t1) == UnitId::spec_turret_raw(t2) ==> t1 == t2,
        UnitId::spec_inhibitor_raw(i1) == UnitId::spec_inhibitor_raw(i2) ==> i1 == i2,
        UnitId::spec_nexus_raw(n1) == UnitId::spec_nexus_raw(n2) ==> n1 == n2,
        UnitId::spec_turret_raw(t1) != UnitId::spec_inhibitor_raw(i1),
        UnitId::spec_turret_raw(t1) != UnitId::spec_nexus_raw(n1),
        UnitId::spec_inhibitor_raw(i1) != UnitId::spec_nexus_raw(n1),
{
    UnitId::lemma_structure_raw(t1.0, t1.1, turret_kind_code(t1.2));
    UnitId::lemma_structure_raw(t2.0, t2.1, turret_kind_code(t2.2));
    UnitId::lemma_structure_raw(i1.0, i1.1, INHIBITOR_CODE);
    UnitId::lemma_structure_raw(i2.0, i2.1, INHIBITOR_CODE);
    UnitId::lemma_structure_raw(n1.team, Lane::Nexus, NEXUS_CODE);
    UnitId::lemma_structure_raw(n2.team, Lane::Nexus, NEXUS_CODE);
}

/// No structure has the null identifier.
pub proof fn lemma_structure_raws_nonzero(turret: TurretIndex, inhibitor: InhibitorIndex, nexus: NexusIndex)
    ensures
        UnitId::spec_turret_raw(turret) != 0,
        UnitId::spec_inhibitor_raw(inhibitor) != 0,
        UnitId::spec_nexus_raw(nexus) != 0,
{
    UnitId::lemma_structure_raw(turret.0, turret.1, turret_kind_code(turret.2));
    UnitId::lemma_structure_raw(inhibitor.0, inhibitor.1, INHIBITOR_CODE);
    UnitId::lemma_structure_raw(nexus.team, Lane::Nexus, NEXUS_CODE);
}

/// The identifier `get_nexus` looks a nexus up by is the one of that nexus.
pub proof fn lemma_nexus_raw_id(index: NexusIndex)
    ensures
        UnitId::spec_nexus_raw_id(index)@ == UnitId::spec_nexus_raw(index),
{
    let witness = UnitId(UnitId::spec_nexus_raw(index));
    assert(witness@ == UnitId::spec_nexus_raw(index));
}

/// An identifier made by `UnitId::new` (upper half above 256) is never that of a
/// structure, nor the null identifier.
pub proof fn lemma_unit_id_not_structure(
    id: UnitId,
    turret: TurretIndex,
    inhibitor: InhibitorIndex,
    nexus: NexusIndex,
)
    requires
        id@ / HIGH > 256,
    ensures
        id@ != UnitId::spec_turret_raw(turret),
        id@ != UnitId::spec_inhibitor_raw(inhibitor),
        id@ != UnitId::spec_nexus_raw(nexus),
        id@ != 0,
{
    UnitId::lemma_structure_raw(turret.0, turret.1, turret_kind_code(turret.2));
    UnitId::lemma_structure_raw(inhibitor.0, inhibitor.1, INHIBITOR_CODE);
    UnitId::lemma_structure_raw(nexus.team, Lane::Nexus, NEXUS_CODE);
}

/// Calls `fastrand::u32` on the range `low..`, which the crate documents to return a
/// number inside the range; the range is never empty.  Which number comes is chance.
#[verifier::external_body]
fn random_u32_from(low: u32) -> (r: u32)
    ensures
        r >= low,
{
    fastrand::u32(low..)
}

impl From<TurretIndex> for UnitId {
    fn from(value: TurretIndex) -> (r: UnitId)
        ensures
            r@ == UnitId::spec_turret_raw(value),
    {
        let (id, _) = Self::from_tl(Some(value.0), Some(value.1));
        let kind: u64 = match value.2 {
            TurretKind::Outer => 1,
            TurretKind::Inner => 2,
            TurretKind::Inhib => 3,
            TurretKind::NexusBot => NEXUS_BOT_TURRET,
            TurretKind::NexusTop => 4,
        };
        assert(id | (kind << 32u64) == id + kind * 0x1_0000_0000) by (bit_vector)
            requires
                id < 256,
                kind < 8,
        ;
        UnitId(id | (kind << 32u64))
    }
}

impl FromSpecImpl<TurretIndex> for UnitId {
    open spec fn obeys_from_spec() -> bool {
        true
    }

    closed spec fn from_spec(v: TurretIndex) -> UnitId {
        UnitId(UnitId::spec_turret_raw(v))
    }
}

impl From<InhibitorIndex> for UnitId {
    fn from(value: InhibitorIndex) -> (r: UnitId)
        ensures
            r@ == UnitId::spec_inhibitor_raw(value),
    {
        let (id, _) = Self::from_tl(Some(value.0), Some(value.1));
        assert(id | (6u64 << 32u64) == id + 6 * 0x1_0000_0000) by (bit_vector)
            requires
                id < 256,
        ;
        UnitId(id | (INHIBITOR_CODE << 32u64))
    }
}

impl FromSpecImpl<InhibitorIndex> for UnitId {
    open spec fn obeys_from_spec() -> bool {
        true
    }

    closed spec fn from_spec(v: InhibitorIndex) -> UnitId {
        UnitId(UnitId::spec_inhibitor_raw(v))
    }
}

impl From<&NexusIndex> for UnitId {
    fn from(value: &NexusIndex) -> (r: UnitId)
        ensures
            r@ == UnitId::spec_nexus_raw(*value),
    {
        let (id, _) = Self::from_tl(Some(value.team), Some(Lane::Nexus));
        assert(id | (7u64 << 32u64) == id + 7 * 0x1_0000_0000) by (bit_vector)
            requires
                id < 256,
        ;
        UnitId(id | (NEXUS_CODE << 32u64))
    }
}

impl FromSpecImpl<&NexusIndex> for UnitId {
    open spec fn obeys_from_spec() -> bool {
        true
    }

    closed spec fn from_spec(v: &NexusIndex) -> UnitId {
        UnitId(UnitId::spec_nexus_raw(*v))
    }
}

} // verus!
