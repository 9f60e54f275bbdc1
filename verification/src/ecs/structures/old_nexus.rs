//! The nexus of a team as a value.

use vstd::prelude::*;

use crate::common::Team;
use vstd::std_specs::convert::FromSpecImpl;

verus! {

/// The nexus of a team.
#[derive(Debug, Clone, Copy, PartialEq, Eq, Structural)]
pub struct Nexus {
    team: Team,
}

impl Nexus {
    /// The nexus's team.
    pub closed spec fn spec_team(&self) -> Team {
        self.team
    }

    /// The nexus's team.
    pub fn team(&self) -> (r: Team)
        ensures
            r == self.spec_team(),
    {
        self.team
    }
}

impl From<Team> for Nexus {
    /// The nexus of `team`.
    fn from(team: Team) -> (r: Nexus)
        ensures
            r.spec_team() == team,
    {
        Nexus { team }
    }
}

impl FromSpecImpl<Team> for Nexus {
    open spec fn obeys_from_spec() -> bool {
        true
    }

    closed spec fn from_spec(v: Team) -> Nexus {
        Nexus { team: v }
    }
}

} // verus!
