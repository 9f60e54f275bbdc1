//! Teams, lanes and the game clock.

use vstd::prelude::*;
use vstd::std_specs::ops::{AddSpecImpl, SubSpecImpl};
use std::ops::{Add, Sub};

verus! {

/// One of the two sides of the map.
#[derive(Debug, Clone, Copy, PartialEq, Eq, Structural, Hash)]
pub enum Team {
    Red,
    Blue,
}

impl Team {
    /// The other team.
    pub open spec fn spec_opposite(self) -> Team {
        match self {
            Team::Red => Team::Blue,
            Team::Blue => Team::Red,
        }
    }

    /// Returns the team playing against `self`.
    pub fn opposite(&self) -> (r: Team)
        ensures
            r == self.spec_opposite(),
            r != *self,
    {
        match self {
            Team::Red => Team::Blue,
            Team::Blue => Team::Red,
        }
    }
}

/// Taking the opposite team twice gives back the team one started from.
pub proof fn lemma_opposite_involutive(team: Team)
    ensures
        team.spec_opposite().spec_opposite() == team,
        team.spec_opposite() != team,
{
}

/// A lane of the map; `Nexus` stands for the nexus area where no wave walks.
#[derive(Debug, Clone, Copy, PartialEq, Eq, Structural, Hash)]
pub enum Lane {
    Top,
    Mid,
    Bot,
    Nexus,
}

impl Lane {
    /// The position of the lane in `Top, Mid, Bot, Nexus` order.
    pub open spec fn spec_index(self) -> usize {
        match self {
            Lane::Top => 0,
            Lane::Mid => 1,
            Lane::Bot => 2,
            Lane::Nexus => 3,
        }
    }

    /// The position of the lane in `Top, Mid, Bot, Nexus` order.
    pub fn index(&self) -> (r: usize)
        ensures
            r == self.spec_index(),
    {
        match self {
            Lane::Top => 0,
            Lane::Mid => 1,
            Lane::Bot => 2,
            Lane::Nexus => 3,
        }
    }
}

/// Nanoseconds in one second.
pub const NANOS_PER_SEC: u128 = 1_000_000_000;

/// The longest time a clock can show: `u64::MAX` seconds and 999 999 999 nanoseconds.
pub const MAX_NANOS: u128 = 18_446_744_073_709_551_615_999_999_999;

/// The sum of two times in nanoseconds, capped at the largest time.
pub open spec fn spec_saturating_add(a: nat, b: nat) -> nat {
    if a + b <= MAX_NANOS {
        a + b
    } else {
        MAX_NANOS as nat
    }
}

/// The difference of two times in nanoseconds, or zero when the second is later.
pub open spec fn spec_saturating_sub(a: nat, b: nat) -> nat {
    if a >= b {
        (a - b) as nat
    } else {
        0
    }
}

/// The time elapsed since the game started, with nanosecond precision.
///
/// Holds the same values as a `std::time::Duration`: whole seconds up to `u64::MAX`
/// and a sub-second part.  Addition and subtraction saturate at the largest time and
/// at zero.
#[derive(Debug, Clone, Copy, PartialEq, Eq, Structural, PartialOrd, Ord, Hash)]
pub struct GameTimer {
    nanos: u128,
}

impl View for GameTimer {
    type V = nat;

    closed spec fn view(&self) -> nat {
        self.nanos as nat
    }
}

impl GameTimer {
    #[verifier::type_invariant]
    spec fn bounded(self) -> bool {
        self.nanos <= MAX_NANOS
    }

    /// The whole seconds of the time.
    pub open spec fn spec_secs(self) -> nat {
        self@ / (NANOS_PER_SEC as nat)
    }

    /// The clock at the start of the game.
    pub fn game_start() -> (r: GameTimer)
        ensures
            r@ == 0,
    {
        GameTimer { nanos: 0 }
    }

    /// Time an inhibitor stays down before it respawns.
    pub fn inhibitor_respawn() -> (r: GameTimer)
        ensures
            r@ == 300_000_000_000,
    {
        GameTimer { nanos: 300_000_000_000 }
    }

    /// Time of the first minion wave.
    pub fn first_spawn() -> (r: GameTimer)
        ensures
            r@ == 65_000_000_000,
    {
        GameTimer { nanos: 65_000_000_000 }
    }

    /// Time between two minion waves.
    pub fn wave_period() -> (r: GameTimer)
        ensures
            r@ == 30_000_000_000,
    {
        GameTimer { nanos: 30_000_000_000 }
    }

    /// Fifteen minutes into the game.
    pub fn minutes_15() -> (r: GameTimer)
        ensures
            r@ == 900_000_000_000,
    {
        GameTimer { nanos: 900_000_000_000 }
    }

    /// Fourteen minutes into the game.
    pub fn minutes_14() -> (r: GameTimer)
        ensures
            r@ == 840_000_000_000,
    {
        GameTimer { nanos: 840_000_000_000 }
    }

    /// Twenty-five minutes into the game.
    pub fn minutes_25() -> (r: GameTimer)
        ensures
            r@ == 1_500_000_000_000,
    {
        GameTimer { nanos: 1_500_000_000_000 }
    }

    /// Time a wave takes to reach the middle of its lane.
    pub fn wave_travel() -> (r: GameTimer)
        ensures
            r@ == 25_000_000_000,
    {
        GameTimer { nanos: 25_000_000_000 }
    }

    /// A clock showing `secs` whole seconds.
    pub fn from_secs(secs: u64) -> (r: GameTimer)
        ensures
            r@ == secs * NANOS_PER_SEC,
            r.spec_secs() == secs,
    {
        assert(secs * NANOS_PER_SEC <= MAX_NANOS) by (nonlinear_arith)
            requires
                secs <= u64::MAX,
        ;
        let r = GameTimer { nanos: secs as u128 * NANOS_PER_SEC };
        assert(r.spec_secs() == secs) by (nonlinear_arith)
            requires
                r@ == secs * NANOS_PER_SEC,
        ;
        r
    }

    /// A clock showing `secs` seconds plus `nanos` nanoseconds, where `nanos` may
    /// exceed one second; the time must not pass the largest time.
    pub fn new(secs: u64, nanos: u32) -> (r: GameTimer)
        requires
            secs * NANOS_PER_SEC + nanos <= MAX_NANOS,
        ensures
            r@ == secs * NANOS_PER_SEC + nanos,
    {
        GameTimer { nanos: secs as u128 * NANOS_PER_SEC + nanos as u128 }
    }

    /// The whole seconds of the time.
    pub fn as_secs(&self) -> (r: u64)
        ensures
            r == self.spec_secs(),
    {
        proof {
            use_type_invariant(self);
        }
        assert(self.nanos / NANOS_PER_SEC <= u64::MAX) by (nonlinear_arith)
            requires
                self.nanos <= MAX_NANOS,
        ;
        (self.nanos / NANOS_PER_SEC) as u64
    }

    /// The fractional part of the time, in nanoseconds.
    pub fn subsec_nanos(&self) -> (r: u32)
        ensures
            r == self@ % (NANOS_PER_SEC as nat),
            r < NANOS_PER_SEC,
    {
        (self.nanos % NANOS_PER_SEC) as u32
    }

    /// The whole time in nanoseconds.
    pub fn as_nanos(&self) -> (r: u128)
        ensures
            r == self@,
    {
        self.nanos
    }

    /// The sum of two times, capped at the largest time.
    pub fn saturating_add(self, rhs: GameTimer) -> (r: GameTimer)
        ensures
            r@ == spec_saturating_add(self@, rhs@),
            r@ >= self@,
            r@ >= rhs@,
    {
        proof {
            use_type_invariant(&self);
            use_type_invariant(&rhs);
        }
        let sum = self.nanos + rhs.nanos;
        if sum <= MAX_NANOS {
            GameTimer { nanos: sum }
        } else {
            GameTimer { nanos: MAX_NANOS }
        }
    }

    /// The difference of two times, or zero when `rhs` is the later one.
    pub fn saturating_sub(self, rhs: GameTimer) -> (r: GameTimer)
        ensures
            r@ == spec_saturating_sub(self@, rhs@),
    {
        proof {
            use_type_invariant(&self);
        }
        if self.nanos >= rhs.nanos {
            GameTimer { nanos: self.nanos - rhs.nanos }
        } else {
            GameTimer { nanos: 0 }
        }
    }

    /// `self` is strictly earlier than `other`.
    pub fn lt(&self, other: &GameTimer) -> (r: bool)
        ensures
            r == (self@ < other@),
    {
        self.nanos < other.nanos
    }

    /// `self` is not later than `other`.
    pub fn le(&self, other: &GameTimer) -> (r: bool)
        ensures
            r == (self@ <= other@),
    {
        self.nanos <= other.nanos
    }

    /// The later of two times.
    pub fn max(self, other: GameTimer) -> (r: GameTimer)
        ensures
            r@ == if self@ >= other@ {
                self@
            } else {
                other@
            },
    {
        if self.nanos >= other.nanos {
            self
        } else {
            other
        }
    }
}

impl Add for GameTimer {
    type Output = GameTimer;

    /// The sum of two times, capped at the largest time.
    fn add(self, rhs: GameTimer) -> (r: GameTimer)
        ensures
            r@ == spec_saturating_add(self@, rhs@),
            r@ >= self@,
            r@ >= rhs@,
    {
        self.saturating_add(rhs)
    }
}

impl AddSpecImpl for GameTimer {
    open spec fn obeys_add_spec() -> bool {
        true
    }

    open spec fn add_req(self, rhs: GameTimer) -> bool {
        true
    }

    closed spec fn add_spec(self, rhs: GameTimer) -> GameTimer {
        GameTimer { nanos: spec_saturating_add(self@, rhs@) as u128 }
    }
}

impl Sub for GameTimer {
    type Output = GameTimer;

    /// The difference of two times, or zero when `rhs` is the later one.
    fn sub(self, rhs: GameTimer) -> (r: GameTimer)
        ensures
            r@ == spec_saturating_sub(self@, rhs@),
    {
        self.saturating_sub(rhs)
    }
}

impl SubSpecImpl for GameTimer {
    open spec fn obeys_sub_spec() -> bool {
        true
    }

    open spec fn sub_req(self, rhs: GameTimer) -> bool {
        true
    }

    closed spec fn sub_spec(self, rhs: GameTimer) -> GameTimer {
        GameTimer { nanos: spec_saturating_sub(self@, rhs@) as u128 }
    }
}

/// Adding a time and taking it away again gives back the time one started from, as
/// long as the sum does not reach past the largest time; and a sum is never earlier
/// than either of its terms.
pub proof fn lemma_add_then_sub(a: GameTimer, b: GameTimer)
    requires
        a@ + b@ <= MAX_NANOS,
    ensures
        spec_saturating_sub(spec_saturating_add(a@, b@), b@) == a@,
        spec_saturating_add(a@, b@) >= a@,
        spec_saturating_add(a@, b@) >= b@,
{
}

/// Taking a time away and adding it back gives back the time one started from, as
/// long as the time taken away is not the later one.
pub proof fn lemma_sub_then_add(a: GameTimer, b: GameTimer)
    requires
        a@ <= MAX_NANOS,
        b@ <= a@,
    ensures
        spec_saturating_add(spec_saturating_sub(a@, b@), b@) == a@,
{
}

} // verus!
