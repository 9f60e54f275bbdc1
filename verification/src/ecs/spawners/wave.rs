//! When waves spawn, what they carry, and the spawner that hands out their minions.

use vstd::prelude::*;

use crate::common::{GameTimer, Lane, Team, NANOS_PER_SEC};
use crate::ecs::generic::spawner::EntitySpawner;
use crate::ecs::structures::inhibitor::Inhibitor;
use crate::ecs::units::minion::MinionBuilder;
use crate::ecs::units::old_minion::MinionType;
use crate::wave::repeat;

verus! {

/// Before fifteen minutes, every third wave carries a siege minion.
pub const CANNON_PRE_15_PERIOD: usize = 3;

/// Between fifteen and twenty-five minutes, every second wave carries a siege minion.
pub const CANNON_PRE_25_PERIOD: usize = 2;

/// Seconds of the first spawn.
pub const FIRST_SPAWN_SECS: u64 = 65;

/// Seconds between two spawns.
pub const WAVE_PERIOD_SECS: u64 = 30;

/// The number of the wave spawning at `secs` seconds, counting from one, where times
/// before the first spawn count as the first wave.
pub open spec fn spec_wave_number(spawn: GameTimer) -> usize {
    let since: nat = if spawn.spec_secs() >= FIRST_SPAWN_SECS {
        (spawn.spec_secs() - FIRST_SPAWN_SECS) as nat
    } else {
        0
    };
    (since / (WAVE_PERIOD_SECS as nat) + 1) as usize
}

/// The number of the wave spawning at `spawn`, counting from one.
pub fn wave_number(spawn: GameTimer) -> (r: usize)
    ensures
        r == spec_wave_number(spawn),
{
    let since = spawn.saturating_sub(GameTimer::first_spawn());
    let secs = since.as_secs();
    proof {
        let a = spawn@;
        let b = 65_000_000_000nat;
        if a >= b {
            assert((a - b) as nat / (NANOS_PER_SEC as nat) == a / (NANOS_PER_SEC as nat) - 65) by (nonlinear_arith)
                requires
                    a >= b,
                    b == 65_000_000_000nat,
            ;
        } else {
            assert(a / (NANOS_PER_SEC as nat) < 65) by (nonlinear_arith)
                requires
                    a < b,
                    b == 65_000_000_000nat,
            ;
        }
    }
    (secs / WAVE_PERIOD_SECS + 1) as usize
}

/// Whether the wave spawning at `spawn` carries a siege minion.
pub open spec fn spec_has_siege(spawn: GameTimer) -> bool {
    let wn = spec_wave_number(spawn);
    ||| (spawn@ < 900_000_000_000 && wn % CANNON_PRE_15_PERIOD == 0)
    ||| (spawn@ > 900_000_000_000 && spawn@ < 1_500_000_000_000 && (wn + 1) % (
    CANNON_PRE_25_PERIOD as int) == 0)
    ||| spawn@ > 1_500_000_000_000
}

/// Returns whether the wave spawning at `spawn` carries a siege minion: every third
/// wave before fifteen minutes, every second one until twenty-five minutes, every
/// one after.
pub fn has_siege(spawn: GameTimer) -> (r: bool)
    ensures
        r == spec_has_siege(spawn),
{
    let wn = wave_number(spawn);
    if spawn.lt(&GameTimer::minutes_15()) && wn % CANNON_PRE_15_PERIOD == 0 {
        return true;
    }
    if GameTimer::minutes_15().lt(&spawn) && spawn.lt(&GameTimer::minutes_25()) {
        proof {
            let a = spawn@;
            assert(a / (NANOS_PER_SEC as nat) < 1500) by (nonlinear_arith)
                requires
                    a < 1_500_000_000_000nat,
            ;
        }
        if (wn + 1) % CANNON_PRE_25_PERIOD == 0 {
            return true;
        }
    }
    GameTimer::minutes_25().lt(&spawn)
}

/// The number of the wave spawning at `t`, counting from one: one for the first spawn
/// at 65 seconds and for any time before it, one more for every thirty seconds after.
/// Before fifteen minutes the wave carries a siege minion exactly when that number is
/// a multiple of three; strictly between fifteen and twenty-five minutes exactly when
/// the number after it is even; after twenty-five minutes always; at exactly fifteen
/// and exactly twenty-five minutes never.
pub proof fn lemma_siege_schedule(t: GameTimer)
    ensures
        ({
            let n: int = if t.spec_secs() >= 65 {
                (t.spec_secs() - 65) / 30 + 1
            } else {
                1
            };
            &&& n <= usize::MAX ==> spec_wave_number(t) == n
            &&& t@ < 900_000_000_000 ==> (spec_has_siege(t) <==> n % 3 == 0)
            &&& 900_000_000_000 < t@ < 1_500_000_000_000 ==> (spec_has_siege(t) <==> (n + 1) % 2
                == 0)
            &&& t@ > 1_500_000_000_000 ==> spec_has_siege(t)
            &&& (t@ == 900_000_000_000 || t@ == 1_500_000_000_000) ==> !spec_has_siege(t)
        }),
{
    let a = t@;
    if a < 1_500_000_000_000 {
        assert(a / (NANOS_PER_SEC as nat) < 1500) by (nonlinear_arith)
            requires
                a < 1_500_000_000_000nat,
        ;
    }
}

/// The seconds of the spawns from `from` up to, and not including, `to`: starting at
/// the later of `from` and the first spawn, every thirty seconds, and kept only when
/// that start falls on the spawn schedule (first spawn plus a multiple of thirty
/// seconds).
pub open spec fn spec_spawn_secs(from: GameTimer, to: GameTimer) -> Seq<nat> {
    let start: nat = if from@ >= 65_000_000_000 {
        from.spec_secs()
    } else {
        FIRST_SPAWN_SECS as nat
    };
    let end = to.spec_secs();
    if start < end && (start - FIRST_SPAWN_SECS) % (WAVE_PERIOD_SECS as int) == 0 {
        Seq::new(
            ((end - start + WAVE_PERIOD_SECS - 1) / (WAVE_PERIOD_SECS as int)) as nat,
            |i: int| (start + WAVE_PERIOD_SECS * i) as nat,
        )
    } else {
        Seq::empty()
    }
}

/// The spawn times between `from` and `to`, as `spec_spawn_secs` gives them; `from`
/// must not be later than `to`.
pub fn timer_to_wave_spawn(from: GameTimer, to: GameTimer) -> (r: Vec<GameTimer>)
    requires
        from@ <= to@,
    ensures
        r@.len() == spec_spawn_secs(from, to).len(),
        forall|i: int|
            0 <= i < r@.len() ==> (#[trigger] r@[i])@ == spec_spawn_secs(from, to)[i]
                * NANOS_PER_SEC && r@[i].spec_secs() == spec_spawn_secs(from, to)[i],
{
    let start_timer = from.max(GameTimer::first_spawn());
    let start = start_timer.as_secs();
    let end = to.as_secs();
    proof {
        let a = from@;
        if a < 65_000_000_000 {
            assert(a / (NANOS_PER_SEC as nat) <= 65) by (nonlinear_arith)
                requires
                    a < 65_000_000_000nat,
            ;
        }
    }
    let ghost spec = spec_spawn_secs(from, to);
    let mut r: Vec<GameTimer> = Vec::new();
    if start < end && (start - FIRST_SPAWN_SECS) % WAVE_PERIOD_SECS == 0 {
        let ghost n = spec.len();
        let mut s = start;
        let mut i: usize = 0;
        loop
            invariant_except_break
                start <= s < end,
                s == start + WAVE_PERIOD_SECS * i,
                r@.len() == i,
                i < n,
                forall|j: int|
                    0 <= j < r@.len() ==> (#[trigger] r@[j])@ == spec[j] * NANOS_PER_SEC
                        && r@[j].spec_secs() == spec[j],
            invariant
                spec.len() == n,
                n == ((end - start + WAVE_PERIOD_SECS - 1) / (WAVE_PERIOD_SECS as int)) as nat,
                forall|j: int| 0 <= j < n ==> #[trigger] spec[j] == start + WAVE_PERIOD_SECS * j,
            ensures
                r@.len() == n,
                forall|j: int|
                    0 <= j < r@.len() ==> (#[trigger] r@[j])@ == spec[j] * NANOS_PER_SEC
                        && r@[j].spec_secs() == spec[j],
            decreases end - s,
        {
            r.push(GameTimer::from_secs(s));
            if end - s <= WAVE_PERIOD_SECS {
                assert(n == i + 1) by (nonlinear_arith)
                    requires
                        n == ((end - start + WAVE_PERIOD_SECS - 1) / (WAVE_PERIOD_SECS as int)) as nat,
                        s == start + WAVE_PERIOD_SECS * i,
                        end - s <= WAVE_PERIOD_SECS,
                        s < end,
                ;
                break;
            }
            assert(i + 1 < n) by (nonlinear_arith)
                requires
                    n == ((end - start + WAVE_PERIOD_SECS - 1) / (WAVE_PERIOD_SECS as int)) as nat,
                    s == start + WAVE_PERIOD_SECS * i,
                    end - s > WAVE_PERIOD_SECS,
            ;
            s = s + WAVE_PERIOD_SECS;
            i = r.len();
        }
    }
    r
}

/// The clock is before the first spawn, or its whole seconds fall on the spawn
/// schedule (the first spawn plus a multiple of thirty seconds).
pub open spec fn on_schedule(t: GameTimer) -> bool {
    t@ < 65_000_000_000 || (t.spec_secs() - FIRST_SPAWN_SECS) % (WAVE_PERIOD_SECS as int) == 0
}

/// Every spawn time between two clocks is at or after the first spawn, at or after
/// the first clock, before the second clock, on the spawn schedule, and thirty
/// seconds after the one before it.
pub proof fn lemma_spawn_secs_sound(from: GameTimer, to: GameTimer)
    ensures
        forall|i: int|
            #![trigger spec_spawn_secs(from, to)[i]]
            0 <= i < spec_spawn_secs(from, to).len() ==> {
                let s = spec_spawn_secs(from, to)[i];
                &&& s >= FIRST_SPAWN_SECS
                &&& s >= from.spec_secs()
                &&& s < to.spec_secs()
                &&& (s - FIRST_SPAWN_SECS) % (WAVE_PERIOD_SECS as int) == 0
            },
        forall|i: int|
            0 < i < spec_spawn_secs(from, to).len() ==> #[trigger] spec_spawn_secs(from, to)[i]
                == spec_spawn_secs(from, to)[i - 1] + WAVE_PERIOD_SECS,
{
    let seq = spec_spawn_secs(from, to);
    let start: nat = if from@ >= 65_000_000_000 {
        from.spec_secs()
    } else {
        FIRST_SPAWN_SECS as nat
    };
    let end = to.spec_secs();
    if seq.len() > 0 {
        assert(start < end && (start - FIRST_SPAWN_SECS) % (WAVE_PERIOD_SECS as int) == 0);
        let n = ((end - start + WAVE_PERIOD_SECS - 1) / (WAVE_PERIOD_SECS as int)) as nat;
        assert(seq.len() == n);
        if from@ < 65_000_000_000 {
            let a = from@;
            assert(a / (NANOS_PER_SEC as nat) < 65) by (nonlinear_arith)
                requires
                    a < 65_000_000_000nat,
            ;
        }
        assert forall|i: int| #![trigger seq[i]] 0 <= i < seq.len() implies {
            let s = seq[i];
            &&& s >= FIRST_SPAWN_SECS
            &&& s >= from.spec_secs()
            &&& s < to.spec_secs()
            &&& (s - FIRST_SPAWN_SECS) % (WAVE_PERIOD_SECS as int) == 0
        } by {
            assert(seq[i] == start + WAVE_PERIOD_SECS * i);
            assert(start + 30 * i < end) by (nonlinear_arith)
                requires
                    0 <= i < n,
                    n == (end - start + 29) / 30,
                    start < end,
            ;
            assert((start + 30 * i - 65) % 30 == 0) by (nonlinear_arith)
                requires
                    (start - 65) % 30 == 0,
                    i >= 0,
            ;
        }
    }
}

/// Every time on the spawn schedule between the two clocks is a spawn time, when the
/// first clock is before the first spawn or on the schedule.
pub proof fn lemma_spawn_secs_complete(from: GameTimer, to: GameTimer, s: nat)
    requires
        on_schedule(from),
        s >= FIRST_SPAWN_SECS,
        s >= from.spec_secs(),
        s < to.spec_secs(),
        (s - FIRST_SPAWN_SECS) % (WAVE_PERIOD_SECS as int) == 0,
    ensures
        spec_spawn_secs(from, to).contains(s),
{
    let seq = spec_spawn_secs(from, to);
    let start: nat = if from@ >= 65_000_000_000 {
        from.spec_secs()
    } else {
        FIRST_SPAWN_SECS as nat
    };
    let end = to.spec_secs();
    if from@ < 65_000_000_000 {
        assert((start - FIRST_SPAWN_SECS) % (WAVE_PERIOD_SECS as int) == 0);
    }
    assert(start <= s);
    let k: int = (s - start) / 30;
    assert(s == start + 30 * k && 0 <= k) by (nonlinear_arith)
        requires
            (s - 65) % 30 == 0,
            (start - 65) % 30 == 0,
            start <= s,
            k == (s - start) / 30,
    ;
    let n = ((end - start + WAVE_PERIOD_SECS - 1) / (WAVE_PERIOD_SECS as int)) as nat;
    assert(k < n) by (nonlinear_arith)
        requires
            s == start + 30 * k,
            s < end,
            n == (end - start + 29) / 30,
            0 <= k,
    ;
    assert(seq[k] == s);
}

/// Stepping the clock from `a` to `b` and then from `b` to `c` spawns the same waves,
/// in the same order, as stepping straight from `a` to `c`, as long as the clock
/// stops before the first spawn or on the spawn schedule.
pub proof fn lemma_spawn_secs_split(a: GameTimer, b: GameTimer, c: GameTimer)
    requires
        a@ <= b@ <= c@,
        on_schedule(a),
        on_schedule(b),
    ensures
        spec_spawn_secs(a, c) == spec_spawn_secs(a, b) + spec_spawn_secs(b, c),
{
    let sa: nat = if a@ >= 65_000_000_000 {
        a.spec_secs()
    } else {
        FIRST_SPAWN_SECS as nat
    };
    let sb: nat = if b@ >= 65_000_000_000 {
        b.spec_secs()
    } else {
        FIRST_SPAWN_SECS as nat
    };
    let eb = b.spec_secs();
    let ec = c.spec_secs();
    let (x, y, z) = (a@, b@, c@);
    assert(x / (NANOS_PER_SEC as nat) <= y / (NANOS_PER_SEC as nat) <= z / (NANOS_PER_SEC as nat)) by (nonlinear_arith)
        requires
            x <= y <= z,
    ;
    if a@ < 65_000_000_000 {
        assert(x / (NANOS_PER_SEC as nat) < 65) by (nonlinear_arith)
            requires
                x < 65_000_000_000nat,
        ;
    }
    if b@ < 65_000_000_000 {
        assert(y / (NANOS_PER_SEC as nat) < 65) by (nonlinear_arith)
            requires
                y < 65_000_000_000nat,
        ;
        assert(sa == sb);
        assert(spec_spawn_secs(a, b) =~= Seq::<nat>::empty());
        assert(spec_spawn_secs(a, c) =~= spec_spawn_secs(b, c));
    } else {
        assert(y / (NANOS_PER_SEC as nat) >= 65) by (nonlinear_arith)
            requires
                y >= 65_000_000_000nat,
        ;
        assert(sb == eb);
        assert(sa <= eb);
        assert((sa - 65) % 30 == 0);
        assert((eb - 65) % 30 == 0);
        let n1: int = (eb - sa) / 30;
        assert(eb == sa + 30 * n1 && n1 >= 0) by (nonlinear_arith)
            requires
                (sa - 65) % 30 == 0,
                (eb - 65) % 30 == 0,
                sa <= eb,
                n1 == (eb - sa) / 30,
        ;
        let ab = spec_spawn_secs(a, b);
        let bc = spec_spawn_secs(b, c);
        let ac = spec_spawn_secs(a, c);
        assert(ab.len() == n1) by {
            if sa < eb {
                assert((eb - sa + 29) / 30 == n1) by (nonlinear_arith)
                    requires
                        eb == sa + 30 * n1,
                        n1 >= 0,
                ;
            }
        }
        if eb < ec {
            let n2: int = (ec - eb + 29) / 30;
            assert(bc.len() == n2);
            assert((ec - sa + 29) / 30 == n1 + n2) by (nonlinear_arith)
                requires
                    eb == sa + 30 * n1,
                    n2 == (ec - eb + 29) / 30,
                    n1 >= 0,
            ;
            assert(sa < ec);
            assert(ac.len() == n1 + n2);
            assert forall|i: int| 0 <= i < ac.len() implies ac[i] == (ab + bc)[i] by {
                if i < n1 {
                    assert(ab[i] == sa + 30 * i);
                } else {
                    assert(bc[i - n1] == eb + 30 * (i - n1));
                }
            }
            assert(ac =~= ab + bc);
        } else {
            assert(bc =~= Seq::<nat>::empty());
            assert(ec == eb);
            assert(ac =~= ab);
        }
    }
}

/// Hands out the minions of one wave: super minions first, then melee, the siege
/// minion, and ranged, each starting further behind the head of the wave.
#[derive(Debug, Clone, Copy, PartialEq, Eq, Structural)]
pub struct WaveBuilder {
    base_pos: i64,
    lane: Option<Lane>,
    team: Option<Team>,
    melee: usize,
    siege: bool,
    ranged: usize,
    superm: usize,
}

/// The counts and settings of a wave builder, as plain values.
pub struct WaveBuilderView {
    pub base_pos: i64,
    pub lane: Option<Lane>,
    pub team: Option<Team>,
    pub melee: usize,
    pub siege: bool,
    pub ranged: usize,
    pub superm: usize,
}

impl View for WaveBuilder {
    type V = WaveBuilderView;

    closed spec fn view(&self) -> WaveBuilderView {
        WaveBuilderView {
            base_pos: self.base_pos,
            lane: self.lane,
            team: self.team,
            melee: self.melee,
            siege: self.siege,
            ranged: self.ranged,
            superm: self.superm,
        }
    }
}

impl WaveBuilderView {
    /// The kind of the next minion handed out, if any is left.
    pub open spec fn next_kind(self) -> Option<MinionType> {
        if self.superm > 0 {
            Some(MinionType::SuperMinion)
        } else if self.melee > 0 {
            Some(MinionType::Melee)
        } else if self.siege {
            Some(MinionType::Siege)
        } else if self.ranged > 0 {
            Some(MinionType::Ranged)
        } else {
            None
        }
    }

    /// The minions left to hand out.
    pub open spec fn remaining(self) -> nat {
        (self.superm + self.melee + (if self.siege {
            1nat
        } else {
            0nat
        }) + self.ranged) as nat
    }

    /// How far the next slot lies behind the current one: the padding of 100 map
    /// units and the radius of the minion handed out.
    pub open spec fn step_back(self) -> int {
        100 + match self.next_kind() {
            Some(k) => MinionBuilder::spec_radius(k) as int,
            None => 0,
        }
    }

    /// The builder after handing out one minion.
    pub open spec fn after_next(self) -> WaveBuilderView {
        let k = self.next_kind();
        WaveBuilderView {
            base_pos: (self.base_pos - self.step_back()) as i64,
            superm: if k == Some(MinionType::SuperMinion) {
                (self.superm - 1) as usize
            } else {
                self.superm
            },
            melee: if k == Some(MinionType::Melee) {
                (self.melee - 1) as usize
            } else {
                self.melee
            },
            siege: if k == Some(MinionType::Siege) {
                false
            } else {
                self.siege
            },
            ranged: if k == Some(MinionType::Ranged) {
                (self.ranged - 1) as usize
            } else {
                self.ranged
            },
            ..self
        }
    }

    /// The kinds and slots of the minions handed out from this state on, in order.
    pub open spec fn spawn_sequence(self) -> Seq<(MinionType, i64)>
        decreases self.remaining(),
    {
        if self.next_kind() is None {
            Seq::empty()
        } else {
            seq![(self.next_kind()->0, self.base_pos)] + self.after_next().spawn_sequence()
        }
    }

    /// The next minion handed out is fully set.
    pub open spec fn ready(self) -> bool {
        self.next_kind() is Some ==> self.lane is Some && self.team is Some
    }
}

/// The kinds of the minions a wave builder hands out, in order: its super minions,
/// its melee minions, its siege minion if it has one, and its ranged minions.
pub open spec fn wave_kinds(v: WaveBuilderView) -> Seq<MinionType> {
    repeat(MinionType::SuperMinion, v.superm as nat) + repeat(MinionType::Melee, v.melee as nat)
        + repeat(
        MinionType::Siege,
        if v.siege {
            1nat
        } else {
            0nat
        },
    ) + repeat(MinionType::Ranged, v.ranged as nat)
}

/// The kinds of a sequence of handed-out minions.
pub open spec fn sequence_kinds(s: Seq<(MinionType, i64)>) -> Seq<MinionType> {
    s.map_values(|p: (MinionType, i64)| p.0)
}

/// A wave builder hands out exactly the minions it counts, super minions first, then
/// melee, the siege minion and ranged ones; the first starts at the builder's slot and
/// each next one starts strictly further behind (as long as the slots stay in the
/// range of an `i64`).
pub proof fn lemma_spawn_sequence(v: WaveBuilderView)
    requires
        v.base_pos >= i64::MIN + 165 * v.remaining(),
    ensures
        v.spawn_sequence().len() == v.remaining(),
        sequence_kinds(v.spawn_sequence()) == wave_kinds(v),
        v.remaining() > 0 ==> v.spawn_sequence()[0].1 == v.base_pos,
        forall|i: int| 0 <= i < v.spawn_sequence().len() ==> v.spawn_sequence()[i].1 <= v.base_pos,
        forall|i: int, j: int|
            0 <= i < j < v.spawn_sequence().len() ==> v.spawn_sequence()[j].1 < v.spawn_sequence()[i].1,
    decreases v.remaining(),
{
    let k = v.next_kind();
    if k is None {
        assert(wave_kinds(v) =~= Seq::<MinionType>::empty());
        assert(sequence_kinds(v.spawn_sequence()) =~= Seq::<MinionType>::empty());
    } else {
        let w = v.after_next();
        assert(w.remaining() + 1 == v.remaining());
        assert(v.step_back() >= 100 && v.step_back() <= 165);
        lemma_spawn_sequence(w);
        let s = v.spawn_sequence();
        assert(s == seq![(k->0, v.base_pos)] + w.spawn_sequence());
        assert(sequence_kinds(s) =~= seq![k->0] + sequence_kinds(w.spawn_sequence()));
        assert(wave_kinds(v) =~= seq![k->0] + wave_kinds(w));
        assert forall|i: int, j: int| 0 <= i < j < s.len() implies s[j].1 < s[i].1 by {
            if i > 0 {
                assert(s[i] == w.spawn_sequence()[i - 1]);
                assert(s[j] == w.spawn_sequence()[j - 1]);
            } else {
                assert(s[j] == w.spawn_sequence()[j - 1]);
            }
        }
        assert forall|i: int| 0 <= i < s.len() implies s[i].1 <= v.base_pos by {
            if i > 0 {
                assert(s[i] == w.spawn_sequence()[i - 1]);
            }
        }
    }
}

/// The `j`-th kind a wave builder hands out: its super minions come first, then its
/// melee minions, its siege minion, and its ranged minions.
pub proof fn lemma_wave_kinds_index(v: WaveBuilderView, j: int)
    requires
        0 <= j < wave_kinds(v).len(),
    ensures
        wave_kinds(v).len() == v.remaining(),
        wave_kinds(v)[j] == (if j < v.superm {
            MinionType::SuperMinion
        } else if j < v.superm + v.melee {
            MinionType::Melee
        } else if j < v.superm + v.melee + (if v.siege {
            1int
        } else {
            0int
        }) {
            MinionType::Siege
        } else {
            MinionType::Ranged
        }),
{
    let a = repeat(MinionType::SuperMinion, v.superm as nat);
    let b = repeat(MinionType::Melee, v.melee as nat);
    let c = repeat(
        MinionType::Siege,
        if v.siege {
            1nat
        } else {
            0nat
        },
    );
    let d = repeat(MinionType::Ranged, v.ranged as nat);
    assert(wave_kinds(v) == a + b + c + d);
    if j < a.len() + b.len() + c.len() {
        assert(wave_kinds(v)[j] == (a + b + c)[j]);
        if j < a.len() + b.len() {
            assert((a + b + c)[j] == (a + b)[j]);
        }
    }
}

/// A wave builder has a minion left to hand out exactly when it counts one, and
/// handing one out leaves one fewer.
pub proof fn lemma_spawn_next_counts_down(v: WaveBuilderView)
    ensures
        v.next_kind() is None <==> v.remaining() == 0,
        v.next_kind() is Some ==> v.after_next().remaining() + 1 == v.remaining(),
        v.next_kind() is None ==> v.spawn_sequence().len() == 0,
{
}

impl Default for WaveBuilder {
    /// A wave of three melee and three ranged minions, with no lane or team yet.
    fn default() -> (r: WaveBuilder)
        ensures
            r@.base_pos == 0,
            r@.lane is None,
            r@.team is None,
            r@.melee == 3,
            !r@.siege,
            r@.ranged == 3,
            r@.superm == 0,
    {
        WaveBuilder {
            base_pos: 0,
            team: None,
            lane: None,
            melee: 3,
            siege: false,
            ranged: 3,
            superm: 0,
        }
    }
}

impl WaveBuilder {
    /// The same wave in `lane`.
    pub fn set_lane(self, lane: Lane) -> (r: Self)
        ensures
            r@ == (WaveBuilderView { lane: Some(lane), ..self@ }),
    {
        WaveBuilder { lane: Some(lane), ..self }
    }

    /// The same wave for `team`.
    pub fn set_team(self, team: Team) -> (r: Self)
        ensures
            r@ == (WaveBuilderView { team: Some(team), ..self@ }),
    {
        WaveBuilder { team: Some(team), ..self }
    }

    /// The same wave, with or without a siege minion.
    pub fn has_siege(self, siege: bool) -> (r: Self)
        ensures
            r@ == (WaveBuilderView { siege, ..self@ }),
    {
        WaveBuilder { siege, ..self }
    }

    /// The super minions a wave gets against the enemy inhibitors, given as the down
    /// state of the top, mid and bot inhibitors: one when the one of its lane is down,
    /// two when all are down.
    pub open spec fn spec_super_count(prev: usize, lane: Lane, down: Seq<bool>) -> usize {
        if down[0] && down[1] && down[2] {
            2
        } else if down[lane.spec_index() as int] {
            1
        } else {
            prev
        }
    }

    /// Gives the wave super minions when the enemy inhibitors `inhibs` (top, mid, bot)
    /// are down, and takes its siege minion away when it gets any.  A wave with no
    /// lane is left as it is; the nexus lane has no inhibitor and is not allowed.
    pub fn set_super(self, inhibs: [Inhibitor<'_>; 3]) -> (r: Self)
        requires
            self@.lane != Some(Lane::Nexus),
        ensures
            self@.lane is None ==> r == self,
            self@.lane is Some ==> {
                let down = Seq::new(3, |i: int| inhibs@[i].spec_state().down is Some);
                let superm = Self::spec_super_count(self@.superm, self@.lane->0, down);
                r@ == (WaveBuilderView { superm, siege: if superm > 0 {
                    false
                } else {
                    self@.siege
                }, ..self@ })
            },
    {
        let mut this = self;
        let lane = match this.lane {
            Some(lane) => lane,
            None => {
                return this;
            },
        };
        let ghost down = Seq::new(3, |i: int| inhibs@[i].spec_state().down is Some);
        if inhibs[lane.index()].is_down() {
            this.superm = 1;
        }
        let mut all_down = true;
        let mut i: usize = 0;
        while i < 3
            invariant
                i <= 3,
                all_down == (forall|j: int| 0 <= j < i ==> #[trigger] down[j]),
                down == Seq::new(3, |i: int| inhibs@[i].spec_state().down is Some),
            decreases 3 - i,
        {
            let d = inhibs[i].is_down();
            assert(down[i as int] == d);
            all_down = all_down && d;
            i = i + 1;
        }
        if all_down {
            this.superm = 2;
        }
        if this.superm > 0 {
            this.siege = false;
        }
        proof {
            assert(all_down == (down[0] && down[1] && down[2]));
        }
        this
    }
}

impl EntitySpawner for WaveBuilder {
    type Builder = MinionBuilder;

    /// The next minion is fully set, and its slot stays in the range of an `i64`.
    open spec fn can_spawn(&self) -> bool {
        self@.ready() && self@.base_pos >= i64::MIN + 165
    }

    /// Hands out the next minion of the wave, set to the wave's lane and team and
    /// starting at the current slot, and moves the slot back by the minion's radius
    /// and a padding of 100 map units (by the padding alone once none is left).  The
    /// lane and team must be set, and the slot must stay in the range of an `i64`.
    fn spawn_next(&mut self) -> (r: Option<MinionBuilder>)
        ensures
            final(self)@ == old(self)@.after_next(),
            match old(self)@.next_kind() {
                Some(k) => r matches Some(m) && m.spec_kind() == Some(k) && m.spec_lane()
                    == old(self)@.lane && m.spec_team() == old(self)@.team && m.spec_offset()
                    == old(self)@.base_pos,
                None => r is None,
            },
    {
        let mut minion: Option<MinionBuilder> = None;
        if minion.is_none() && self.superm > 0 {
            self.superm = self.superm - 1;
            minion = Some(MinionBuilder::superm());
        }
        if minion.is_none() && self.melee > 0 {
            self.melee = self.melee - 1;
            minion = Some(MinionBuilder::melee());
        }
        if minion.is_none() && self.siege {
            self.siege = false;
            minion = Some(MinionBuilder::siege());
        }
        if minion.is_none() && self.ranged > 0 {
            self.ranged = self.ranged - 1;
            minion = Some(MinionBuilder::ranged());
        }
        let minion = match minion {
            Some(m) => Some(
                m.set_lane(self.lane.unwrap()).set_team(self.team.unwrap()).set_offset(
                    self.base_pos,
                ),
            ),
            None => None,
        };
        let radius: i64 = match &minion {
            Some(m) => m.radius() as i64,
            None => 0,
        };
        self.base_pos = self.base_pos - (100 + radius);
        minion
    }
}

} // verus!
