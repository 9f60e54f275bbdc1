//! Minion waves: what each wave carries, and the gold and speed of its minions.

pub mod spawner;

use vstd::prelude::*;

use crate::common::{GameTimer, Lane, Team, NANOS_PER_SEC};
use crate::ecs::spawners::wave::{CANNON_PRE_15_PERIOD, CANNON_PRE_25_PERIOD, FIRST_SPAWN_SECS, WAVE_PERIOD_SECS};
use crate::ecs::units::old_minion::{Minion, MinionType, BIG_GOLD};
use crate::stats::{
    collect_golds, collect_last_hits, lemma_sum_golds_concat, sum_golds, sum_last_hits,
    GoldCollectable,
};

verus! {

/// A wave of minions: when and where it spawned and how many minions of each kind it
/// carries.
#[derive(Debug, Clone, Copy, PartialEq, Eq, Structural)]
pub struct Wave {
    pub spawn: GameTimer,
    pub lane: Lane,
    pub team: Team,
    pub melee: usize,
    pub siege: usize,
    pub ranged: usize,
    pub superm: usize,
}

/// Upgrades minions have at `timer`: one for every ninety seconds after the first spawn.
pub open spec fn spec_upgrades(timer: GameTimer) -> usize {
    let since: nat = if timer.spec_secs() >= FIRST_SPAWN_SECS {
        (timer.spec_secs() - FIRST_SPAWN_SECS) as nat
    } else {
        0
    };
    (since / 90) as usize
}

/// Speed upgrades minions have at `timer`: one each at ten, fifteen, twenty and
/// twenty-five minutes.
pub open spec fn spec_ms_upgrades(timer: GameTimer) -> usize {
    (if timer@ >= 600_000_000_000 {
        1int
    } else {
        0
    } + if timer@ >= 900_000_000_000 {
        1int
    } else {
        0
    } + if timer@ >= 1_200_000_000_000 {
        1int
    } else {
        0
    } + if timer@ >= 1_500_000_000_000 {
        1int
    } else {
        0
    }) as usize
}

/// `n` times the kind `ty`.
pub open spec fn repeat(ty: MinionType, n: nat) -> Seq<MinionType> {
    Seq::new(n, |_i: int| ty)
}

impl Wave {
    /// The number of minions of kind `ty` in the wave.
    pub open spec fn count_of(&self, ty: MinionType) -> usize {
        match ty {
            MinionType::SuperMinion => self.superm,
            MinionType::Melee => self.melee,
            MinionType::Siege => self.siege,
            MinionType::Ranged => self.ranged,
        }
    }

    /// The kinds of the minions in walking order: super minions, melee, siege, ranged.
    pub open spec fn spec_minions_types(&self) -> Seq<MinionType> {
        repeat(MinionType::SuperMinion, self.superm as nat) + repeat(
            MinionType::Melee,
            self.melee as nat,
        ) + repeat(MinionType::Siege, self.siege as nat) + repeat(
            MinionType::Ranged,
            self.ranged as nat,
        )
    }

    /// The minion of kind `ty` this wave carries at `timer`.
    pub open spec fn spec_minion(&self, timer: GameTimer, ty: MinionType) -> Minion {
        Minion {
            team: self.team,
            ty,
            upgrades: spec_upgrades(timer),
            ms_upgrades: spec_ms_upgrades(timer),
            mid_debuf: self.spec_midlane_debuf(timer),
        }
    }

    /// Midlane minions give a little less gold before fourteen minutes.
    pub open spec fn spec_midlane_debuf(&self, timer: GameTimer) -> bool {
        self.lane == Lane::Mid && timer@ < 840_000_000_000
    }

    /// The total of minions fits a `usize`.
    pub open spec fn size_fits(&self) -> bool {
        self.superm + self.melee + self.siege + self.ranged
            <= usize::MAX
    }

    /// The kinds of the minions in walking order: super minions, melee, siege, ranged.
    pub fn minions_types(&self) -> (r: Vec<MinionType>)
        requires
            self.size_fits(),
        ensures
            r@ == self.spec_minions_types(),
    {
        let mut r: Vec<MinionType> = Vec::new();
        push_repeated(&mut r, MinionType::SuperMinion, self.superm);
        push_repeated(&mut r, MinionType::Melee, self.melee);
        push_repeated(&mut r, MinionType::Siege, self.siege);
        push_repeated(&mut r, MinionType::Ranged, self.ranged);
        r
    }

    /// The minions of the wave at `timer`, in walking order.
    pub fn minions(&self, timer: &GameTimer) -> (r: Vec<Minion>)
        requires
            self.size_fits(),
        ensures
            r@ == self.spec_minions_types().map_values(|ty: MinionType| self.spec_minion(*timer, ty)),
    {
        let upgrades = self.upgrades(timer);
        let ms_upgrades = self.ms_upgrades(timer);
        let mid_debuf = self.midlane_debuf(timer);
        let team = self.team;
        let types = self.minions_types();
        let mut r: Vec<Minion> = Vec::new();
        let mut i: usize = 0;
        while i < types.len()
            invariant
                i <= types@.len(),
                types@ == self.spec_minions_types(),
                upgrades == spec_upgrades(*timer),
                ms_upgrades == spec_ms_upgrades(*timer),
                mid_debuf == self.spec_midlane_debuf(*timer),
                team == self.team,
                r@ == types@.take(i as int).map_values(|ty: MinionType| self.spec_minion(*timer, ty)),
            decreases types@.len() - i,
        {
            r.push(Minion { team, ty: types[i], upgrades, ms_upgrades, mid_debuf });
            assert(types@.take(i + 1).map_values(|ty: MinionType| self.spec_minion(*timer, ty)) =~= types@.take(i as int).map_values(|ty: MinionType| self.spec_minion(*timer, ty)).push(self.spec_minion(*timer, types@[i as int])));
            i = i + 1;
        }
        assert(types@.take(types@.len() as int) =~= types@);
        r
    }

    /// Movement speed of the wave's minions at `timer`.
    pub fn movespeed(&self, timer: &GameTimer) -> (r: usize)
        ensures
            r == 325 + spec_ms_upgrades(*timer) * 25,
    {
        325 + self.ms_upgrades(timer) * 25
    }

    /// Gold of a minion of kind `ty` at `timer`.
    pub open spec fn gold_of(&self, timer: GameTimer, ty: MinionType) -> nat {
        self.spec_minion(timer, ty).spec_golds()
    }

    /// Gold of all minions of kind `ty` at `timer`.
    pub open spec fn value_of(&self, timer: GameTimer, ty: MinionType) -> int {
        self.count_of(ty) * self.gold_of(timer, ty)
    }

    /// Gold of the minions of kind `ty` at `timer`, walking the wave.
    fn value(&self, timer: &GameTimer, ty: MinionType) -> (r: usize)
        requires
            self.size_fits(),
            self.spec_minion(*timer, ty).golds_in_range(),
            self.value_of(*timer, ty) <= usize::MAX,
        ensures
            r == self.value_of(*timer, ty),
    {
        let minions = self.minions(timer);
        let ghost g = self.gold_of(*timer, ty) as int;
        let ghost start: int = match ty {
            MinionType::SuperMinion => 0,
            MinionType::Melee => self.superm as int,
            MinionType::Siege => self.superm + self.melee,
            MinionType::Ranged => self.superm + self.melee + self.siege,
        };
        let ghost cnt = self.count_of(ty) as int;
        proof {
            assert forall|j: int| 0 <= j < minions@.len() implies (#[trigger] minions@[j]).ty == ty
                <==> start <= j < start + cnt by {
                let types = self.spec_minions_types();
                assert(minions@[j] == self.spec_minion(*timer, types[j]));
                let a = repeat(MinionType::SuperMinion, self.superm as nat);
                let b = repeat(MinionType::Melee, self.melee as nat);
                let c = repeat(MinionType::Siege, self.siege as nat);
                let d = repeat(MinionType::Ranged, self.ranged as nat);
                if j < self.superm {
                    assert(types[j] == (a + b + c)[j]);
                    assert(types[j] == (a + b)[j]);
                    assert(types[j] == a[j]);
                } else if j < self.superm + self.melee {
                    assert(types[j] == (a + b + c)[j]);
                    assert(types[j] == (a + b)[j]);
                    assert(types[j] == b[j - self.superm]);
                } else if j < self.superm + self.melee + self.siege {
                    assert(types[j] == (a + b + c)[j]);
                    assert(types[j] == c[j - self.superm - self.melee]);
                } else {
                    assert(types[j] == d[j - self.superm - self.melee - self.siege]);
                }
            }
        }
        assert(g * cnt == self.value_of(*timer, ty)) by (nonlinear_arith)
            requires
                g == self.gold_of(*timer, ty) as int,
                cnt == self.count_of(ty) as int,
                self.value_of(*timer, ty) == self.count_of(ty) * self.gold_of(*timer, ty),
        ;
        let mut total: usize = 0;
        let mut i: usize = 0;
        let ghost mut k: int = 0;
        while i < minions.len()
            invariant
                i <= minions@.len(),
                minions@.len() == self.superm + self.melee + self.siege + self.ranged,
                0 <= start,
                0 <= cnt,
                start + cnt <= minions@.len(),
                0 <= g,
                g * cnt <= usize::MAX,
                forall|j: int| 0 <= j < minions@.len() ==> ((#[trigger] minions@[j]).ty == ty <==> start <= j < start + cnt),
                forall|j: int| 0 <= j < minions@.len() && (#[trigger] minions@[j]).ty == ty ==> minions@[j] == self.spec_minion(*timer, ty),
                self.spec_minion(*timer, ty).golds_in_range(),
                g == self.spec_minion(*timer, ty).spec_golds(),
                k == (if i <= start {
                    0
                } else if i <= start + cnt {
                    i - start
                } else {
                    cnt
                }),
                0 <= k <= cnt,
                total == g * k,
            decreases minions@.len() - i,
        {
            if minions[i].ty == ty {
                let gold = minions[i].golds();
                assert(total + gold <= usize::MAX && total + gold == g * (k + 1)) by (nonlinear_arith)
                    requires
                        total == g * k,
                        gold == g,
                        k < cnt,
                        g * cnt <= usize::MAX,
                        0 <= g,
                ;
                total = total + gold;
                proof {
                    k = k + 1;
                }
            }
            i = i + 1;
        }
        total
    }

    /// Gold of the wave's melee minions at `timer`.
    pub fn melee_value(&self, timer: &GameTimer) -> (r: usize)
        requires
            self.size_fits(),
            self.value_of(*timer, MinionType::Melee) <= usize::MAX,
        ensures
            r == self.value_of(*timer, MinionType::Melee),
    {
        self.value(timer, MinionType::Melee)
    }

    /// Gold of the wave's ranged minions at `timer`.
    pub fn ranged_value(&self, timer: &GameTimer) -> (r: usize)
        requires
            self.size_fits(),
            self.value_of(*timer, MinionType::Ranged) <= usize::MAX,
        ensures
            r == self.value_of(*timer, MinionType::Ranged),
    {
        self.value(timer, MinionType::Ranged)
    }

    /// Gold of the wave's siege minions at `timer`.
    pub fn siege_value(&self, timer: &GameTimer) -> (r: usize)
        requires
            self.size_fits(),
            BIG_GOLD + 3 * spec_upgrades(*timer) <= usize::MAX,
            self.value_of(*timer, MinionType::Siege) <= usize::MAX,
        ensures
            r == self.value_of(*timer, MinionType::Siege),
    {
        self.value(timer, MinionType::Siege)
    }

    /// Gold of the wave's super minions at `timer`.
    pub fn super_value(&self, timer: &GameTimer) -> (r: usize)
        requires
            self.size_fits(),
            BIG_GOLD + 3 * spec_upgrades(*timer) <= usize::MAX,
            self.value_of(*timer, MinionType::SuperMinion) <= usize::MAX,
        ensures
            r == self.value_of(*timer, MinionType::SuperMinion),
    {
        self.value(timer, MinionType::SuperMinion)
    }

    /// Upgrades minions have at `timer`: one for every ninety seconds after the first spawn.
    fn upgrades(&self, timer: &GameTimer) -> (r: usize)
        ensures
            r == spec_upgrades(*timer),
    {
        let since = timer.saturating_sub(GameTimer::first_spawn());
        proof {
            let a = timer@;
            let b = 65_000_000_000nat;
            if a >= b {
                assert((a - b) as nat / (NANOS_PER_SEC as nat) == a / (NANOS_PER_SEC as nat) - 65) by (nonlinear_arith)
                    requires
                        a >= b,
                        b == 65_000_000_000nat,
                ;
            } else {
                assert(a / (NANOS_PER_SEC as nat) < 65) by (nonlinear_arith)
                    requires
                        a < b,
                        b == 65_000_000_000nat,
                ;
            }
        }
        (since.as_secs() / 90) as usize
    }

    /// Speed upgrades minions have at `timer`.
    fn ms_upgrades(&self, timer: &GameTimer) -> (r: usize)
        ensures
            r == spec_ms_upgrades(*timer),
    {
        let mut upgrades: usize = 0;
        if GameTimer::from_secs(10 * 60).le(timer) {
            upgrades = upgrades + 1;
        }
        if GameTimer::from_secs(15 * 60).le(timer) {
            upgrades = upgrades + 1;
        }
        if GameTimer::from_secs(20 * 60).le(timer) {
            upgrades = upgrades + 1;
        }
        if GameTimer::from_secs(25 * 60).le(timer) {
            upgrades = upgrades + 1;
        }
        upgrades
    }

    /// Midlane minions give a little less gold before fourteen minutes.
    fn midlane_debuf(&self, timer: &GameTimer) -> (r: bool)
        ensures
            r == self.spec_midlane_debuf(*timer),
    {
        self.lane == Lane::Mid && timer.lt(&GameTimer::minutes_14())
    }

    /// The number of the wave spawning at `spawn`, which must not be before the first
    /// spawn.
    pub fn wave_number(spawn: GameTimer) -> (r: usize)
        requires
            spawn.spec_secs() >= FIRST_SPAWN_SECS,
        ensures
            r == (((spawn.spec_secs() - FIRST_SPAWN_SECS) as nat / (WAVE_PERIOD_SECS as nat)) + 1) as usize,
    {
        (((spawn.as_secs() - FIRST_SPAWN_SECS) / WAVE_PERIOD_SECS) + 1) as usize
    }

    /// Whether the wave spawning at `spawn` carries a siege minion.
    pub open spec fn spec_has_siege(spawn: GameTimer) -> bool {
        let wn = (((spawn.spec_secs() - FIRST_SPAWN_SECS) as nat / (WAVE_PERIOD_SECS as nat)) + 1) as usize;
        ||| (spawn@ < 900_000_000_000 && wn % CANNON_PRE_15_PERIOD == 0)
        ||| (spawn@ > 900_000_000_000 && spawn@ < 1_500_000_000_000 && (wn + 1) % (
        CANNON_PRE_25_PERIOD as int) == 0)
        ||| spawn@ > 1_500_000_000_000
    }

    /// Whether the wave spawning at `spawn` carries a siege minion; only for spawns
    /// from the first one on.
    pub fn has_siege(spawn: GameTimer) -> (r: bool)
        requires
            spawn.spec_secs() >= FIRST_SPAWN_SECS,
        ensures
            r == Self::spec_has_siege(spawn),
    {
        let wn = Wave::wave_number(spawn);
        if spawn.lt(&GameTimer::minutes_15()) && wn % CANNON_PRE_15_PERIOD == 0 {
            return true;
        }
        if GameTimer::minutes_15().lt(&spawn) && spawn.lt(&GameTimer::minutes_25()) {
            proof {
                let a = spawn@;
                assert(a / (NANOS_PER_SEC as nat) < 1500) by (nonlinear_arith)
                    requires
                        a < 1_500_000_000_000nat,
                ;
            }
            if (wn + 1) % CANNON_PRE_25_PERIOD == 0 {
                return true;
            }
        }
        GameTimer::minutes_25().lt(&spawn)
    }
}

/// From the first spawn on, a wave decides its siege minion on the same schedule as
/// the engine's waves: before fifteen minutes when its number is a multiple of three,
/// strictly between fifteen and twenty-five minutes when the number after it is even,
/// and always after twenty-five minutes.
pub proof fn lemma_wave_siege_schedule(t: GameTimer)
    requires
        t.spec_secs() >= FIRST_SPAWN_SECS,
    ensures
        Wave::spec_has_siege(t) == crate::ecs::spawners::wave::spec_has_siege(t),
        ({
            let n: int = (t.spec_secs() - 65) / 30 + 1;
            &&& t@ < 900_000_000_000 ==> (Wave::spec_has_siege(t) <==> n % 3 == 0)
            &&& 900_000_000_000 < t@ < 1_500_000_000_000 ==> (Wave::spec_has_siege(t) <==> (n
                + 1) % 2 == 0)
            &&& t@ > 1_500_000_000_000 ==> Wave::spec_has_siege(t)
        }),
{
    crate::ecs::spawners::wave::lemma_siege_schedule(t);
    let a = t@;
    if a < 1_500_000_000_000 {
        assert(a / (NANOS_PER_SEC as nat) < 1500) by (nonlinear_arith)
            requires
                a < 1_500_000_000_000nat,
        ;
    }
}

/// Only midlane minions get the one-gold cut, and only before fourteen minutes: a
/// melee minion of a wave is worth 21 and a ranged one 14, except in the mid lane
/// before fourteen minutes, where they are worth 20 and 13.
pub proof fn lemma_midlane_gold(w: Wave, t: GameTimer)
    ensures
        w.spec_midlane_debuf(t) <==> (w.lane == Lane::Mid && t@ < 840_000_000_000),
        w.lane != Lane::Mid || t@ >= 840_000_000_000 ==> w.gold_of(t, MinionType::Melee) == 21
            && w.gold_of(t, MinionType::Ranged) == 14,
        w.lane == Lane::Mid && t@ < 840_000_000_000 ==> w.gold_of(t, MinionType::Melee) == 20
            && w.gold_of(t, MinionType::Ranged) == 13,
{
}

/// The gold of `n` copies of one minion is `n` times its gold.
proof fn lemma_sum_golds_repeat(m: Minion, n: nat)
    ensures
        sum_golds(Seq::new(n, |_i: int| m)) == n * m.spec_golds(),
    decreases n,
{
    if n > 0 {
        lemma_sum_golds_repeat(m, (n - 1) as nat);
        assert(Seq::new(n, |_i: int| m).drop_last() =~= Seq::new((n - 1) as nat, |_i: int| m));
        assert(n * m.spec_golds() == (n - 1) * m.spec_golds() + m.spec_golds()) by (nonlinear_arith);
    }
}

/// Minion kinds by themselves count no last hit.
proof fn lemma_kinds_last_hits(kinds: Seq<MinionType>)
    ensures
        sum_last_hits(kinds) == 0,
    decreases kinds.len(),
{
    if kinds.len() > 0 {
        lemma_kinds_last_hits(kinds.drop_last());
    }
}

impl Wave {
    /// The gold of the whole wave at `timer`: the gold of its melee, ranged, siege and
    /// super minions added up.
    pub open spec fn spec_wave_value(&self, timer: GameTimer) -> int {
        self.value_of(timer, MinionType::Melee) + self.value_of(timer, MinionType::Ranged)
            + self.value_of(timer, MinionType::Siege) + self.value_of(timer, MinionType::SuperMinion)
    }

    /// The last hits the wave's kinds count for, added up over the kinds rather than
    /// the minions: none.
    pub fn cs_count(&self) -> (r: usize)
        requires
            self.size_fits(),
        ensures
            r == sum_last_hits(self.spec_minions_types()),
            r == 0,
    {
        let types = self.minions_types();
        proof {
            lemma_kinds_last_hits(types@);
        }
        collect_last_hits(types.as_slice())
    }

    /// The gold of the whole wave at `timer`, which must fit a `usize`.
    pub fn wave_value(&self, timer: &GameTimer) -> (r: usize)
        requires
            self.size_fits(),
            BIG_GOLD + 3 * spec_upgrades(*timer) <= usize::MAX,
            self.spec_wave_value(*timer) <= usize::MAX,
        ensures
            r == self.spec_wave_value(*timer),
    {
        let minions = self.minions(timer);
        let ghost f = |ty: MinionType| self.spec_minion(*timer, ty);
        proof {
            let a = repeat(MinionType::SuperMinion, self.superm as nat);
            let b = repeat(MinionType::Melee, self.melee as nat);
            let c = repeat(MinionType::Siege, self.siege as nat);
            let d = repeat(MinionType::Ranged, self.ranged as nat);
            let ma = Seq::new(self.superm as nat, |_i: int| f(MinionType::SuperMinion));
            let mb = Seq::new(self.melee as nat, |_i: int| f(MinionType::Melee));
            let mc = Seq::new(self.siege as nat, |_i: int| f(MinionType::Siege));
            let md = Seq::new(self.ranged as nat, |_i: int| f(MinionType::Ranged));
            assert(minions@ =~= ma + mb + mc + md);
            lemma_sum_golds_concat(ma + mb + mc, md);
            lemma_sum_golds_concat(ma + mb, mc);
            lemma_sum_golds_concat(ma, mb);
            lemma_sum_golds_repeat(f(MinionType::SuperMinion), self.superm as nat);
            lemma_sum_golds_repeat(f(MinionType::Melee), self.melee as nat);
            lemma_sum_golds_repeat(f(MinionType::Siege), self.siege as nat);
            lemma_sum_golds_repeat(f(MinionType::Ranged), self.ranged as nat);
            assert(sum_golds(minions@) == self.spec_wave_value(*timer));
            assert forall|i: int| 0 <= i < minions@.len() implies (#[trigger] minions@[i]).golds_in_range() by {
                assert(minions@[i].upgrades == spec_upgrades(*timer));
            }
        }
        collect_golds(minions.as_slice())
    }
}

/// Appends `n` times the kind `ty` to `v`.
fn push_repeated(v: &mut Vec<MinionType>, ty: MinionType, n: usize)
    ensures
        final(v)@ == old(v)@ + repeat(ty, n as nat),
{
    let mut i: usize = 0;
    while i < n
        invariant
            i <= n,
            v@ == old(v)@ + repeat(ty, i as nat),
        decreases n - i,
    {
        v.push(ty);
        assert(old(v)@ + repeat(ty, (i + 1) as nat) =~= (old(v)@ + repeat(ty, i as nat)).push(ty));
        i = i + 1;
    }
}

} // verus!
