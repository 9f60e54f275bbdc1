use engine::common::{GameTimer, Lane, Team};
use engine::ecs::generic::spawner::EntitySpawner;
use engine::ecs::spawners::wave::WaveBuilder;
use engine::ecs::units::minion::MinionBuilder;
use engine::ecs::units::old_minion::{Minion, MinionType};
use engine::event::EventConsumer;
use engine::stats::GoldCollectable;
use engine::wave::spawner::WaveSpawner;
use engine::wave::Wave;

fn secs(s: u64) -> GameTimer {
    GameTimer::from_secs(s)
}

fn drain(mut builder: WaveBuilder) -> Vec<MinionBuilder> {
    let mut out = Vec::new();
    while let Some(m) = builder.spawn_next() {
        out.push(m);
    }
    assert_eq!(builder.spawn_next(), None);
    out
}

fn kinds_and_offsets(ms: &[MinionBuilder]) -> Vec<(MinionType, i64)> {
    ms.iter().map(|m| (m.kind(), m.offset())).collect()
}

#[test]
fn default_wave_hands_out_melee_then_ranged() {
    let wave = WaveBuilder::default().set_lane(Lane::Mid).set_team(Team::Blue);
    let minions = drain(wave);
    assert_eq!(
        kinds_and_offsets(&minions),
        vec![
            (MinionType::Melee, 0),
            (MinionType::Melee, -148),
            (MinionType::Melee, -296),
            (MinionType::Ranged, -444),
            (MinionType::Ranged, -592),
            (MinionType::Ranged, -740),
        ]
    );
    for m in &minions {
        assert_eq!(m.lane(), Lane::Mid);
        assert_eq!(m.team(), Team::Blue);
    }
}

#[test]
fn siege_wave_puts_the_siege_minion_between_melee_and_ranged() {
    let wave = WaveBuilder::default().set_lane(Lane::Top).set_team(Team::Red).has_siege(true);
    let minions = drain(wave);
    assert_eq!(
        kinds_and_offsets(&minions),
        vec![
            (MinionType::Melee, 0),
            (MinionType::Melee, -148),
            (MinionType::Melee, -296),
            (MinionType::Siege, -444),
            (MinionType::Ranged, -609),
            (MinionType::Ranged, -757),
            (MinionType::Ranged, -905),
        ]
    );
}

#[test]
fn empty_wave_hands_out_nothing() {
    let mut wave = WaveBuilder::default().set_lane(Lane::Top).set_team(Team::Red);
    for _ in 0..6 {
        assert!(wave.spawn_next().is_some());
    }
    assert_eq!(wave.spawn_next(), None);
    assert_eq!(wave.spawn_next(), None);
}

#[test]
fn minion_builders() {
    assert_eq!(MinionBuilder::melee().kind(), MinionType::Melee);
    assert_eq!(MinionBuilder::ranged().kind(), MinionType::Ranged);
    assert_eq!(MinionBuilder::siege().kind(), MinionType::Siege);
    assert_eq!(MinionBuilder::superm().kind(), MinionType::SuperMinion);
    let m = MinionBuilder::siege().set_lane(Lane::Bot).set_team(Team::Blue).set_offset(-30);
    assert_eq!(m.lane(), Lane::Bot);
    assert_eq!(m.team(), Team::Blue);
    assert_eq!(m.offset(), -30);
    assert_eq!(m.radius(), 65);
    assert_eq!(MinionBuilder::melee().radius(), 48);
    let id = m.guid();
    assert_eq!(id.team(), Some(Team::Blue));
    assert_eq!(id.lane(), Some(Lane::Bot));
    assert!(!id.is_turret());
}

fn wave(lane: Lane, melee: usize, siege: usize, ranged: usize, superm: usize) -> Wave {
    Wave { spawn: secs(65), lane, team: Team::Red, melee, siege, ranged, superm }
}

#[test]
fn wave_minion_types_in_walking_order() {
    let w = wave(Lane::Top, 3, 1, 3, 2);
    assert_eq!(
        w.minions_types(),
        vec![
            MinionType::SuperMinion,
            MinionType::SuperMinion,
            MinionType::Melee,
            MinionType::Melee,
            MinionType::Melee,
            MinionType::Siege,
            MinionType::Ranged,
            MinionType::Ranged,
            MinionType::Ranged,
        ]
    );
}

#[test]
fn wave_minions_at_a_time() {
    let w = wave(Lane::Mid, 1, 1, 1, 0);
    let minions = w.minions(&secs(65 + 180));
    assert_eq!(minions.len(), 3);
    assert_eq!(
        minions[0],
        Minion { team: Team::Red, ty: MinionType::Melee, upgrades: 2, ms_upgrades: 0, mid_debuf: true }
    );
    assert_eq!(minions[1].ty, MinionType::Siege);
    assert_eq!(minions[2].ty, MinionType::Ranged);

    let late = w.minions(&secs(26 * 60));
    assert_eq!(late[0].ms_upgrades, 4);
    assert!(!late[0].mid_debuf);
    assert_eq!(late[0].upgrades, (26 * 60 - 65) / 90);
}

#[test]
fn wave_gold_values() {
    let top = wave(Lane::Top, 3, 1, 3, 2);
    let t = secs(65);
    assert_eq!(top.melee_value(&t), 3 * 21);
    assert_eq!(top.ranged_value(&t), 3 * 14);
    assert_eq!(top.siege_value(&t), 57);
    assert_eq!(top.super_value(&t), 2 * 57);
    let mid = wave(Lane::Mid, 3, 1, 3, 0);
    assert_eq!(mid.melee_value(&t), 3 * 20);
    assert_eq!(mid.ranged_value(&t), 3 * 13);
    assert_eq!(mid.super_value(&t), 0);
    // the big minion gold grows by three per upgrade, up to 90
    let later = secs(65 + 90 * 5);
    assert_eq!(top.siege_value(&later), 57 + 15);
    let much_later = secs(65 + 90 * 20);
    assert_eq!(top.siege_value(&much_later), 90);
}

#[test]
fn wave_movespeed() {
    let w = wave(Lane::Top, 3, 0, 3, 0);
    assert_eq!(w.movespeed(&secs(0)), 325);
    assert_eq!(w.movespeed(&secs(600)), 350);
    assert_eq!(w.movespeed(&secs(900)), 375);
    assert_eq!(w.movespeed(&secs(1200)), 400);
    assert_eq!(w.movespeed(&secs(1500)), 425);
}

#[test]
fn wave_number_and_siege_of_wave() {
    assert_eq!(Wave::wave_number(secs(65)), 1);
    assert_eq!(Wave::wave_number(secs(125)), 3);
    assert!(Wave::has_siege(secs(125)));
    assert!(!Wave::has_siege(secs(95)));
    assert!(Wave::has_siege(secs(1600)));
}

#[test]
fn minion_gold() {
    let m = Minion { team: Team::Blue, ty: MinionType::Melee, upgrades: 0, ms_upgrades: 0, mid_debuf: false };
    assert_eq!(m.golds(), 21);
    assert_eq!(m.to_last_hit(), 1);
    let r = Minion { ty: MinionType::Ranged, mid_debuf: true, ..m };
    assert_eq!(r.golds(), 13);
    let s = Minion { ty: MinionType::Siege, upgrades: 4, ..m };
    assert_eq!(s.golds(), 69);
    let capped = Minion { ty: MinionType::SuperMinion, upgrades: 100, mid_debuf: true, ..m };
    assert_eq!(capped.golds(), 89);
    assert_eq!(m.movespeed(), 325);
    assert_eq!(Minion { ms_upgrades: 2, ..m }.movespeed(), 375);
    assert_eq!(MinionType::Siege.golds(), 0);
    assert_eq!(MinionType::Siege.to_last_hit(), 0);
}

#[test]
fn spawner_waves() {
    let spawner = WaveSpawner::from_first_spawn(Team::Blue, Lane::Bot);
    let waves = spawner.waves(&secs(160), 0);
    assert_eq!(waves.len(), 4);
    assert_eq!(waves[0].spawn, secs(65));
    assert_eq!(waves[3].spawn, secs(155));
    assert_eq!(waves[0].siege, 0);
    assert_eq!(waves[2].siege, 1);
    for w in &waves {
        assert_eq!(w.team, Team::Blue);
        assert_eq!(w.lane, Lane::Bot);
        assert_eq!(w.melee, 3);
        assert_eq!(w.ranged, 3);
        assert_eq!(w.superm, 0);
    }
    // with super minions the siege minion goes away
    let waves = spawner.waves(&secs(160), 2);
    assert_eq!(waves[2].siege, 0);
    assert_eq!(waves[2].superm, 2);
}

#[test]
fn spawner_follows_the_clock() {
    let mut spawner = WaveSpawner::from_timer(secs(0), Team::Red, Lane::Top);
    assert_eq!(spawner.waves(&secs(64), 0).len(), 0);
    spawner.on_timer_consume(secs(95));
    let waves = spawner.waves(&secs(126), 0);
    assert_eq!(waves.len(), 2);
    assert_eq!(waves[0].spawn, secs(95));
    assert_eq!(waves[1].spawn, secs(125));
}

#[test]
fn wave_total_gold_and_last_hits() {
    let top = wave(Lane::Top, 3, 1, 3, 2);
    let t = secs(65);
    assert_eq!(top.wave_value(&t), 3 * 21 + 3 * 14 + 57 + 2 * 57);
    assert_eq!(
        top.wave_value(&t),
        top.melee_value(&t) + top.ranged_value(&t) + top.siege_value(&t) + top.super_value(&t)
    );
    let mid = wave(Lane::Mid, 3, 0, 3, 0);
    assert_eq!(mid.wave_value(&t), 3 * 20 + 3 * 13);
    assert_eq!(mid.wave_value(&secs(900)), 3 * 21 + 3 * 14);
    // the last hits are added up over the kinds, which count none
    assert_eq!(top.cs_count(), 0);
}
