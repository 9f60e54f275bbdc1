use engine::common::{GameTimer, Lane, Team};
use engine::ecs::spawners::wave::WaveBuilder;
use engine::ecs::store::EntityStoreBuilder;
use engine::ecs::structures::inhibitor::{InhibitorComponent, InhibitorIndex};
use engine::ecs::structures::old_nexus::Nexus;
use engine::ecs::structures::old_turret::{LaneTurrets, Turret};
use engine::ecs::structures::turret::{TurretIndex, TurretKind, TurretState};
use engine::ecs::entity::SpecificComponentBuilder;
use engine::ecs::generic::spawner::EntitySpawner;
use engine::ecs::units::old_minion::MinionType;
use engine::ecs::unit::UnitKind;
use engine::ecs::units::old_minion::Minion;
use engine::event::{EventConsumer, TurretEvent};

fn secs(s: u64) -> GameTimer {
    GameTimer::from_secs(s)
}

#[test]
fn turret_constructors() {
    let o = Turret::outer(Team::Blue, Lane::Top);
    assert_eq!(o.state(), TurretState::UpWithPlates { plates: 5 });
    assert_eq!(o.kind(), TurretKind::Outer);
    assert_eq!(o.team(), Team::Blue);
    assert!(o.is_up());
    assert_eq!(Turret::inner(Team::Red, Lane::Mid).state(), TurretState::Up);
    assert_eq!(Turret::inhib(Team::Red, Lane::Bot).kind(), TurretKind::Inhib);
    let n = Turret::nexus(Team::Red, true);
    assert_eq!(n.kind(), TurretKind::NexusTop);
    assert_eq!(n.index, TurretIndex(Team::Red, Lane::Nexus, TurretKind::NexusTop));
    assert_eq!(Turret::nexus(Team::Blue, false).kind(), TurretKind::NexusBot);
}

#[test]
fn plates_fall_one_by_one_and_never_below_zero() {
    let mut t = Turret::outer(Team::Blue, Lane::Top);
    for left in (0..5).rev() {
        t.on_event(TurretEvent::TakePlate);
        assert_eq!(t.state(), TurretState::UpWithPlates { plates: left });
    }
    t.on_event(TurretEvent::TakePlate);
    assert_eq!(t.state(), TurretState::UpWithPlates { plates: 0 });
    assert!(t.is_up());
}

#[test]
fn fallen_turret_stays_down() {
    let mut t = Turret::outer(Team::Red, Lane::Bot);
    t.on_event(TurretEvent::Fall);
    assert_eq!(t.state(), TurretState::Down);
    assert!(!t.is_up());
    t.on_event(TurretEvent::TakePlate);
    assert_eq!(t.state(), TurretState::Down);
    t.on_timer_consume(secs(2000));
    assert_eq!(t.state(), TurretState::Down);
}

#[test]
fn plates_go_at_fourteen_minutes() {
    let mut t = Turret::outer(Team::Red, Lane::Mid);
    t.on_timer_consume(secs(839));
    assert_eq!(t.state(), TurretState::UpWithPlates { plates: 5 });
    t.on_timer_consume(secs(840));
    assert_eq!(t.state(), TurretState::Up);
    t.on_timer_consume(secs(840));
    assert_eq!(t.state(), TurretState::Up);
    t.on_event(TurretEvent::TakePlate);
    assert_eq!(t.state(), TurretState::Up);
    let mut inner = Turret::inner(Team::Red, Lane::Mid);
    inner.on_timer_consume(secs(900));
    assert_eq!(inner.state(), TurretState::Up);
}

#[test]
fn lane_turrets() {
    let mut lane = LaneTurrets::from(Team::Blue, Lane::Bot);
    assert_eq!(lane.index(TurretKind::Outer).kind(), TurretKind::Outer);
    assert_eq!(lane.index(TurretKind::Inner).kind(), TurretKind::Inner);
    assert_eq!(lane.index(TurretKind::Inhib).kind(), TurretKind::Inhib);
    let mut fallen = *lane.index(TurretKind::Inner);
    fallen.on_event(TurretEvent::Fall);
    lane.set(TurretKind::Inner, fallen);
    assert!(!lane.index(TurretKind::Inner).is_up());
    lane.on_timer_consume(secs(900));
    assert_eq!(lane.index(TurretKind::Outer).state(), TurretState::Up);
    assert_eq!(lane.index(TurretKind::Inner).state(), TurretState::Down);
    assert_eq!(lane.turrets[2].state(), TurretState::Up);
}

#[test]
fn turret_kinds() {
    assert!(TurretKind::NexusTop.is_nexus());
    assert!(TurretKind::NexusBot.is_nexus());
    assert!(!TurretKind::Outer.is_nexus());
    assert_eq!(TurretKind::Outer.index(), 0);
    assert_eq!(TurretKind::Inhib.index(), 2);
    assert_eq!(TurretKind::NexusTop.index(), 4);
}

#[test]
fn turret_indexes() {
    assert_eq!(TurretIndex::red_top_outer(), TurretIndex(Team::Red, Lane::Top, TurretKind::Outer));
    assert_eq!(TurretIndex::blue_mid_inner(), TurretIndex(Team::Blue, Lane::Mid, TurretKind::Inner));
    assert_eq!(TurretIndex::red_bot_inhib(), TurretIndex(Team::Red, Lane::Bot, TurretKind::Inhib));
    assert_eq!(TurretIndex::blue_top_nexus(), TurretIndex(Team::Blue, Lane::Nexus, TurretKind::NexusTop));
    assert_eq!(TurretIndex::red_bot_nexus(), TurretIndex(Team::Red, Lane::Nexus, TurretKind::NexusBot));
    assert_eq!(InhibitorIndex::blue_mid(), InhibitorIndex(Team::Blue, Lane::Mid));
    assert_eq!(InhibitorIndex::red_top(), InhibitorIndex(Team::Red, Lane::Top));
}

#[test]
fn old_nexus_and_units() {
    let n = Nexus::from(Team::Red);
    assert_eq!(n.team(), Team::Red);
    let m = Minion { team: Team::Blue, ty: MinionType::Ranged, upgrades: 0, ms_upgrades: 0, mid_debuf: false };
    assert_eq!(UnitKind::Minion(m).team(), Team::Blue);
}

#[test]
fn super_minions_from_fallen_inhibitors() {
    let mut builder = EntityStoreBuilder::new();
    let down = SpecificComponentBuilder::Inhibitor(InhibitorComponent { down: Some(secs(500)) });
    builder.spawn(InhibitorIndex::red_top().guid(), 0, 0, down);
    builder.spawn(InhibitorIndex::red_mid().guid(), 1, 0, InhibitorIndex::red_mid().specific());
    builder.spawn(InhibitorIndex::red_bot().guid(), 2, 0, down);
    let store = builder.build();
    let inhibs = || {
        [
            store.get_inhib(InhibitorIndex::red_top().guid()).unwrap(),
            store.get_inhib(InhibitorIndex::red_mid().guid()).unwrap(),
            store.get_inhib(InhibitorIndex::red_bot().guid()).unwrap(),
        ]
    };
    let count = |mut w: WaveBuilder| {
        let mut kinds = Vec::new();
        while let Some(m) = w.spawn_next() {
            kinds.push(m.kind());
        }
        kinds
    };
    // the lane's own inhibitor is down: one super minion, and the siege minion goes
    let top = WaveBuilder::default().set_lane(Lane::Top).set_team(Team::Blue).has_siege(true).set_super(inhibs());
    let kinds = count(top);
    assert_eq!(kinds.iter().filter(|k| **k == MinionType::SuperMinion).count(), 1);
    assert!(!kinds.contains(&MinionType::Siege));
    // the lane's inhibitor stands: nothing changes
    let mid = WaveBuilder::default().set_lane(Lane::Mid).set_team(Team::Blue).has_siege(true).set_super(inhibs());
    let kinds = count(mid);
    assert!(!kinds.contains(&MinionType::SuperMinion));
    assert!(kinds.contains(&MinionType::Siege));
    // a wave without a lane is left as it is
    let none = WaveBuilder::default().set_super(inhibs());
    assert_eq!(none, WaveBuilder::default());
}

#[test]
fn two_super_minions_when_all_inhibitors_are_down() {
    let mut builder = EntityStoreBuilder::new();
    let down = SpecificComponentBuilder::Inhibitor(InhibitorComponent { down: Some(secs(500)) });
    for index in [InhibitorIndex::blue_top(), InhibitorIndex::blue_mid(), InhibitorIndex::blue_bot()] {
        builder.spawn(index.guid(), 0, 0, down);
    }
    let store = builder.build();
    let inhibs = [
        store.get_inhib(InhibitorIndex::blue_top().guid()).unwrap(),
        store.get_inhib(InhibitorIndex::blue_mid().guid()).unwrap(),
        store.get_inhib(InhibitorIndex::blue_bot().guid()).unwrap(),
    ];
    let mut w = WaveBuilder::default().set_lane(Lane::Bot).set_team(Team::Red).set_super(inhibs);
    let mut kinds = Vec::new();
    while let Some(m) = w.spawn_next() {
        kinds.push(m.kind());
    }
    assert_eq!(&kinds[..2], &[MinionType::SuperMinion, MinionType::SuperMinion]);
    assert_eq!(kinds.len(), 8);
}
