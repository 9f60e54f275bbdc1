use engine::common::{GameTimer, Lane, Team};
use engine::ecs::entity::{SpecificComponent, SpecificComponentBuilder};
use engine::ecs::store::{EntityStore, EntityStoreBuilder};
use engine::ecs::structures::inhibitor::{InhibitorComponent, InhibitorIndex};
use engine::ecs::structures::nexus::NexusIndex;
use engine::ecs::structures::turret::{TurretComponent, TurretIndex, TurretState};
use engine::ecs::structures::StructureIndex;
use engine::ecs::units::minion::MinionComponent;
use engine::ecs::units::old_minion::MinionType;
use engine::ecs::UnitId;
use engine::{Engine, MinimapEngine, START_STRUCTURES};

fn minion_component(kind: MinionType) -> SpecificComponentBuilder {
    SpecificComponentBuilder::Minion(MinionComponent { kind })
}

#[test]
fn spawn_then_lookup() {
    let mut builder = EntityStoreBuilder::new();
    let turret = TurretIndex::blue_top_outer();
    let id = builder.spawn(turret.guid(), 7, 0, turret.specific());
    assert_eq!(id, turret.guid());
    let store = builder.build();
    let entity = store.get_raw_by_id(id).unwrap();
    assert_eq!(entity.guid, id);
    assert_eq!(entity.position, 7);
    assert_eq!(entity.pathfinding, 0);
    assert!(entity.is_turret());
    assert!(!entity.is_inhib());
    assert!(!entity.is_minion());
    assert_eq!(entity.get_specific_unchecked(), Some(0));
    let t = store.get_turret(id).unwrap();
    assert_eq!(t.guid(), id);
    assert_eq!(*t.get_state(), TurretComponent { state: TurretState::UpWithPlates { plates: 5 } });
    assert!(store.get_inhib(id).is_none());
    assert!(store.get_minion(id).is_none());
    assert!(store.get_raw_by_id(UnitId::null()).is_none());
}

#[test]
fn remove_missing_entity_fails() {
    let mut builder = EntityStoreBuilder::new();
    let inhib = InhibitorIndex::red_mid();
    builder.spawn(inhib.guid(), 1, 0, inhib.specific());
    let mut store = builder.build();
    let missing = TurretIndex::red_mid_outer().guid();
    assert_eq!(
        store.remove_by_id(missing),
        Err(String::from("src/ecs/store.rs:414"))
    );
    assert_eq!(store.remove_by_id(inhib.guid()), Ok(inhib.guid()));
    assert!(store.get_raw_by_id(inhib.guid()).is_none());
    assert!(store.get_inhib(inhib.guid()).is_none());
    assert!(store.remove_by_id(inhib.guid()).is_err());
}

#[test]
fn respawn_after_remove_uses_the_slab_again() {
    let mut store = EntityStoreBuilder::new().build();
    let a = UnitId::new(Some(Team::Blue), Some(Lane::Top));
    let b = UnitId::new(Some(Team::Red), Some(Lane::Bot));
    store.spawn(a, 0, 1, minion_component(MinionType::Melee));
    store.spawn(b, 2, 3, minion_component(MinionType::Ranged));
    assert_eq!(store.get_raw_by_id(a).unwrap().get_specific_unchecked(), Some(0));
    assert_eq!(store.get_raw_by_id(b).unwrap().get_specific_unchecked(), Some(1));
    assert_eq!(store.minion_ids(), vec![a, b]);
    store.remove_by_id(a).unwrap();
    assert_eq!(store.minion_ids(), vec![b]);
    let c = UnitId::new(Some(Team::Blue), Some(Lane::Mid));
    store.spawn(c, 4, 5, minion_component(MinionType::Siege));
    // the freed slot 0 is taken again, so `c` now comes first
    assert_eq!(store.get_raw_by_id(c).unwrap().get_specific_unchecked(), Some(0));
    assert_eq!(store.minion_ids(), vec![c, b]);
    assert_eq!(store.minions().len(), 2);
    let m = store.get_minion_mut(c).unwrap();
    assert_eq!(m.guid(), c);
    assert_eq!(*m.get_state(), MinionComponent { kind: MinionType::Siege });
    assert_eq!(m.delete(), Ok(c));
    assert!(store.get_minion(c).is_none());
    assert_eq!(store.minion_ids(), vec![b]);
}

#[test]
fn lists_in_slab_order() {
    let mut builder = EntityStoreBuilder::new();
    let t1 = TurretIndex::red_bot_inner();
    let t2 = TurretIndex::blue_mid_inhib();
    builder.spawn(t1.guid(), 0, 0, t1.specific());
    builder.spawn(t2.guid(), 1, 0, t2.specific());
    let i1 = InhibitorIndex::blue_top();
    builder.spawn(i1.guid(), 2, 0, i1.specific());
    let n = NexusIndex::from(Team::Red);
    builder.spawn(n.guid(), 3, 0, n.specific());
    let store = builder.build();
    let turrets: Vec<UnitId> = store.turrets().iter().map(|t| t.guid()).collect();
    assert_eq!(turrets, vec![t1.guid(), t2.guid()]);
    let inhibs: Vec<UnitId> = store.inhibitors().iter().map(|t| t.guid()).collect();
    assert_eq!(inhibs, vec![i1.guid()]);
    assert!(store.minions().is_empty());
    let nexuses: Vec<UnitId> = store.nexuses().iter().map(|t| t.guid()).collect();
    assert_eq!(nexuses, vec![n.guid()]);
    assert!(store.get_nexus(Team::Blue).is_none());
    assert_eq!(store.get_nexus(Team::Red).unwrap().guid(), n.guid());
    let nexus_entity = store.get_raw_by_id(n.guid()).unwrap();
    assert_eq!(nexus_entity.specific, SpecificComponent::Nothing);
    assert_eq!(nexus_entity.get_specific_unchecked(), None);
}

#[test]
fn inhibitor_state() {
    let mut builder = EntityStoreBuilder::new();
    let up = InhibitorIndex::blue_bot();
    let down = InhibitorIndex::red_bot();
    builder.spawn(up.guid(), 0, 0, up.specific());
    builder.spawn(
        down.guid(),
        1,
        0,
        SpecificComponentBuilder::Inhibitor(InhibitorComponent { down: Some(GameTimer::from_secs(600)) }),
    );
    let store = builder.build();
    let a = store.get_inhib(up.guid()).unwrap();
    assert!(a.is_up());
    assert!(!a.is_down());
    assert_eq!(a.get_state().down, None);
    let b = store.get_inhib(down.guid()).unwrap();
    assert!(b.is_down());
    assert!(!b.is_up());
    assert_eq!(b.get_state().down, Some(GameTimer::from_secs(600)));
    assert_eq!(InhibitorComponent::default().down, None);
}

fn positions() -> Vec<usize> {
    (0..START_STRUCTURES).collect()
}

fn started_game() -> (MinimapEngine, EntityStore) {
    MinimapEngine::init(&positions(), 0)
}

#[test]
fn start_structures_in_order() {
    let s = MinimapEngine::start_structures();
    assert_eq!(s.len(), 30);
    assert_eq!(s[0], StructureIndex::Turret(TurretIndex::blue_top_outer()));
    assert_eq!(s[1], StructureIndex::Turret(TurretIndex::blue_top_inner()));
    assert_eq!(s[2], StructureIndex::Turret(TurretIndex::blue_top_inhib()));
    assert_eq!(s[3], StructureIndex::Turret(TurretIndex::red_top_outer()));
    assert_eq!(s[6], StructureIndex::Turret(TurretIndex::blue_mid_outer()));
    assert_eq!(s[17], StructureIndex::Turret(TurretIndex::red_bot_inhib()));
    assert_eq!(s[18], StructureIndex::Turret(TurretIndex::blue_top_nexus()));
    assert_eq!(s[19], StructureIndex::Turret(TurretIndex::blue_bot_nexus()));
    assert_eq!(s[20], StructureIndex::Turret(TurretIndex::red_top_nexus()));
    assert_eq!(s[21], StructureIndex::Turret(TurretIndex::red_bot_nexus()));
    assert_eq!(s[22], StructureIndex::Inhibitor(InhibitorIndex::red_top()));
    assert_eq!(s[25], StructureIndex::Inhibitor(InhibitorIndex::blue_top()));
    assert_eq!(s[27], StructureIndex::Inhibitor(InhibitorIndex::blue_bot()));
    assert_eq!(s[28], StructureIndex::Nexus(NexusIndex::from(Team::Blue)));
    assert_eq!(s[29], StructureIndex::Nexus(NexusIndex::from(Team::Red)));
}

#[test]
fn init_spawns_the_map() {
    let (engine, store) = started_game();
    assert_eq!(engine.timer, GameTimer::game_start());
    assert_eq!(store.turrets().len(), 22);
    assert_eq!(store.inhibitors().len(), 6);
    assert_eq!(store.nexuses().len(), 2);
    assert!(store.minions().is_empty());
    for (i, s) in MinimapEngine::start_structures().iter().enumerate() {
        let e = store.get_raw_by_id(s.guid()).unwrap();
        assert_eq!(e.position, i);
        assert_eq!(e.pathfinding, 0);
    }
    let outer = store.get_turret(TurretIndex::red_mid_outer().guid()).unwrap();
    assert_eq!(outer.get_state().state, TurretState::UpWithPlates { plates: 5 });
    let inner = store.get_turret(TurretIndex::red_mid_inner().guid()).unwrap();
    assert_eq!(inner.get_state().state, TurretState::Up);
}

#[test]
fn default_objective_is_the_enemy_outer_turret() {
    let id = UnitId::new(Some(Team::Blue), Some(Lane::Bot));
    assert_eq!(MinimapEngine::default_objective(id), TurretIndex::red_bot_outer().guid());
    let id = UnitId::new(Some(Team::Red), Some(Lane::Top));
    assert_eq!(MinimapEngine::default_objective(id), TurretIndex::blue_top_outer().guid());
}

#[test]
fn first_step_spawns_one_wave_per_lane() {
    let (mut engine, store) = started_game();
    let orders = engine.on_step(&store, GameTimer::first_spawn() + GameTimer::from_secs(1));
    assert_eq!(engine.timer, GameTimer::from_secs(66));
    assert_eq!(orders.len(), 6);
    let lanes: Vec<(Team, Lane)> = orders.iter().map(|o| (o.team, o.lane)).collect();
    assert_eq!(
        lanes,
        vec![
            (Team::Blue, Lane::Top),
            (Team::Blue, Lane::Mid),
            (Team::Blue, Lane::Bot),
            (Team::Red, Lane::Top),
            (Team::Red, Lane::Mid),
            (Team::Red, Lane::Bot),
        ]
    );
    for o in &orders {
        assert_eq!(o.spawn, GameTimer::first_spawn());
        let kinds: Vec<MinionType> = o.minions.iter().map(|m| m.kind()).collect();
        assert_eq!(
            kinds,
            vec![
                MinionType::Melee,
                MinionType::Melee,
                MinionType::Melee,
                MinionType::Ranged,
                MinionType::Ranged,
                MinionType::Ranged,
            ]
        );
        for m in &o.minions {
            assert_eq!(m.team(), o.team);
            assert_eq!(m.lane(), o.lane);
        }
    }
    // the clock now stands between two spawns, and later steps find none
    let orders = engine.on_step(&store, GameTimer::from_secs(10));
    assert!(orders.is_empty());
    let orders = engine.on_step(&store, GameTimer::from_secs(60));
    assert!(orders.is_empty());
    assert_eq!(engine.timer, GameTimer::from_secs(136));
}

#[test]
fn steps_on_schedule_spawn_every_wave() {
    let (mut engine, store) = started_game();
    let one = engine.spawn_orders(&store, GameTimer::from_secs(200));
    let mut two = engine.on_step(&store, GameTimer::from_secs(95));
    two.extend(engine.on_step(&store, GameTimer::from_secs(105)));
    assert_eq!(one.len(), 30);
    assert_eq!(two.len(), 30);
    for (a, b) in one.iter().zip(two.iter()) {
        assert_eq!(a.spawn, b.spawn);
        assert_eq!((a.team, a.lane), (b.team, b.lane));
        assert_eq!(a.minions, b.minions);
    }
    // the third wave carries a siege minion
    let third = &one[12];
    assert_eq!(third.spawn, GameTimer::from_secs(125));
    let kinds: Vec<MinionType> = third.minions.iter().map(|m| m.kind()).collect();
    assert_eq!(kinds[3], MinionType::Siege);
}

#[test]
fn fallen_inhibitors_bring_super_minions() {
    let mut builder = EntityStoreBuilder::new();
    let fallen = SpecificComponentBuilder::Inhibitor(InhibitorComponent { down: Some(GameTimer::from_secs(100)) });
    for (i, team) in [Team::Red, Team::Blue].iter().enumerate() {
        for (j, lane) in [Lane::Top, Lane::Mid, Lane::Bot].iter().enumerate() {
            let index = InhibitorIndex(*team, *lane);
            let specific = if *team == Team::Red && *lane != Lane::Bot {
                fallen
            } else {
                index.specific()
            };
            builder.spawn(index.guid(), i * 3 + j, 0, specific);
        }
    }
    let store = builder.build();
    let engine = MinimapEngine { timer: GameTimer::from_secs(125) };
    let orders = engine.spawn_orders(&store, GameTimer::from_secs(130));
    assert_eq!(orders.len(), 6);
    let kinds = |k: usize| -> Vec<MinionType> { orders[k].minions.iter().map(|m| m.kind()).collect() };
    // blue top: the red top inhibitor is down, one super minion and no siege minion
    assert_eq!(kinds(0)[0], MinionType::SuperMinion);
    assert_eq!(kinds(0)[1], MinionType::Melee);
    assert!(!kinds(0).contains(&MinionType::Siege));
    assert_eq!(kinds(0).len(), 7);
    // blue bot: the red bot inhibitor stands, the third wave has its siege minion
    assert!(!kinds(2).contains(&MinionType::SuperMinion));
    assert!(kinds(2).contains(&MinionType::Siege));
    // red lanes: all blue inhibitors stand
    assert!(!kinds(3).contains(&MinionType::SuperMinion));
    let offsets: Vec<i64> = orders[0].minions.iter().map(|m| m.offset()).collect();
    assert_eq!(offsets, vec![0, -165, -313, -461, -609, -757, -905]);
}

#[test]
fn on_start_keeps_other_entities() {
    let mut builder = EntityStoreBuilder::new();
    let unit = UnitId::new(Some(Team::Red), Some(Lane::Mid));
    builder.spawn(unit, 99, 7, minion_component(MinionType::Ranged));
    let engine = MinimapEngine { timer: GameTimer::game_start() };
    let keys: Vec<usize> = (100..130).collect();
    engine.on_start(&mut builder, &keys, 3);
    let store = builder.build();
    let kept = store.get_raw_by_id(unit).unwrap();
    assert_eq!((kept.position, kept.pathfinding), (99, 7));
    let nexus = store.get_raw_by_id(NexusIndex::from(Team::Red).guid()).unwrap();
    assert_eq!((nexus.position, nexus.pathfinding), (129, 3));
    assert_eq!(store.minion_ids(), vec![unit]);
}

#[test]
fn run_engine() {
    let mut builder = EntityStoreBuilder::new();
    let mut engine = MinimapEngine { timer: GameTimer::game_start() };
    engine.on_start(&mut builder, &positions(), 0);
    let mut store = builder.build();

    // the caller spawns the minions of each wave, with keys of its own for their
    // positions and paths
    let mut next_key = START_STRUCTURES;
    let mut spawn_all = |store: &mut EntityStore, orders: Vec<engine::SpawnOrder>| {
        for order in orders {
            for m in order.minions {
                store.spawn(m.guid(), next_key, next_key, m.specific());
                next_key += 1;
            }
        }
    };

    let orders = engine.on_step(&store, GameTimer::first_spawn() + GameTimer::from_secs(1));
    spawn_all(&mut store, orders);
    let before = store.minion_ids();
    println!("{:?}", before[0]);
    assert_eq!(before.len(), 36);

    let orders = engine.on_step(&store, GameTimer::from_secs(10));
    spawn_all(&mut store, orders);
    let after = store.minion_ids();
    println!("{:?}", after[0]);
    assert_eq!(after, before);

    let orders = engine.on_step(&store, GameTimer::from_secs(60));
    spawn_all(&mut store, orders);
    let removed_after = store.minion_ids();
    println!("{:?}", removed_after[0]);
    assert_eq!(engine.timer, GameTimer::from_secs(136));
}

#[test]
fn failed_remove_keeps_every_slab() {
    let (_, mut store) = started_game();
    let unit = UnitId::new(Some(Team::Blue), Some(Lane::Top));
    assert!(store.remove_by_id(unit).is_err());
    assert_eq!(store.turrets().len(), 22);
    assert_eq!(store.inhibitors().len(), 6);
    assert_eq!(store.nexuses().len(), 2);
    assert!(store.minions().is_empty());
}

#[test]
fn spawn_then_remove_round_trip() {
    let (_, mut store) = started_game();
    let id = UnitId::new(Some(Team::Red), Some(Lane::Mid));
    store.spawn(id, 40, 41, minion_component(MinionType::Melee));
    assert_eq!(store.minions().len(), 1);
    assert_eq!(store.turrets().len(), 22);
    let turret = TurretIndex::red_mid_outer();
    assert_eq!(store.remove_by_id(turret.guid()), Ok(turret.guid()));
    assert_eq!(store.turrets().len(), 21);
    assert_eq!(store.remove_by_id(id), Ok(id));
    assert!(store.minions().is_empty());
    assert_eq!(store.inhibitors().len(), 6);
    assert!(store.get_raw_by_id(id).is_none());
}

#[test]
fn spawned_wave_minions_fill_the_minion_slab() {
    let (mut engine, mut store) = started_game();
    let orders = engine.on_step(&store, GameTimer::from_secs(66));
    let mut key = START_STRUCTURES;
    for order in orders {
        for m in order.minions {
            store.spawn(m.guid(), key, key, m.specific());
            key += 1;
        }
    }
    assert_eq!(engine.timer, GameTimer::from_secs(66));
    assert_eq!(store.minions().len(), 36);
    assert_eq!(store.turrets().len(), 22);
    for i in store.inhibitors() {
        assert!(i.is_up() && !i.is_down());
    }
}

#[test]
fn step_without_spawn_needs_no_inhibitor() {
    let store = EntityStoreBuilder::new().build();
    let mut engine = MinimapEngine { timer: GameTimer::game_start() };
    let orders = engine.on_step(&store, GameTimer::from_secs(10));
    assert!(orders.is_empty());
    assert_eq!(engine.timer, GameTimer::from_secs(10));
}
