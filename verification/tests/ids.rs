use engine::common::{Lane, Team};
use engine::ecs::structures::inhibitor::InhibitorIndex;
use engine::ecs::structures::nexus::NexusIndex;
use engine::ecs::structures::turret::{TurretIndex, TurretKind};
use engine::ecs::structures::StructureIndex;
use engine::ecs::UnitId;

#[test]
fn gen_id() {
    let none = UnitId::new(None, None);
    println!("{:?}", none);
    let blue_top = UnitId::new(Some(Team::Blue), Some(Lane::Top));
    println!("{:?}", blue_top);

    assert_eq!(none.to_bits() & 0xff, 0);
    assert!(none.to_bits() >> 32 > 256);
    assert_eq!(blue_top.to_bits() & 0xff, 0x11);
    assert!(blue_top.to_bits() >> 32 > 256);
}

#[test]
fn unit_id_carries_team_and_lane() {
    let cases = [
        (None, None),
        (Some(Team::Blue), Some(Lane::Top)),
        (Some(Team::Red), Some(Lane::Mid)),
        (Some(Team::Blue), Some(Lane::Bot)),
        (Some(Team::Red), Some(Lane::Nexus)),
        (Some(Team::Red), None),
        (None, Some(Lane::Bot)),
    ];
    for (team, lane) in cases {
        let id = UnitId::new(team, lane);
        assert_eq!(id.team(), team);
        assert_eq!(id.lane(), lane);
        assert!(!id.is_turret());
        assert!(!id.is_null());
    }
}

#[test]
fn unit_ids_differ_from_structure_ids() {
    let unit = UnitId::new(Some(Team::Blue), Some(Lane::Top));
    let turret: UnitId = TurretIndex(Team::Blue, Lane::Top, TurretKind::Outer).guid();
    let inhib: UnitId = InhibitorIndex(Team::Blue, Lane::Top).guid();
    let nexus: UnitId = NexusIndex::from(Team::Blue).guid();
    assert_ne!(unit, turret);
    assert_ne!(unit, inhib);
    assert_ne!(unit, nexus);
}

#[test]
fn null_id() {
    let null = UnitId::null();
    assert!(null.is_null());
    assert_eq!(null.to_bits(), 0);
    assert_eq!(null.team(), None);
    assert_eq!(null.lane(), None);
    assert!(null.is_turret());
}

#[test]
fn structure_id_bits() {
    assert_eq!(TurretIndex::blue_top_outer().guid().to_bits(), 0x1_0000_0011);
    assert_eq!(TurretIndex::red_mid_inner().guid().to_bits(), 0x2_0000_0022);
    assert_eq!(TurretIndex::blue_bot_inhib().guid().to_bits(), 0x3_0000_0031);
    assert_eq!(TurretIndex::red_top_nexus().guid().to_bits(), 0x4_0000_0042);
    assert_eq!(TurretIndex::blue_bot_nexus().guid().to_bits(), 0x5_0000_0041);
    assert_eq!(InhibitorIndex::red_bot().guid().to_bits(), 0x6_0000_0032);
    assert_eq!(NexusIndex::from(Team::Blue).guid().to_bits(), 0x7_0000_0041);
    assert_eq!(UnitId::from(TurretIndex::red_top_outer()).to_bits(), 0x1_0000_0012);
    assert_eq!(UnitId::from(InhibitorIndex::blue_mid()).to_bits(), 0x6_0000_0021);
    assert_eq!(UnitId::from(&NexusIndex::from(Team::Red)).to_bits(), 0x7_0000_0042);
}

#[test]
fn structure_ids_decode() {
    let turret = TurretIndex(Team::Red, Lane::Bot, TurretKind::Inhib).guid();
    assert_eq!(turret.team(), Some(Team::Red));
    assert_eq!(turret.lane(), Some(Lane::Bot));
    assert!(turret.is_turret());
    assert!(!turret.is_null());

    let inhib = InhibitorIndex(Team::Blue, Lane::Mid).guid();
    assert_eq!(inhib.team(), Some(Team::Blue));
    assert_eq!(inhib.lane(), Some(Lane::Mid));
    assert!(!inhib.is_turret());

    let nexus = NexusIndex::from(Team::Red).guid();
    assert_eq!(nexus.team(), Some(Team::Red));
    assert_eq!(nexus.lane(), Some(Lane::Nexus));
    assert!(!nexus.is_turret());
}

#[test]
fn structure_ids_are_distinct() {
    let mut ids = Vec::new();
    for team in [Team::Blue, Team::Red] {
        for lane in [Lane::Top, Lane::Mid, Lane::Bot] {
            for kind in [TurretKind::Outer, TurretKind::Inner, TurretKind::Inhib] {
                ids.push(TurretIndex(team, lane, kind).guid().to_bits());
            }
            ids.push(InhibitorIndex(team, lane).guid().to_bits());
        }
        ids.push(TurretIndex(team, Lane::Nexus, TurretKind::NexusTop).guid().to_bits());
        ids.push(TurretIndex(team, Lane::Nexus, TurretKind::NexusBot).guid().to_bits());
        ids.push(NexusIndex::from(team).guid().to_bits());
    }
    for i in 0..ids.len() {
        for j in 0..ids.len() {
            if i != j {
                assert_ne!(ids[i], ids[j]);
            }
        }
    }
}

#[test]
fn structure_index_guid_and_component() {
    let t = StructureIndex::Turret(TurretIndex::blue_top_outer());
    assert_eq!(t.guid(), TurretIndex::blue_top_outer().guid());
    assert_eq!(t.specific(), TurretIndex::blue_top_outer().specific());
    let i = StructureIndex::Inhibitor(InhibitorIndex::red_mid());
    assert_eq!(i.guid(), InhibitorIndex::red_mid().guid());
    let n = StructureIndex::Nexus(NexusIndex::from(Team::Red));
    assert_eq!(n.guid(), NexusIndex::from(Team::Red).guid());
}

#[test]
fn unit_ids_are_drawn_at_random() {
    let ids: Vec<u64> = (0..8).map(|_| UnitId::new(Some(Team::Red), Some(Lane::Bot)).to_bits()).collect();
    assert!(ids.iter().any(|id| *id != ids[0]));
    for id in &ids {
        assert_eq!(id & 0xff, 0x32);
        assert!(id >> 32 > 256);
    }
}
