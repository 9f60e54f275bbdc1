use engine::common::Team;
use engine::ecs::units::old_minion::{Minion, MinionType};
use engine::stats::{collect_golds, collect_last_hits};

fn minion(ty: MinionType, upgrades: usize, mid_debuf: bool) -> Minion {
    Minion { team: Team::Red, ty, upgrades, ms_upgrades: 0, mid_debuf }
}

#[test]
fn gold_of_a_group() {
    let group = vec![
        minion(MinionType::Melee, 0, false),
        minion(MinionType::Ranged, 0, false),
        minion(MinionType::Siege, 2, false),
        minion(MinionType::SuperMinion, 20, true),
    ];
    assert_eq!(collect_golds(&group), 21 + 14 + 63 + 89);
    assert_eq!(collect_last_hits(&group), 4);
    let empty: Vec<Minion> = Vec::new();
    assert_eq!(collect_golds(&empty), 0);
    assert_eq!(collect_last_hits(&empty), 0);
}

#[test]
fn gold_of_two_groups_adds_up() {
    let a = vec![minion(MinionType::Melee, 0, true), minion(MinionType::Ranged, 0, true)];
    let b = vec![minion(MinionType::Siege, 1, false)];
    let mut both = a.clone();
    both.extend(b.clone());
    assert_eq!(collect_golds(&both), collect_golds(&a) + collect_golds(&b));
    assert_eq!(collect_last_hits(&both), collect_last_hits(&a) + collect_last_hits(&b));
}

#[test]
fn minion_kinds_are_worth_nothing() {
    let kinds = vec![MinionType::Melee, MinionType::SuperMinion];
    assert_eq!(collect_golds(&kinds), 0);
    assert_eq!(collect_last_hits(&kinds), 0);
}
