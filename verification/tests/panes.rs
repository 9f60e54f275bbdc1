use engine::common::{Lane, Team};
use engine::display_manager::pane::{Pane, PaneAttributes, PaneType};
use engine::ecs::UnitId;
use engine::grid::pane as grid;

#[test]
fn display_panes() {
    let d = Pane::debug();
    assert!(matches!(d.kind, PaneType::Debug));
    assert_eq!(d.attrs, PaneAttributes { pinned: false, closable: false });
    let m = Pane::minimap();
    assert!(matches!(m.kind, PaneType::Minimap));
    assert!(!m.is_pinned());
}

#[test]
fn display_selection_keeps_each_entity_once() {
    let a = UnitId::new(Some(Team::Blue), Some(Lane::Top));
    let b = UnitId::new(Some(Team::Red), Some(Lane::Mid));
    let p = Pane::selection(vec![a, b, a]);
    match &p.kind {
        PaneType::EngineSelection(set) => {
            assert_eq!(set.len(), 2);
            assert!(set.contains(&a.to_bits()));
            assert!(set.contains(&b.to_bits()));
        }
        _ => panic!("not a selection pane"),
    }
    assert_eq!(p.attrs, PaneAttributes { pinned: false, closable: true });
}

#[test]
fn display_toggle_pinned() {
    let mut p = Pane::minimap();
    p.toggle_pinned();
    assert!(p.is_pinned());
    assert!(!p.attrs.closable);
    p.toggle_pinned();
    assert!(!p.is_pinned());
}

#[test]
fn grid_panes() {
    let mut m = grid::Pane::minimap();
    assert!(matches!(m.kind, grid::PaneType::Minimap));
    assert!(!m.is_pinned());
    m.toggle_pinned();
    assert!(m.is_pinned());
    let a = UnitId::new(Some(Team::Blue), Some(Lane::Top));
    let s = grid::Pane::selection(vec![a, a]);
    match &s.kind {
        grid::PaneType::EngineSelection(v) => assert_eq!(v, &vec![a, a]),
        _ => panic!("not a selection pane"),
    }
    assert!(!s.is_pinned());
}
