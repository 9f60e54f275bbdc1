use engine::common::{Lane, Team};
use engine::ecs::UnitId;
use engine::engine_renderer::{
    selection_message, update, CanvasInput, Selection, SelectionMessage, SelectionOutcome, SelectionState,
};

type P = (f32, f32);

#[test]
fn click_selects_a_point() {
    let mut s: Selection<P> = Selection::new();
    assert!(matches!(update(&mut s, CanvasInput::LeftPressed((1.0, 2.0))), SelectionOutcome::Captured));
    assert!(matches!(s.state, SelectionState::Point((x, y)) if x == 1.0 && y == 2.0));
    match update(&mut s, CanvasInput::LeftReleased((1.0, 2.0))) {
        SelectionOutcome::Select { area: SelectionState::Point((x, y)), append } => {
            assert_eq!((x, y), (1.0, 2.0));
            assert!(!append);
        }
        other => panic!("unexpected outcome {:?}", other),
    }
    assert!(matches!(s.state, SelectionState::NoSelection));
}

#[test]
fn drag_selects_a_rectangle_in_append_mode() {
    let mut s: Selection<P> = Selection::new();
    assert!(matches!(update(&mut s, CanvasInput::ModifiersChanged { ctrl: true }), SelectionOutcome::Captured));
    assert!(s.append_mode);
    update(&mut s, CanvasInput::LeftPressed((0.0, 0.0)));
    update(&mut s, CanvasInput::CursorMoved((5.0, 5.0)));
    update(&mut s, CanvasInput::CursorMoved((10.0, 8.0)));
    match update(&mut s, CanvasInput::LeftReleased((10.0, 8.0))) {
        SelectionOutcome::Select { area: SelectionState::Rectangle { a, b }, append } => {
            assert_eq!(a, (0.0, 0.0));
            assert_eq!(b, (10.0, 8.0));
            assert!(append);
        }
        other => panic!("unexpected outcome {:?}", other),
    }
}

#[test]
fn ignored_inputs() {
    let mut s: Selection<P> = Selection::new();
    assert!(matches!(update(&mut s, CanvasInput::CursorMoved((3.0, 3.0))), SelectionOutcome::Ignored));
    assert!(matches!(update(&mut s, CanvasInput::LeftReleased((3.0, 3.0))), SelectionOutcome::Ignored));
    assert!(matches!(update(&mut s, CanvasInput::MouseOutside), SelectionOutcome::Ignored));
    assert!(matches!(update(&mut s, CanvasInput::Other), SelectionOutcome::Ignored));
    update(&mut s, CanvasInput::LeftPressed((1.0, 1.0)));
    assert!(matches!(update(&mut s, CanvasInput::OtherMouse((2.0, 2.0))), SelectionOutcome::Ignored));
    assert!(matches!(s.state, SelectionState::Point(_)));
    assert!(matches!(update(&mut s, CanvasInput::RightPressed((2.0, 2.0))), SelectionOutcome::Captured));
    assert!(matches!(s.state, SelectionState::NoSelection));
}

#[test]
fn finished_selection_messages() {
    let a = UnitId::new(Some(Team::Blue), Some(Lane::Top));
    assert!(selection_message(vec![], true).is_none());
    match selection_message(vec![a], true) {
        Some(SelectionMessage::AppendSelection(v)) => assert_eq!(v, vec![a]),
        _ => panic!("expected an appended selection"),
    }
    match selection_message(vec![a, a], false) {
        Some(SelectionMessage::Split(v)) => assert_eq!(v, vec![a, a]),
        _ => panic!("expected a new pane"),
    }
}
