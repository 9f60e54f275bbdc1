//! Selecting entities on the map canvas: how pointer input moves the selection, and
//! what a finished selection asks of the pane layout.

use vstd::prelude::*;

use crate::ecs::UnitId;

verus! {

/// What the pointer has marked on the map so far, in map coordinates of type `P`.
#[derive(Debug, Clone, Copy)]
pub enum SelectionState<P> {
    NoSelection,
    Point(P),
    Rectangle { a: P, b: P },
}

/// The selection on the map canvas: what is marked, and whether a finished selection
/// is added to the current one rather than opened in a new pane.
#[derive(Debug, Clone, Copy)]
pub struct Selection<P> {
    pub append_mode: bool,
    pub state: SelectionState<P>,
}

impl<P> Selection<P> {
    /// Nothing marked, a finished selection opens a new pane.
    pub fn new() -> (r: Selection<P>)
        ensures
            !r.append_mode,
            r.state is NoSelection,
    {
        Selection { append_mode: false, state: SelectionState::NoSelection }
    }
}

/// An input of the map canvas, with the pointer position already turned into map
/// coordinates for the mouse inputs that happen over the canvas.
#[derive(Debug, Clone, Copy)]
pub enum CanvasInput<P> {
    /// The keyboard modifiers changed; `ctrl` tells whether Control is held.
    ModifiersChanged { ctrl: bool },
    LeftPressed(P),
    RightPressed(P),
    LeftReleased(P),
    CursorMoved(P),
    /// Another mouse input over the canvas.
    OtherMouse(P),
    /// A mouse input while the pointer is outside the canvas.
    MouseOutside,
    /// Any other input.
    Other,
}

/// What the canvas does with an input.
#[derive(Debug, Clone, Copy)]
pub enum SelectionOutcome<P> {
    /// The input is left to others.
    Ignored,
    /// The input is used up.
    Captured,
    /// The input is used up, and the entities in `area` (a point or a rectangle) are
    /// to be looked up and reported with `selection_message`.
    Select { area: SelectionState<P>, append: bool },
}

/// Moves the selection on `input`: a left press marks a point, moving the pointer
/// from a mark stretches it into a rectangle, a left release finishes the mark and
/// asks for the entities in it, a right press drops the mark, and Control switches
/// the append mode.
pub fn update<P: Copy>(selection: &mut Selection<P>, input: CanvasInput<P>) -> (r: SelectionOutcome<P>)
    ensures
        match input {
            CanvasInput::ModifiersChanged { ctrl } => {
                &&& final(selection).append_mode == ctrl
                &&& final(selection).state == old(selection).state
                &&& r is Captured
            },
            CanvasInput::LeftPressed(p) => {
                &&& final(selection).append_mode == old(selection).append_mode
                &&& final(selection).state == SelectionState::Point(p)
                &&& r is Captured
            },
            CanvasInput::RightPressed(_) => {
                &&& final(selection).append_mode == old(selection).append_mode
                &&& final(selection).state is NoSelection
                &&& r is Captured
            },
            CanvasInput::LeftReleased(_) => {
                &&& final(selection).append_mode == old(selection).append_mode
                &&& final(selection).state is NoSelection
                &&& match old(selection).state {
                    SelectionState::NoSelection => r is Ignored,
                    area => r == SelectionOutcome::Select { area, append: old(selection).append_mode },
                }
            },
            CanvasInput::CursorMoved(p) => {
                &&& final(selection).append_mode == old(selection).append_mode
                &&& match old(selection).state {
                    SelectionState::NoSelection => {
                        &&& final(selection).state is NoSelection
                        &&& r is Ignored
                    },
                    SelectionState::Point(a) => {
                        &&& final(selection).state == SelectionState::Rectangle { a, b: p }
                        &&& r is Captured
                    },
                    SelectionState::Rectangle { a, .. } => {
                        &&& final(selection).state == SelectionState::Rectangle { a, b: p }
                        &&& r is Captured
                    },
                }
            },
            _ => {
                &&& *final(selection) == *old(selection)
                &&& r is Ignored
            },
        },
{
    match input {
        CanvasInput::ModifiersChanged { ctrl } => {
            selection.append_mode = ctrl;
            SelectionOutcome::Captured
        },
        CanvasInput::LeftPressed(p) => {
            selection.state = SelectionState::Point(p);
            SelectionOutcome::Captured
        },
        CanvasInput::RightPressed(_) => {
            selection.state = SelectionState::NoSelection;
            SelectionOutcome::Captured
        },
        CanvasInput::LeftReleased(_) => {
            let area = selection.state;
            selection.state = SelectionState::NoSelection;
            match area {
                SelectionState::NoSelection => SelectionOutcome::Ignored,
                _ => SelectionOutcome::Select { area, append: selection.append_mode },
            }
        },
        CanvasInput::CursorMoved(p) => match selection.state {
            SelectionState::Point(a) => {
                selection.state = SelectionState::Rectangle { a, b: p };
                SelectionOutcome::Captured
            },
            SelectionState::Rectangle { a, .. } => {
                selection.state = SelectionState::Rectangle { a, b: p };
                SelectionOutcome::Captured
            },
            SelectionState::NoSelection => SelectionOutcome::Ignored,
        },
        _ => SelectionOutcome::Ignored,
    }
}

/// What a finished selection asks of the pane layout.
pub enum SelectionMessage {
    /// Open the entities in a new pane beside the current one.
    Split(Vec<UnitId>),
    /// Add the entities to the current selection.
    AppendSelection(Vec<UnitId>),
}

/// The request for the entities found in a finished selection: nothing when none was
/// found, else adding them to the current selection in append mode, or opening them
/// in a new pane.
pub fn selection_message(selection: Vec<UnitId>, append: bool) -> (r: Option<SelectionMessage>)
    ensures
        selection@.len() == 0 ==> r is None,
        selection@.len() > 0 && append ==> (r matches Some(SelectionMessage::AppendSelection(v))
            && v@ == selection@),
        selection@.len() > 0 && !append ==> (r matches Some(SelectionMessage::Split(v)) && v@
            == selection@),
{
    if selection.len() == 0 {
        None
    } else if append {
        Some(SelectionMessage::AppendSelection(selection))
    } else {
        Some(SelectionMessage::Split(selection))
    }
}

} // verus!
