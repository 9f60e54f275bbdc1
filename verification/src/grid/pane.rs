//! The panes of the application's grid layout.

use vstd::prelude::*;

use crate::ecs::UnitId;

verus! {

/// A pane of the grid: what it shows and how it behaves.
pub struct Pane {
    pub kind: PaneType,
    attrs: PaneAttributes,
}

/// Whether a pane is pinned, and whether it can be closed.
#[derive(Debug, Clone, Copy, PartialEq, Eq, Structural)]
pub struct PaneAttributes {
    pinned: bool,
    closable: bool,
}

/// What a pane shows: the minimap, or a selection of entities.
#[derive(Clone)]
pub enum PaneType {
    Minimap,
    EngineSelection(Vec<UnitId>),
}

impl Pane {
    /// What the pane shows.
    pub closed spec fn spec_kind(&self) -> PaneType {
        self.kind
    }

    /// The pane is pinned.
    pub closed spec fn spec_pinned(&self) -> bool {
        self.attrs.pinned
    }

    /// The pane can be closed.
    pub closed spec fn spec_closable(&self) -> bool {
        self.attrs.closable
    }

    /// The minimap pane: neither pinned nor closable.
    pub fn minimap() -> (r: Self)
        ensures
            r.spec_kind() is Minimap,
            !r.spec_pinned(),
            !r.spec_closable(),
    {
        Pane { kind: PaneType::Minimap, attrs: PaneAttributes { pinned: false, closable: false } }
    }

    /// A pane showing `selection`: not pinned, closable.
    pub fn selection(selection: Vec<UnitId>) -> (r: Self)
        ensures
            r.spec_kind() matches PaneType::EngineSelection(v) && v@ == selection@,
            !r.spec_pinned(),
            r.spec_closable(),
    {
        Pane {
            kind: PaneType::EngineSelection(selection),
            attrs: PaneAttributes { pinned: false, closable: true },
        }
    }

    /// Returns whether the pane is pinned.
    pub fn is_pinned(&self) -> (r: bool)
        ensures
            r == self.spec_pinned(),
    {
        self.attrs.pinned
    }

    /// Pins an unpinned pane, unpins a pinned one.
    pub fn toggle_pinned(&mut self)
        ensures
            final(self).spec_pinned() == !old(self).spec_pinned(),
            final(self).spec_closable() == old(self).spec_closable(),
            final(self).spec_kind() == old(self).spec_kind(),
    {
        self.attrs.pinned = !self.attrs.pinned;
    }
}

} // verus!
