//! The panes of the application's display manager.

use vstd::prelude::*;

use crate::ecs::UnitId;
use std::collections::HashSet;

verus! {

broadcast use vstd::std_specs::hash::group_hash_axioms;

/// A pane of the display: what it shows and how it behaves.
pub struct Pane {
    pub kind: PaneType,
    pub attrs: PaneAttributes,
}

/// Whether a pane is pinned, and whether it can be closed.
#[derive(Debug, Clone, Copy, PartialEq, Eq, Structural)]
pub struct PaneAttributes {
    pub pinned: bool,
    pub closable: bool,
}

/// What a pane shows: the minimap, a selection of entities (by raw identifier), or
/// debugging aids.
pub enum PaneType {
    Minimap,
    EngineSelection(HashSet<u64>),
    Debug,
}

/// The raw identifiers of `ids`, as a set.
pub open spec fn id_set(ids: Seq<UnitId>) -> Set<u64> {
    ids.map_values(|id: UnitId| id@).to_set()
}

impl Pane {
    /// The debug pane: neither pinned nor closable.
    pub fn debug() -> (r: Self)
        ensures
            r.kind is Debug,
            r.attrs == (PaneAttributes { pinned: false, closable: false }),
    {
        Pane { kind: PaneType::Debug, attrs: PaneAttributes { pinned: false, closable: false } }
    }

    /// The minimap pane: neither pinned nor closable.
    pub fn minimap() -> (r: Self)
        ensures
            r.kind is Minimap,
            r.attrs == (PaneAttributes { pinned: false, closable: false }),
    {
        Pane { kind: PaneType::Minimap, attrs: PaneAttributes { pinned: false, closable: false } }
    }

    /// A pane showing the entities of `selection`, each once: not pinned, closable.
    pub fn selection(selection: Vec<UnitId>) -> (r: Self)
        ensures
            r.kind matches PaneType::EngineSelection(set) && set@ == id_set(selection@),
            r.attrs == (PaneAttributes { pinned: false, closable: true }),
    {
        let mut set: HashSet<u64> = HashSet::new();
        let mut i: usize = 0;
        while i < selection.len()
            invariant
                i <= selection@.len(),
                set@ == id_set(selection@.take(i as int)),
            decreases selection@.len() - i,
        {
            let raw = selection[i].to_bits();
            set.insert(raw);
            proof {
                let prefix = selection@.take(i + 1);
                assert(prefix.drop_last() =~= selection@.take(i as int));
                assert(prefix.map_values(|id: UnitId| id@) =~= selection@.take(i as int).map_values(
                    |id: UnitId| id@,
                ).push(raw));
                selection@.take(i as int).map_values(|id: UnitId| id@).lemma_push_to_set_commute(raw);
            }
            i = i + 1;
        }
        assert(selection@.take(selection@.len() as int) =~= selection@);
        Pane {
            kind: PaneType::EngineSelection(set),
            attrs: PaneAttributes { pinned: false, closable: true },
        }
    }

    /// Returns whether the pane is pinned.
    pub fn is_pinned(&self) -> (r: bool)
        ensures
            r == self.attrs.pinned,
    {
        self.attrs.pinned
    }

    /// Pins an unpinned pane, unpins a pinned one.
    pub fn toggle_pinned(&mut self)
        ensures
            final(self).attrs.pinned == !old(self).attrs.pinned,
            final(self).attrs.closable == old(self).attrs.closable,
            final(self).kind == old(self).kind,
    {
        self.attrs.pinned = !self.attrs.pinned;
    }
}

} // verus!
