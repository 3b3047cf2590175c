//! The tiles of the browser's screen and the order focus moves through them.
use vstd::prelude::*;

verus! {

/// The tiles of the browser's screen.
#[derive(Debug, Clone, Copy, PartialEq, Eq, Hash, Structural)]
pub enum TileId {
    FileList,
    Preview,
    StatusBar,
    Properties,
}

/// The order in which the focus moves: file list, properties, preview.
pub open spec fn focus_order() -> Seq<TileId> {
    seq![TileId::FileList, TileId::Properties, TileId::Preview]
}

/// The position of a tile in the focus order; a tile outside the order counts
/// as the first.
pub open spec fn focus_position(t: TileId) -> int {
    match t {
        TileId::FileList => 0,
        TileId::Properties => 1,
        TileId::Preview => 2,
        TileId::StatusBar => 0,
    }
}

impl TileId {
    /// The tile that takes the focus after `current`.
    pub open spec fn spec_next_focus(current: TileId) -> TileId {
        focus_order()[(focus_position(current) + 1) % 3]
    }

    /// The tile that takes the focus after `current`.
    pub fn next_focus(current: TileId) -> (r: TileId)
        ensures
            r == TileId::spec_next_focus(current),
    {
        match current {
            TileId::FileList => TileId::Properties,
            TileId::Properties => TileId::Preview,
            TileId::Preview => TileId::FileList,
            TileId::StatusBar => TileId::Properties,
        }
    }
}

/// Moving the focus three times from a focusable tile comes back to it, and
/// the status bar never takes the focus.
pub proof fn law_focus_cycles(t: TileId)
    ensures
        t != TileId::StatusBar ==> TileId::spec_next_focus(
            TileId::spec_next_focus(TileId::spec_next_focus(t)),
        ) == t,
        TileId::spec_next_focus(t) != TileId::StatusBar,
{
}

} // verus!
