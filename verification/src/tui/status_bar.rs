//! The status bar: the last message, or the key hints.
use vstd::prelude::*;

verus! {

/// The status bar tile.
pub struct StatusBarTile;

/// The key hints shown while there is no message.
pub open spec fn key_hints() -> Seq<char> {
    "[Enter]Open/Preview [e]Extract [E]All [o]Encoding [Tab]Focus [P/U]Scroll [?]Help [q]Quit"@
}

impl StatusBarTile {
    /// The status bar.
    pub fn new() -> (r: StatusBarTile) {
        StatusBarTile
    }

    /// The status bar never takes the focus.
    pub fn focusable(&self) -> (r: bool)
        ensures
            !r,
    {
        false
    }

    /// The text shown and whether it is a message (drawn highlighted) rather
    /// than the key hints.
    pub fn text(&self, status: Option<&str>) -> (r: (String, bool))
        ensures
            match status {
                Some(m) => r.0@ == m@ && r.1,
                None => r.0@ == key_hints() && !r.1,
            },
    {
        match status {
            Some(m) => (String::from_str(m), true),
            None => (
                String::from_str(
                    "[Enter]Open/Preview [e]Extract [E]All [o]Encoding [Tab]Focus [P/U]Scroll [?]Help [q]Quit",
                ),
                false,
            ),
        }
    }
}

} // verus!
