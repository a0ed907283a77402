//! Abstract key descriptors, as produced by a layout provider.

use vstd::prelude::*;

verus! {

/// One key of the on-screen keyboard.
///
/// Each variant has a fixed width relative to a standard key.  Relative
/// widths are measured in *sixths* of a standard key width, so that all
/// layout arithmetic stays exact: a text key is one key wide (6 sixths),
/// backspace and the two mode toggles are one and a half keys wide
/// (9 sixths), and the space bar has no inherent width of its own — it
/// stretches to fill its row (see [`crate::geometry`]).  The gap between
/// neighbouring keys is one sixth of a key width.
pub enum Key {
    /// A key that inserts its label.
    Text(String),
    /// Deletes the character before the caret.
    Backspace,
    /// Switches between the lower-case and upper-case grids.
    ShiftToggle,
    /// The space bar; inserts a single space and absorbs row slack.
    Space,
    /// Switches between the letter and the punctuation/digit grids.
    SymbolToggle,
}

impl Key {
    /// Width relative to a standard key, in sixths of a key width.
    pub open spec fn rel_width_sixths(&self) -> nat {
        match self {
            Key::Text(_) => 6,
            Key::Backspace => 9,
            Key::ShiftToggle => 9,
            Key::Space => 0,
            Key::SymbolToggle => 9,
        }
    }

    pub open spec fn is_space(&self) -> bool {
        self is Space
    }

    /// Width relative to a standard key, in sixths of a key width.
    pub fn width_sixths(&self) -> (w: u64)
        ensures
            w == self.rel_width_sixths(),
    {
        match self {
            Key::Text(_) => 6,
            Key::Backspace => 9,
            Key::ShiftToggle => 9,
            Key::Space => 0,
            Key::SymbolToggle => 9,
        }
    }

    pub fn is_space_key(&self) -> (b: bool)
        ensures
            b == self.is_space(),
    {
        matches!(self, Key::Space)
    }
}

} // verus!
