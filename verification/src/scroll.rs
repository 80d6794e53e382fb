//! Following the editor's cursor in the preview.
//!
//! The preview is scrolled to the row of the editor's primary cursor. The row
//! is all that is kept here; the host turns it into an offset by multiplying
//! it with the preview's line height.

use vstd::prelude::*;

verus! {

/// The row that the preview follows.
#[derive(Clone, Copy, Debug, PartialEq, Eq)]
pub struct ScrollState {
    pub current_line: usize,
}

/// The row to follow after a frame: the cursor's row if the editor has focus
/// and a cursor, else the row followed so far.
pub open spec fn followed_row(current: usize, has_focus: bool, cursor_row: Option<usize>) -> usize {
    match cursor_row {
        Some(row) if has_focus => row,
        _ => current,
    }
}

impl Default for ScrollState {
    fn default() -> (state: ScrollState)
        ensures
            state.current_line == 0,
    {
        ScrollState::new()
    }
}

impl ScrollState {
    /// Starts at the first row.
    pub fn new() -> (state: ScrollState)
        ensures
            state.current_line == 0,
    {
        ScrollState { current_line: 0 }
    }

    /// Takes in what one frame shows of the editor: whether it has focus, and
    /// the row of its primary cursor if it has one.
    pub fn record_cursor(&mut self, has_focus: bool, cursor_row: Option<usize>)
        ensures
            final(self).current_line == followed_row(
                old(self).current_line,
                has_focus,
                cursor_row,
            ),
    {
        if has_focus {
            match cursor_row {
                Some(row) => {
                    self.current_line = row;
                },
                None => {},
            }
        }
    }
}

} // verus!
