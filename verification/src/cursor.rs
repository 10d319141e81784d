//! The state of the cursor that writes into a buffer.

use vstd::prelude::*;
use crate::style::StyleModifier;

verus! {

/// The distance between two tab stops, in columns.
pub const TAB_COLUMN_WIDTH: i32 = 4;

/// What a cursor does when it writes at or beyond the wrapping width of its buffer.
#[derive(Clone, Copy, PartialEq, Eq, Debug)]
pub enum WrappingMode {
    /// Continue at the start of the next row.
    Wrap,
    /// Continue in the same row, which grows.
    NoWrap,
}

/// Where the next write goes, and how it is styled. The cursor may point past the end of
/// its line or of its buffer: both grow when a cell is written.
#[derive(Clone, Copy, PartialEq, Eq, Debug)]
pub struct CursorState {
    pub col: i32,
    pub row: i32,
    /// The modifier that is folded into the buffer's style for each cell written.
    pub style_modifier: StyleModifier,
    pub wrapping_mode: WrappingMode,
}

impl CursorState {
    /// The cursor of a new terminal: at the origin, unstyled, wrapping.
    pub open spec fn initial() -> CursorState {
        CursorState {
            col: 0,
            row: 0,
            style_modifier: StyleModifier::identity(),
            wrapping_mode: WrappingMode::Wrap,
        }
    }

    /// The cursor's invariant: it never points to a negative column or row.
    pub open spec fn inv(self) -> bool {
        0 <= self.col && 0 <= self.row
    }
}

impl Default for CursorState {
    fn default() -> (state: CursorState)
        ensures
            state == CursorState::initial(),
    {
        CursorState {
            col: 0,
            row: 0,
            style_modifier: StyleModifier::new(),
            wrapping_mode: WrappingMode::Wrap,
        }
    }
}

} // verus!
