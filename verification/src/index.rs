//! Line and column numbers as they occur in control sequences.

use vstd::prelude::*;

verus! {

/// A line number, counted from 0 at the top of the visible region.
#[derive(Clone, Copy, PartialEq, Eq, Debug)]
pub struct Line(pub usize);

/// A column number, counted from 0 at the left.
#[derive(Clone, Copy, PartialEq, Eq, Debug)]
pub struct Column(pub usize);

} // verus!
