//! Coordinate types.  Document space (grapheme column, row) and screen space
//! (cell column, screen row) are kept apart: `Location` lives in the
//! document, `Position` on the screen grid.
use vstd::prelude::*;

verus! {

/// Terminal dimensions, in rows and columns.
#[derive(Default, Copy, Clone, Debug)]
pub struct Size {
    pub height: usize,
    pub width: usize,
}

/// A position on the screen grid, zero-based.
#[derive(Copy, Clone, Debug)]
pub struct Position {
    pub x: usize,
    pub y: usize,
}

/// A position in the document: `x` is the grapheme column within row `y`.
#[derive(Copy, Clone, Default, Debug)]
pub struct Location {
    pub x: usize,
    pub y: usize,
}

impl From<Location> for Position {
    /// Reinterprets a document location as a raw screen position, axis for
    /// axis.
    fn from(location: Location) -> (p: Self) {
        Position { x: location.x, y: location.y }
    }
}

impl vstd::std_specs::convert::FromSpecImpl<Location> for Position {
    open spec fn obeys_from_spec() -> bool {
        true
    }

    open spec fn from_spec(location: Location) -> Position {
        Position { x: location.x, y: location.y }
    }
}

/// `a + b`, stopping at the machine limit, as `usize::saturating_add` does.
pub open spec fn sat_add(a: int, b: int) -> int {
    if a + b > usize::MAX {
        usize::MAX as int
    } else {
        a + b
    }
}

/// `a - b`, stopping at zero, as `usize::saturating_sub` does.
pub open spec fn sat_sub(a: int, b: int) -> int {
    if a - b < 0 {
        0
    } else {
        a - b
    }
}

/// Saturating addition on `usize` values.
pub fn sat_add_usize(a: usize, b: usize) -> (r: usize)
    ensures
        r as int == sat_add(a as int, b as int),
{
    if a <= usize::MAX - b {
        a + b
    } else {
        usize::MAX
    }
}

/// Saturating subtraction on `usize` values.
pub fn sat_sub_usize(a: usize, b: usize) -> (r: usize)
    ensures
        r as int == sat_sub(a as int, b as int),
{
    if a >= b {
        a - b
    } else {
        0
    }
}

} // verus!
