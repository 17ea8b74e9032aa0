//! Pure helpers for the presentation layer: the player's cursor, which
//! stays clamped to the grid, and the mapping from grid positions to screen
//! coordinates.

use vstd::prelude::*;

use crate::puzzle::{Cell, GamePos};

verus! {

pub fn boolchar(b: bool, t: char, f: char) -> (r: char)
    ensures
        r == (if b { t } else { f }),
{
    if b {
        t
    } else {
        f
    }
}

/// The cell the player is focused on. Movement clamps at the grid's edges,
/// so the position always stays well-formed.
pub struct PlayerCursor {
    pub pos: GamePos,
}

impl PlayerCursor {
    pub fn new() -> (r: Self)
        ensures
            r.pos.row == 0,
            r.pos.col == 0,
    {
        Self::at(0, 0)
    }

    pub fn at(row: i32, col: i32) -> (r: Self)
        ensures
            r.pos.row == row,
            r.pos.col == col,
    {
        PlayerCursor { pos: GamePos { row, col } }
    }

    pub fn right(&mut self)
        requires
            old(self).pos.wf(),
        ensures
            final(self).pos.wf(),
            final(self).pos.row == old(self).pos.row,
            final(self).pos.col == vstd::math::min(old(self).pos.col + 1, 8),
    {
        self.pos.col = if self.pos.col + 1 < 8 {
            self.pos.col + 1
        } else {
            8
        };
    }

    pub fn left(&mut self)
        requires
            old(self).pos.wf(),
        ensures
            final(self).pos.wf(),
            final(self).pos.row == old(self).pos.row,
            final(self).pos.col == vstd::math::max(old(self).pos.col - 1, 0),
    {
        self.pos.col = if self.pos.col - 1 > 0 {
            self.pos.col - 1
        } else {
            0
        };
    }

    pub fn up(&mut self)
        requires
            old(self).pos.wf(),
        ensures
            final(self).pos.wf(),
            final(self).pos.col == old(self).pos.col,
            final(self).pos.row == vstd::math::max(old(self).pos.row - 1, 0),
    {
        self.pos.row = if self.pos.row - 1 > 0 {
            self.pos.row - 1
        } else {
            0
        };
    }

    pub fn down(&mut self)
        requires
            old(self).pos.wf(),
        ensures
            final(self).pos.wf(),
            final(self).pos.col == old(self).pos.col,
            final(self).pos.row == vstd::math::min(old(self).pos.row + 1, 8),
    {
        self.pos.row = if self.pos.row + 1 < 8 {
            self.pos.row + 1
        } else {
            8
        };
    }
}

/// The top-left screen coordinates `(y, x)` of the 3x3 character block that
/// draws `cell`, inside the bordered grid.
pub fn win_coords(cell: &Cell) -> (r: (i32, i32))
    requires
        cell.pos.wf(),
    ensures
        r.0 == 1 + cell.pos.row * 3 + cell.pos.row / 3,
        r.1 == 2 + cell.pos.col * 4 + (cell.pos.col / 3) * 2,
{
    let row_block = (cell.pos.row as usize / 3) as i32;
    let col_block = (cell.pos.col as usize / 3) as i32;
    let y = 1 + (cell.pos.row * 3) + row_block;
    let x = 2 + (cell.pos.col * 4) + (col_block * 2);

    (y, x)
}

} // verus!
