//! A single cell of the board: a fixed position and an alive/dead flag.

use vstd::prelude::*;

verus! {

/// Whether a cell is currently alive or dead.
#[derive(Debug, Clone, Copy, PartialEq, Eq, Structural)]
pub enum CellState {
    Alive,
    Dead,
}

/// One cell on the board. The position is fixed at creation; only the
/// state changes afterwards.
#[derive(Debug, Clone, Copy, PartialEq, Eq)]
pub struct Cell {
    pub state: CellState,
    pub pos: (u32, u32),
}

impl Cell {
    /// A new cell starts out dead.
    pub fn new(x: u32, y: u32) -> (c: Cell)
        ensures
            c.state is Dead,
            c.pos.0 == x,
            c.pos.1 == y,
    {
        Cell { state: CellState::Dead, pos: (x, y) }
    }

    /// Sets the cell's state to dead; the position is unchanged.
    pub fn kill(&mut self)
        ensures
            final(self).state is Dead,
            final(self).pos == old(self).pos,
    {
        self.state = CellState::Dead;
    }

    /// Sets the cell's state to alive; the position is unchanged.
    pub fn reanimate(&mut self)
        ensures
            final(self).state is Alive,
            final(self).pos == old(self).pos,
    {
        self.state = CellState::Alive;
    }

    pub fn x(self) -> (r: u32)
        ensures
            r == self.pos.0,
    {
        self.pos.0
    }

    pub fn y(self) -> (r: u32)
        ensures
            r == self.pos.1,
    {
        self.pos.1
    }
}

} // verus!
