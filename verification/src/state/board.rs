//! The board: a dense grid of cells, with neighbor counting and
//! whole-grid randomization.

use vstd::prelude::*;

verus! {

use crate::state::cell::{Cell, CellState};

/// A board is a dense grid of cells, indexed `[x][y]` with
/// `x` in `[0, width)` and `y` in `[0, height)`.
pub type Board = Vec<Vec<Cell>>;

/// The error a board constructor raises when a dimension is zero.
#[derive(Debug, Clone, Copy, PartialEq, Eq, Structural)]
pub enum BoardError {
    InvalidDimensions,
}

/// The abstract contents of a board: one sequence of cells per column.
pub open spec fn grid(b: Seq<Vec<Cell>>) -> Seq<Seq<Cell>> {
    Seq::new(b.len(), |x: int| b[x]@)
}

pub open spec fn width_of(g: Seq<Seq<Cell>>) -> int {
    g.len() as int
}

pub open spec fn height_of(g: Seq<Seq<Cell>>) -> int {
    if g.len() > 0 {
        g[0].len() as int
    } else {
        0
    }
}

/// A well-formed board: every column has the same height and every
/// cell records its own coordinates.
pub open spec fn board_wf(g: Seq<Seq<Cell>>) -> bool {
    &&& forall|x: int| 0 <= x < g.len() ==> #[trigger] g[x].len() == height_of(g)
    &&& forall|x: int, y: int|
        0 <= x < g.len() && 0 <= y < g[x].len() ==> (#[trigger] g[x][y]).pos.0 == x
            && g[x][y].pos.1 == y
}

/// Whether the cell at `(x, y)` is alive; coordinates outside the
/// board count as dead.
pub open spec fn alive_at(g: Seq<Seq<Cell>>, x: int, y: int) -> bool {
    0 <= x < g.len() && 0 <= y < g[x].len() && g[x][y].state is Alive
}

/// 1 when the cell at `(x, y)` is alive, else 0.
pub open spec fn occupancy(g: Seq<Seq<Cell>>, x: int, y: int) -> int {
    if alive_at(g, x, y) {
        1
    } else {
        0
    }
}

/// The number of live cells among the up-to-eight neighbors of
/// `(x, y)`; neighbors outside the board do not count and are not
/// wrapped around.
pub open spec fn live_neighbors(g: Seq<Seq<Cell>>, x: int, y: int) -> int {
    occupancy(g, x - 1, y - 1) + occupancy(g, x, y - 1) + occupancy(g, x + 1, y - 1)
        + occupancy(g, x - 1, y) + occupancy(g, x + 1, y) + occupancy(g, x - 1, y + 1)
        + occupancy(g, x, y + 1) + occupancy(g, x + 1, y + 1)
}

/// Every cell of the board is dead.
pub open spec fn all_dead(g: Seq<Seq<Cell>>) -> bool {
    forall|x: int, y: int|
        0 <= x < g.len() && 0 <= y < g[x].len() ==> (#[trigger] g[x][y]).state is Dead
}

/// Returns a `width` x `height` board with every cell dead, or
/// `InvalidDimensions` when either dimension is zero.
pub fn create(width: u32, height: u32) -> (r: Result<Board, BoardError>)
    ensures
        (width == 0 || height == 0) <==> r is Err,
        r is Err ==> r == Err::<Board, BoardError>(BoardError::InvalidDimensions),
        r matches Ok(b) ==> board_wf(grid(b@)) && width_of(grid(b@)) == width && height_of(
            grid(b@),
        ) == height && all_dead(grid(b@)),
{
    if width == 0 || height == 0 {
        return Err(BoardError::InvalidDimensions);
    }
    let mut cells: Board = Vec::new();
    let mut x: u32 = 0;
    while x < width
        invariant
            x <= width,
            height > 0,
            cells@.len() == x as int,
            forall|i: int| 0 <= i < x ==> (#[trigger] cells@[i])@.len() == height,
            forall|i: int, j: int|
                0 <= i < x && 0 <= j < height ==> (#[trigger] cells@[i]@[j]).pos.0 == i
                    && cells@[i]@[j].pos.1 == j && cells@[i]@[j].state is Dead,
        decreases width - x,
    {
        let mut column: Vec<Cell> = Vec::new();
        let mut y: u32 = 0;
        while y < height
            invariant
                y <= height,
                column@.len() == y as int,
                forall|j: int|
                    0 <= j < y ==> (#[trigger] column@[j]).pos.0 == x && column@[j].pos.1 == j
                        && column@[j].state is Dead,
            decreases height - y,
        {
            column.push(Cell::new(x, y));
            y = y + 1;
        }
        cells.push(column);
        x = x + 1;
    }
    proof {
        let g = grid(cells@);
        assert(g[0].len() == height);
        assert(board_wf(g));
        assert(all_dead(g));
    }
    Ok(cells)
}

/// Relies on rand::random::<bool>: one draw from the process-local
/// random source, alive or dead with equal probability; nothing is
/// promised of the outcome.
#[verifier::external_body]
fn coin_flip() -> bool {
    rand::random::<bool>()
}

/// A `width` x `height` board whose cells are independently alive or
/// dead as the process-local random source decides.
pub fn random_cells(width: u32, height: u32) -> (b: Board)
    ensures
        board_wf(grid(b@)),
        width_of(grid(b@)) == width,
        width > 0 ==> height_of(grid(b@)) == height,
{
    let mut cells: Board = Vec::new();
    let mut x: u32 = 0;
    while x < width
        invariant
            x <= width,
            cells@.len() == x as int,
            forall|i: int| 0 <= i < x ==> (#[trigger] cells@[i])@.len() == height,
            forall|i: int, j: int|
                0 <= i < x && 0 <= j < height ==> (#[trigger] cells@[i]@[j]).pos.0 == i
                    && cells@[i]@[j].pos.1 == j,
        decreases width - x,
    {
        let mut column: Vec<Cell> = Vec::new();
        let mut y: u32 = 0;
        while y < height
            invariant
                y <= height,
                column@.len() == y as int,
                forall|j: int|
                    0 <= j < y ==> (#[trigger] column@[j]).pos.0 == x && column@[j].pos.1 == j,
            decreases height - y,
        {
            let mut cell = Cell::new(x, y);
            if coin_flip() {
                cell.reanimate();
            }
            column.push(cell);
            y = y + 1;
        }
        cells.push(column);
        x = x + 1;
    }
    proof {
        let g = grid(cells@);
        if width > 0 {
            assert(g[0].len() == height);
        }
        assert(board_wf(g));
    }
    cells
}

/// Re-rolls every cell of the board in place: each cell is
/// independently alive or dead with equal probability. The dimensions
/// are unchanged.
pub fn randomize(board: &mut Board, width: u32, height: u32)
    requires
        width_of(grid(old(board)@)) == width,
        height_of(grid(old(board)@)) == height,
    ensures
        board_wf(grid(final(board)@)),
        width_of(grid(final(board)@)) == width,
        width > 0 ==> height_of(grid(final(board)@)) == height,
{
    *board = random_cells(width, height);
}

/// A cell-for-cell copy of the board.
pub fn copy_board(board: &Board) -> (r: Board)
    ensures
        grid(r@) == grid(board@),
{
    let mut r: Board = Vec::new();
    let mut x: usize = 0;
    while x < board.len()
        invariant
            x <= board@.len(),
            r@.len() == x as int,
            forall|i: int| 0 <= i < x ==> (#[trigger] r@[i])@ == board@[i]@,
        decreases board@.len() - x,
    {
        let column = &board[x];
        let mut copy: Vec<Cell> = Vec::new();
        let mut y: usize = 0;
        while y < column.len()
            invariant
                y <= column@.len(),
                copy@.len() == y as int,
                forall|j: int| 0 <= j < y ==> #[trigger] copy@[j] == column@[j],
        decreases column@.len() - y,
        {
            copy.push(column[y]);
            y = y + 1;
        }
        proof {
            assert(copy@ =~= column@);
        }
        r.push(copy);
        x = x + 1;
    }
    proof {
        assert(grid(r@) =~= grid(board@));
    }
    r
}

/// Whether the cell at `(x, y)` is alive, with coordinates outside the
/// board counting as dead.
fn alive_in(board: &Board, x: usize, y: usize) -> (r: bool)
    ensures
        r == alive_at(grid(board@), x as int, y as int),
{
    if x < board.len() {
        let column = &board[x];
        if y < column.len() {
            match column[y].state {
                CellState::Alive => true,
                CellState::Dead => false,
            }
        } else {
            false
        }
    } else {
        false
    }
}

/// Counts the live cells among the up-to-eight neighbors of `(x, y)`,
/// excluding `(x, y)` itself; neighbors outside the board do not count
/// and are not wrapped around.
pub fn neighbor_count(board: &Board, x: usize, y: usize) -> (n: u8)
    requires
        x < grid(board@).len(),
        y < grid(board@)[x as int].len(),
    ensures
        n as int == live_neighbors(grid(board@), x as int, y as int),
{
    let width = board.len();
    let height = board[x].len();
    proof {
        assert(x < width);
        assert(y < height);
    }
    let mut n: u8 = 0;
    if x > 0 && y > 0 && alive_in(board, x - 1, y - 1) {
        n = n + 1;
    }
    if y > 0 && alive_in(board, x, y - 1) {
        n = n + 1;
    }
    if y > 0 && alive_in(board, x + 1, y - 1) {
        n = n + 1;
    }
    if x > 0 && alive_in(board, x - 1, y) {
        n = n + 1;
    }
    if alive_in(board, x + 1, y) {
        n = n + 1;
    }
    if x > 0 && alive_in(board, x - 1, y + 1) {
        n = n + 1;
    }
    if alive_in(board, x, y + 1) {
        n = n + 1;
    }
    if alive_in(board, x + 1, y + 1) {
        n = n + 1;
    }
    n
}

} // verus!
