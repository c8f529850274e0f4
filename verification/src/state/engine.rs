//! The generation-transition engine: the Life rule, applied uniformly
//! against one consistent prior generation.

use vstd::prelude::*;

verus! {

use crate::state::board::{
    board_wf, grid, height_of, live_neighbors, neighbor_count, occupancy, width_of, Board,
};
use crate::state::cell::{Cell, CellState};

/// The Life rule: a live cell survives on two or three live neighbors;
/// a dead cell is born on exactly three; every other case is dead.
pub open spec fn life_rule(alive: bool, neighbors: int) -> bool {
    if alive {
        neighbors == 2 || neighbors == 3
    } else {
        neighbors == 3
    }
}

/// `next` is the generation after `prev`: same dimensions, same cell
/// positions, and every state follows the Life rule evaluated entirely
/// against `prev`.
pub open spec fn is_next_generation(prev: Seq<Seq<Cell>>, next: Seq<Seq<Cell>>) -> bool {
    &&& next.len() == prev.len()
    &&& forall|x: int| 0 <= x < prev.len() ==> #[trigger] next[x].len() == prev[x].len()
    &&& forall|x: int, y: int|
        0 <= x < prev.len() && 0 <= y < prev[x].len() ==> (#[trigger] next[x][y]).pos
            == prev[x][y].pos
    &&& forall|x: int, y: int|
        0 <= x < prev.len() && 0 <= y < prev[x].len() ==> ((#[trigger] next[x][y]).state is Alive
            <==> life_rule(prev[x][y].state is Alive, live_neighbors(prev, x, y)))
}

/// The state of one cell in the next generation.
fn next_state(alive: bool, neighbors: u8) -> (s: CellState)
    ensures
        (s is Alive) == life_rule(alive, neighbors as int),
{
    if alive {
        if neighbors == 2 || neighbors == 3 {
            CellState::Alive
        } else {
            CellState::Dead
        }
    } else {
        if neighbors == 3 {
            CellState::Alive
        } else {
            CellState::Dead
        }
    }
}

/// Computes the next generation of the board. Every neighbor count is
/// taken against the unmodified input board, and the result is written
/// into a fresh board, so no cell's update can observe another cell's
/// already-updated state.
pub fn tick(board: &Board) -> (next: Board)
    requires
        board_wf(grid(board@)),
    ensures
        board_wf(grid(next@)),
        width_of(grid(next@)) == width_of(grid(board@)),
        height_of(grid(next@)) == height_of(grid(board@)),
        is_next_generation(grid(board@), grid(next@)),
{
    let width = board.len();
    let mut next: Board = Vec::new();
    let mut x: usize = 0;
    while x < width
        invariant
            board_wf(grid(board@)),
            width == board@.len(),
            x <= width,
            next@.len() == x as int,
            forall|i: int| 0 <= i < x ==> (#[trigger] next@[i])@.len() == board@[i]@.len(),
            forall|i: int, j: int|
                0 <= i < x && 0 <= j < board@[i]@.len() ==> (#[trigger] next@[i]@[j]).pos
                    == board@[i]@[j].pos,
            forall|i: int, j: int|
                0 <= i < x && 0 <= j < board@[i]@.len() ==> ((#[trigger] next@[i]@[j]).state
                    is Alive <==> life_rule(
                    board@[i]@[j].state is Alive,
                    live_neighbors(grid(board@), i, j),
                )),
        decreases width - x,
    {
        let column = &board[x];
        let height = column.len();
        let mut new_column: Vec<Cell> = Vec::new();
        let mut y: usize = 0;
        while y < height
            invariant
                board_wf(grid(board@)),
                x < board@.len(),
                height == board@[x as int]@.len(),
                y <= height,
                new_column@.len() == y as int,
                forall|j: int|
                    0 <= j < y ==> (#[trigger] new_column@[j]).pos == board@[x as int]@[j].pos,
                forall|j: int|
                    0 <= j < y ==> ((#[trigger] new_column@[j]).state is Alive <==> life_rule(
                        board@[x as int]@[j].state is Alive,
                        live_neighbors(grid(board@), x as int, j),
                    )),
            decreases height - y,
        {
            let old_cell = board[x][y];
            let alive = match old_cell.state {
                CellState::Alive => true,
                CellState::Dead => false,
            };
            let count = neighbor_count(board, x, y);
            let state = next_state(alive, count);
            new_column.push(Cell { state, pos: old_cell.pos });
            y = y + 1;
        }
        next.push(new_column);
        x = x + 1;
    }
    proof {
        let g = grid(board@);
        let n = grid(next@);
        assert forall|i: int| 0 <= i < n.len() implies #[trigger] n[i].len() == height_of(n) by {
            assert(n[i].len() == g[i].len());
            if n.len() > 0 {
                assert(n[0].len() == g[0].len());
            }
        }
        assert(board_wf(n));
        assert(is_next_generation(g, n));
    }
    next
}

/// A live cell with two or three live neighbors stays alive after a
/// tick; with fewer than two or more than three it becomes dead.
pub proof fn lemma_live_cell_rule(prev: Seq<Seq<Cell>>, next: Seq<Seq<Cell>>, x: int, y: int)
    requires
        is_next_generation(prev, next),
        0 <= x < prev.len(),
        0 <= y < prev[x].len(),
        prev[x][y].state is Alive,
    ensures
        2 <= live_neighbors(prev, x, y) <= 3 ==> next[x][y].state is Alive,
        live_neighbors(prev, x, y) < 2 || live_neighbors(prev, x, y) > 3 ==> next[x][y].state
            is Dead,
{
}

/// A dead cell with exactly three live neighbors becomes alive after a
/// tick; with any other count it stays dead.
pub proof fn lemma_dead_cell_rule(prev: Seq<Seq<Cell>>, next: Seq<Seq<Cell>>, x: int, y: int)
    requires
        is_next_generation(prev, next),
        0 <= x < prev.len(),
        0 <= y < prev[x].len(),
        prev[x][y].state is Dead,
    ensures
        live_neighbors(prev, x, y) == 3 ==> next[x][y].state is Alive,
        live_neighbors(prev, x, y) != 3 ==> next[x][y].state is Dead,
{
}

/// Two cells with the same position and the same liveness are equal.
proof fn lemma_cell_eq(a: Cell, b: Cell)
    requires
        a.pos == b.pos,
        a.state is Alive <==> b.state is Alive,
    ensures
        a == b,
{
    if a.state is Alive {
        assert(a == Cell { state: CellState::Alive, pos: a.pos });
        assert(b == Cell { state: CellState::Alive, pos: b.pos });
    } else {
        assert(a == Cell { state: CellState::Dead, pos: a.pos });
        assert(b == Cell { state: CellState::Dead, pos: b.pos });
    }
}

/// The next generation is a function of the prior board alone: any two
/// boards that both follow `prev` are equal.
pub proof fn lemma_tick_deterministic(prev: Seq<Seq<Cell>>, a: Seq<Seq<Cell>>, b: Seq<Seq<Cell>>)
    requires
        is_next_generation(prev, a),
        is_next_generation(prev, b),
    ensures
        a == b,
{
    assert forall|x: int| 0 <= x < a.len() implies a[x] == b[x] by {
        assert forall|y: int| 0 <= y < a[x].len() implies a[x][y] == b[x][y] by {
            lemma_cell_eq(a[x][y], b[x][y]);
        }
        assert(a[x] =~= b[x]);
    }
    assert(a =~= b);
}

/// The board holds exactly a 2 x 2 block of live cells with lower
/// corner `(bx, by)`; every other cell is dead.
pub open spec fn is_block(g: Seq<Seq<Cell>>, bx: int, by: int) -> bool {
    forall|x: int, y: int|
        0 <= x < g.len() && 0 <= y < g[x].len() ==> ((#[trigger] g[x][y]).state is Alive <==> bx
            <= x <= bx + 1 && by <= y <= by + 1)
}

/// On a block board, a cell is occupied exactly when it lies in the
/// block.
proof fn lemma_block_occupancy(g: Seq<Seq<Cell>>, bx: int, by: int, u: int, v: int)
    requires
        board_wf(g),
        is_block(g, bx, by),
        1 <= bx,
        bx + 2 <= width_of(g) - 1,
        1 <= by,
        by + 2 <= height_of(g) - 1,
    ensures
        occupancy(g, u, v) == if bx <= u <= bx + 1 && by <= v <= by + 1 {
            1int
        } else {
            0int
        },
{
    if bx <= u <= bx + 1 && by <= v <= by + 1 {
        assert(0 <= u < g.len());
        assert(g[u].len() == height_of(g));
        assert(g[u][v].state is Alive);
    } else {
        if 0 <= u < g.len() && 0 <= v < g[u].len() {
            assert(!(g[u][v].state is Alive));
        }
    }
}

/// On a block board, every block cell has exactly three live
/// neighbors, and every other cell has at most two.
proof fn lemma_block_neighbors(g: Seq<Seq<Cell>>, bx: int, by: int, x: int, y: int)
    requires
        board_wf(g),
        is_block(g, bx, by),
        1 <= bx,
        bx + 2 <= width_of(g) - 1,
        1 <= by,
        by + 2 <= height_of(g) - 1,
    ensures
        bx <= x <= bx + 1 && by <= y <= by + 1 ==> live_neighbors(g, x, y) == 3,
        !(bx <= x <= bx + 1 && by <= y <= by + 1) ==> live_neighbors(g, x, y) <= 2,
{
    lemma_block_occupancy(g, bx, by, x - 1, y - 1);
    lemma_block_occupancy(g, bx, by, x, y - 1);
    lemma_block_occupancy(g, bx, by, x + 1, y - 1);
    lemma_block_occupancy(g, bx, by, x - 1, y);
    lemma_block_occupancy(g, bx, by, x + 1, y);
    lemma_block_occupancy(g, bx, by, x - 1, y + 1);
    lemma_block_occupancy(g, bx, by, x, y + 1);
    lemma_block_occupancy(g, bx, by, x + 1, y + 1);
}

/// A 2 x 2 block of live cells surrounded by dead cells, with at least
/// one cell of margin to every board edge, is a still life: the next
/// generation equals the board.
pub proof fn lemma_block_still_life(g: Seq<Seq<Cell>>, next: Seq<Seq<Cell>>, bx: int, by: int)
    requires
        board_wf(g),
        is_block(g, bx, by),
        1 <= bx,
        bx + 2 <= width_of(g) - 1,
        1 <= by,
        by + 2 <= height_of(g) - 1,
        is_next_generation(g, next),
    ensures
        next == g,
{
    assert forall|x: int| 0 <= x < g.len() implies next[x] == g[x] by {
        assert forall|y: int| 0 <= y < g[x].len() implies next[x][y] == g[x][y] by {
            lemma_block_neighbors(g, bx, by, x, y);
            lemma_cell_eq(next[x][y], g[x][y]);
        }
        assert(next[x] =~= g[x]);
    }
    assert(next =~= g);
}

/// The board holds exactly a horizontal 3-cell line of live cells at
/// row `ry`, columns `cx - 1 ..= cx + 1`; every other cell is dead.
pub open spec fn is_horizontal_blinker(g: Seq<Seq<Cell>>, cx: int, ry: int) -> bool {
    forall|x: int, y: int|
        0 <= x < g.len() && 0 <= y < g[x].len() ==> ((#[trigger] g[x][y]).state is Alive <==> y
            == ry && cx - 1 <= x <= cx + 1)
}

/// The board holds exactly a vertical 3-cell line of live cells at
/// column `cx`, rows `ry - 1 ..= ry + 1`; every other cell is dead.
pub open spec fn is_vertical_blinker(g: Seq<Seq<Cell>>, cx: int, ry: int) -> bool {
    forall|x: int, y: int|
        0 <= x < g.len() && 0 <= y < g[x].len() ==> ((#[trigger] g[x][y]).state is Alive <==> x
            == cx && ry - 1 <= y <= ry + 1)
}

/// On a horizontal-blinker board, a cell is occupied exactly when it
/// lies on the line.
proof fn lemma_blinker_occupancy(g: Seq<Seq<Cell>>, cx: int, ry: int, u: int, v: int)
    requires
        board_wf(g),
        is_horizontal_blinker(g, cx, ry),
        2 <= cx,
        cx + 2 <= width_of(g) - 1,
        1 <= ry,
        ry + 1 <= height_of(g) - 1,
    ensures
        occupancy(g, u, v) == if v == ry && cx - 1 <= u <= cx + 1 {
            1int
        } else {
            0int
        },
{
    if v == ry && cx - 1 <= u <= cx + 1 {
        assert(0 <= u < g.len());
        assert(g[u].len() == height_of(g));
        assert(g[u][v].state is Alive);
    } else {
        if 0 <= u < g.len() && 0 <= v < g[u].len() {
            assert(!(g[u][v].state is Alive));
        }
    }
}

/// A horizontal blinker with at least one cell of margin to every
/// board edge becomes a vertical blinker after one tick.
pub proof fn lemma_blinker_rotates(g: Seq<Seq<Cell>>, next: Seq<Seq<Cell>>, cx: int, ry: int)
    requires
        board_wf(g),
        is_horizontal_blinker(g, cx, ry),
        2 <= cx,
        cx + 2 <= width_of(g) - 1,
        1 <= ry,
        ry + 1 <= height_of(g) - 1,
        is_next_generation(g, next),
    ensures
        is_vertical_blinker(next, cx, ry),
{
    assert forall|x: int, y: int| 0 <= x < next.len() && 0 <= y < next[x].len() implies ((
    #[trigger] next[x][y]).state is Alive <==> x == cx && ry - 1 <= y <= ry + 1) by {
        lemma_blinker_occupancy(g, cx, ry, x - 1, y - 1);
        lemma_blinker_occupancy(g, cx, ry, x, y - 1);
        lemma_blinker_occupancy(g, cx, ry, x + 1, y - 1);
        lemma_blinker_occupancy(g, cx, ry, x - 1, y);
        lemma_blinker_occupancy(g, cx, ry, x + 1, y);
        lemma_blinker_occupancy(g, cx, ry, x - 1, y + 1);
        lemma_blinker_occupancy(g, cx, ry, x, y + 1);
        lemma_blinker_occupancy(g, cx, ry, x + 1, y + 1);
    }
}

} // verus!
