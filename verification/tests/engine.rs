use rust_of_life::state::board::{copy_board, create, Board};
use rust_of_life::state::cell::CellState;
use rust_of_life::state::engine::tick;

fn alive(board: &Board, x: usize, y: usize) -> bool {
    matches!(board[x][y].state, CellState::Alive)
}

#[test]
fn live_cell_with_two_neighbors_survives() {
    // A horizontal line of three: the center cell has two neighbors.
    let mut board = create(5, 5).unwrap();
    board[1][2].reanimate();
    board[2][2].reanimate();
    board[3][2].reanimate();
    let next = tick(&board);
    assert!(alive(&next, 2, 2));
}

#[test]
fn live_cell_with_three_neighbors_survives() {
    // Every cell of a 2 x 2 block has three neighbors.
    let mut board = create(4, 4).unwrap();
    board[1][1].reanimate();
    board[1][2].reanimate();
    board[2][1].reanimate();
    board[2][2].reanimate();
    let next = tick(&board);
    assert!(alive(&next, 1, 1));
    assert!(alive(&next, 2, 2));
}

#[test]
fn live_cell_with_fewer_than_two_neighbors_dies() {
    let mut board = create(4, 4).unwrap();
    // A lone cell has zero neighbors; a pair gives each cell one.
    board[1][1].reanimate();
    board[2][1].reanimate();
    let next = tick(&board);
    assert!(!alive(&next, 1, 1));
    assert!(!alive(&next, 2, 1));
}

#[test]
fn live_cell_with_more_than_three_neighbors_dies() {
    // The center of a plus shape has four neighbors.
    let mut board = create(5, 5).unwrap();
    board[2][2].reanimate();
    board[1][2].reanimate();
    board[3][2].reanimate();
    board[2][1].reanimate();
    board[2][3].reanimate();
    let next = tick(&board);
    assert!(!alive(&next, 2, 2));
}

#[test]
fn dead_cell_with_three_neighbors_is_born() {
    // Three cells around an empty corner give birth there.
    let mut board = create(4, 4).unwrap();
    board[1][1].reanimate();
    board[2][1].reanimate();
    board[1][2].reanimate();
    let next = tick(&board);
    assert!(alive(&next, 2, 2));
}

#[test]
fn dead_cell_without_three_neighbors_stays_dead() {
    let mut board = create(4, 4).unwrap();
    board[1][1].reanimate();
    board[2][1].reanimate();
    let next = tick(&board);
    // (1, 2) has two neighbors, (3, 3) has none.
    assert!(!alive(&next, 1, 2));
    assert!(!alive(&next, 3, 3));
}

#[test]
fn tick_leaves_the_input_board_unchanged() {
    let mut board = create(4, 4).unwrap();
    board[1][1].reanimate();
    board[1][2].reanimate();
    board[2][1].reanimate();
    let before = copy_board(&board);
    let _ = tick(&board);
    assert_eq!(board, before);
}

#[test]
fn tick_is_deterministic() {
    let mut board = create(5, 5).unwrap();
    board[1][2].reanimate();
    board[2][2].reanimate();
    board[3][2].reanimate();
    board[4][4].reanimate();
    assert_eq!(tick(&board), tick(&board));
}

#[test]
fn block_is_a_still_life() {
    // A 2 x 2 block with one cell of margin on every side.
    let mut board = create(4, 4).unwrap();
    board[1][1].reanimate();
    board[1][2].reanimate();
    board[2][1].reanimate();
    board[2][2].reanimate();
    let next = tick(&board);
    assert_eq!(next, board);
}

#[test]
fn blinker_turns_vertical() {
    // A horizontal line at row 2, columns 1..=3, on a 5 x 5 board.
    let mut board = create(5, 5).unwrap();
    board[1][2].reanimate();
    board[2][2].reanimate();
    board[3][2].reanimate();
    let next = tick(&board);
    for x in 0..5 {
        for y in 0..5 {
            let on_vertical_line = x == 2 && (1..=3).contains(&y);
            assert_eq!(alive(&next, x, y), on_vertical_line);
        }
    }
}
