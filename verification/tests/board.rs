use rust_of_life::state::board::{
    copy_board, create, neighbor_count, random_cells, randomize, Board, BoardError,
};
use rust_of_life::state::cell::CellState;

fn alive(board: &Board, x: usize, y: usize) -> bool {
    matches!(board[x][y].state, CellState::Alive)
}

#[test]
fn create_rejects_zero_width() {
    assert_eq!(create(0, 5), Err(BoardError::InvalidDimensions));
}

#[test]
fn create_rejects_zero_height() {
    assert_eq!(create(7, 0), Err(BoardError::InvalidDimensions));
}

#[test]
fn create_builds_dead_grid_with_positions() {
    let board = create(3, 2).unwrap();
    assert_eq!(board.len(), 3);
    for x in 0..3 {
        assert_eq!(board[x].len(), 2);
        for y in 0..2 {
            assert!(matches!(board[x][y].state, CellState::Dead));
            assert_eq!(board[x][y].x(), x as u32);
            assert_eq!(board[x][y].y(), y as u32);
        }
    }
}

#[test]
fn neighbor_counts_on_small_board() {
    let mut board = create(3, 3).unwrap();
    board[0][0].reanimate();
    board[1][0].reanimate();
    board[2][1].reanimate();
    // The center sees all three live cells.
    assert_eq!(neighbor_count(&board, 1, 1), 3);
    // A live cell does not count itself.
    assert_eq!(neighbor_count(&board, 0, 0), 1);
    // The far corner sees only the one adjacent live cell.
    assert_eq!(neighbor_count(&board, 2, 2), 1);
}

#[test]
fn neighbors_do_not_wrap_around() {
    let mut board = create(2, 2).unwrap();
    board[0][0].reanimate();
    board[0][1].reanimate();
    board[1][0].reanimate();
    board[1][1].reanimate();
    // On a 2 x 2 board every cell has exactly the three others as
    // neighbors; wrapping would count cells twice.
    assert_eq!(neighbor_count(&board, 0, 0), 3);
    assert_eq!(neighbor_count(&board, 1, 1), 3);
}

#[test]
fn random_cells_has_requested_dimensions_and_positions() {
    let board = random_cells(6, 4);
    assert_eq!(board.len(), 6);
    for x in 0..6 {
        assert_eq!(board[x].len(), 4);
        for y in 0..4 {
            assert_eq!(board[x][y].x(), x as u32);
            assert_eq!(board[x][y].y(), y as u32);
        }
    }
}

#[test]
fn randomize_keeps_dimensions() {
    let mut board = create(5, 3).unwrap();
    randomize(&mut board, 5, 3);
    assert_eq!(board.len(), 5);
    for x in 0..5 {
        assert_eq!(board[x].len(), 3);
    }
}

#[test]
fn copy_board_is_equal_and_independent() {
    let mut board = create(3, 3).unwrap();
    board[1][1].reanimate();
    let mut copy = copy_board(&board);
    assert_eq!(copy, board);
    copy[0][0].reanimate();
    assert!(alive(&copy, 0, 0));
    assert!(!alive(&board, 0, 0));
}
