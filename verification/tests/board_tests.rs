use sudoku_rpg::board::Gameboard;
use sudoku_rpg::input::Axis;

/// A completed, valid sudoku grid: the classic shifted-band pattern,
/// relabelled so that the cell in column 0, row 0 holds 5.
fn solved_value(col: usize, row: usize) -> u8 {
    (((3 * row + row / 3 + col) + 4) % 9 + 1) as u8
}

fn grid_values(board: &Gameboard) -> Vec<u8> {
    let mut vals = Vec::new();
    for row in 0..9 {
        for col in 0..9 {
            vals.push(board.value_at(col, row));
        }
    }
    vals
}

#[test]
fn new_board_is_empty_unselected_unsolved() {
    let board = Gameboard::new();
    for row in 0..9 {
        for col in 0..9 {
            assert_eq!(board.value_at(col, row), 0);
        }
    }
    assert_eq!(board.selected_cell, None);
    assert!(!board.solved);
}

#[test]
fn selection_clamps_at_edges() {
    let mut board = Gameboard::new();
    // Moves with no selection are no-ops.
    board.move_selected_cell(Axis::Horz, true);
    assert_eq!(board.selected_cell, None);

    board.selected_cell = Some((0, 0));
    // Repeatedly moving off the top-left edges changes nothing.
    for _ in 0..5 {
        board.move_selected_cell(Axis::Horz, false);
        board.move_selected_cell(Axis::Vert, false);
    }
    assert_eq!(board.selected_cell, Some((0, 0)));

    // Walk to the far corner and try to leave it.
    for _ in 0..12 {
        board.move_selected_cell(Axis::Horz, true);
        board.move_selected_cell(Axis::Vert, true);
    }
    assert_eq!(board.selected_cell, Some((8, 8)));

    // One step back works as usual.
    board.move_selected_cell(Axis::Vert, false);
    assert_eq!(board.selected_cell, Some((8, 7)));
}

#[test]
fn set_rejects_out_of_range_value_and_coordinate() {
    let mut board = Gameboard::new();
    board.set((4, 4), 7);
    let before = grid_values(&board);

    board.set((4, 4), 0);
    assert_eq!(grid_values(&board), before);
    board.set((4, 4), 10);
    assert_eq!(grid_values(&board), before);
    board.set((9, 0), 3);
    assert_eq!(grid_values(&board), before);
    board.set((0, 9), 3);
    assert_eq!(grid_values(&board), before);
    assert_eq!(board.value_at(4, 4), 7);
}

#[test]
fn select_at_maps_center_and_rejects_outside() {
    let mut board = Gameboard::new();
    // Board of size 450: the centre point lands in cell (4, 4).
    board.select_at(225, 225, 450);
    assert_eq!(board.selected_cell, Some((4, 4)));

    // A point left of the board is rejected, selection unchanged.
    board.select_at(-1, 10, 450);
    assert_eq!(board.selected_cell, Some((4, 4)));
    // So is a point past the far edge.
    board.select_at(450, 10, 450);
    assert_eq!(board.selected_cell, Some((4, 4)));

    // First and last pixel rows of the first and last cells.
    board.select_at(0, 449, 450);
    assert_eq!(board.selected_cell, Some((0, 8)));
}

#[test]
fn solved_check_accepts_complete_grid_and_rejects_broken_one() {
    let mut board = Gameboard::new();
    assert!(!board.is_grid_solved());

    for row in 0..9 {
        for col in 0..9 {
            board.set((col, row), solved_value(col, row));
        }
    }
    assert!(board.solved);
    assert!(board.is_grid_solved());

    // The same grid with the first cell duplicating its neighbour breaks a row.
    let mut broken = Gameboard::new();
    for row in 0..9 {
        for col in 0..9 {
            let v = if row == 0 && col == 0 {
                solved_value(1, 0)
            } else if row == 0 && col == 1 {
                solved_value(1, 0)
            } else {
                solved_value(col, row)
            };
            broken.set((col, row), v);
        }
    }
    assert!(!broken.solved);
    assert!(!broken.is_grid_solved());
}

#[test]
fn solved_board_is_immutable() {
    let mut board = Gameboard::new();
    for row in 0..9 {
        for col in 0..9 {
            board.set((col, row), solved_value(col, row));
        }
    }
    assert!(board.solved);
    let before = grid_values(&board);

    // No sequence of further writes changes anything, least of all `solved`.
    for row in 0..9 {
        for col in 0..9 {
            board.set((col, row), 9 - board.value_at(col, row) % 9);
        }
    }
    board.set((0, 0), 1);
    assert!(board.solved);
    assert_eq!(grid_values(&board), before);
}
