use game_of_life::life::{count_neighbours, try_update, update, SizeMismatch};
use game_of_life::{Board, Cell};

fn board_of(rows: &[&str]) -> Board {
    let mut board = Board::new(rows[0].len(), rows.len());
    for (y, row) in rows.iter().enumerate() {
        for (x, glyph) in row.chars().enumerate() {
            if glyph == 'x' {
                board.set(x, y, Cell::Alive);
            }
        }
    }
    board
}

fn rows_of(board: &Board) -> Vec<String> {
    let mut rows = Vec::new();
    for y in 0..board.height() {
        let mut row = String::new();
        for x in 0..board.width() {
            row.push(if board.at(x, y) == Cell::Alive { 'x' } else { '.' });
        }
        rows.push(row);
    }
    rows
}

#[test]
fn dead_board_stays_dead() {
    let board = board_of(&["...", "...", "..."]);
    let mut output = board_of(&["xxx", "xxx", "xxx"]);
    update(&board, &mut output);
    assert_eq!(rows_of(&output), vec!["...", "...", "..."]);
}

#[test]
fn lone_cell_dies() {
    let board = board_of(&["...", ".x.", "..."]);
    let mut output = Board::new(3, 3);
    update(&board, &mut output);
    assert_eq!(rows_of(&output), vec!["...", "...", "..."]);
}

#[test]
fn blinker_turns_and_returns() {
    let mut board = board_of(&["...", "xxx", "..."]);
    let mut output = Board::from_board(&board);
    update(&board, &mut output);
    assert_eq!(rows_of(&output), vec![".x.", ".x.", ".x."]);
    update(&output, &mut board);
    assert_eq!(rows_of(&board), vec!["...", "xxx", "..."]);
}

#[test]
fn block_is_still() {
    let board = board_of(&["....", ".xx.", ".xx.", "...."]);
    let mut output = Board::new(4, 4);
    update(&board, &mut output);
    assert_eq!(rows_of(&output), vec!["....", ".xx.", ".xx.", "...."]);
}

#[test]
fn corner_block_is_still_at_the_dead_border() {
    let board = board_of(&["xx.", "xx.", "..."]);
    let mut output = Board::new(3, 3);
    update(&board, &mut output);
    assert_eq!(rows_of(&output), vec!["xx.", "xx.", "..."]);
}

#[test]
fn full_board_keeps_only_its_corners() {
    let board = board_of(&["xxx", "xxx", "xxx"]);
    let mut output = Board::new(3, 3);
    update(&board, &mut output);
    assert_eq!(rows_of(&output), vec!["x.x", "...", "x.x"]);
}

#[test]
fn glider_moves_on_a_wide_board() {
    let board = board_of(&[".x...", "..x..", "xxx..", "....."]);
    let mut output = Board::new(5, 4);
    update(&board, &mut output);
    assert_eq!(rows_of(&output), vec![".....", "x.x..", ".xx..", ".x..."]);
}

#[test]
fn update_leaves_the_input_alone() {
    let board = board_of(&["...", "xxx", "..."]);
    let mut output = Board::new(3, 3);
    update(&board, &mut output);
    assert_eq!(rows_of(&board), vec!["...", "xxx", "..."]);
    assert_eq!(board.width(), 3);
    assert_eq!(board.height(), 3);
}

#[test]
fn update_overwrites_whatever_the_output_held() {
    let board = board_of(&["...", "xxx", "..."]);
    let mut clean = Board::new(3, 3);
    let mut stale = board_of(&["xxx", "x.x", "xxx"]);
    update(&board, &mut clean);
    update(&board, &mut stale);
    assert_eq!(rows_of(&clean), rows_of(&stale));
    assert_eq!(rows_of(&stale), vec![".x.", ".x.", ".x."]);
}

#[test]
fn update_keeps_the_output_size() {
    let board = board_of(&["x..x.", ".xx..", "x...x"]);
    let mut output = Board::new(5, 3);
    update(&board, &mut output);
    assert_eq!(output.width(), 5);
    assert_eq!(output.height(), 3);
}

#[test]
fn count_neighbours_counts_the_eight_around() {
    let board = board_of(&["xxx", "xxx", "xxx"]);
    assert_eq!(count_neighbours(&board, 1, 1), 8);
    assert_eq!(count_neighbours(&board, 0, 0), 3);
    assert_eq!(count_neighbours(&board, 1, 0), 5);
    assert_eq!(count_neighbours(&board, 2, 2), 3);
    assert_eq!(count_neighbours(&board, 0, 1), 5);
}

#[test]
fn count_neighbours_leaves_the_centre_out() {
    let lone = board_of(&["...", ".x.", "..."]);
    assert_eq!(count_neighbours(&lone, 1, 1), 0);
    assert_eq!(count_neighbours(&lone, 0, 0), 1);
    assert_eq!(count_neighbours(&lone, 2, 1), 1);
    let ring = board_of(&["xxx", "x.x", "xxx"]);
    assert_eq!(count_neighbours(&ring, 1, 1), 8);
}

#[test]
fn count_neighbours_off_the_board() {
    let board = board_of(&["xx", "xx"]);
    assert_eq!(count_neighbours(&board, -1, -1), 1);
    assert_eq!(count_neighbours(&board, 2, 0), 2);
    assert_eq!(count_neighbours(&board, 5, 5), 0);
    assert_eq!(count_neighbours(&board, isize::MAX - 1, isize::MIN + 1), 0);
}

#[test]
fn try_update_on_equal_sizes() {
    let board = board_of(&["...", "xxx", "..."]);
    let mut output = Board::new(3, 3);
    assert_eq!(try_update(&board, &mut output), Ok(()));
    assert_eq!(rows_of(&output), vec![".x.", ".x.", ".x."]);
}

#[test]
fn try_update_refuses_another_width() {
    let board = board_of(&["...", "xxx", "..."]);
    let mut output = board_of(&["x.x.", "....", ".x.x"]);
    assert_eq!(try_update(&board, &mut output), Err(SizeMismatch));
    assert_eq!(rows_of(&output), vec!["x.x.", "....", ".x.x"]);
}

#[test]
fn try_update_refuses_another_height() {
    let board = board_of(&["...", "xxx", "..."]);
    let mut output = board_of(&["x.x", "..."]);
    assert_eq!(try_update(&board, &mut output), Err(SizeMismatch));
    assert_eq!(rows_of(&output), vec!["x.x", "..."]);
}

#[test]
fn try_update_refuses_swapped_sides() {
    let board = board_of(&["..", "xx", ".."]);
    let mut output = board_of(&["x.x", ".x."]);
    assert!(try_update(&board, &mut output).is_err());
    assert_eq!(rows_of(&output), vec!["x.x", ".x."]);
}

#[test]
fn size_mismatch_message() {
    assert_eq!(SizeMismatch.message(), "Input and output board sizes are not the same!");
}
