use game_of_life::seed::{draw_flips, seed, seed_from, seed_with, SEED_DENOMINATOR, SEED_NUMERATOR};
use game_of_life::{Board, Cell};

fn living(board: &Board) -> usize {
    let mut count = 0;
    for y in 0..board.height() {
        for x in 0..board.width() {
            if board.at(x, y) == Cell::Alive {
                count += 1;
            }
        }
    }
    count
}

#[test]
fn seed_density_is_one_in_five() {
    assert_eq!(SEED_NUMERATOR, 1);
    assert_eq!(SEED_DENOMINATOR, 5);
}

#[test]
fn seed_from_follows_the_flips_row_by_row() {
    let mut board = Board::new(3, 2);
    board.set(0, 0, Cell::Alive);
    seed_from(&mut board, &vec![false, true, false, true, true, false]);
    assert_eq!(board.at(0, 0), Cell::Dead);
    assert_eq!(board.at(1, 0), Cell::Alive);
    assert_eq!(board.at(2, 0), Cell::Dead);
    assert_eq!(board.at(0, 1), Cell::Alive);
    assert_eq!(board.at(1, 1), Cell::Alive);
    assert_eq!(board.at(2, 1), Cell::Dead);
    assert_eq!(board.width(), 3);
    assert_eq!(board.height(), 2);
}

#[test]
fn seed_from_is_reproducible() {
    let flips = vec![true, false, false, true, false, true, true, false, false, true, false, false];
    let mut one = Board::new(4, 3);
    let mut two = Board::new(4, 3);
    two.set(3, 2, Cell::Alive);
    seed_from(&mut one, &flips);
    seed_from(&mut two, &flips);
    for y in 0..3 {
        for x in 0..4 {
            assert_eq!(one.at(x, y), two.at(x, y));
            assert_eq!(one.at(x, y) == Cell::Alive, flips[(y * 4 + x) as usize]);
        }
    }
}

#[test]
fn draw_flips_gives_the_count_asked_for() {
    assert_eq!(draw_flips(0, 1, 5).len(), 0);
    assert_eq!(draw_flips(1, 1, 5).len(), 1);
    assert_eq!(draw_flips(1600, 1, 5).len(), 1600);
}

#[test]
fn draw_flips_with_certain_outcomes() {
    assert_eq!(draw_flips(64, 0, 7), vec![false; 64]);
    assert_eq!(draw_flips(64, 7, 7), vec![true; 64]);
    assert_eq!(draw_flips(64, 1, 1), vec![true; 64]);
    assert_eq!(draw_flips(64, 0, 1), vec![false; 64]);
}

#[test]
fn seed_with_zero_chance_kills_every_cell() {
    let mut board = Board::new(5, 4);
    for y in 0..4 {
        for x in 0..5 {
            board.set(x, y, Cell::Alive);
        }
    }
    seed_with(&mut board, 0, 3);
    assert_eq!(living(&board), 0);
    assert_eq!(board.width(), 5);
    assert_eq!(board.height(), 4);
}

#[test]
fn seed_with_full_chance_fills_the_board() {
    let mut board = Board::new(5, 4);
    seed_with(&mut board, 3, 3);
    assert_eq!(living(&board), 20);
    assert_eq!(board.width(), 5);
    assert_eq!(board.height(), 4);
}

#[test]
fn seed_keeps_the_board_size() {
    let mut board = Board::new(40, 40);
    seed(&mut board);
    assert_eq!(board.width(), 40);
    assert_eq!(board.height(), 40);
    assert!(living(&board) <= 1600);
}

#[test]
fn seed_draws_both_kinds_of_cell() {
    // With 1600 independent cells at one in five, a board without a living
    // cell or without a dead one does not occur in practice.
    let mut board = Board::new(40, 40);
    seed(&mut board);
    let count = living(&board);
    assert!(count > 0);
    assert!(count < 1600);
}
