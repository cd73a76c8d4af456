use baghchal::game::BaghChal;
use baghchal::input::read_numbers;
use baghchal::piece::{Cell, MoveError, Side};

#[test]
fn numbers_are_read_in_order() {
    assert_eq!(read_numbers(b"0 0 0 1"), Some(vec![0, 0, 0, 1]));
    assert_eq!(read_numbers(b"4 3 2 1\n"), Some(vec![4, 3, 2, 1]));
    assert_eq!(read_numbers(b"12 345 6789"), Some(vec![12, 345, 6789]));
    assert_eq!(read_numbers(b"7"), Some(vec![7]));
}

#[test]
fn white_space_around_and_between_numbers_is_skipped() {
    assert_eq!(read_numbers(b"  1\t2 \r\n"), Some(vec![1, 2]));
    assert_eq!(read_numbers(b"\x0b3\x0c4"), Some(vec![3, 4]));
    assert_eq!(read_numbers(b"1    2"), Some(vec![1, 2]));
}

#[test]
fn empty_and_blank_lines_hold_no_number() {
    assert_eq!(read_numbers(b""), Some(vec![]));
    assert_eq!(read_numbers(b" \t\n"), Some(vec![]));
}

#[test]
fn leading_zeros_and_plus_signs_are_accepted() {
    assert_eq!(read_numbers(b"007 +3 +0 000"), Some(vec![7, 3, 0, 0]));
}

#[test]
fn words_that_are_no_numbers_spoil_the_line() {
    assert_eq!(read_numbers(b"a b c d"), None);
    assert_eq!(read_numbers(b"1 2 3 x"), None);
    assert_eq!(read_numbers(b"1 2 3 4x"), None);
    assert_eq!(read_numbers(b"-1 0 0 0"), None);
    assert_eq!(read_numbers(b"1.5"), None);
    assert_eq!(read_numbers(b"1,2,3,4"), None);
    assert_eq!(read_numbers(b"+"), None);
    assert_eq!(read_numbers(b"+ 1"), None);
    assert_eq!(read_numbers(b"++1"), None);
    assert_eq!(read_numbers(b"1+"), None);
    assert_eq!(read_numbers(b"1+2"), None);
    assert_eq!(read_numbers(b"x 1"), None);
    assert_eq!(read_numbers("1 \u{e9}".as_bytes()), None);
    assert_eq!(read_numbers(b"1\x002"), None);
}

#[test]
fn numbers_up_to_the_largest_are_read() {
    let largest = format!("{}", usize::MAX);
    assert_eq!(read_numbers(largest.as_bytes()), Some(vec![usize::MAX]));
    let padded = format!("000{} 1", usize::MAX);
    assert_eq!(read_numbers(padded.as_bytes()), Some(vec![usize::MAX, 1]));
}

#[test]
fn numbers_beyond_the_largest_spoil_the_line() {
    let beyond = format!("{}", usize::MAX as u128 + 1);
    assert_eq!(read_numbers(beyond.as_bytes()), None);
    let longer = format!("{}0", usize::MAX);
    assert_eq!(read_numbers(longer.as_bytes()), None);
    assert_eq!(read_numbers(b"1 99999999999999999999999999999999999999999 2"), None);
}

#[test]
fn a_legal_line_is_played() {
    let mut game = BaghChal::new();
    game.init_board();
    assert_eq!(game.make_move(b"0 0 0 1\n"), Ok(false));
    assert_eq!(game.turn, Side::Goat);
    assert_eq!(game.board[0][0], Cell::Empty);
    assert_eq!(game.board[0][1], Cell::Tiger);
    assert_eq!(game.killed_goats, 0);
    assert_eq!(game.total_remaining_goats, 20);
}

#[test]
fn a_line_that_ends_the_game_says_so() {
    let mut game = BaghChal::new();
    game.init_board();
    game.board[2][2] = Cell::Goat;
    game.turn = Side::Goat;
    game.total_remaining_goats = 1;
    assert_eq!(game.make_move(b" 2 2 2 3 "), Ok(true));
    assert_eq!(game.board[2][3], Cell::Goat);
    assert_eq!(game.total_remaining_goats, 0);
}

#[test]
fn malformed_lines_are_turned_down() {
    let mut game = BaghChal::new();
    game.init_board();
    let before = game;
    assert_eq!(game.make_move(b""), Err(MoveError::MalformedInput));
    assert_eq!(game.make_move(b"\n"), Err(MoveError::MalformedInput));
    assert_eq!(game.make_move(b"0 0 0\n"), Err(MoveError::MalformedInput));
    assert_eq!(game.make_move(b"0 0 0 1 2\n"), Err(MoveError::MalformedInput));
    assert_eq!(game.make_move(b"0 0 0 one\n"), Err(MoveError::MalformedInput));
    assert_eq!(game.make_move(b"0 0 0 -1\n"), Err(MoveError::MalformedInput));
    assert_eq!(game.make_move(b"0 0 0 5\n"), Err(MoveError::MalformedInput));
    assert_eq!(game.make_move(b"5 0 4 0\n"), Err(MoveError::MalformedInput));
    assert_eq!(game, before);
}

#[test]
fn illegal_lines_are_turned_down_with_their_reason() {
    let mut game = BaghChal::new();
    game.init_board();
    let before = game;
    assert_eq!(game.make_move(b"1 1 1 2\n"), Err(MoveError::IllegalSource));
    assert_eq!(game.make_move(b"0 0 1 1\n"), Err(MoveError::IllegalDestination));
    assert_eq!(game.make_move(b"0 0 4 4\n"), Err(MoveError::IllegalDestination));
    assert_eq!(game, before);
    assert_eq!(game.turn, Side::Tiger);
}

#[test]
fn tigers_move_and_goats_cannot_answer_from_the_start() {
    let mut game = BaghChal::new();
    game.init_board();
    assert_eq!(game.make_move(b"4 4 3 4"), Ok(false));
    for r in 0..5 {
        for c in 0..5 {
            let line = format!("{} {} {} {}", r, c, r, (c + 1) % 5);
            assert_eq!(game.make_move(line.as_bytes()), Err(MoveError::IllegalSource));
        }
    }
    assert_eq!(game.turn, Side::Goat);
    assert_eq!(game.count(Cell::Tiger), 4);
}
