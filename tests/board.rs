use std::str::FromStr;
use tictactoe::{cell_mark, print_str, tint, Board, GameState, Piece, Tint};

#[test]
fn from_str() {
    assert!(Board::from_str("x o o - - - o o x").is_ok());
    assert!(Board::from_str("o - o - o - o - o").is_ok());

    let board = Board::from_str("1 2 3 4 5 6 7 8").unwrap();
    assert!(board.0.iter().all(|p| p.is_none()));

    let board = Board::from_str("1 2 3 4 5 6 7 8 9 10").unwrap();
    assert!(board.0.iter().all(|p| p.is_none()));

    let board = Board::from_str("o o o o o o o o o o").unwrap();
    assert!(board.0.iter().all(|p| p.is_some()));
}

#[test]
fn end() {
    let board = Board::from_str("x x x  - - -  x x x").unwrap();
    assert_eq!(GameState::Win(Piece::X), board.check_end(Piece::X));

    let board = Board::from_str("- - -  x x x  - - -").unwrap();
    assert_eq!(GameState::Win(Piece::X), board.check_end(Piece::X));

    let board = Board::from_str("- - -  - - -  x x x").unwrap();
    assert_eq!(GameState::Win(Piece::X), board.check_end(Piece::X));

    let board = Board::from_str("x - -  - x -  - - x").unwrap();
    assert_eq!(GameState::Win(Piece::X), board.check_end(Piece::X));

    let board = Board::from_str("- - x  - x -  x - -").unwrap();
    assert_eq!(GameState::Win(Piece::X), board.check_end(Piece::X));

    let board = Board::from_str("- - -  - - -  - - -").unwrap();
    assert_eq!(GameState::Playing, board.check_end(Piece::X));

    let board = Board::from_str("o x o  o x o  x o x").unwrap();
    assert_eq!(GameState::Stalemate, board.check_end(Piece::X));
}

#[test]
fn parse_reads_cells_row_by_row() {
    let board = Board::parse("x o -\tX\nO  q o x x");
    assert_eq!(
        board.data(),
        &[
            Some(Piece::X),
            Some(Piece::O),
            None,
            Some(Piece::X),
            Some(Piece::O),
            None,
            Some(Piece::O),
            Some(Piece::X),
            Some(Piece::X),
        ][..]
    );
}

#[test]
fn parse_handles_unicode_spaces_and_long_words() {
    let board = Board::parse("\u{3000}x\u{00a0}xo o\u{2003}");
    assert_eq!(board.get((0, 0)), Some(Piece::X));
    assert_eq!(board.get((0, 1)), None);
    assert_eq!(board.get((0, 2)), Some(Piece::O));
    assert!(board.data()[3..].iter().all(|c| c.is_none()));
}

#[test]
fn parse_of_empty_text_is_empty_board() {
    assert_eq!(Board::parse(""), Board::new());
    assert_eq!(Board::parse("   \n "), Board::new());
}

#[test]
fn piece_parse_and_other() {
    assert_eq!(Piece::from_str("x"), Ok(Piece::X));
    assert_eq!(Piece::from_str("O"), Ok(Piece::O));
    assert_eq!(Piece::from_str("xx"), Err("Invalid Piece representation"));
    assert_eq!(Piece::from_str(""), Err("Invalid Piece representation"));
    assert_eq!(Piece::X.other(), Piece::O);
    assert_eq!(Piece::O.other(), Piece::X);
    let mut p = Piece::default();
    assert_eq!(p, Piece::X);
    p.next();
    assert_eq!(p, Piece::O);
    p.next();
    assert_eq!(p, Piece::X);
    assert_eq!(Piece::O.symbol(), "O");
}

#[test]
fn is_full_and_is_end() {
    assert!(!Board::new().is_full());
    assert!(Board::parse("x o x x o o o x x").is_full());
    assert!(!Board::parse("x o x x o o o x -").is_full());
    assert!(GameState::Win(Piece::O).is_end());
    assert!(GameState::Stalemate.is_end());
    assert!(!GameState::Playing.is_end());
}

#[test]
fn classify_credits_the_owner_of_the_line() {
    assert_eq!(Board::parse("o o o x x - - - -").classify(), GameState::Win(Piece::O));
    assert_eq!(Board::parse("x o - x o - - o x").classify(), GameState::Win(Piece::O));
    assert_eq!(Board::parse("x o - o x - - - x").classify(), GameState::Win(Piece::X));
    assert_eq!(Board::parse("- - o x o x o x -").classify(), GameState::Win(Piece::O));
    assert_eq!(Board::parse("o x o o x o x o x").classify(), GameState::Stalemate);
    assert_eq!(Board::parse("x o - - - - - - -").classify(), GameState::Playing);
    assert_eq!(Board::parse("o o o x x - - - -").check_end(Piece::X), GameState::Win(Piece::O));
}

#[test]
fn check_end_credits_the_owner_whatever_role_is_passed() {
    let board = Board::parse("x x x o o - - - -");
    assert_eq!(board.check_end(Piece::O), GameState::Win(Piece::X));
    assert_eq!(board.check_end(Piece::X), GameState::Win(Piece::X));
    assert_eq!(Board::parse("o x o o x o x o x").check_end(Piece::O), GameState::Stalemate);
}

#[test]
fn full_board_with_a_line_is_a_win() {
    assert_eq!(Board::parse("x x x o o x o x o").classify(), GameState::Win(Piece::X));
    assert_eq!(Board::parse("x x x o o x o x o").check_end(Piece::X), GameState::Win(Piece::X));
}

#[test]
fn set_get_clear() {
    let mut board = Board::new();
    board.set((2, 1), Some(Piece::O));
    assert_eq!(board.get((2, 1)), Some(Piece::O));
    assert_eq!(board.data()[7], Some(Piece::O));
    board.clear();
    assert_eq!(board, Board::default());
}

#[test]
fn render_draws_the_grid() {
    let board = Board::parse("x x x o o o - - -");
    assert_eq!(
        board.render(),
        " X | X | X \n - + - + - \n O | O | O \n - + - + - \n   |   |   \n"
    );
}

#[test]
fn print_str_puts_message_beside_middle_row() {
    let board = Board::parse("x - -  - o -  - - x");
    assert_eq!(
        print_str(&board, "Tie!"),
        " X |   |   \n - + - + - \n   | O |      Tie!\n - + - + - \n   |   | X \n"
    );
}

#[test]
fn cell_marks_for_the_terminal() {
    let board = Board::parse("x o -  - - -  - - -");
    assert_eq!(cell_mark(&board, (0, 0), (1, 1)), ("X", Tint::Red));
    assert_eq!(cell_mark(&board, (0, 1), (1, 1)), ("O", Tint::Blue));
    assert_eq!(cell_mark(&board, (0, 2), (1, 1)), (" ", Tint::Yellow));
    assert_eq!(cell_mark(&board, (1, 1), (1, 1)), ("_", Tint::White));
    assert_eq!(cell_mark(&board, (0, 1), (0, 1)), ("O", Tint::White));
    assert_eq!(tint(Piece::X), Tint::Red);
}
