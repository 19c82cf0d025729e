use tictactoe::{Board, Delivery, Event, Game, GameState, Piece, Request, Response};

fn invalid(why: &str) -> Response {
    Response::Invalid(why.to_string())
}

fn valid(piece: Piece, idx: (usize, usize), state: GameState) -> Response {
    Response::Valid { piece, idx, state }
}

fn play(game: &mut Game<u32>, piece: Piece, idx: (usize, usize)) -> Vec<Delivery> {
    let reaction = game.on_event(piece, Event::Request(Request::Play { idx }));
    assert!(!reaction.done);
    reaction.deliveries
}

fn to(to: Piece, response: Response) -> Delivery {
    Delivery { to, response }
}

fn seated_pair() -> Game<u32> {
    let mut game: Game<u32> = Game::new();
    assert_eq!(game.assign_piece(10), Some(Piece::X));
    assert_eq!(game.assign_piece(20), Some(Piece::O));
    game
}

#[test]
fn seats_go_x_then_o_then_none() {
    let mut game: Game<u32> = Game::default();
    assert_eq!(game.count(), 0);
    assert_eq!(game.assign_piece(1), Some(Piece::X));
    assert_eq!(game.assign_piece(2), Some(Piece::O));
    assert_eq!(game.assign_piece(3), None);
    assert_eq!(game.count(), 2);
    assert_eq!(game.player(Piece::X), Some(&1));
    assert_eq!(game.player(Piece::O), Some(&2));
}

#[test]
fn join_sequence_of_a_fresh_session() {
    let mut game: Game<u32> = Game::new();
    let x = game.assign_piece(1).unwrap();
    assert_eq!(x, Piece::X);
    assert_eq!(
        game.on_join(x),
        vec![to(Piece::X, Response::Init { board: Board::new(), piece: Piece::X })]
    );
    let o = game.assign_piece(2).unwrap();
    assert_eq!(o, Piece::O);
    assert_eq!(
        game.on_join(o),
        vec![
            to(Piece::X, Response::Connect),
            to(Piece::O, Response::Init { board: Board::new(), piece: Piece::O }),
        ]
    );
}

#[test]
fn occupied_cell_is_refused_and_board_kept() {
    let mut game = seated_pair();
    assert_eq!(
        play(&mut game, Piece::X, (0, 0)),
        vec![
            to(Piece::X, valid(Piece::X, (0, 0), GameState::Playing)),
            to(Piece::O, valid(Piece::X, (0, 0), GameState::Playing)),
        ]
    );
    let before = *game.board();
    assert_eq!(
        play(&mut game, Piece::O, (0, 0)),
        vec![to(Piece::O, invalid("Cell already occupied"))]
    );
    assert_eq!(*game.board(), before);
    assert_eq!(game.turn(), Piece::O);
}

#[test]
fn out_of_turn_is_refused_and_board_kept() {
    let mut game = seated_pair();
    assert_eq!(play(&mut game, Piece::O, (1, 1)), vec![to(Piece::O, invalid("Not your turn"))]);
    assert_eq!(*game.board(), Board::new());
    assert_eq!(game.turn(), Piece::X);
}

#[test]
fn top_row_wins_and_next_round_opens_with_o() {
    let mut game = seated_pair();
    assert_eq!(game.started(), Piece::X);
    play(&mut game, Piece::X, (0, 0));
    play(&mut game, Piece::O, (1, 0));
    play(&mut game, Piece::X, (0, 1));
    play(&mut game, Piece::O, (1, 1));
    assert_eq!(Board::parse("x x - o o - - - -").classify(), GameState::Playing);
    let last = play(&mut game, Piece::X, (0, 2));
    assert_eq!(
        last,
        vec![
            to(Piece::X, valid(Piece::X, (0, 2), GameState::Win(Piece::X))),
            to(Piece::O, valid(Piece::X, (0, 2), GameState::Win(Piece::X))),
        ]
    );
    assert_eq!(Board::parse("x x x o o - - - -").classify(), GameState::Win(Piece::X));
    assert_eq!(*game.board(), Board::new());
    assert_eq!(game.started(), Piece::O);
    assert_eq!(game.turn(), Piece::O);
    assert_eq!(play(&mut game, Piece::X, (2, 2)), vec![to(Piece::X, invalid("Not your turn"))]);
}

#[test]
fn openers_alternate_over_three_rounds() {
    let mut game = seated_pair();
    let rounds: [(Piece, [(usize, usize); 5]); 3] = [
        (Piece::X, [(0, 0), (1, 0), (0, 1), (1, 1), (0, 2)]),
        (Piece::O, [(0, 0), (1, 0), (0, 1), (1, 1), (0, 2)]),
        (Piece::X, [(2, 0), (1, 0), (2, 1), (1, 1), (2, 2)]),
    ];
    for (opener, moves) in rounds.iter() {
        assert_eq!(game.started(), *opener);
        assert_eq!(game.turn(), *opener);
        let mut who = *opener;
        for m in moves.iter() {
            let d = play(&mut game, who, *m);
            assert!(matches!(d[0].response, Response::Valid { .. }));
            who = who.other();
        }
        assert_eq!(*game.board(), Board::new());
        assert_eq!(game.started(), opener.other());
    }
}

#[test]
fn draw_clears_board_and_alternates_opener() {
    let mut game = seated_pair();
    let moves = [(0, 0), (0, 1), (0, 2), (1, 1), (1, 0), (1, 2), (2, 1), (2, 0), (2, 2)];
    let mut who = Piece::X;
    let mut last = Vec::new();
    for m in moves.iter() {
        last = play(&mut game, who, *m);
        who = who.other();
    }
    assert_eq!(last[0].response, valid(Piece::X, (2, 2), GameState::Stalemate));
    assert_eq!(*game.board(), Board::new());
    assert_eq!(game.started(), Piece::O);
}

#[test]
fn race_on_one_cell_accepts_exactly_one() {
    let mut game = seated_pair();
    let first = play(&mut game, Piece::O, (2, 2));
    let second = play(&mut game, Piece::X, (2, 2));
    assert_eq!(first, vec![to(Piece::O, invalid("Not your turn"))]);
    assert!(matches!(second[0].response, Response::Valid { .. }));

    let mut game = seated_pair();
    let first = play(&mut game, Piece::X, (2, 2));
    let second = play(&mut game, Piece::O, (2, 2));
    assert!(matches!(first[0].response, Response::Valid { .. }));
    assert_eq!(second, vec![to(Piece::O, invalid("Cell already occupied"))]);
}

#[test]
fn off_grid_and_garbled_requests_are_refused_to_sender() {
    let mut game = seated_pair();
    assert_eq!(play(&mut game, Piece::X, (3, 0)), vec![to(Piece::X, invalid("Cell out of range"))]);
    assert_eq!(play(&mut game, Piece::X, (0, 7)), vec![to(Piece::X, invalid("Cell out of range"))]);
    let r = game.on_event(Piece::O, Event::Garbled);
    assert!(!r.done);
    assert_eq!(r.deliveries, vec![to(Piece::O, invalid("Malformed request"))]);
    assert_eq!(*game.board(), Board::new());
    assert_eq!(game.turn(), Piece::X);
}

#[test]
fn both_leave_and_a_new_pair_is_seated_afresh() {
    let mut game = seated_pair();
    play(&mut game, Piece::X, (1, 1));
    let r = game.on_event(Piece::X, Event::Lost);
    assert!(r.done);
    assert_eq!(r.deliveries, vec![to(Piece::O, Response::Disconnect)]);
    let r = game.on_event(Piece::O, Event::Request(Request::Disconnect));
    assert!(r.done);
    assert_eq!(r.deliveries, vec![]);
    assert_eq!(game.count(), 0);
    assert_eq!(game.assign_piece(30), Some(Piece::X));
    assert_eq!(game.assign_piece(40), Some(Piece::O));
    assert_eq!(game.player(Piece::X), Some(&30));
    assert_eq!(game.player(Piece::O), Some(&40));
}

#[test]
fn disconnect_of_a_free_seat_changes_nothing() {
    let mut game: Game<u32> = Game::new();
    game.disconnect(Piece::O);
    assert_eq!(game.count(), 0);
    assert_eq!(game.assign_piece(5), Some(Piece::X));
    game.disconnect(Piece::O);
    assert!(game.is_seated(Piece::X));
    assert!(!game.is_seated(Piece::O));
}

#[test]
fn a_lone_player_still_gets_its_own_placements() {
    let mut game: Game<u32> = Game::new();
    game.assign_piece(1);
    assert_eq!(
        play(&mut game, Piece::X, (0, 0)),
        vec![to(Piece::X, valid(Piece::X, (0, 0), GameState::Playing))]
    );
}

#[test]
fn describe_gives_the_short_lines() {
    assert_eq!(valid(Piece::X, (0, 0), GameState::Playing).describe(), "Valid move");
    assert_eq!(invalid("Not your turn").describe(), "Invalid move: Not your turn");
    assert_eq!(Response::Init { board: Board::new(), piece: Piece::O }.describe(), "Init");
    assert_eq!(Response::Connect.describe(), "The other player connected");
    assert_eq!(Response::Disconnect.describe(), "The other player disconnected");
}

#[test]
fn play_refuses_off_grid_and_checks_turn_first() {
    let mut game = seated_pair();
    assert_eq!(game.play(Piece::O, (5, 5)), invalid("Not your turn"));
    assert_eq!(game.play(Piece::X, (0, 3)), invalid("Cell out of range"));
    assert_eq!(game.play(Piece::X, (3, 0)), invalid("Cell out of range"));
    assert_eq!(*game.board(), Board::new());
    assert_eq!(game.turn(), Piece::X);
    assert_eq!(game.play(Piece::X, (1, 0)), valid(Piece::X, (1, 0), GameState::Playing));
}
