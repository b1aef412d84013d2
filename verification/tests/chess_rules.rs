use dchess::chess_game::{create_game, make_move, move_strings, ChessGame, ChessGameMove};

const START: &str = "rnbqkbnr/pppppppp/8/8/8/8/PPPPPPPP/RNBQKBNR w KQkq - 0 1";

fn players() -> Vec<String> {
    vec!["white-agent".to_string(), "black-agent".to_string()]
}

fn place(from: &str, to: &str) -> ChessGameMove {
    ChessGameMove::PlacePiece { from: from.to_string(), to: to.to_string() }
}

fn no_history() -> Vec<(String, ChessGameMove)> {
    Vec::new()
}

fn play(game: &mut ChessGame, moves: &[(&str, &str)]) {
    let players = players();
    for (index, (from, to)) in moves.iter().enumerate() {
        let author = players[index % 2].clone();
        game.apply_move(&place(from, to), index % 2, &author);
    }
}

#[test]
fn new_game_starts_in_the_standard_position() {
    let game = ChessGame::initial(&players());
    assert_eq!(game.white_address, "white-agent");
    assert_eq!(game.black_address, "black-agent");
    assert_eq!(game.to_position_string(), START);
    assert_eq!(game.get_winner(&no_history(), &players()), None);
}

#[test]
fn a_game_takes_exactly_two_players() {
    assert_eq!(ChessGame::min_players(), Some(2));
    assert_eq!(ChessGame::max_players(), Some(2));
}

#[test]
fn every_move_passes_validation() {
    let game = ChessGame::initial(&players());
    assert!(game.clone().is_valid(place("a1", "h8")).is_ok());
    assert!(game.is_valid(ChessGameMove::Resign).is_ok());
}

#[test]
fn a_legal_move_changes_the_position() {
    let mut game = ChessGame::initial(&players());
    game.apply_move(&place("e2", "e4"), 0, &"white-agent".to_string());
    let fen = game.to_position_string();
    assert!(fen.starts_with("rnbqkbnr/pppppppp/8/8/4P3/8/PPPP1PPP/RNBQKBNR b KQkq"), "{}", fen);
    assert_eq!(game.get_winner(&no_history(), &players()), None);
}

#[test]
fn an_illegal_move_leaves_the_game_as_it_was() {
    let mut game = ChessGame::initial(&players());
    game.apply_move(&place("e2", "e5"), 0, &"white-agent".to_string());
    assert_eq!(game.to_position_string(), START);
    game.apply_move(&place("e7", "e5"), 1, &"black-agent".to_string());
    assert_eq!(game.to_position_string(), START);
}

#[test]
fn squares_are_read_from_their_first_two_characters() {
    let mut game = ChessGame::initial(&players());
    game.apply_move(&place("e2xx", "e4!"), 0, &"white-agent".to_string());
    assert!(game.to_position_string().starts_with("rnbqkbnr/pppppppp/8/8/4P3/8/PPPP1PPP/RNBQKBNR b"));
}

#[test]
fn the_white_player_resigning_hands_the_game_to_black() {
    let mut game = ChessGame::initial(&players());
    game.apply_move(&ChessGameMove::Resign, 0, &"white-agent".to_string());
    assert_eq!(game.get_winner(&no_history(), &players()), Some("black-agent".to_string()));
    assert_eq!(game.to_position_string(), START);
}

#[test]
fn the_black_player_resigning_hands_the_game_to_white() {
    let mut game = ChessGame::initial(&players());
    game.apply_move(&ChessGameMove::Resign, 1, &"black-agent".to_string());
    assert_eq!(game.get_winner(&no_history(), &players()), Some("white-agent".to_string()));
}

#[test]
fn anyone_but_white_resigns_for_black() {
    let mut game = ChessGame::initial(&players());
    game.apply_move(&ChessGameMove::Resign, 5, &"stranger".to_string());
    assert_eq!(game.get_winner(&no_history(), &players()), Some("white-agent".to_string()));
}

#[test]
fn an_ended_game_stays_as_it_is() {
    let mut game = ChessGame::initial(&players());
    game.apply_move(&ChessGameMove::Resign, 0, &"white-agent".to_string());
    game.apply_move(&place("e2", "e4"), 0, &"white-agent".to_string());
    assert_eq!(game.to_position_string(), START);
    game.apply_move(&ChessGameMove::Resign, 1, &"black-agent".to_string());
    assert_eq!(game.get_winner(&no_history(), &players()), Some("black-agent".to_string()));
}

#[test]
fn fools_mate_is_won_by_black() {
    let mut game = ChessGame::initial(&players());
    play(&mut game, &[("f2", "f3"), ("e7", "e5"), ("g2", "g4"), ("d8", "h4")]);
    assert_eq!(game.get_winner(&no_history(), &players()), Some("black-agent".to_string()));
    game.apply_move(&place("a2", "a3"), 0, &"white-agent".to_string());
    assert!(game.to_position_string().starts_with("rnb1kbnr/pppp1ppp/8/4p3/6Pq/5P2/PPPPP2P/RNBQKBNR w"));
}

#[test]
fn scholars_mate_is_won_by_white() {
    let mut game = ChessGame::initial(&players());
    play(
        &mut game,
        &[("e2", "e4"), ("e7", "e5"), ("d1", "h5"), ("b8", "c6"), ("f1", "c4"), ("g8", "f6"), ("h5", "f7")],
    );
    assert_eq!(game.get_winner(&no_history(), &players()), Some("white-agent".to_string()));
}

#[test]
fn moves_read_as_text() {
    assert_eq!(place("e2", "e4").to_move_string(), "e2-e4");
    assert_eq!(ChessGameMove::Resign.to_move_string(), "resign");
    assert_eq!(place("", "").to_move_string(), "-");
}

#[test]
fn move_lists_read_as_text_in_order() {
    let moves = vec![place("d2", "d4"), ChessGameMove::Resign, place("g8", "f6")];
    assert_eq!(move_strings(&moves), vec!["d2-d4".to_string(), "resign".to_string(), "g8-f6".to_string()]);
    assert!(move_strings(&Vec::new()).is_empty());
}

#[test]
fn a_challenge_puts_the_rival_first() {
    let entry = create_game("rival".to_string(), "me".to_string(), 1234);
    assert_eq!(entry.players, vec!["rival".to_string(), "me".to_string()]);
    assert_eq!(entry.created_at, 1234);
}

#[test]
fn a_move_is_submitted_to_its_game() {
    let submission = make_move("game-hash".to_string(), "b1".to_string(), "c3".to_string());
    assert_eq!(submission.game_address, "game-hash");
    match submission.game_move {
        ChessGameMove::PlacePiece { from, to } => {
            assert_eq!(from, "b1");
            assert_eq!(to, "c3");
        }
        ChessGameMove::Resign => panic!("expected a placement"),
    }
}

#[test]
fn readable_moves_name_two_squares() {
    assert!(place("e2", "e4").is_readable());
    assert!(place("h8x", "a1").is_readable());
    assert!(!place("e9", "e4").is_readable());
    assert!(!place("e2", "i4").is_readable());
    assert!(!place("e", "e4").is_readable());
    assert!(!place("", "").is_readable());
    assert!(ChessGameMove::Resign.is_readable());
}

#[test]
fn the_winner_position_follows_the_outcome() {
    let mut game = ChessGame::initial(&players());
    assert_eq!(game.winner_position(), None);
    game.apply_move(&ChessGameMove::Resign, 1, &"black-agent".to_string());
    assert_eq!(game.winner_position(), Some(0));
    let mut game = ChessGame::initial(&players());
    game.apply_move(&ChessGameMove::Resign, 0, &"white-agent".to_string());
    assert_eq!(game.winner_position(), Some(1));
}

#[test]
fn a_stalemate_has_no_winner() {
    let mut game = ChessGame::initial(&players());
    play(
        &mut game,
        &[
            ("e2", "e3"), ("a7", "a5"), ("d1", "h5"), ("a8", "a6"), ("h5", "a5"), ("h7", "h5"),
            ("h2", "h4"), ("a6", "h6"), ("a5", "c7"), ("f7", "f6"), ("c7", "d7"), ("e8", "f7"),
            ("d7", "b7"), ("d8", "d3"), ("b7", "b8"), ("d3", "h7"), ("b8", "c8"), ("f7", "g6"),
            ("c8", "e6"),
        ],
    );
    let fen = game.to_position_string();
    assert_eq!(fen, "5bnr/4p1pq/4Qpkr/7p/7P/4P3/PPPP1PP1/RNB1KBNR b KQ - 0 1");
    assert_eq!(game.winner_position(), None);
    assert_eq!(game.get_winner(&no_history(), &players()), None);
    game.apply_move(&place("g6", "g5"), 1, &"black-agent".to_string());
    game.apply_move(&ChessGameMove::Resign, 1, &"black-agent".to_string());
    assert_eq!(game.to_position_string(), fen);
    assert_eq!(game.get_winner(&no_history(), &players()), None);
}
