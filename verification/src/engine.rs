//! The chess engine that games run on, seen through plain values.
//!
//! A `chess::Game` is a starting position plus the log of actions taken on it.
//! Verus cannot look inside it, so its contents are named here as a sequence of
//! [`GameAction`]s together with the starting position's FEN text, and every
//! engine method the library calls is a trusted wrapper whose contract is
//! stated over those names.

use vstd::prelude::*;
use chess::{ChessMove, Color, Game, GameResult, Square, ALL_SQUARES};

verus! {

/// One of the two sides of a chess game.
#[derive(Clone, Copy, Debug, PartialEq, Eq, Structural)]
pub enum Side {
    White,
    Black,
}

/// A kind of chess piece, as a promotion target.
#[derive(Clone, Copy, Debug, PartialEq, Eq, Structural)]
pub enum PieceKind {
    Pawn,
    Knight,
    Bishop,
    Rook,
    Queen,
    King,
}

/// One entry of a game's action log. Squares are numbered `rank * 8 + file`,
/// from 0 for a1 to 63 for h8.
#[derive(Clone, Copy, Debug, PartialEq, Eq, Structural)]
pub enum GameAction {
    MakeMove { from: u8, to: u8, promotion: Option<PieceKind> },
    OfferDraw(Side),
    AcceptDraw,
    DeclareDraw,
    Resign(Side),
}

/// How a finished game ended.
#[derive(Clone, Copy, Debug, PartialEq, Eq, Structural)]
pub enum GameOutcome {
    WhiteCheckmates,
    WhiteResigns,
    BlackCheckmates,
    BlackResigns,
    Stalemate,
    DrawAccepted,
    DrawDeclared,
}

/// The external engine game type; Verus treats it as opaque.
#[verifier::external_type_specification]
#[verifier::external_body]
pub struct ExGame(Game);

/// The action log that a `chess::Game` holds, each action mapped to a plain value.
pub uninterp spec fn game_actions(game: Game) -> Seq<GameAction>;

/// The FEN text, as the engine's `Board` display writes it, of the position the
/// game started from.
pub uninterp spec fn game_start(game: Game) -> Seq<char>;

/// What `Game::result` answers for a game with this start and action log.
pub uninterp spec fn game_outcome(start: Seq<char>, actions: Seq<GameAction>) -> Option<GameOutcome>;

/// The FEN text of `Game::current_position` for a game with this start and action log.
pub uninterp spec fn game_position(start: Seq<char>, actions: Seq<GameAction>) -> Seq<char>;

/// Whether the engine's board, in the current position of a game with this start
/// and action log, calls the plain move `from`-`to` (no promotion) legal.
pub uninterp spec fn move_is_legal(start: Seq<char>, actions: Seq<GameAction>, from: u8, to: u8) -> bool;

/// The standard starting position, in FEN.
pub open spec fn standard_start() -> Seq<char> {
    "rnbqkbnr/pppppppp/8/8/8/8/PPPPPPPP/RNBQKBNR w KQkq - 0 1"@
}

/// The outcome that a resignation by `side` gives.
pub open spec fn resignation_outcome(side: Side) -> GameOutcome {
    match side {
        Side::White => GameOutcome::WhiteResigns,
        Side::Black => GameOutcome::BlackResigns,
    }
}

/// The outcome of a game as it stands.
pub open spec fn current_outcome(game: Game) -> Option<GameOutcome> {
    game_outcome(game_start(game), game_actions(game))
}

/// The square that a coordinate string such as `"e4"` names, as the engine
/// reads it: the first character is the file `a`..`h`, the second the rank
/// `1`..`8`, and anything after them is ignored.
pub open spec fn square_of(text: Seq<char>) -> Option<u8> {
    if text.len() >= 2 && 'a' <= text[0] && text[0] <= 'h' && '1' <= text[1] && text[1] <= '8' {
        Some(((text[1] as int - '1' as int) * 8 + (text[0] as int - 'a' as int)) as u8)
    } else {
        None
    }
}

/// `chess::Game`'s derived `clone`: the copy has the same start and the same
/// action log.
pub assume_specification [<Game as Clone>::clone](game: &Game) -> (copy: Game)
    ensures
        game_start(copy) == game_start(*game),
        game_actions(copy) == game_actions(*game),
;

/// Calls `chess::Game::new`: an empty action log on the standard starting
/// position, which is then the current position and has no result yet (the
/// engine documents all three).
#[verifier::external_body]
pub(crate) fn new_game() -> (game: Game)
    ensures
        game_actions(game) == Seq::<GameAction>::empty(),
        game_start(game) == standard_start(),
        game_position(game_start(game), game_actions(game)) == standard_start(),
        game_outcome(game_start(game), game_actions(game)) is None,
{
    Game::new()
}

/// Calls `chess::Game::result`, naming its answer.
#[verifier::external_body]
pub(crate) fn game_result(game: &Game) -> (outcome: Option<GameOutcome>)
    ensures
        outcome == game_outcome(game_start(*game), game_actions(*game)),
{
    match game.result() {
        None => None,
        Some(GameResult::WhiteCheckmates) => Some(GameOutcome::WhiteCheckmates),
        Some(GameResult::WhiteResigns) => Some(GameOutcome::WhiteResigns),
        Some(GameResult::BlackCheckmates) => Some(GameOutcome::BlackCheckmates),
        Some(GameResult::BlackResigns) => Some(GameOutcome::BlackResigns),
        Some(GameResult::Stalemate) => Some(GameOutcome::Stalemate),
        Some(GameResult::DrawAccepted) => Some(GameOutcome::DrawAccepted),
        Some(GameResult::DrawDeclared) => Some(GameOutcome::DrawDeclared),
    }
}

/// Calls `chess::Game::current_position` and writes the board as FEN text.
#[verifier::external_body]
pub(crate) fn game_position_text(game: &Game) -> (fen: String)
    ensures
        fen@ == game_position(game_start(*game), game_actions(*game)),
{
    format!("{}", game.current_position())
}

/// Calls `chess::Game::make_move` with the plain move `from`-`to`. As the
/// engine's source shows, the move is logged exactly when the game has no
/// result yet and the move is legal in the current position; otherwise the
/// game is left as it was.
#[verifier::external_body]
pub(crate) fn game_make_move(game: &mut Game, from: u8, to: u8) -> (accepted: bool)
    requires
        from < 64,
        to < 64,
    ensures
        game_start(*final(game)) == game_start(*old(game)),
        accepted == (current_outcome(*old(game)) is None
            && move_is_legal(game_start(*old(game)), game_actions(*old(game)), from, to)),
        accepted ==> game_actions(*final(game)) == game_actions(*old(game)).push(
            GameAction::MakeMove { from, to, promotion: None },
        ),
        !accepted ==> *final(game) == *old(game),
{
    game.make_move(ChessMove::new(ALL_SQUARES[from as usize], ALL_SQUARES[to as usize], None))
}

/// Calls `chess::Game::resign`. As the engine's source shows, a game without a
/// result logs the resignation, keeps its position, and from then on has the
/// resignation as its result; a finished game is left as it was.
#[verifier::external_body]
pub(crate) fn game_resign(game: &mut Game, side: Side) -> (resigned: bool)
    ensures
        game_start(*final(game)) == game_start(*old(game)),
        resigned == (current_outcome(*old(game)) is None),
        resigned ==> game_actions(*final(game)) == game_actions(*old(game)).push(GameAction::Resign(side)),
        resigned ==> current_outcome(*final(game)) == Some(resignation_outcome(side)),
        resigned ==> game_position(game_start(*final(game)), game_actions(*final(game)))
            == game_position(game_start(*old(game)), game_actions(*old(game))),
        !resigned ==> *final(game) == *old(game),
{
    match side {
        Side::White => game.resign(Color::White),
        Side::Black => game.resign(Color::Black),
    }
}

/// Calls `chess::Square::from_string` and numbers the square it reads.
#[verifier::external_body]
#[allow(deprecated)]
pub(crate) fn parse_square(text: &String) -> (square: Option<u8>)
    ensures
        square == square_of(text@),
{
    match Square::from_string(text.clone()) {
        Some(sq) => Some(sq.to_index() as u8),
        None => None,
    }
}

} // verus!
