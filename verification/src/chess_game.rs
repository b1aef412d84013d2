//! The chess game of the address-based zome: a game between two agents,
//! played on the chess engine, with moves given as coordinate pairs.

use vstd::prelude::*;
use chess::Game;
use crate::engine::{
    GameAction, GameOutcome, Side, current_outcome, game_actions, game_make_move, game_position,
    game_position_text, game_resign, game_result, game_start, move_is_legal, new_game, parse_square,
    resignation_outcome, square_of, standard_start,
};
use crate::host::{Address, GameEntry, MoveSubmission};

verus! {

/// A game between the agent playing white and the agent playing black.
#[derive(Clone, Debug)]
pub struct ChessGame {
    pub white_address: Address,
    pub black_address: Address,
    pub game: Game,
}

/// A move of the game: a piece from one square to another (in coordinates
/// such as "e2" and "e4"), or resigning.
#[derive(Clone, Debug)]
pub enum ChessGameMove {
    PlacePiece { from: String, to: String },
    Resign,
}

/// The text of a move: "from-to" for a placement, "resign" for resigning.
pub open spec fn move_text(game_move: ChessGameMove) -> Seq<char> {
    match game_move {
        ChessGameMove::PlacePiece { from, to } => from@ + "-"@ + to@,
        ChessGameMove::Resign => "resign"@,
    }
}

/// The engine can read both squares of `game_move` (a resignation has none).
pub open spec fn move_is_readable(game_move: ChessGameMove) -> bool {
    match game_move {
        ChessGameMove::PlacePiece { from, to } => square_of(from@) is Some && square_of(to@) is Some,
        ChessGameMove::Resign => true,
    }
}

/// The side that an author resigns for: white if the author is the white
/// player, black otherwise.
pub open spec fn resigning_side(game: ChessGame, author: Address) -> Side {
    if author@ == game.white_address@ {
        Side::White
    } else {
        Side::Black
    }
}

/// What applying `game_move`, made by `author`, does to the game: a
/// placement is logged when the game is still open and the engine calls it
/// legal; a resignation is logged, and ends the game, when the game is still
/// open; in every other case the game stays as it was. The players never change.
pub open spec fn move_applied(before: ChessGame, game_move: ChessGameMove, author: Address, after: ChessGame) -> bool {
    let start = game_start(before.game);
    let actions = game_actions(before.game);
    &&& after.white_address == before.white_address
    &&& after.black_address == before.black_address
    &&& game_start(after.game) == start
    &&& match game_move {
        ChessGameMove::PlacePiece { from, to } => {
            let from_square = square_of(from@)->0;
            let to_square = square_of(to@)->0;
            if current_outcome(before.game) is None && move_is_legal(start, actions, from_square, to_square) {
                game_actions(after.game) == actions.push(
                    GameAction::MakeMove { from: from_square, to: to_square, promotion: None },
                )
            } else {
                after.game == before.game
            }
        },
        ChessGameMove::Resign => {
            let side = resigning_side(before, author);
            if current_outcome(before.game) is None {
                &&& game_actions(after.game) == actions.push(GameAction::Resign(side))
                &&& current_outcome(after.game) == Some(resignation_outcome(side))
            } else {
                after.game == before.game
            }
        },
    }
}

/// The index, among the players, of the winner of a game with this outcome:
/// the first player (white) wins when white checkmates or black resigns, the
/// second player (black) when black checkmates or white resigns; an open game
/// and a drawn one (stalemate, draw accepted, draw declared) have no winner.
pub open spec fn winner_index(outcome: Option<GameOutcome>) -> Option<int> {
    match outcome {
        Some(GameOutcome::WhiteCheckmates) => Some(0),
        Some(GameOutcome::BlackResigns) => Some(0),
        Some(GameOutcome::BlackCheckmates) => Some(1),
        Some(GameOutcome::WhiteResigns) => Some(1),
        Some(GameOutcome::Stalemate) => None,
        Some(GameOutcome::DrawAccepted) => None,
        Some(GameOutcome::DrawDeclared) => None,
        None => None,
    }
}

/// The winner of `game` among `players`.
pub open spec fn winner(game: ChessGame, players: Seq<Address>) -> Option<Address> {
    match winner_index(current_outcome(game.game)) {
        Some(index) => Some(players[index]),
        None => None,
    }
}

/// `players` is long enough to name the winner of `game`.
pub open spec fn names_winner(game: ChessGame, players: Seq<Address>) -> bool {
    match winner_index(current_outcome(game.game)) {
        Some(index) => index < players.len(),
        None => true,
    }
}

impl ChessGameMove {
    /// Whether the engine can read both squares of the move; applying a move
    /// it cannot read is not allowed.
    pub fn is_readable(&self) -> (readable: bool)
        ensures
            readable == move_is_readable(*self),
    {
        match self {
            ChessGameMove::PlacePiece { from, to } => parse_square(from).is_some() && parse_square(to).is_some(),
            ChessGameMove::Resign => true,
        }
    }

    /// The text of the move: "from-to" or "resign".
    pub fn to_move_string(&self) -> (text: String)
        ensures
            text@ == move_text(*self),
    {
        match self {
            ChessGameMove::PlacePiece { from, to } => from.clone().concat("-").concat(to.as_str()),
            ChessGameMove::Resign => "resign".to_string(),
        }
    }
}

impl ChessGame {
    /// A game needs at least two players.
    pub fn min_players() -> (players: Option<usize>)
        ensures
            players == Some(2usize),
    {
        Some(2)
    }

    /// A game takes at most two players.
    pub fn max_players() -> (players: Option<usize>)
        ensures
            players == Some(2usize),
    {
        Some(2)
    }

    /// A new game in the standard starting position, with the first player
    /// playing white and the second black.
    pub fn initial(players: &Vec<Address>) -> (game: ChessGame)
        requires
            players.len() >= 2,
        ensures
            game.white_address == players@[0],
            game.black_address == players@[1],
            game_start(game.game) == standard_start(),
            game_actions(game.game) == Seq::<GameAction>::empty(),
            game_position(game_start(game.game), game_actions(game.game)) == standard_start(),
            current_outcome(game.game) is None,
    {
        ChessGame { white_address: players[0].clone(), black_address: players[1].clone(), game: new_game() }
    }

    /// Every move is accepted here; the engine itself refuses illegal moves
    /// when they are applied.
    pub fn is_valid(self, game_move: ChessGameMove) -> (verdict: Result<(), String>)
        ensures
            verdict is Ok,
    {
        Ok(())
    }

    /// Applies `game_move`, made by `author_address`, to the game.
    pub fn apply_move(&mut self, game_move: &ChessGameMove, player_index: usize, author_address: &Address)
        requires
            move_is_readable(*game_move),
        ensures
            move_applied(*old(self), *game_move, *author_address, *final(self)),
    {
        match game_move {
            ChessGameMove::PlacePiece { from, to } => {
                let from_square = parse_square(from);
                let to_square = parse_square(to);
                let from_square = from_square.unwrap();
                let to_square = to_square.unwrap();
                let _ = game_make_move(&mut self.game, from_square, to_square);
            },
            ChessGameMove::Resign => {
                let side = if *author_address == self.white_address {
                    Side::White
                } else {
                    Side::Black
                };
                let _ = game_resign(&mut self.game, side);
            },
        }
    }

    /// The position, among the players, of the winner of the game as it
    /// stands, or `None` while the game goes on or when it ended in a draw.
    pub fn winner_position(&self) -> (index: Option<usize>)
        ensures
            index matches Some(i) ==> winner_index(current_outcome(self.game)) == Some(i as int),
            index is None ==> winner_index(current_outcome(self.game)) is None,
    {
        match game_result(&self.game) {
            Some(GameOutcome::WhiteCheckmates) | Some(GameOutcome::BlackResigns) => Some(0),
            Some(GameOutcome::BlackCheckmates) | Some(GameOutcome::WhiteResigns) => Some(1),
            Some(GameOutcome::Stalemate) | Some(GameOutcome::DrawAccepted) | Some(GameOutcome::DrawDeclared) => None,
            None => None,
        }
    }

    /// The winner of the game among `players`, or `None` while the game goes
    /// on or when it ended in a draw.
    pub fn get_winner(&self, moves_with_author: &Vec<(Address, ChessGameMove)>, players: &Vec<Address>) -> (found: Option<Address>)
        requires
            names_winner(*self, players@),
        ensures
            found == winner(*self, players@),
    {
        match self.winner_position() {
            Some(index) => Some(players[index].clone()),
            None => None,
        }
    }

    /// The current position of the game, in FEN.
    pub fn to_position_string(&self) -> (fen: String)
        ensures
            fen@ == game_position(game_start(self.game), game_actions(self.game)),
    {
        game_position_text(&self.game)
    }
}

/// The game to create when challenging `rival`: the rival plays white and
/// `me` black.
pub fn create_game(rival: Address, me: Address, timestamp: u64) -> (entry: GameEntry)
    ensures
        entry.players@ == seq![rival, me],
        entry.created_at == timestamp,
{
    let mut players = Vec::new();
    players.push(rival);
    players.push(me);
    GameEntry { players, created_at: timestamp }
}

/// The move that places a piece from `from` to `to` on the game stored at
/// `game_address`.
pub fn make_move(game_address: Address, from: String, to: String) -> (submission: MoveSubmission<ChessGameMove>)
    ensures
        submission.game_address == game_address,
        submission.game_move == (ChessGameMove::PlacePiece { from, to }),
{
    MoveSubmission { game_address, game_move: ChessGameMove::PlacePiece { from, to } }
}

/// The texts of `moves`, in order.
pub fn move_strings(moves: &Vec<ChessGameMove>) -> (texts: Vec<String>)
    ensures
        texts@.len() == moves@.len(),
        forall|i: int| 0 <= i < moves@.len() ==> #[trigger] texts@[i]@ == move_text(moves@[i]),
{
    let mut texts: Vec<String> = Vec::new();
    let mut i: usize = 0;
    while i < moves.len()
        invariant
            i <= moves@.len(),
            texts@.len() == i,
            forall|j: int| 0 <= j < i ==> #[trigger] texts@[j]@ == move_text(moves@[j]),
        decreases moves@.len() - i,
    {
        texts.push(moves[i].to_move_string());
        i = i + 1;
    }
    texts
}

/// Resigning a game that is still open hands it to the other player: once
/// the white player has resigned, the second player (black) is the winner;
/// once anyone else has, the first player (white) is.
pub proof fn resignation_decides_the_winner(before: ChessGame, author: Address, after: ChessGame, players: Seq<Address>)
    requires
        current_outcome(before.game) is None,
        move_applied(before, ChessGameMove::Resign, author, after),
        players.len() >= 2,
    ensures
        winner(after, players) == Some(if author@ == before.white_address@ { players[1] } else { players[0] }),
{
}

/// A game that has ended stays as it is: no move, placement or resignation,
/// changes it, so its outcome and its winner stay too.
pub proof fn ended_game_is_final(before: ChessGame, game_move: ChessGameMove, author: Address, after: ChessGame, players: Seq<Address>)
    requires
        current_outcome(before.game) is Some,
        move_applied(before, game_move, author, after),
    ensures
        after.game == before.game,
        current_outcome(after.game) == current_outcome(before.game),
        winner(after, players) == winner(before, players),
{
}

/// A game that is still open has no winner.
pub proof fn open_game_has_no_winner(game: ChessGame, players: Seq<Address>)
    requires
        current_outcome(game.game) is None,
    ensures
        winner(game, players) is None,
{
}

/// A drawn game (stalemate, draw accepted, draw declared) has no winner.
pub proof fn drawn_game_has_no_winner(game: ChessGame, players: Seq<Address>)
    requires
        current_outcome(game.game) == Some(GameOutcome::Stalemate)
            || current_outcome(game.game) == Some(GameOutcome::DrawAccepted)
            || current_outcome(game.game) == Some(GameOutcome::DrawDeclared),
    ensures
        winner(game, players) is None,
{
}


/// A placement on an open game that the engine calls illegal is ignored: the
/// game keeps its action log, stays open, and has no winner.
pub proof fn illegal_placement_is_ignored(
    before: ChessGame,
    from: String,
    to: String,
    author: Address,
    after: ChessGame,
    players: Seq<Address>,
)
    requires
        current_outcome(before.game) is None,
        square_of(from@) is Some,
        square_of(to@) is Some,
        !move_is_legal(game_start(before.game), game_actions(before.game), square_of(from@)->0, square_of(to@)->0),
        move_applied(before, ChessGameMove::PlacePiece { from, to }, author, after),
    ensures
        after.game == before.game,
        game_actions(after.game) == game_actions(before.game),
        current_outcome(after.game) is None,
        winner(after, players) is None,
{
}

/// A placement either plays exactly that move, appending it to the action
/// log, or changes nothing; it never logs anything else, a resignation in
/// particular.
pub proof fn placement_plays_that_move_or_nothing(
    before: ChessGame,
    from: String,
    to: String,
    author: Address,
    after: ChessGame,
)
    requires
        move_applied(before, ChessGameMove::PlacePiece { from, to }, author, after),
    ensures
        after.game == before.game || game_actions(after.game) == game_actions(before.game).push(
            GameAction::MakeMove { from: square_of(from@)->0, to: square_of(to@)->0, promotion: None },
        ),
        game_actions(after.game).len() > game_actions(before.game).len() ==> !(game_actions(after.game).last() is Resign),
{
}

/// A placement names two squares the engine can read exactly when each of
/// its texts starts with a file letter `a`..`h` followed by a rank digit
/// `1`..`8`; the square of such a text lies on that file and that rank.
pub proof fn readable_placements_name_board_squares(from: String, to: String)
    ensures
        move_is_readable(ChessGameMove::PlacePiece { from, to }) <==> (
            from@.len() >= 2 && 'a' <= from@[0] && from@[0] <= 'h' && '1' <= from@[1] && from@[1] <= '8'
            && to@.len() >= 2 && 'a' <= to@[0] && to@[0] <= 'h' && '1' <= to@[1] && to@[1] <= '8'
        ),
        move_is_readable(ChessGameMove::PlacePiece { from, to }) ==> (
            square_of(to@)->0 < 64
            && square_of(to@)->0 % 8 == to@[0] as int - 'a' as int
            && square_of(to@)->0 / 8 == to@[1] as int - '1' as int
            && square_of(from@)->0 < 64
            && square_of(from@)->0 % 8 == from@[0] as int - 'a' as int
            && square_of(from@)->0 / 8 == from@[1] as int - '1' as int
        ),
{
}


/// A legal placement on an open game is played: it is appended to the
/// action log, and the players stay who they were.
pub proof fn legal_placement_is_played(
    before: ChessGame,
    from: String,
    to: String,
    author: Address,
    after: ChessGame,
)
    requires
        current_outcome(before.game) is None,
        square_of(from@) is Some,
        square_of(to@) is Some,
        move_is_legal(game_start(before.game), game_actions(before.game), square_of(from@)->0, square_of(to@)->0),
        move_applied(before, ChessGameMove::PlacePiece { from, to }, author, after),
    ensures
        game_actions(after.game).len() == game_actions(before.game).len() + 1,
        game_actions(after.game).last() == (GameAction::MakeMove { from: square_of(from@)->0, to: square_of(to@)->0, promotion: None }),
        game_actions(after.game).subrange(0, game_actions(before.game).len() as int) == game_actions(before.game),
        after.white_address == before.white_address,
        after.black_address == before.black_address,
{
    assert(game_actions(after.game).subrange(0, game_actions(before.game).len() as int) =~= game_actions(before.game));
}

/// No move, whoever makes it, changes who plays white and who plays black,
/// or the position the game started from.
pub proof fn moves_keep_the_players(before: ChessGame, game_move: ChessGameMove, author: Address, after: ChessGame)
    requires
        move_applied(before, game_move, author, after),
    ensures
        after.white_address == before.white_address,
        after.black_address == before.black_address,
        game_start(after.game) == game_start(before.game),
{
}

/// Between two different players, the first (white) is the winner exactly
/// when white checkmated or black resigned, and the second (black) exactly
/// when black checkmated or white resigned.
pub proof fn the_winning_side_wins(game: ChessGame, players: Seq<Address>)
    requires
        players.len() >= 2,
        players[0] != players[1],
    ensures
        winner(game, players) == Some(players[0]) <==> (
            current_outcome(game.game) == Some(GameOutcome::WhiteCheckmates)
            || current_outcome(game.game) == Some(GameOutcome::BlackResigns)
        ),
        winner(game, players) == Some(players[1]) <==> (
            current_outcome(game.game) == Some(GameOutcome::BlackCheckmates)
            || current_outcome(game.game) == Some(GameOutcome::WhiteResigns)
        ),
{
}

/// The text of a placement is its origin, a dash, and its destination, so
/// the two squares can be read back from it; a resignation reads "resign".
pub proof fn move_texts_spell_the_move(from: String, to: String)
    ensures
        move_text(ChessGameMove::PlacePiece { from, to }).len() == from@.len() + 1 + to@.len(),
        move_text(ChessGameMove::PlacePiece { from, to }).subrange(0, from@.len() as int) == from@,
        move_text(ChessGameMove::PlacePiece { from, to })[from@.len() as int] == '-',
        move_text(ChessGameMove::PlacePiece { from, to }).subrange(from@.len() + 1int, from@.len() + 1int + to@.len()) == to@,
        move_text(ChessGameMove::Resign) == "resign"@,
{
    reveal_strlit("-");
    let text = move_text(ChessGameMove::PlacePiece { from, to });
    assert(text.subrange(0, from@.len() as int) =~= from@);
    assert(text.subrange(from@.len() + 1int, from@.len() + 1int + to@.len()) =~= to@);
}

} // verus!
