//! The chess game of the profile-based zome: the game state only records the
//! moves each player made; the moves themselves are not checked.

use vstd::prelude::*;
use crate::host::{
    Address, AppEntry, EntryContent, EntryDefinition, GameEntry, HostReply, HostRequest, LinkQuery, Sharing, Step,
    ValidationPackage, agent_link, is_agent_link, is_link_query, is_link_request, is_public_entry_type, link_request,
    query_reaches, ZomeApiError,
};
use crate::invite_flow::{ends_unexpectedly, unexpected_reply};

verus! {

/// The entry that points an agent at a game it takes part in.
#[derive(Clone, Debug)]
pub struct MatchData {
    pub match_address: Address,
}

/// `entry` is the match data entry that carries `data`.
pub open spec fn is_match_data_entry(entry: AppEntry, data: MatchData) -> bool {
    entry.entry_type@ == "match_data"@ && entry.content == EntryContent::MatchData(data)
}

impl MatchData {
    /// The match data as an entry of type "match_data".
    pub fn entry(self) -> (entry: AppEntry)
        ensures
            is_match_data_entry(entry, self),
    {
        AppEntry { entry_type: "match_data".to_string(), content: EntryContent::MatchData(self) }
    }
}

/// The entry type of match data: public, checked on the entry alone, and
/// reached from agents by "agent->match_data" links.
pub fn match_data_def() -> (definition: EntryDefinition)
    ensures
        is_public_entry_type(definition, "match_data"@, "data structure for interacting with the game through links"@),
        definition.links@.len() == 1,
        is_agent_link(definition.links@[0], "agent->match_data"@),
{
    let mut links = Vec::new();
    links.push(agent_link("agent->match_data"));
    EntryDefinition {
        name: "match_data".to_string(),
        description: "data structure for interacting with the game through links".to_string(),
        sharing: Sharing::Public,
        validation_package: ValidationPackage::Entry,
        links,
    }
}

/// A piece moved from one board coordinate to another.
#[derive(Clone, Copy, Debug, PartialEq, Eq, Structural)]
pub struct Move {
    pub origin_number: u8,
    pub origin_letter: u8,
    pub destination_number: u8,
    pub destination_letter: u8,
}

/// A move of the game: a placement, or giving up.
#[derive(Clone, Copy, Debug, PartialEq, Eq, Structural)]
pub enum ChessMove {
    Place(Move),
    Resign,
}

/// The game state: the moves of the first player (white) and of the second
/// (black), in the order they were made.
#[derive(Clone, Debug)]
pub struct ChessGame {
    pub white: Vec<ChessMove>,
    pub black: Vec<ChessMove>,
}

impl ChessGame {
    /// A game needs at least two players.
    pub fn min_players() -> (players: Option<usize>)
        ensures
            players == Some(2usize),
    {
        Some(2)
    }

    /// A game takes at most two players.
    pub fn max_players() -> (players: Option<usize>)
        ensures
            players == Some(2usize),
    {
        Some(2)
    }

    /// A game where nobody has moved yet.
    pub fn initial(players: &Vec<Address>) -> (game: ChessGame)
        ensures
            game.white@ == Seq::<ChessMove>::empty(),
            game.black@ == Seq::<ChessMove>::empty(),
    {
        ChessGame { white: Vec::new(), black: Vec::new() }
    }

    /// Every move is accepted.
    pub fn is_valid(self, game_move: ChessMove) -> (verdict: Result<(), String>)
        ensures
            verdict is Ok,
    {
        Ok(())
    }

    /// Records `game_move` in the list of the player who made it: player 0
    /// plays white, player 1 black; a move by any other player is dropped.
    pub fn apply_move(&mut self, game_move: &ChessMove, player_index: usize, author_address: &Address)
        ensures
            player_index == 0 ==> final(self).white@ == old(self).white@.push(*game_move),
            player_index == 0 ==> final(self).black@ == old(self).black@,
            player_index == 1 ==> final(self).white@ == old(self).white@,
            player_index == 1 ==> final(self).black@ == old(self).black@.push(*game_move),
            player_index >= 2 ==> final(self).white@ == old(self).white@,
            player_index >= 2 ==> final(self).black@ == old(self).black@,
    {
        if player_index == 0 {
            self.white.push(*game_move);
        } else if player_index == 1 {
            self.black.push(*game_move);
        }
    }

    /// No winner is ever declared.
    pub fn get_winner(&self, moves_with_author: &Vec<(Address, ChessMove)>, players: &Vec<Address>) -> (winner: Option<Address>)
        ensures
            winner is None,
    {
        None
    }
}

/// Where creating a game stands.
pub enum CreateGame {
    /// The game itself is being created.
    AwaitGame { me: Address, rival: Address },
    /// The match data that points at the game is being committed.
    AwaitMatchData { me: Address, rival: Address },
    /// The link from `me` to the match data is being made.
    AwaitOwnLink { rival: Address, match_data: Address },
    /// The link from the rival to the match data is being made.
    AwaitRivalLink,
}

/// Creating a game against `rival` begins by creating the game with the
/// rival as white and `me` as black.
pub open spec fn creating_begins(rival: Address, me: Address, timestamp: u64, begun: (CreateGame, HostRequest)) -> bool {
    &&& begun.0 == (CreateGame::AwaitGame { me, rival })
    &&& begun.1 matches HostRequest::CreateGame(entry)
    &&& entry.players@ == seq![rival, me]
    &&& entry.created_at == timestamp
}

/// The reply that the zome cannot take: a failure to create the game, on
/// which it panics.
pub open spec fn creating_fails_on_game(state: CreateGame, reply: HostReply) -> bool {
    state is AwaitGame && reply is Failed
}

/// One step of creating a game: match data holding the new game's address is
/// committed, then linked ("agent->match_data") from `me` and from the rival,
/// and the call succeeds.
pub open spec fn creating_steps(state: CreateGame, reply: HostReply, next: Step<CreateGame, ()>) -> bool {
    match reply {
        HostReply::Failed(error) => next == Step::<CreateGame, ()>::Finish(Err(error)),
        _ => match state {
            CreateGame::AwaitGame { me, rival } => match reply {
                HostReply::Address(game) => {
                    &&& next matches Step::Call(after, request)
                    &&& after == (CreateGame::AwaitMatchData { me, rival })
                    &&& request matches HostRequest::CommitEntry(entry)
                    &&& is_match_data_entry(entry, MatchData { match_address: game })
                },
                _ => ends_unexpectedly(next),
            },
            CreateGame::AwaitMatchData { me, rival } => match reply {
                HostReply::Address(match_data) => {
                    &&& next matches Step::Call(after, request)
                    &&& after == (CreateGame::AwaitOwnLink { rival, match_data })
                    &&& is_link_request(request, me@, match_data@, "agent->match_data"@)
                },
                _ => ends_unexpectedly(next),
            },
            CreateGame::AwaitOwnLink { rival, match_data } => match reply {
                HostReply::Done => {
                    &&& next matches Step::Call(after, request)
                    &&& after == CreateGame::AwaitRivalLink
                    &&& is_link_request(request, rival@, match_data@, "agent->match_data"@)
                },
                _ => ends_unexpectedly(next),
            },
            CreateGame::AwaitRivalLink => match reply {
                HostReply::Done => next == Step::<CreateGame, ()>::Finish(Ok(())),
                _ => ends_unexpectedly(next),
            },
        },
    }
}

/// Begins creating, as `me`, a game against `rival`.
pub fn create_game(rival: Address, me: Address, timestamp: u64) -> (begun: (CreateGame, HostRequest))
    ensures
        creating_begins(rival, me, timestamp, begun),
{
    let mut players = Vec::new();
    players.push(rival.clone());
    players.push(me.clone());
    assert(players@ =~= seq![rival, me]);
    let request = HostRequest::CreateGame(GameEntry { players, created_at: timestamp });
    (CreateGame::AwaitGame { me, rival }, request)
}

/// Takes one step of creating a game.
pub fn create_game_step(state: CreateGame, reply: HostReply) -> (next: Step<CreateGame, ()>)
    requires
        !creating_fails_on_game(state, reply),
    ensures
        creating_steps(state, reply, next),
{
    match reply {
        HostReply::Failed(error) => Step::Finish(Err(error)),
        HostReply::Address(address) => match state {
            CreateGame::AwaitGame { me, rival } => {
                let data = MatchData { match_address: address };
                Step::Call(CreateGame::AwaitMatchData { me, rival }, HostRequest::CommitEntry(data.entry()))
            },
            CreateGame::AwaitMatchData { me, rival } => {
                let request = link_request(&me, &address, "agent->match_data");
                Step::Call(CreateGame::AwaitOwnLink { rival, match_data: address }, request)
            },
            _ => unexpected_reply(),
        },
        HostReply::Done => match state {
            CreateGame::AwaitOwnLink { rival, match_data } => {
                let request = link_request(&rival, &match_data, "agent->match_data");
                Step::Call(CreateGame::AwaitRivalLink, request)
            },
            CreateGame::AwaitRivalLink => Step::Finish(Ok(())),
            _ => unexpected_reply(),
        },
        _ => unexpected_reply(),
    }
}


/// Creating a game that the host carries out at every step creates the game
/// with the rival as white and `me` as black, commits match data holding its
/// address, links that from `me` and then from the rival, and succeeds.
pub proof fn creating_succeeds(
    rival: Address,
    me: Address,
    timestamp: u64,
    game: Address,
    match_data: Address,
    begun: (CreateGame, HostRequest),
    first: Step<CreateGame, ()>,
    second: Step<CreateGame, ()>,
    third: Step<CreateGame, ()>,
    fourth: Step<CreateGame, ()>,
)
    requires
        creating_begins(rival, me, timestamp, begun),
        creating_steps(begun.0, HostReply::Address(game), first),
        creating_steps(first->Call_0, HostReply::Address(match_data), second),
        creating_steps(second->Call_0, HostReply::Done, third),
        creating_steps(third->Call_0, HostReply::Done, fourth),
    ensures
        begun.1 matches HostRequest::CreateGame(entry) && entry.players@ == seq![rival, me] && entry.created_at == timestamp,
        first matches Step::Call(_, HostRequest::CommitEntry(entry)) && is_match_data_entry(entry, MatchData { match_address: game }),
        second matches Step::Call(_, request) && is_link_request(request, me@, match_data@, "agent->match_data"@),
        third matches Step::Call(_, request) && is_link_request(request, rival@, match_data@, "agent->match_data"@),
        fourth == Step::<CreateGame, ()>::Finish(Ok(())),
{
}

/// A created game is listed for both players: each player's query for its
/// games finds one of the links to the game's match data.
pub proof fn created_game_is_listed(
    rival: Address,
    me: Address,
    timestamp: u64,
    game: Address,
    match_data: Address,
    begun: (CreateGame, HostRequest),
    first: Step<CreateGame, ()>,
    second: Step<CreateGame, ()>,
    third: Step<CreateGame, ()>,
    my_games: LinkQuery,
    rival_games: LinkQuery,
)
    requires
        creating_begins(rival, me, timestamp, begun),
        creating_steps(begun.0, HostReply::Address(game), first),
        creating_steps(first->Call_0, HostReply::Address(match_data), second),
        creating_steps(second->Call_0, HostReply::Done, third),
        is_link_query(my_games, me@, "agent->match_data"@),
        is_link_query(rival_games, rival@, "agent->match_data"@),
    ensures
        query_reaches(my_games, second->Call_1, match_data@),
        query_reaches(rival_games, third->Call_1, match_data@),
{
}


/// The links that creating a game makes are of the type that the match data
/// entry type declares, and the entry it commits is of that type.
pub proof fn creating_uses_declared_types(
    rival: Address,
    me: Address,
    timestamp: u64,
    game: Address,
    match_data: Address,
    begun: (CreateGame, HostRequest),
    first: Step<CreateGame, ()>,
    second: Step<CreateGame, ()>,
    third: Step<CreateGame, ()>,
    definition: EntryDefinition,
)
    requires
        creating_begins(rival, me, timestamp, begun),
        creating_steps(begun.0, HostReply::Address(game), first),
        creating_steps(first->Call_0, HostReply::Address(match_data), second),
        creating_steps(second->Call_0, HostReply::Done, third),
        is_public_entry_type(definition, "match_data"@, "data structure for interacting with the game through links"@),
        definition.links@.len() == 1,
        is_agent_link(definition.links@[0], "agent->match_data"@),
    ensures
        first->Call_1 matches HostRequest::CommitEntry(entry) && entry.entry_type@ == definition.name@,
        second->Call_1 matches HostRequest::LinkEntries(link) && link.link_type@ == definition.links@[0].link_type@,
        third->Call_1 matches HostRequest::LinkEntries(link) && link.link_type@ == definition.links@[0].link_type@,
{
}


/// In every state of creating a game, a failed host call ends the call with
/// that same error.
pub proof fn creating_failures_propagate(state: CreateGame, error: ZomeApiError, next: Step<CreateGame, ()>)
    requires
        creating_steps(state, HostReply::Failed(error), next),
    ensures
        next == Step::<CreateGame, ()>::Finish(Err(error)),
{
}


/// Creating a game succeeds only once the rival's link to the match data is
/// made: no earlier step, whatever the reply, finishes with success.
pub proof fn creating_succeeds_only_at_the_end(state: CreateGame, reply: HostReply, next: Step<CreateGame, ()>)
    requires
        creating_steps(state, reply, next),
        next is Finish && next->Finish_0 is Ok,
    ensures
        state is AwaitRivalLink,
        reply is Done,
{
}

} // verus!
