//! The public calls of the profile-based zome, as far as they decide
//! anything: the agent check, profiles, inviting a user by name, accepting an
//! invitation (answering it, then creating the game and its match data), the
//! moves a player submits, and reading profiles back.

use vstd::prelude::*;
use crate::game_chess::{ChessMove, CreateGame, Move, create_game, create_game_step, creating_begins, creating_fails_on_game, creating_steps};
use crate::host::{
    Address, AgentId, EntryDefinition, EntryHeader, HeaderLookup, HostReply, HostRequest, LinkQuery, MoveSubmission, Step, ZomeApiError,
    internal_error, is_agent_link, is_internal_error, is_link_query, is_link_request, is_public_entry_type, link_request,
    query_reaches,
};
use crate::invite_flow::{
    AnswerInvitation, SendInvitation, answer_invitation, answer_invitation_step, answering_begins, answering_steps,
    ends_unexpectedly, send_invitation, send_invitation_step, sending_begins, sending_steps, unexpected_reply,
};
use crate::user::{User, is_profile_entry};

verus! {

/// The zome starts up without further setup.
pub fn init() -> (outcome: Result<(), String>)
    ensures
        outcome is Ok,
{
    Ok(())
}

/// Every agent may join.
pub fn validate_agent(validation_data: &AgentId) -> (verdict: Result<(), String>)
    ensures
        verdict is Ok,
{
    Ok(())
}

/// Placing a piece on the game stored at `game_address`.
pub fn place_piece(
    game_address: Address,
    origin_number: u8,
    origin_letter: u8,
    destination_number: u8,
    destination_letter: u8,
) -> (submission: MoveSubmission<ChessMove>)
    ensures
        submission.game_address == game_address,
        submission.game_move == ChessMove::Place(Move { origin_number, origin_letter, destination_number, destination_letter }),
{
    let new_move = Move { origin_number, origin_letter, destination_number, destination_letter };
    MoveSubmission { game_address, game_move: ChessMove::Place(new_move) }
}

/// Giving up the game stored at `game_address`.
pub fn surrender(game_address: Address) -> (submission: MoveSubmission<ChessMove>)
    ensures
        submission.game_address == game_address,
        submission.game_move == ChessMove::Resign,
{
    MoveSubmission { game_address, game_move: ChessMove::Resign }
}

/// The query for the profiles linked from the agent `address` ("agent->user").
pub fn profiles_query(address: &Address) -> (query: LinkQuery)
    ensures
        is_link_query(query, address@, "agent->user"@),
{
    LinkQuery { base: address.clone(), link_type: "agent->user".to_string() }
}

/// The query for the match data of the games `me` takes part in ("agent->match_data").
pub fn my_games_query(me: &Address) -> (query: LinkQuery)
    ensures
        is_link_query(query, me@, "agent->match_data"@),
{
    LinkQuery { base: me.clone(), link_type: "agent->match_data".to_string() }
}

/// The username of an agent, from the profiles linked from it: the last one
/// counts; without any, "profile not found".
pub fn get_username(profiles: Vec<User>) -> (username: Result<String, ZomeApiError>)
    ensures
        profiles@.len() > 0 ==> username == Ok::<String, ZomeApiError>(profiles@.last().username),
        profiles@.len() == 0 ==> (username matches Err(error) && is_internal_error(error, "profile not found"@)),
{
    if profiles.len() == 0 {
        Err(internal_error("profile not found"))
    } else {
        Ok(profiles[profiles.len() - 1].username.clone())
    }
}

/// The caller's own profile, from the profiles linked from it: the last one
/// counts; without any, "No profile registered".
pub fn get_my_profile(profiles: Vec<User>) -> (profile: Result<User, ZomeApiError>)
    ensures
        profiles@.len() > 0 ==> profile == Ok::<User, ZomeApiError>(profiles@.last()),
        profiles@.len() == 0 ==> (profile matches Err(error) && is_internal_error(error, "No profile registered"@)),
{
    let mut profiles = profiles;
    match profiles.pop() {
        Some(found) => Ok(User { username: found.username }),
        None => Err(internal_error("No profile registered")),
    }
}

/// Where creating a profile stands.
pub enum CreateProfile {
    /// The profile entry is being committed.
    AwaitCommit { me: Address },
    /// The link from `me` to the profile is being made.
    AwaitLink { me: Address },
}

/// Creating the profile `username` begins by committing it.
pub open spec fn profile_begins(me: Address, username: String, begun: (CreateProfile, HostRequest)) -> bool {
    &&& begun.0 == (CreateProfile::AwaitCommit { me })
    &&& begun.1 matches HostRequest::CommitEntry(entry)
    &&& is_profile_entry(entry, username@)
}

/// One step of creating a profile: the committed profile is linked from
/// `me` ("agent->user"), and the call answers `me`.
pub open spec fn profile_steps(state: CreateProfile, reply: HostReply, next: Step<CreateProfile, Address>) -> bool {
    match reply {
        HostReply::Failed(error) => next == Step::<CreateProfile, Address>::Finish(Err(error)),
        _ => match state {
            CreateProfile::AwaitCommit { me } => match reply {
                HostReply::Address(profile) => {
                    &&& next matches Step::Call(after, request)
                    &&& after == (CreateProfile::AwaitLink { me })
                    &&& is_link_request(request, me@, profile@, "agent->user"@)
                },
                _ => ends_unexpectedly(next),
            },
            CreateProfile::AwaitLink { me } => match reply {
                HostReply::Done => next == Step::<CreateProfile, Address>::Finish(Ok(me)),
                _ => ends_unexpectedly(next),
            },
        },
    }
}

/// Begins creating, as `me`, the profile `username`.
pub fn create_profile(me: Address, username: String) -> (begun: (CreateProfile, HostRequest))
    ensures
        profile_begins(me, username, begun),
{
    let user = User::from(username);
    (CreateProfile::AwaitCommit { me }, HostRequest::CommitEntry(user.entry()))
}

/// Takes one step of creating a profile.
pub fn create_profile_step(state: CreateProfile, reply: HostReply) -> (next: Step<CreateProfile, Address>)
    ensures
        profile_steps(state, reply, next),
{
    match reply {
        HostReply::Failed(error) => Step::Finish(Err(error)),
        HostReply::Address(profile) => match state {
            CreateProfile::AwaitCommit { me } => {
                let request = link_request(&me, &profile, "agent->user");
                Step::Call(CreateProfile::AwaitLink { me }, request)
            },
            _ => unexpected_reply(),
        },
        HostReply::Done => match state {
            CreateProfile::AwaitLink { me } => Step::Finish(Ok(me)),
            _ => unexpected_reply(),
        },
        _ => unexpected_reply(),
    }
}

/// Where inviting a user by name stands.
pub enum InviteUser {
    /// The address of the user's profile entry is being computed.
    AwaitUserAddress { me: Address, timestamp: u64 },
    /// The profile entry's headers are being looked up, to find its author.
    AwaitHeaders { me: Address, timestamp: u64 },
    /// The invitation is being sent to the profile's author.
    Sending(SendInvitation),
}

/// Inviting the user `username` begins by asking for the address of the
/// profile entry with that name.
pub open spec fn inviting_begins(me: Address, username: String, timestamp: u64, begun: (InviteUser, HostRequest)) -> bool {
    &&& begun.0 == (InviteUser::AwaitUserAddress { me, timestamp })
    &&& begun.1 matches HostRequest::EntryAddress(entry)
    &&& is_profile_entry(entry, username@)
}

/// The reply that the zome cannot take: headers whose first one has no
/// signer, on which it panics.
pub open spec fn inviting_fails_on_headers(state: InviteUser, reply: HostReply) -> bool {
    &&& state is AwaitHeaders
    &&& reply matches HostReply::Headers(HeaderLookup::Single(headers))
    &&& headers@.len() > 0
    &&& headers@[0].provenances@.len() == 0
}

/// One step of inviting a user by name: the profile's headers are looked
/// up; without headers the user is not found; otherwise the first signer of
/// the first header is the rival, and the invitation is sent to it.
pub open spec fn inviting_steps(state: InviteUser, reply: HostReply, next: Step<InviteUser, bool>) -> bool {
    match state {
        InviteUser::Sending(sending) => match next {
            Step::Call(InviteUser::Sending(after), request) => sending_steps(sending, reply, Step::Call(after, request)),
            Step::Call(_, _) => false,
            Step::Finish(result) => sending_steps(sending, reply, Step::Finish(result)),
        },
        InviteUser::AwaitUserAddress { me, timestamp } => match reply {
            HostReply::Failed(error) => next == Step::<InviteUser, bool>::Finish(Err(error)),
            HostReply::Address(user) => next == Step::<InviteUser, bool>::Call(
                InviteUser::AwaitHeaders { me, timestamp },
                HostRequest::GetEntryHeaders(user),
            ),
            _ => ends_unexpectedly(next),
        },
        InviteUser::AwaitHeaders { me, timestamp } => match reply {
            HostReply::Failed(error) => next == Step::<InviteUser, bool>::Finish(Err(error)),
            HostReply::Headers(HeaderLookup::All) => next matches Step::Finish(Err(error))
                && is_internal_error(error, "How did this even happen"@),
            HostReply::Headers(HeaderLookup::Single(headers)) => if headers@.len() == 0 {
                next matches Step::Finish(Err(error)) && is_internal_error(error, "User not found"@)
            } else {
                &&& next matches Step::Call(InviteUser::Sending(sending), request)
                &&& sending_begins(me, headers@[0].provenances@[0], timestamp, (sending, request))
            },
            _ => ends_unexpectedly(next),
        },
    }
}

/// Begins inviting, as `me`, the user named `username`.
pub fn invite_user(me: Address, username: String, timestamp: u64) -> (begun: (InviteUser, HostRequest))
    ensures
        inviting_begins(me, username, timestamp, begun),
{
    let user = User::from(username);
    (InviteUser::AwaitUserAddress { me, timestamp }, HostRequest::EntryAddress(user.entry()))
}

/// Takes one step of inviting a user by name.
pub fn invite_user_step(state: InviteUser, reply: HostReply) -> (next: Step<InviteUser, bool>)
    requires
        !inviting_fails_on_headers(state, reply),
    ensures
        inviting_steps(state, reply, next),
{
    match state {
        InviteUser::Sending(sending) => match send_invitation_step(sending, reply) {
            Step::Call(after, request) => Step::Call(InviteUser::Sending(after), request),
            Step::Finish(result) => Step::Finish(result),
        },
        InviteUser::AwaitUserAddress { me, timestamp } => match reply {
            HostReply::Failed(error) => Step::Finish(Err(error)),
            HostReply::Address(user) => Step::Call(InviteUser::AwaitHeaders { me, timestamp }, HostRequest::GetEntryHeaders(user)),
            _ => unexpected_reply(),
        },
        InviteUser::AwaitHeaders { me, timestamp } => match reply {
            HostReply::Failed(error) => Step::Finish(Err(error)),
            HostReply::Headers(HeaderLookup::All) => Step::Finish(Err(internal_error("How did this even happen"))),
            HostReply::Headers(HeaderLookup::Single(headers)) => {
                if headers.len() == 0 {
                    Step::Finish(Err(internal_error("User not found")))
                } else {
                    let rival = headers[0].provenances[0].clone();
                    let (sending, request) = send_invitation(me, rival, timestamp);
                    Step::Call(InviteUser::Sending(sending), request)
                }
            },
            _ => unexpected_reply(),
        },
    }
}

/// Where accepting an invitation stands.
pub enum AcceptInvitation {
    /// The invitation is being answered; `me` and `timestamp` are kept for the game.
    Answering { me: Address, timestamp: u64, answer: AnswerInvitation },
    /// The game is being created.
    Creating(CreateGame),
}

/// Accepting the invitation from `inviter` to `invited` sent at
/// `invitation_timestamp` begins by answering it.
pub open spec fn accepting_begins(
    me: Address,
    inviter: Address,
    invited: Address,
    invitation_timestamp: u64,
    timestamp: u64,
    begun: (AcceptInvitation, HostRequest),
) -> bool {
    &&& begun.0 matches AcceptInvitation::Answering { me: kept, timestamp: kept_timestamp, answer }
    &&& kept == me
    &&& kept_timestamp == timestamp
    &&& answering_begins(inviter, invited, invitation_timestamp, true, (answer, begun.1))
}

/// The reply that the zome cannot take: a failure to create the game.
pub open spec fn accepting_fails_on_game(state: AcceptInvitation, reply: HostReply) -> bool {
    state matches AcceptInvitation::Creating(creating) && creating_fails_on_game(creating, reply)
}

/// One step of accepting an invitation: the invitation is answered with
/// "accepted"; once it is stored, a game is created against the inviter
/// named by the stored invitation, and when the game and its match data are
/// in place the call answers `true`.
pub open spec fn accepting_steps(state: AcceptInvitation, reply: HostReply, next: Step<AcceptInvitation, bool>) -> bool {
    match state {
        AcceptInvitation::Answering { me, timestamp, answer } => match answer {
            AnswerInvitation::AwaitUpdate { inviter, .. } => {
                &&& next matches Step::Call(AcceptInvitation::Creating(creating), request)
                &&& creating_begins(inviter, me, timestamp, (creating, request))
            },
            _ => match next {
                Step::Call(AcceptInvitation::Answering { me: kept, timestamp: kept_timestamp, answer: after }, request) => {
                    &&& kept == me
                    &&& kept_timestamp == timestamp
                    &&& answering_steps(answer, reply, Step::Call(after, request))
                },
                Step::Call(_, _) => false,
                Step::Finish(result) => answering_steps(answer, reply, Step::Finish(result)),
            },
        },
        AcceptInvitation::Creating(creating) => match next {
            Step::Call(AcceptInvitation::Creating(after), request) => creating_steps(creating, reply, Step::Call(after, request)),
            Step::Call(_, _) => false,
            Step::Finish(Ok(accepted)) => accepted && creating_steps(creating, reply, Step::Finish(Ok(()))),
            Step::Finish(Err(error)) => creating_steps(creating, reply, Step::Finish(Err(error))),
        },
    }
}

/// Begins accepting, as `me`, the invitation from `inviter` to `invited`
/// sent at `invitation_timestamp`; the game will be created at `timestamp`.
pub fn accept_invitation(
    me: Address,
    inviter: Address,
    invited: Address,
    invitation_timestamp: u64,
    timestamp: u64,
) -> (begun: (AcceptInvitation, HostRequest))
    ensures
        accepting_begins(me, inviter, invited, invitation_timestamp, timestamp, begun),
{
    let (answer, request) = answer_invitation(inviter, invited, invitation_timestamp, true);
    (AcceptInvitation::Answering { me, timestamp, answer }, request)
}

/// Takes one step of accepting an invitation.
pub fn accept_invitation_step(state: AcceptInvitation, reply: HostReply) -> (next: Step<AcceptInvitation, bool>)
    requires
        !accepting_fails_on_game(state, reply),
    ensures
        accepting_steps(state, reply, next),
{
    match state {
        AcceptInvitation::Answering { me, timestamp, answer } => match answer {
            AnswerInvitation::AwaitUpdate { inviter, .. } => {
                let (creating, request) = create_game(inviter, me, timestamp);
                Step::Call(AcceptInvitation::Creating(creating), request)
            },
            _ => match answer_invitation_step(answer, reply) {
                Step::Call(after, request) => Step::Call(AcceptInvitation::Answering { me, timestamp, answer: after }, request),
                Step::Finish(result) => Step::Finish(result),
            },
        },
        AcceptInvitation::Creating(creating) => match create_game_step(creating, reply) {
            Step::Call(after, request) => Step::Call(AcceptInvitation::Creating(after), request),
            Step::Finish(Ok(())) => Step::Finish(Ok(true)),
            Step::Finish(Err(error)) => Step::Finish(Err(error)),
        },
    }
}


/// Creating a profile that the host carries out at every step commits the
/// profile, links it from `me`, and answers `me`; the query for `me`'s
/// profiles finds that link.
pub proof fn profile_creation_succeeds(
    me: Address,
    username: String,
    profile: Address,
    begun: (CreateProfile, HostRequest),
    first: Step<CreateProfile, Address>,
    second: Step<CreateProfile, Address>,
    profiles: LinkQuery,
)
    requires
        profile_begins(me, username, begun),
        profile_steps(begun.0, HostReply::Address(profile), first),
        profile_steps(first->Call_0, HostReply::Done, second),
        is_link_query(profiles, me@, "agent->user"@),
    ensures
        begun.1 matches HostRequest::CommitEntry(entry) && is_profile_entry(entry, username@),
        first matches Step::Call(_, request) && is_link_request(request, me@, profile@, "agent->user"@),
        query_reaches(profiles, first->Call_1, profile@),
        second == Step::<CreateProfile, Address>::Finish(Ok(me)),
{
}

/// Inviting a user by name sends the invitation to the first signer of the
/// profile entry's first header; a profile entry without headers gives
/// "User not found".
pub proof fn invitation_goes_to_profile_author(
    me: Address,
    timestamp: u64,
    headers: Vec<EntryHeader>,
    next: Step<InviteUser, bool>,
)
    requires
        inviting_steps(InviteUser::AwaitHeaders { me, timestamp }, HostReply::Headers(HeaderLookup::Single(headers)), next),
    ensures
        headers@.len() == 0 ==> (next matches Step::Finish(Err(error)) && is_internal_error(error, "User not found"@)),
        headers@.len() > 0 ==> (next matches Step::Call(InviteUser::Sending(sending), request)
            && sending_begins(me, headers@[0].provenances@[0], timestamp, (sending, request))),
{
}

/// Accepting an invitation, once the answered invitation is stored, goes on
/// to create the game against the inviter that the stored invitation names,
/// with that inviter as white and `me` as black; a game that is then created
/// and listed makes the call answer `true`.
pub proof fn accepting_creates_the_game(
    me: Address,
    timestamp: u64,
    inviter: Address,
    update_reply: HostReply,
    next: Step<AcceptInvitation, bool>,
    last: Step<AcceptInvitation, bool>,
)
    requires
        accepting_steps(
            AcceptInvitation::Answering { me, timestamp, answer: AnswerInvitation::AwaitUpdate { accepting: true, inviter } },
            update_reply,
            next,
        ),
        accepting_steps(AcceptInvitation::Creating(CreateGame::AwaitRivalLink), HostReply::Done, last),
    ensures
        next matches Step::Call(AcceptInvitation::Creating(creating), request) && creating_begins(inviter, me, timestamp, (creating, request)),
        last == Step::<AcceptInvitation, bool>::Finish(Ok(true)),
{
}


/// The link that creating a profile makes is of the type that the user entry
/// type declares, and the entry it commits is of that type.
pub proof fn profile_uses_declared_types(
    me: Address,
    username: String,
    profile: Address,
    begun: (CreateProfile, HostRequest),
    first: Step<CreateProfile, Address>,
    definition: EntryDefinition,
)
    requires
        profile_begins(me, username, begun),
        profile_steps(begun.0, HostReply::Address(profile), first),
        is_public_entry_type(definition, "user"@, "user profile"@),
        definition.links@.len() == 1,
        is_agent_link(definition.links@[0], "agent->user"@),
    ensures
        begun.1 matches HostRequest::CommitEntry(entry) && entry.entry_type@ == definition.name@,
        first->Call_1 matches HostRequest::LinkEntries(link) && link.link_type@ == definition.links@[0].link_type@,
{
}


/// In every state of creating a profile, a failed host call ends the call
/// with that same error.
pub proof fn profile_failures_propagate(state: CreateProfile, error: ZomeApiError, next: Step<CreateProfile, Address>)
    requires
        profile_steps(state, HostReply::Failed(error), next),
    ensures
        next == Step::<CreateProfile, Address>::Finish(Err(error)),
{
}

/// In every state of inviting a user by name, a failed host call ends the
/// call with that same error.
pub proof fn inviting_failures_propagate(state: InviteUser, error: ZomeApiError, next: Step<InviteUser, bool>)
    requires
        inviting_steps(state, HostReply::Failed(error), next),
    ensures
        next == Step::<InviteUser, bool>::Finish(Err(error)),
{
}

/// While an invitation is accepted, a failed host call ends the call with
/// that same error, except the update of the answered invitation, whose
/// outcome is ignored and after which the game is created.
pub proof fn accepting_failures_propagate(state: AcceptInvitation, error: ZomeApiError, next: Step<AcceptInvitation, bool>)
    requires
        accepting_steps(state, HostReply::Failed(error), next),
        !(state matches AcceptInvitation::Answering { answer, .. } && answer is AwaitUpdate),
    ensures
        next == Step::<AcceptInvitation, bool>::Finish(Err(error)),
{
}


/// Creating a profile succeeds only once the link from `me` is made, and
/// then answers `me`: no earlier step finishes with success.
pub proof fn profile_succeeds_only_at_the_end(state: CreateProfile, reply: HostReply, next: Step<CreateProfile, Address>)
    requires
        profile_steps(state, reply, next),
        next is Finish && next->Finish_0 is Ok,
    ensures
        state matches CreateProfile::AwaitLink { me } && next == Step::<CreateProfile, Address>::Finish(Ok(me)),
        reply is Done,
{
}

/// Inviting a user by name succeeds only while sending the invitation, once
/// the invited agent's link is made.
pub proof fn inviting_succeeds_only_at_the_end(state: InviteUser, reply: HostReply, next: Step<InviteUser, bool>)
    requires
        inviting_steps(state, reply, next),
        next is Finish && next->Finish_0 is Ok,
    ensures
        state matches InviteUser::Sending(sending) && sending is AwaitInvitedLink,
        reply is Done,
        next == Step::<InviteUser, bool>::Finish(Ok(true)),
{
}

/// Accepting an invitation succeeds only once the game exists and the
/// rival's link to its match data is made.
pub proof fn accepting_succeeds_only_at_the_end(state: AcceptInvitation, reply: HostReply, next: Step<AcceptInvitation, bool>)
    requires
        accepting_steps(state, reply, next),
        next is Finish && next->Finish_0 is Ok,
    ensures
        state matches AcceptInvitation::Creating(creating) && creating is AwaitRivalLink,
        reply is Done,
        next == Step::<AcceptInvitation, bool>::Finish(Ok(true)),
{
}

} // verus!
