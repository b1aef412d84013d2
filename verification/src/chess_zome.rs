//! The public calls of the address-based zome, as far as they decide
//! anything: the agent check, accepting an invitation (answering it, then
//! starting the game), and the moves a player submits. Inviting an agent and
//! rejecting an invitation are the shared conversations of
//! [`crate::invite_flow`].

use vstd::prelude::*;
use crate::chess_game::{ChessGameMove, create_game};
use crate::host::{Address, AgentId, HostReply, HostRequest, MoveSubmission, Step, ZomeApiError};
use crate::invite_flow::{
    AnswerInvitation, answer_invitation, answer_invitation_step, answering_begins, answering_steps,
    ends_unexpectedly, unexpected_reply,
};

verus! {

/// The zome starts up without further setup.
pub fn init() -> (outcome: Result<(), String>)
    ensures
        outcome is Ok,
{
    Ok(())
}

/// Every agent may join.
pub fn validate_agent(validation_data: &AgentId) -> (verdict: Result<(), String>)
    ensures
        verdict is Ok,
{
    Ok(())
}

/// Giving up the game stored at `game_address`.
pub fn surrender(game_address: Address) -> (submission: MoveSubmission<ChessGameMove>)
    ensures
        submission.game_address == game_address,
        submission.game_move == ChessGameMove::Resign,
{
    MoveSubmission { game_address, game_move: ChessGameMove::Resign }
}

/// Where accepting an invitation stands.
pub enum AcceptInvitation {
    /// The invitation is being answered; `me` and `timestamp` are kept for the game.
    Answering { me: Address, timestamp: u64, answer: AnswerInvitation },
    /// The game is being created.
    AwaitGame,
}

/// Accepting the invitation from `inviter` to `invited` sent at
/// `invitation_timestamp` begins by answering it.
pub open spec fn accepting_begins(
    me: Address,
    inviter: Address,
    invited: Address,
    invitation_timestamp: u64,
    timestamp: u64,
    begun: (AcceptInvitation, HostRequest),
) -> bool {
    &&& begun.0 matches AcceptInvitation::Answering { me: kept, timestamp: kept_timestamp, answer }
    &&& kept == me
    &&& kept_timestamp == timestamp
    &&& answering_begins(inviter, invited, invitation_timestamp, true, (answer, begun.1))
}

/// One step of accepting an invitation: the invitation is answered with
/// "accepted"; once it is stored, a game is created with the inviter named
/// by the stored invitation as white and `me` as black, and when the game
/// is created the call answers `true`.
pub open spec fn accepting_steps(state: AcceptInvitation, reply: HostReply, next: Step<AcceptInvitation, bool>) -> bool {
    match state {
        AcceptInvitation::Answering { me, timestamp, answer } => match answer {
            AnswerInvitation::AwaitUpdate { inviter, .. } => {
                &&& next matches Step::Call(after, request)
                &&& after == AcceptInvitation::AwaitGame
                &&& request matches HostRequest::CreateGame(entry)
                &&& entry.players@ == seq![inviter, me]
                &&& entry.created_at == timestamp
            },
            _ => match next {
                Step::Call(AcceptInvitation::Answering { me: kept, timestamp: kept_timestamp, answer: after }, request) => {
                    &&& kept == me
                    &&& kept_timestamp == timestamp
                    &&& answering_steps(answer, reply, Step::Call(after, request))
                },
                Step::Call(AcceptInvitation::AwaitGame, _) => false,
                Step::Finish(result) => answering_steps(answer, reply, Step::Finish(result)),
            },
        },
        AcceptInvitation::AwaitGame => match reply {
            HostReply::Address(_) => next == Step::<AcceptInvitation, bool>::Finish(Ok(true)),
            HostReply::Failed(error) => next == Step::<AcceptInvitation, bool>::Finish(Err(error)),
            _ => ends_unexpectedly(next),
        },
    }
}

/// Begins accepting, as `me`, the invitation from `inviter` to `invited`
/// sent at `invitation_timestamp`; the game will be created at `timestamp`.
pub fn accept_invitation(
    me: Address,
    inviter: Address,
    invited: Address,
    invitation_timestamp: u64,
    timestamp: u64,
) -> (begun: (AcceptInvitation, HostRequest))
    ensures
        accepting_begins(me, inviter, invited, invitation_timestamp, timestamp, begun),
{
    let (answer, request) = answer_invitation(inviter, invited, invitation_timestamp, true);
    (AcceptInvitation::Answering { me, timestamp, answer }, request)
}

/// Takes one step of accepting an invitation.
pub fn accept_invitation_step(state: AcceptInvitation, reply: HostReply) -> (next: Step<AcceptInvitation, bool>)
    ensures
        accepting_steps(state, reply, next),
{
    match state {
        AcceptInvitation::Answering { me, timestamp, answer } => match answer {
            AnswerInvitation::AwaitUpdate { inviter, .. } => {
                let entry = create_game(inviter, me, timestamp);
                Step::Call(AcceptInvitation::AwaitGame, HostRequest::CreateGame(entry))
            },
            _ => match answer_invitation_step(answer, reply) {
                Step::Call(after, request) => Step::Call(AcceptInvitation::Answering { me, timestamp, answer: after }, request),
                Step::Finish(result) => Step::Finish(result),
            },
        },
        AcceptInvitation::AwaitGame => match reply {
            HostReply::Address(_) => Step::Finish(Ok(true)),
            HostReply::Failed(error) => Step::Finish(Err(error)),
            _ => unexpected_reply(),
        },
    }
}


/// Accepting an invitation, once the answered invitation is stored, creates
/// the game with the inviter that the stored invitation names as white and
/// `me` as black; once the game exists the call answers `true`.
pub proof fn accepting_creates_the_game(
    me: Address,
    timestamp: u64,
    inviter: Address,
    update_reply: HostReply,
    game: Address,
    next: Step<AcceptInvitation, bool>,
    last: Step<AcceptInvitation, bool>,
)
    requires
        accepting_steps(
            AcceptInvitation::Answering { me, timestamp, answer: AnswerInvitation::AwaitUpdate { accepting: true, inviter } },
            update_reply,
            next,
        ),
        accepting_steps(AcceptInvitation::AwaitGame, HostReply::Address(game), last),
    ensures
        next matches Step::Call(AcceptInvitation::AwaitGame, HostRequest::CreateGame(entry))
            && entry.players@ == seq![inviter, me] && entry.created_at == timestamp,
        last == Step::<AcceptInvitation, bool>::Finish(Ok(true)),
{
}


/// While an invitation is accepted, a failed host call ends the call with
/// that same error, except the update of the answered invitation, whose
/// outcome is ignored and after which the game is created.
pub proof fn accepting_failures_propagate(state: AcceptInvitation, error: ZomeApiError, next: Step<AcceptInvitation, bool>)
    requires
        accepting_steps(state, HostReply::Failed(error), next),
        !(state matches AcceptInvitation::Answering { answer, .. } && answer is AwaitUpdate),
    ensures
        next == Step::<AcceptInvitation, bool>::Finish(Err(error)),
{
}


/// Accepting an invitation succeeds only once the game has been created.
pub proof fn accepting_succeeds_only_at_the_end(state: AcceptInvitation, reply: HostReply, next: Step<AcceptInvitation, bool>)
    requires
        accepting_steps(state, reply, next),
        next is Finish && next->Finish_0 is Ok,
    ensures
        state is AwaitGame,
        reply is Address,
        next == Step::<AcceptInvitation, bool>::Finish(Ok(true)),
{
}

} // verus!
