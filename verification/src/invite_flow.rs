//! The host conversations around invitations that both zomes share: sending
//! an invitation, and answering one.
//!
//! Each conversation is a step machine: a `begin` function gives the first
//! state and host request, and a step function takes the state and the
//! host's reply and gives the next request or the call's result. A failed
//! host call ends the conversation with the host's error, as the zome's `?`
//! does; a reply of the wrong kind ends it with an internal error.

use vstd::prelude::*;
use crate::host::{
    Address, EntryDefinition, HostReply, HostRequest, LinkQuery, Step, is_agent_link, is_link_query, is_public_entry_type,
    query_reaches, ZomeApiError, internal_error, is_internal_error, is_link_request, link_request};
use crate::invitation::{Invitation, is_answered, is_invitation_entry, is_pending_invitation_entry, pending_invitation};

verus! {

/// The message of the error that ends a conversation on a reply of the wrong kind.
pub open spec fn unexpected_reply_message() -> Seq<char> {
    "unexpected reply from the host"@
}

/// `next` ends the call because the reply was not of the kind asked for.
pub open spec fn ends_unexpectedly<S, R>(next: Step<S, R>) -> bool {
    next matches Step::Finish(Err(error)) && is_internal_error(error, unexpected_reply_message())
}

/// Ends the call because the reply was not of the kind asked for.
pub fn unexpected_reply<S, R>() -> (next: Step<S, R>)
    ensures
        ends_unexpectedly(next),
{
    Step::Finish(Err(internal_error("unexpected reply from the host")))
}

/// Where sending an invitation stands.
pub enum SendInvitation {
    /// The invitation entry is being committed.
    AwaitCommit { me: Address, opponent: Address },
    /// The inviter's link to the committed invitation is being made.
    AwaitInviterLink { opponent: Address, invitation: Address },
    /// The invited agent's link to the invitation is being made.
    AwaitInvitedLink,
}

/// Sending an invitation from `me` to `opponent` at `timestamp` begins by
/// committing the pending invitation.
pub open spec fn sending_begins(me: Address, opponent: Address, timestamp: u64, begun: (SendInvitation, HostRequest)) -> bool {
    &&& begun.0 == (SendInvitation::AwaitCommit { me, opponent })
    &&& begun.1 matches HostRequest::CommitEntry(entry)
    &&& is_pending_invitation_entry(entry, me@, opponent@, timestamp)
}

/// One step of sending an invitation: once committed, the invitation is
/// linked from the inviter ("inviter"), then from the invited agent
/// ("invited"), and the call answers `true`.
pub open spec fn sending_steps(state: SendInvitation, reply: HostReply, next: Step<SendInvitation, bool>) -> bool {
    match reply {
        HostReply::Failed(error) => next == Step::<SendInvitation, bool>::Finish(Err(error)),
        _ => match state {
            SendInvitation::AwaitCommit { me, opponent } => match reply {
                HostReply::Address(invitation) => {
                    &&& next matches Step::Call(after, request)
                    &&& after == (SendInvitation::AwaitInviterLink { opponent, invitation })
                    &&& is_link_request(request, me@, invitation@, "inviter"@)
                },
                _ => ends_unexpectedly(next),
            },
            SendInvitation::AwaitInviterLink { opponent, invitation } => match reply {
                HostReply::Done => {
                    &&& next matches Step::Call(after, request)
                    &&& after == SendInvitation::AwaitInvitedLink
                    &&& is_link_request(request, opponent@, invitation@, "invited"@)
                },
                _ => ends_unexpectedly(next),
            },
            SendInvitation::AwaitInvitedLink => match reply {
                HostReply::Done => next == Step::<SendInvitation, bool>::Finish(Ok(true)),
                _ => ends_unexpectedly(next),
            },
        },
    }
}

/// Begins sending the pending invitation from `me` to `opponent`.
pub fn send_invitation(me: Address, opponent: Address, timestamp: u64) -> (begun: (SendInvitation, HostRequest))
    ensures
        sending_begins(me, opponent, timestamp, begun),
{
    let invitation = pending_invitation(me.clone(), opponent.clone(), timestamp);
    (SendInvitation::AwaitCommit { me, opponent }, HostRequest::CommitEntry(invitation.entry()))
}

/// Takes one step of sending an invitation.
pub fn send_invitation_step(state: SendInvitation, reply: HostReply) -> (next: Step<SendInvitation, bool>)
    ensures
        sending_steps(state, reply, next),
{
    match reply {
        HostReply::Failed(error) => Step::Finish(Err(error)),
        HostReply::Address(invitation) => match state {
            SendInvitation::AwaitCommit { me, opponent } => {
                let request = link_request(&me, &invitation, "inviter");
                Step::Call(SendInvitation::AwaitInviterLink { opponent, invitation }, request)
            },
            _ => unexpected_reply(),
        },
        HostReply::Done => match state {
            SendInvitation::AwaitInviterLink { opponent, invitation } => {
                let request = link_request(&opponent, &invitation, "invited");
                Step::Call(SendInvitation::AwaitInvitedLink, request)
            },
            SendInvitation::AwaitInvitedLink => Step::Finish(Ok(true)),
            _ => unexpected_reply(),
        },
        _ => unexpected_reply(),
    }
}

/// Where answering an invitation stands.
pub enum AnswerInvitation {
    /// The address of the pending invitation is being computed.
    AwaitAddress { accepting: bool },
    /// The stored invitation is being loaded.
    AwaitInvitation { accepting: bool, address: Address },
    /// The answered invitation is being stored; `inviter` is the inviter the
    /// stored invitation named.
    AwaitUpdate { accepting: bool, inviter: Address },
}

/// The status that an answer gives an invitation.
pub open spec fn answer_status(accepting: bool) -> Seq<char> {
    if accepting { "accepted"@ } else { "rejected"@ }
}

/// Answering the invitation from `inviter` to `invited` sent at `timestamp`
/// begins by asking for the address of that pending invitation.
pub open spec fn answering_begins(inviter: Address, invited: Address, timestamp: u64, accepting: bool, begun: (AnswerInvitation, HostRequest)) -> bool {
    &&& begun.0 == (AnswerInvitation::AwaitAddress { accepting })
    &&& begun.1 matches HostRequest::EntryAddress(entry)
    &&& is_pending_invitation_entry(entry, inviter@, invited@, timestamp)
}

/// One step of answering an invitation: the invitation stored at the
/// address is loaded, and stored back at that address with its new status;
/// what the update answers is ignored and the answer is over (`true`).
pub open spec fn answering_steps(state: AnswerInvitation, reply: HostReply, next: Step<AnswerInvitation, bool>) -> bool {
    match state {
        AnswerInvitation::AwaitUpdate { .. } => next == Step::<AnswerInvitation, bool>::Finish(Ok(true)),
        AnswerInvitation::AwaitAddress { accepting } => match reply {
            HostReply::Failed(error) => next == Step::<AnswerInvitation, bool>::Finish(Err(error)),
            HostReply::Address(address) => {
                &&& next matches Step::Call(after, request)
                &&& after == (AnswerInvitation::AwaitInvitation { accepting, address })
                &&& request == HostRequest::LoadInvitation(address)
            },
            _ => ends_unexpectedly(next),
        },
        AnswerInvitation::AwaitInvitation { accepting, address } => match reply {
            HostReply::Failed(error) => next == Step::<AnswerInvitation, bool>::Finish(Err(error)),
            HostReply::Invitation(invitation) => {
                &&& next matches Step::Call(after, request)
                &&& after == (AnswerInvitation::AwaitUpdate { accepting, inviter: invitation.inviter })
                &&& request matches HostRequest::UpdateEntry(entry, at)
                &&& at == address
                &&& entry.entry_type@ == "invitation"@
                &&& entry.content matches crate::host::EntryContent::Invitation(answered)
                &&& is_answered(answered, invitation, answer_status(accepting))
            },
            _ => ends_unexpectedly(next),
        },
    }
}

/// Begins answering the invitation from `inviter` to `invited` sent at `timestamp`.
pub fn answer_invitation(inviter: Address, invited: Address, timestamp: u64, accepting: bool) -> (begun: (AnswerInvitation, HostRequest))
    ensures
        answering_begins(inviter, invited, timestamp, accepting, begun),
{
    let invitation = pending_invitation(inviter, invited, timestamp);
    (AnswerInvitation::AwaitAddress { accepting }, HostRequest::EntryAddress(invitation.entry()))
}

/// `invitation` with its status set to the answer's.
fn answered(invitation: Invitation, accepting: bool) -> (answer: Invitation)
    ensures
        is_answered(answer, invitation, answer_status(accepting)),
{
    let mut answer = invitation;
    answer.status = if accepting { "accepted".to_string() } else { "rejected".to_string() };
    answer
}

/// Takes one step of answering an invitation.
pub fn answer_invitation_step(state: AnswerInvitation, reply: HostReply) -> (next: Step<AnswerInvitation, bool>)
    ensures
        answering_steps(state, reply, next),
{
    match state {
        AnswerInvitation::AwaitUpdate { .. } => Step::Finish(Ok(true)),
        AnswerInvitation::AwaitAddress { accepting } => match reply {
            HostReply::Failed(error) => Step::Finish(Err(error)),
            HostReply::Address(address) => {
                let request = HostRequest::LoadInvitation(address.clone());
                Step::Call(AnswerInvitation::AwaitInvitation { accepting, address }, request)
            },
            _ => unexpected_reply(),
        },
        AnswerInvitation::AwaitInvitation { accepting, address } => match reply {
            HostReply::Failed(error) => Step::Finish(Err(error)),
            HostReply::Invitation(invitation) => {
                let inviter = invitation.inviter.clone();
                let answer = answered(invitation, accepting);
                let request = HostRequest::UpdateEntry(answer.entry(), address);
                Step::Call(AnswerInvitation::AwaitUpdate { accepting, inviter }, request)
            },
            _ => unexpected_reply(),
        },
    }
}

/// The query for the invitations `me` sent: those linked from `me` as "inviter".
pub fn sent_invitations_query(me: &Address) -> (query: LinkQuery)
    ensures
        is_link_query(query, me@, "inviter"@),
{
    LinkQuery { base: me.clone(), link_type: "inviter".to_string() }
}

/// The query for the invitations `me` received: those linked from `me` as "invited".
pub fn received_invitations_query(me: &Address) -> (query: LinkQuery)
    ensures
        is_link_query(query, me@, "invited"@),
{
    LinkQuery { base: me.clone(), link_type: "invited".to_string() }
}


/// Sending an invitation that the host carries out at every step commits the
/// pending invitation, links it from the inviter ("inviter") and from the
/// invited agent ("invited"), and answers `true`.
pub proof fn sending_succeeds(
    me: Address,
    opponent: Address,
    timestamp: u64,
    invitation: Address,
    begun: (SendInvitation, HostRequest),
    first: Step<SendInvitation, bool>,
    second: Step<SendInvitation, bool>,
    third: Step<SendInvitation, bool>,
)
    requires
        sending_begins(me, opponent, timestamp, begun),
        sending_steps(begun.0, HostReply::Address(invitation), first),
        sending_steps(first->Call_0, HostReply::Done, second),
        sending_steps(second->Call_0, HostReply::Done, third),
    ensures
        begun.1 matches HostRequest::CommitEntry(entry) && is_pending_invitation_entry(entry, me@, opponent@, timestamp),
        first matches Step::Call(_, request) && is_link_request(request, me@, invitation@, "inviter"@),
        second matches Step::Call(_, request) && is_link_request(request, opponent@, invitation@, "invited"@),
        third == Step::<SendInvitation, bool>::Finish(Ok(true)),
{
}

/// A sent invitation is listed on both sides: the inviter's query for sent
/// invitations and the invited agent's query for received invitations each
/// find one of the links that sending it made.
pub proof fn sent_invitation_is_listed(
    me: Address,
    opponent: Address,
    timestamp: u64,
    invitation: Address,
    begun: (SendInvitation, HostRequest),
    first: Step<SendInvitation, bool>,
    second: Step<SendInvitation, bool>,
    sent: LinkQuery,
    received: LinkQuery,
)
    requires
        sending_begins(me, opponent, timestamp, begun),
        sending_steps(begun.0, HostReply::Address(invitation), first),
        sending_steps(first->Call_0, HostReply::Done, second),
        is_link_query(sent, me@, "inviter"@),
        is_link_query(received, opponent@, "invited"@),
    ensures
        query_reaches(sent, first->Call_1, invitation@),
        query_reaches(received, second->Call_1, invitation@),
{
}

/// Answering an invitation looks up the stored invitation at the address of
/// the pending one, stores it back there with the answer's status, and
/// answers `true` whatever the update replied.
pub proof fn answering_succeeds(
    inviter: Address,
    invited: Address,
    timestamp: u64,
    accepting: bool,
    address: Address,
    stored: Invitation,
    update_reply: HostReply,
    begun: (AnswerInvitation, HostRequest),
    first: Step<AnswerInvitation, bool>,
    second: Step<AnswerInvitation, bool>,
    third: Step<AnswerInvitation, bool>,
)
    requires
        answering_begins(inviter, invited, timestamp, accepting, begun),
        answering_steps(begun.0, HostReply::Address(address), first),
        answering_steps(first->Call_0, HostReply::Invitation(stored), second),
        answering_steps(second->Call_0, update_reply, third),
    ensures
        begun.1 matches HostRequest::EntryAddress(entry) && is_pending_invitation_entry(entry, inviter@, invited@, timestamp),
        first matches Step::Call(_, request) && request == HostRequest::LoadInvitation(address),
        second matches Step::Call(_, HostRequest::UpdateEntry(entry, at)) && at == address
            && (entry.content matches crate::host::EntryContent::Invitation(answered)
            && is_answered(answered, stored, answer_status(accepting))),
        third == Step::<AnswerInvitation, bool>::Finish(Ok(true)),
{
}

/// A failed host call ends a conversation about an invitation with the
/// host's error, except the update of an answered invitation, whose outcome
/// is ignored.
pub proof fn invitation_failures_propagate(
    sending: SendInvitation,
    answering: AnswerInvitation,
    error: ZomeApiError,
    sending_next: Step<SendInvitation, bool>,
    answering_next: Step<AnswerInvitation, bool>,
)
    requires
        sending_steps(sending, HostReply::Failed(error), sending_next),
        answering_steps(answering, HostReply::Failed(error), answering_next),
    ensures
        sending_next == Step::<SendInvitation, bool>::Finish(Err(error)),
        !(answering is AwaitUpdate) ==> answering_next == Step::<AnswerInvitation, bool>::Finish(Err(error)),
        answering is AwaitUpdate ==> answering_next == Step::<AnswerInvitation, bool>::Finish(Ok(true)),
{
}


/// The links that sending an invitation makes are of the types that the
/// invitation entry type declares, and the entry it commits is of that type.
pub proof fn sending_uses_declared_types(
    me: Address,
    opponent: Address,
    timestamp: u64,
    invitation: Address,
    begun: (SendInvitation, HostRequest),
    first: Step<SendInvitation, bool>,
    second: Step<SendInvitation, bool>,
    definition: EntryDefinition,
)
    requires
        sending_begins(me, opponent, timestamp, begun),
        sending_steps(begun.0, HostReply::Address(invitation), first),
        sending_steps(first->Call_0, HostReply::Done, second),
        is_public_entry_type(definition, "invitation"@, "An invitation from one user to another"@),
        definition.links@.len() == 2,
        is_agent_link(definition.links@[0], "invited"@),
        is_agent_link(definition.links@[1], "inviter"@),
    ensures
        begun.1 matches HostRequest::CommitEntry(entry) && entry.entry_type@ == definition.name@,
        first->Call_1 matches HostRequest::LinkEntries(link) && link.link_type@ == definition.links@[1].link_type@,
        second->Call_1 matches HostRequest::LinkEntries(link) && link.link_type@ == definition.links@[0].link_type@,
{
}


/// Sending an invitation succeeds only once the invited agent's link is
/// made: no earlier step, whatever the reply, finishes with success.
pub proof fn sending_succeeds_only_at_the_end(state: SendInvitation, reply: HostReply, next: Step<SendInvitation, bool>)
    requires
        sending_steps(state, reply, next),
        next is Finish && next->Finish_0 is Ok,
    ensures
        state is AwaitInvitedLink,
        reply is Done,
        next == Step::<SendInvitation, bool>::Finish(Ok(true)),
{
}

/// Answering an invitation succeeds only once the answered invitation has
/// been sent back to be stored: no earlier step finishes with success.
pub proof fn answering_succeeds_only_at_the_end(state: AnswerInvitation, reply: HostReply, next: Step<AnswerInvitation, bool>)
    requires
        answering_steps(state, reply, next),
        next is Finish && next->Finish_0 is Ok,
    ensures
        state is AwaitUpdate,
        next == Step::<AnswerInvitation, bool>::Finish(Ok(true)),
{
}

} // verus!
