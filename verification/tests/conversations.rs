use dchess::chess_zome;
use dchess::game_chess::{create_game, create_game_step};
use dchess::game_zome;
use dchess::host::{
    EntryContent, EntryHeader, HeaderLookup, HostReply, HostRequest, LinkRequest, Step, ZomeApiError,
};
use dchess::invitation::Invitation;
use dchess::invite_flow::{
    answer_invitation, answer_invitation_step, received_invitations_query, send_invitation,
    send_invitation_step, sent_invitations_query,
};
use dchess::user::User;

/// Runs a conversation against scripted replies; returns the requests made
/// and the result, if the conversation finished.
fn run<S, R>(
    begun: (S, HostRequest),
    replies: Vec<HostReply>,
    step: impl Fn(S, HostReply) -> Step<S, R>,
) -> (Vec<HostRequest>, Option<Result<R, ZomeApiError>>) {
    let (mut state, first) = begun;
    let mut requests = vec![first];
    for reply in replies {
        match step(state, reply) {
            Step::Call(next, request) => {
                requests.push(request);
                state = next;
            }
            Step::Finish(result) => return (requests, Some(result)),
        }
    }
    (requests, None)
}

fn address(text: &str) -> HostReply {
    HostReply::Address(text.to_string())
}

fn link(request: &HostRequest) -> &LinkRequest {
    match request {
        HostRequest::LinkEntries(link) => link,
        other => panic!("expected a link, got {:?}", other),
    }
}

fn internal(text: &str) -> ZomeApiError {
    ZomeApiError::Internal(text.to_string())
}

fn stored_invitation() -> Invitation {
    Invitation {
        inviter: "stored-inviter".to_string(),
        invited: "bob".to_string(),
        status: "Pending".to_string(),
        timestamp: 10,
    }
}

#[test]
fn sending_an_invitation_commits_it_and_links_it_both_ways() {
    let begun = send_invitation("alice".to_string(), "bob".to_string(), 42);
    let (requests, result) = run(begun, vec![address("inv"), HostReply::Done, HostReply::Done], send_invitation_step);
    assert_eq!(result, Some(Ok(true)));
    assert_eq!(requests.len(), 3);
    match &requests[0] {
        HostRequest::CommitEntry(entry) => match &entry.content {
            EntryContent::Invitation(invitation) => {
                assert_eq!(entry.entry_type, "invitation");
                assert_eq!(invitation.inviter, "alice");
                assert_eq!(invitation.invited, "bob");
                assert_eq!(invitation.status, "Pending");
                assert_eq!(invitation.timestamp, 42);
            }
            _ => panic!("expected an invitation"),
        },
        other => panic!("expected a commit, got {:?}", other),
    }
    let inviter_link = link(&requests[1]);
    assert_eq!((inviter_link.base.as_str(), inviter_link.target.as_str()), ("alice", "inv"));
    assert_eq!((inviter_link.link_type.as_str(), inviter_link.tag.as_str()), ("inviter", ""));
    let invited_link = link(&requests[2]);
    assert_eq!((invited_link.base.as_str(), invited_link.target.as_str()), ("bob", "inv"));
    assert_eq!((invited_link.link_type.as_str(), invited_link.tag.as_str()), ("invited", ""));

    let sent = sent_invitations_query(&"alice".to_string());
    assert_eq!((sent.base.as_str(), sent.link_type.as_str()), ("alice", "inviter"));
    let received = received_invitations_query(&"bob".to_string());
    assert_eq!((received.base.as_str(), received.link_type.as_str()), ("bob", "invited"));
}

#[test]
fn a_failed_call_ends_sending_with_its_error() {
    let begun = send_invitation("alice".to_string(), "bob".to_string(), 1);
    let (requests, result) = run(begun, vec![address("inv"), HostReply::Failed(ZomeApiError::Timeout)], send_invitation_step);
    assert_eq!(requests.len(), 2);
    assert_eq!(result, Some(Err(ZomeApiError::Timeout)));
}

#[test]
fn a_reply_of_the_wrong_kind_ends_sending() {
    let begun = send_invitation("alice".to_string(), "bob".to_string(), 1);
    let (_, result) = run(begun, vec![HostReply::Done], send_invitation_step);
    assert_eq!(result, Some(Err(internal("unexpected reply from the host"))));
}

#[test]
fn rejecting_stores_the_invitation_as_rejected() {
    let begun = answer_invitation("alice".to_string(), "bob".to_string(), 10, false);
    let replies = vec![address("inv"), HostReply::Invitation(stored_invitation()), HostReply::Done];
    let (requests, result) = run(begun, replies, answer_invitation_step);
    assert_eq!(result, Some(Ok(true)));
    match &requests[0] {
        HostRequest::EntryAddress(entry) => match &entry.content {
            EntryContent::Invitation(invitation) => {
                assert_eq!((invitation.inviter.as_str(), invitation.invited.as_str()), ("alice", "bob"));
                assert_eq!((invitation.status.as_str(), invitation.timestamp), ("Pending", 10));
            }
            _ => panic!("expected an invitation"),
        },
        other => panic!("expected an address lookup, got {:?}", other),
    }
    assert!(matches!(&requests[1], HostRequest::LoadInvitation(at) if at == "inv"));
    match &requests[2] {
        HostRequest::UpdateEntry(entry, at) => {
            assert_eq!(at, "inv");
            match &entry.content {
                EntryContent::Invitation(invitation) => {
                    assert_eq!(invitation.status, "rejected");
                    assert_eq!(invitation.inviter, "stored-inviter");
                }
                _ => panic!("expected an invitation"),
            }
        }
        other => panic!("expected an update, got {:?}", other),
    }
}

#[test]
fn a_failed_update_does_not_fail_the_answer() {
    let begun = answer_invitation("alice".to_string(), "bob".to_string(), 10, false);
    let replies = vec![address("inv"), HostReply::Invitation(stored_invitation()), HostReply::Failed(ZomeApiError::HashNotFound)];
    let (_, result) = run(begun, replies, answer_invitation_step);
    assert_eq!(result, Some(Ok(true)));
}

#[test]
fn a_missing_invitation_fails_the_answer() {
    let begun = answer_invitation("alice".to_string(), "bob".to_string(), 10, false);
    let replies = vec![address("inv"), HostReply::Failed(ZomeApiError::HashNotFound)];
    let (requests, result) = run(begun, replies, answer_invitation_step);
    assert_eq!(requests.len(), 2);
    assert_eq!(result, Some(Err(ZomeApiError::HashNotFound)));
}

#[test]
fn accepting_starts_a_game_against_the_stored_inviter() {
    let begun = chess_zome::accept_invitation("bob".to_string(), "alice".to_string(), "bob".to_string(), 10, 99);
    let replies = vec![address("inv"), HostReply::Invitation(stored_invitation()), HostReply::Done, address("game")];
    let (requests, result) = run(begun, replies, chess_zome::accept_invitation_step);
    assert_eq!(result, Some(Ok(true)));
    assert_eq!(requests.len(), 4);
    match &requests[2] {
        HostRequest::UpdateEntry(entry, _) => match &entry.content {
            EntryContent::Invitation(invitation) => assert_eq!(invitation.status, "accepted"),
            _ => panic!("expected an invitation"),
        },
        other => panic!("expected an update, got {:?}", other),
    }
    match &requests[3] {
        HostRequest::CreateGame(entry) => {
            assert_eq!(entry.players, vec!["stored-inviter".to_string(), "bob".to_string()]);
            assert_eq!(entry.created_at, 99);
        }
        other => panic!("expected a new game, got {:?}", other),
    }
}

#[test]
fn a_game_that_cannot_be_created_fails_the_acceptance() {
    let begun = chess_zome::accept_invitation("bob".to_string(), "alice".to_string(), "bob".to_string(), 10, 99);
    let replies = vec![
        address("inv"),
        HostReply::Invitation(stored_invitation()),
        HostReply::Done,
        HostReply::Failed(ZomeApiError::ValidationFailed("no".to_string())),
    ];
    let (_, result) = run(begun, replies, chess_zome::accept_invitation_step);
    assert_eq!(result, Some(Err(ZomeApiError::ValidationFailed("no".to_string()))));
}

#[test]
fn surrendering_submits_a_resignation() {
    let submission = chess_zome::surrender("game".to_string());
    assert_eq!(submission.game_address, "game");
    assert!(matches!(submission.game_move, dchess::chess_game::ChessGameMove::Resign));
    assert!(chess_zome::init().is_ok());
}

#[test]
fn creating_a_profile_links_it_from_its_agent() {
    let begun = game_zome::create_profile("me".to_string(), "carol".to_string());
    let (requests, result) = run(begun, vec![address("profile"), HostReply::Done], game_zome::create_profile_step);
    assert_eq!(result, Some(Ok("me".to_string())));
    match &requests[0] {
        HostRequest::CommitEntry(entry) => {
            assert_eq!(entry.entry_type, "user");
            assert!(matches!(&entry.content, EntryContent::User(user) if user.username == "carol"));
        }
        other => panic!("expected a commit, got {:?}", other),
    }
    let profile_link = link(&requests[1]);
    assert_eq!((profile_link.base.as_str(), profile_link.target.as_str()), ("me", "profile"));
    assert_eq!(profile_link.link_type, "agent->user");
    let query = game_zome::profiles_query(&"me".to_string());
    assert_eq!((query.base.as_str(), query.link_type.as_str()), ("me", "agent->user"));
}

#[test]
fn the_last_profile_names_the_user() {
    let profiles = vec![User::from("old".to_string()), User::from("new".to_string())];
    assert_eq!(game_zome::get_username(profiles.clone()), Ok("new".to_string()));
    assert_eq!(game_zome::get_username(Vec::new()), Err(internal("profile not found")));
    assert_eq!(game_zome::get_my_profile(profiles).map(|user| user.username), Ok("new".to_string()));
    assert_eq!(game_zome::get_my_profile(Vec::new()).map(|user| user.username), Err(internal("No profile registered")));
}

fn signed_by(agents: &[&str]) -> EntryHeader {
    EntryHeader { provenances: agents.iter().map(|a| a.to_string()).collect() }
}

#[test]
fn inviting_by_name_invites_the_profile_author() {
    let begun = game_zome::invite_user("me".to_string(), "dave".to_string(), 5);
    let replies = vec![
        address("dave-profile"),
        HostReply::Headers(HeaderLookup::Single(vec![signed_by(&["dave-agent", "witness"]), signed_by(&["other"])])),
        address("inv"),
        HostReply::Done,
        HostReply::Done,
    ];
    let (requests, result) = run(begun, replies, game_zome::invite_user_step);
    assert_eq!(result, Some(Ok(true)));
    assert_eq!(requests.len(), 5);
    match &requests[0] {
        HostRequest::EntryAddress(entry) => {
            assert!(matches!(&entry.content, EntryContent::User(user) if user.username == "dave"));
        }
        other => panic!("expected an address lookup, got {:?}", other),
    }
    assert!(matches!(&requests[1], HostRequest::GetEntryHeaders(at) if at == "dave-profile"));
    match &requests[2] {
        HostRequest::CommitEntry(entry) => {
            assert!(matches!(&entry.content, EntryContent::Invitation(i) if i.inviter == "me" && i.invited == "dave-agent" && i.timestamp == 5));
        }
        other => panic!("expected a commit, got {:?}", other),
    }
    assert_eq!(link(&requests[3]).base, "me");
    assert_eq!(link(&requests[4]).base, "dave-agent");
}

#[test]
fn inviting_an_unknown_user_fails() {
    let begun = game_zome::invite_user("me".to_string(), "nobody".to_string(), 5);
    let (_, result) = run(begun, vec![address("p"), HostReply::Headers(HeaderLookup::Single(Vec::new()))], game_zome::invite_user_step);
    assert_eq!(result, Some(Err(internal("User not found"))));
    let begun = game_zome::invite_user("me".to_string(), "many".to_string(), 5);
    let (_, result) = run(begun, vec![address("p"), HostReply::Headers(HeaderLookup::All)], game_zome::invite_user_step);
    assert_eq!(result, Some(Err(internal("How did this even happen"))));
    let begun = game_zome::invite_user("me".to_string(), "x".to_string(), 5);
    let (_, result) = run(begun, vec![HostReply::Failed(ZomeApiError::Timeout)], game_zome::invite_user_step);
    assert_eq!(result, Some(Err(ZomeApiError::Timeout)));
}

#[test]
fn creating_a_game_commits_and_links_its_match_data() {
    let begun = create_game("rival".to_string(), "me".to_string(), 3);
    let replies = vec![address("game"), address("match"), HostReply::Done, HostReply::Done];
    let (requests, result) = run(begun, replies, create_game_step);
    assert_eq!(result, Some(Ok(())));
    match &requests[0] {
        HostRequest::CreateGame(entry) => {
            assert_eq!(entry.players, vec!["rival".to_string(), "me".to_string()]);
            assert_eq!(entry.created_at, 3);
        }
        other => panic!("expected a new game, got {:?}", other),
    }
    match &requests[1] {
        HostRequest::CommitEntry(entry) => {
            assert_eq!(entry.entry_type, "match_data");
            assert!(matches!(&entry.content, EntryContent::MatchData(data) if data.match_address == "game"));
        }
        other => panic!("expected a commit, got {:?}", other),
    }
    let own = link(&requests[2]);
    assert_eq!((own.base.as_str(), own.target.as_str(), own.link_type.as_str()), ("me", "match", "agent->match_data"));
    let rival = link(&requests[3]);
    assert_eq!((rival.base.as_str(), rival.target.as_str(), rival.link_type.as_str()), ("rival", "match", "agent->match_data"));
    let mine = game_zome::my_games_query(&"me".to_string());
    assert_eq!((mine.base.as_str(), mine.link_type.as_str()), ("me", "agent->match_data"));
}

#[test]
fn accepting_in_the_profile_zome_creates_the_game_and_its_match_data() {
    let begun = game_zome::accept_invitation("bob".to_string(), "alice".to_string(), "bob".to_string(), 10, 8);
    let replies = vec![
        address("inv"),
        HostReply::Invitation(stored_invitation()),
        HostReply::Failed(ZomeApiError::Timeout),
        address("game"),
        address("match"),
        HostReply::Done,
        HostReply::Done,
    ];
    let (requests, result) = run(begun, replies, game_zome::accept_invitation_step);
    assert_eq!(result, Some(Ok(true)));
    assert_eq!(requests.len(), 7);
    match &requests[3] {
        HostRequest::CreateGame(entry) => {
            assert_eq!(entry.players, vec!["stored-inviter".to_string(), "bob".to_string()]);
            assert_eq!(entry.created_at, 8);
        }
        other => panic!("expected a new game, got {:?}", other),
    }
    assert_eq!(link(&requests[6]).base, "stored-inviter");
}

#[test]
fn placing_a_piece_submits_the_move() {
    let submission = game_zome::place_piece("game".to_string(), 2, 5, 4, 5);
    assert_eq!(submission.game_address, "game");
    assert_eq!(
        submission.game_move,
        dchess::game_chess::ChessMove::Place(dchess::game_chess::Move {
            origin_number: 2,
            origin_letter: 5,
            destination_number: 4,
            destination_letter: 5,
        })
    );
    assert_eq!(game_zome::surrender("game".to_string()).game_move, dchess::game_chess::ChessMove::Resign);
    assert!(game_zome::init().is_ok());
}

#[test]
fn every_agent_may_join() {
    let agent = dchess::host::AgentId { nick: "n".to_string(), pub_sign_key: "k".to_string() };
    assert!(chess_zome::validate_agent(&agent).is_ok());
    assert!(game_zome::validate_agent(&agent).is_ok());
}

