//! The values that pass between the zome logic and the host that stores
//! entries and links: addresses, errors, entries, entry type definitions,
//! the requests the zome makes and the replies it gets.

use vstd::prelude::*;
use crate::invitation::Invitation;
use crate::user::User;
use crate::game_chess::MatchData;

verus! {

/// The address of an entry or of an agent: its hash, as text.
pub type Address = String;

/// The identity an agent joins with.
#[derive(Debug)]
pub struct AgentId {
    pub nick: String,
    pub pub_sign_key: String,
}

/// The errors that a zome call reports, as the host API defines them.
#[derive(Clone, Debug, PartialEq, Eq)]
pub enum ZomeApiError {
    Internal(String),
    FunctionNotImplemented,
    HashNotFound,
    ValidationFailed(String),
    Timeout,
}

/// The application data that an entry carries.
#[derive(Debug)]
pub enum EntryContent {
    Invitation(Invitation),
    User(User),
    MatchData(MatchData),
}

/// An application entry: its type name and its content.
#[derive(Debug)]
pub struct AppEntry {
    pub entry_type: String,
    pub content: EntryContent,
}

/// Who can see the entries of a type.
#[derive(Clone, Copy, Debug, PartialEq, Eq, Structural)]
pub enum Sharing {
    Public,
    Private,
    Encrypted,
}

/// What a validator receives along with the data it validates.
#[derive(Clone, Copy, Debug, PartialEq, Eq, Structural)]
pub enum ValidationPackage {
    Entry,
    ChainEntries,
    ChainHeaders,
    ChainFull,
}

/// A link type that leads from entries of `base_type` to entries of the
/// defining type.
#[derive(Debug)]
pub struct LinkDefinition {
    pub base_type: String,
    pub link_type: String,
    pub validation_package: ValidationPackage,
}

/// The definition of an entry type and of the links that lead to it.
#[derive(Debug)]
pub struct EntryDefinition {
    pub name: String,
    pub description: String,
    pub sharing: Sharing,
    pub validation_package: ValidationPackage,
    pub links: Vec<LinkDefinition>,
}

/// A request to link `base` to `target`.
#[derive(Debug)]
pub struct LinkRequest {
    pub base: Address,
    pub target: Address,
    pub link_type: String,
    pub tag: String,
}

/// A request to load the entries linked from `base` by links of `link_type`
/// (any tag).
#[derive(Debug)]
pub struct LinkQuery {
    pub base: Address,
    pub link_type: String,
}

/// A new turn-based game: its players, in order, and when it was created.
#[derive(Debug)]
pub struct GameEntry {
    pub players: Vec<Address>,
    pub created_at: u64,
}

/// A move to record on the game stored at `game_address`.
#[derive(Debug)]
pub struct MoveSubmission<M> {
    pub game_address: Address,
    pub game_move: M,
}

/// A header of a stored entry, reduced to the agents that signed it.
#[derive(Debug)]
pub struct EntryHeader {
    pub provenances: Vec<Address>,
}

/// What a lookup of an entry's metadata found.
#[derive(Debug)]
pub enum HeaderLookup {
    Single(Vec<EntryHeader>),
    All,
}

/// A call that a zome function asks the host to make.
#[derive(Debug)]
pub enum HostRequest {
    EntryAddress(AppEntry),
    GetEntryHeaders(Address),
    CommitEntry(AppEntry),
    LinkEntries(LinkRequest),
    LoadInvitation(Address),
    UpdateEntry(AppEntry, Address),
    CreateGame(GameEntry),
}

/// The host's answer to a [`HostRequest`].
#[derive(Debug)]
pub enum HostReply {
    Address(Address),
    Headers(HeaderLookup),
    Invitation(Invitation),
    Done,
    Failed(ZomeApiError),
}

/// What a zome function does next: make a host call and wait in a new state,
/// or finish with its result.
#[derive(Debug)]
pub enum Step<S, R> {
    Call(S, HostRequest),
    Finish(Result<R, ZomeApiError>),
}

/// `error` is the internal error with this message.
pub open spec fn is_internal_error(error: ZomeApiError, message: Seq<char>) -> bool {
    error matches ZomeApiError::Internal(text) && text@ == message
}

/// `request` links `base` to `target` by a link of `link_type` with an empty tag.
pub open spec fn is_link_request(request: HostRequest, base: Seq<char>, target: Seq<char>, link_type: Seq<char>) -> bool {
    &&& request matches HostRequest::LinkEntries(link)
    &&& link.base@ == base
    &&& link.target@ == target
    &&& link.link_type@ == link_type
    &&& link.tag@ == ""@
}

/// `query` loads what `base` links to by links of `link_type`.
pub open spec fn is_link_query(query: LinkQuery, base: Seq<char>, link_type: Seq<char>) -> bool {
    query.base@ == base && query.link_type@ == link_type
}

/// `request` makes a link that `query` finds, and the link leads to `target`.
pub open spec fn query_reaches(query: LinkQuery, request: HostRequest, target: Seq<char>) -> bool {
    &&& request matches HostRequest::LinkEntries(link)
    &&& link.base@ == query.base@
    &&& link.link_type@ == query.link_type@
    &&& link.target@ == target
}

/// `definition` is a link type from agents, checked on the entry alone.
pub open spec fn is_agent_link(definition: LinkDefinition, link_type: Seq<char>) -> bool {
    &&& definition.base_type@ == "%agent_id"@
    &&& definition.link_type@ == link_type
    &&& definition.validation_package == ValidationPackage::Entry
}

/// `definition` defines the public type `name` with `description`, checked on
/// the entry alone.
pub open spec fn is_public_entry_type(definition: EntryDefinition, name: Seq<char>, description: Seq<char>) -> bool {
    &&& definition.name@ == name
    &&& definition.description@ == description
    &&& definition.sharing == Sharing::Public
    &&& definition.validation_package == ValidationPackage::Entry
}

/// Builds the request to link `base` to `target` by `link_type`, untagged.
pub fn link_request(base: &Address, target: &Address, link_type: &str) -> (request: HostRequest)
    ensures
        is_link_request(request, base@, target@, link_type@),
{
    HostRequest::LinkEntries(LinkRequest {
        base: base.clone(),
        target: target.clone(),
        link_type: link_type.to_string(),
        tag: "".to_string(),
    })
}

/// Builds a link type from agents, checked on the entry alone.
pub fn agent_link(link_type: &str) -> (definition: LinkDefinition)
    ensures
        is_agent_link(definition, link_type@),
{
    LinkDefinition {
        base_type: "%agent_id".to_string(),
        link_type: link_type.to_string(),
        validation_package: ValidationPackage::Entry,
    }
}

/// Builds the internal error with this message.
pub fn internal_error(message: &str) -> (error: ZomeApiError)
    ensures
        is_internal_error(error, message@),
{
    ZomeApiError::Internal(message.to_string())
}

impl EntryDefinition {
    /// Entries of the types this application defines are accepted as they are.
    pub fn validate_entry(&self, entry: &AppEntry) -> (verdict: Result<(), String>)
        ensures
            verdict is Ok,
    {
        Ok(())
    }

    /// Links of the types this application defines are accepted as they are.
    pub fn validate_link(&self, link: &LinkRequest) -> (verdict: Result<(), String>)
        ensures
            verdict is Ok,
    {
        Ok(())
    }
}

} // verus!
