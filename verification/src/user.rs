//! User profiles.

use vstd::prelude::*;
use crate::host::{AppEntry, EntryContent, EntryDefinition, Sharing, ValidationPackage, agent_link, is_agent_link, is_public_entry_type};

verus! {

/// A user profile.
#[derive(Clone, Debug)]
pub struct User {
    pub username: String,
}

/// `entry` is the user entry that carries `user`.
pub open spec fn is_user_entry(entry: AppEntry, user: User) -> bool {
    entry.entry_type@ == "user"@ && entry.content == EntryContent::User(user)
}

/// `entry` is the user entry of the profile named `username`.
pub open spec fn is_profile_entry(entry: AppEntry, username: Seq<char>) -> bool {
    &&& entry.entry_type@ == "user"@
    &&& entry.content matches EntryContent::User(user)
    &&& user.username@ == username
}

impl User {
    /// The profile as an entry of type "user".
    pub fn entry(self) -> (entry: AppEntry)
        ensures
            is_user_entry(entry, self),
    {
        AppEntry { entry_type: "user".to_string(), content: EntryContent::User(self) }
    }
}

impl From<String> for User {
    fn from(username: String) -> (user: User) {
        User { username }
    }
}

impl vstd::std_specs::convert::FromSpecImpl<String> for User {
    open spec fn obeys_from_spec() -> bool {
        true
    }

    open spec fn from_spec(username: String) -> User {
        User { username }
    }
}

/// The entry type of user profiles: public, checked on the entry alone, and
/// reached from agents by "agent->user" links.
pub fn entry_def() -> (definition: EntryDefinition)
    ensures
        is_public_entry_type(definition, "user"@, "user profile"@),
        definition.links@.len() == 1,
        is_agent_link(definition.links@[0], "agent->user"@),
{
    let mut links = Vec::new();
    links.push(agent_link("agent->user"));
    EntryDefinition {
        name: "user".to_string(),
        description: "user profile".to_string(),
        sharing: Sharing::Public,
        validation_package: ValidationPackage::Entry,
        links,
    }
}

} // verus!
