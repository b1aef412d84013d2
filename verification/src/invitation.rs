//! Invitations from one player to another to start a game.

use vstd::prelude::*;
use crate::host::{Address, AppEntry, EntryContent, EntryDefinition, Sharing, ValidationPackage, agent_link, is_agent_link, is_public_entry_type};

verus! {

/// An invitation from `inviter` to `invited`, sent at `timestamp`, with its
/// status ("Pending" when sent, then "accepted" or "rejected").
#[derive(Clone, Debug)]
pub struct Invitation {
    pub inviter: Address,
    pub invited: Address,
    pub status: String,
    pub timestamp: u64,
}

/// `invitation` is the pending invitation from `inviter` to `invited` sent at `timestamp`.
pub open spec fn is_pending_invitation(invitation: Invitation, inviter: Seq<char>, invited: Seq<char>, timestamp: u64) -> bool {
    &&& invitation.inviter@ == inviter
    &&& invitation.invited@ == invited
    &&& invitation.status@ == "Pending"@
    &&& invitation.timestamp == timestamp
}

/// `entry` is the invitation entry that carries `invitation`.
pub open spec fn is_invitation_entry(entry: AppEntry, invitation: Invitation) -> bool {
    entry.entry_type@ == "invitation"@ && entry.content == EntryContent::Invitation(invitation)
}

/// `entry` is the entry of the pending invitation from `inviter` to `invited` sent at `timestamp`.
pub open spec fn is_pending_invitation_entry(entry: AppEntry, inviter: Seq<char>, invited: Seq<char>, timestamp: u64) -> bool {
    &&& entry.entry_type@ == "invitation"@
    &&& entry.content matches EntryContent::Invitation(invitation)
    &&& is_pending_invitation(invitation, inviter, invited, timestamp)
}

/// `answered` is `invitation` with its status set to `status`.
pub open spec fn is_answered(answered: Invitation, invitation: Invitation, status: Seq<char>) -> bool {
    &&& answered.inviter == invitation.inviter
    &&& answered.invited == invitation.invited
    &&& answered.timestamp == invitation.timestamp
    &&& answered.status@ == status
}

impl Invitation {
    /// The invitation as an entry of type "invitation".
    pub fn entry(self) -> (entry: AppEntry)
        ensures
            is_invitation_entry(entry, self),
    {
        AppEntry { entry_type: "invitation".to_string(), content: EntryContent::Invitation(self) }
    }
}

/// The pending invitation from `inviter` to `invited` sent at `timestamp`.
pub fn pending_invitation(inviter: Address, invited: Address, timestamp: u64) -> (invitation: Invitation)
    ensures
        invitation.inviter == inviter,
        invitation.invited == invited,
        is_pending_invitation(invitation, inviter@, invited@, timestamp),
{
    Invitation { inviter, invited, status: "Pending".to_string(), timestamp }
}

/// The entry type of invitations: public, checked on the entry alone, and
/// reached from agents by "invited" and "inviter" links.
pub fn entry_def() -> (definition: EntryDefinition)
    ensures
        is_public_entry_type(definition, "invitation"@, "An invitation from one user to another"@),
        definition.links@.len() == 2,
        is_agent_link(definition.links@[0], "invited"@),
        is_agent_link(definition.links@[1], "inviter"@),
{
    let mut links = Vec::new();
    links.push(agent_link("invited"));
    links.push(agent_link("inviter"));
    EntryDefinition {
        name: "invitation".to_string(),
        description: "An invitation from one user to another".to_string(),
        sharing: Sharing::Public,
        validation_package: ValidationPackage::Entry,
        links,
    }
}

} // verus!
