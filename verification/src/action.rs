//! Actions — the immutable things a participant appends to their chain —
//! and records, which pair an action with the entry payload it carries.

use vstd::prelude::*;
use crate::types::{ActionHash, AgentPubKey, AnyLinkableHash, EntryHash, Timestamp};
use crate::entry::{Entry, LinkKind};
use crate::lobby::MembraneProof;

verus! {

/// The byte tag a link carries; the logic here never reads one, so the
/// model stands a token in for the bytes.
#[derive(Clone, Copy, Debug, PartialEq, Eq, Structural)]
pub struct LinkTag(pub u64);

/// An action that writes a new entry.
#[derive(Clone, Copy, Debug, PartialEq, Eq, Structural)]
pub struct Create {
    pub author: AgentPubKey,
    pub timestamp: Timestamp,
    pub entry_hash: EntryHash,
}

/// An action that writes a new entry as the successor of an earlier one.
/// The original is left intact forever; readers resolve the current version
/// through update-chain links.
#[derive(Clone, Copy, Debug, PartialEq, Eq, Structural)]
pub struct Update {
    pub author: AgentPubKey,
    pub timestamp: Timestamp,
    pub original_action_address: ActionHash,
    pub original_entry_address: EntryHash,
    pub entry_hash: EntryHash,
}

/// A tombstone referencing the record it logically deletes.
#[derive(Clone, Copy, Debug, PartialEq, Eq, Structural)]
pub struct Delete {
    pub author: AgentPubKey,
    pub timestamp: Timestamp,
    pub deletes_address: ActionHash,
    pub deletes_entry_address: EntryHash,
}

/// An action that lays a typed, tagged link from a base to a target.
#[derive(Clone, Copy, Debug, PartialEq, Eq, Structural)]
pub struct CreateLink {
    pub author: AgentPubKey,
    pub timestamp: Timestamp,
    pub base_address: AnyLinkableHash,
    pub target_address: AnyLinkableHash,
    pub link_type: LinkKind,
    pub tag: LinkTag,
}

/// An action that retracts an earlier link-creation action.
#[derive(Clone, Copy, Debug, PartialEq, Eq, Structural)]
pub struct DeleteLink {
    pub author: AgentPubKey,
    pub timestamp: Timestamp,
    pub link_add_address: ActionHash,
    pub base_address: AnyLinkableHash,
}

/// Every kind of action the model distinguishes.  The first four are the
/// genesis preamble of a participant's chain; the framework writes them.
#[derive(Clone, Copy, Debug, PartialEq, Eq, Structural)]
pub enum Action {
    Dna { author: AgentPubKey, timestamp: Timestamp },
    AgentValidationPkg {
        author: AgentPubKey,
        timestamp: Timestamp,
        membrane_proof: Option<MembraneProof>,
    },
    CreateAgent {
        author: AgentPubKey,
        timestamp: Timestamp,
        agent: AgentPubKey,
        prev_action: ActionHash,
    },
    InitZomesComplete { author: AgentPubKey, timestamp: Timestamp },
    Create(Create),
    Update(Update),
    Delete(Delete),
    CreateLink(CreateLink),
    DeleteLink(DeleteLink),
}

impl Action {
    /// The participant who authored this action.
    pub open spec fn spec_author(&self) -> AgentPubKey {
        match *self {
            Action::Dna { author, .. } => author,
            Action::AgentValidationPkg { author, .. } => author,
            Action::CreateAgent { author, .. } => author,
            Action::InitZomesComplete { author, .. } => author,
            Action::Create(a) => a.author,
            Action::Update(a) => a.author,
            Action::Delete(a) => a.author,
            Action::CreateLink(a) => a.author,
            Action::DeleteLink(a) => a.author,
        }
    }

    /// The participant who authored this action.
    #[verifier::when_used_as_spec(spec_author)]
    pub fn author(&self) -> (r: AgentPubKey)
        ensures
            r == self.spec_author(),
    {
        match *self {
            Action::Dna { author, .. } => author,
            Action::AgentValidationPkg { author, .. } => author,
            Action::CreateAgent { author, .. } => author,
            Action::InitZomesComplete { author, .. } => author,
            Action::Create(a) => a.author,
            Action::Update(a) => a.author,
            Action::Delete(a) => a.author,
            Action::CreateLink(a) => a.author,
            Action::DeleteLink(a) => a.author,
        }
    }

    /// When the substrate stamped this action.
    pub open spec fn spec_timestamp(&self) -> Timestamp {
        match *self {
            Action::Dna { timestamp, .. } => timestamp,
            Action::AgentValidationPkg { timestamp, .. } => timestamp,
            Action::CreateAgent { timestamp, .. } => timestamp,
            Action::InitZomesComplete { timestamp, .. } => timestamp,
            Action::Create(a) => a.timestamp,
            Action::Update(a) => a.timestamp,
            Action::Delete(a) => a.timestamp,
            Action::CreateLink(a) => a.timestamp,
            Action::DeleteLink(a) => a.timestamp,
        }
    }

    /// When the substrate stamped this action.
    #[verifier::when_used_as_spec(spec_timestamp)]
    pub fn timestamp(&self) -> (r: Timestamp)
        ensures
            r == self.spec_timestamp(),
    {
        match *self {
            Action::Dna { timestamp, .. } => timestamp,
            Action::AgentValidationPkg { timestamp, .. } => timestamp,
            Action::CreateAgent { timestamp, .. } => timestamp,
            Action::InitZomesComplete { timestamp, .. } => timestamp,
            Action::Create(a) => a.timestamp,
            Action::Update(a) => a.timestamp,
            Action::Delete(a) => a.timestamp,
            Action::CreateLink(a) => a.timestamp,
            Action::DeleteLink(a) => a.timestamp,
        }
    }

    /// The entry address this action writes, if it writes one.
    pub open spec fn spec_entry_hash(&self) -> Option<EntryHash> {
        match *self {
            Action::Create(a) => Option::Some(a.entry_hash),
            Action::Update(a) => Option::Some(a.entry_hash),
            _ => Option::None,
        }
    }

    /// The entry address this action writes, if it writes one.
    #[verifier::when_used_as_spec(spec_entry_hash)]
    pub fn entry_hash(&self) -> (r: Option<EntryHash>)
        ensures
            r == self.spec_entry_hash(),
    {
        match *self {
            Action::Create(a) => Option::Some(a.entry_hash),
            Action::Update(a) => Option::Some(a.entry_hash),
            _ => Option::None,
        }
    }

    /// Whether this action writes an entry (a create or an update).
    pub open spec fn is_entry_creation(&self) -> bool {
        matches!(*self, Action::Create(_) | Action::Update(_))
    }
}

/// An action writing an entry, as validation rules receive it.
#[derive(Clone, Copy, Debug, PartialEq, Eq, Structural)]
pub enum EntryCreationAction {
    Create(Create),
    Update(Update),
}

impl EntryCreationAction {
    /// The participant who authored this action.
    pub open spec fn spec_author(&self) -> AgentPubKey {
        match *self {
            EntryCreationAction::Create(a) => a.author,
            EntryCreationAction::Update(a) => a.author,
        }
    }
}

/// One immutable record: an action and the entry it carries, if any.
/// Identified by its action address; never mutated once written.
#[derive(Debug)]
pub struct Record {
    pub action_hash: ActionHash,
    pub action: Action,
    pub entry: Option<Entry>,
}

impl Clone for Record {
    fn clone(&self) -> (r: Self)
        ensures
            r == *self,
    {
        Record {
            action_hash: self.action_hash,
            action: self.action,
            entry: match &self.entry {
                Option::None => Option::None,
                Option::Some(e) => Option::Some(e.clone()),
            },
        }
    }
}

/// One link as readers receive it: the target it points at, who laid it
/// and when, and the address of the action that laid it.
#[derive(Clone, Copy, Debug, PartialEq, Eq, Structural)]
pub struct Link {
    pub author: AgentPubKey,
    pub target: AnyLinkableHash,
    pub timestamp: Timestamp,
    pub link_type: LinkKind,
    pub tag: LinkTag,
    pub create_link_hash: ActionHash,
}

} // verus!
