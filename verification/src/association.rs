//! Per-participant operations on associations: the entity engine
//! instantiated for the one immutable craving kind.  Associations are
//! created once and never updated or deleted; content-equal associations
//! from different participants converge through deduplication instead.

use vstd::prelude::*;
use crate::types::{ActionHash, AgentPubKey, AnchorName, AnyLinkableHash, CravingError, EntryHash, Timestamp};
use crate::entry::{Association, CravingDnaProperties, Entry, LinkKind, LinkTypes};
use crate::action::Record;
use crate::store::Store;
use crate::resolver::resolve_latest;
use crate::validate::spec_entry_create_rule;
use crate::entity::{create_entity, spec_create_entity, spec_create_error};

verus! {

/// Create an association and hang it off the all-associations index
/// anchor.  Accepted exactly when every peer's validator will accept it.
pub fn create_association(
    s: &mut Store,
    author: AgentPubKey,
    now: Timestamp,
    association: Association,
    props: &CravingDnaProperties,
) -> (r: Result<Record, CravingError>)
    requires
        old(s)@.wf(),
    ensures
        match r {
            Result::Ok(rec) => {
                &&& spec_entry_create_rule(old(s)@, *props, Entry::Association(association)) is None
                &&& final(s)@ == spec_create_entity(
                    old(s)@,
                    author,
                    now,
                    Entry::Association(association),
                    AnyLinkableHash::Anchor(AnchorName::AllAssociations),
                    LinkKind::Craving(LinkTypes::AllAssociations),
                )
                &&& final(s)@.wf()
                &&& rec == final(s)@.records[old(s)@.records.len() as int]
                &&& rec.entry == Option::Some(Entry::Association(association))
            },
            Result::Err(e) => {
                &&& spec_entry_create_rule(old(s)@, *props, Entry::Association(association)) is Some
                &&& e == spec_create_error(old(s)@, *props, Entry::Association(association))
                &&& final(s)@ == old(s)@
            },
        },
{
    create_entity(
        s,
        author,
        now,
        Entry::Association(association),
        AnyLinkableHash::Anchor(AnchorName::AllAssociations),
        LinkKind::Craving(LinkTypes::AllAssociations),
        props,
    )
}

/// Fetch an association by content identity: whoever wrote it first, the
/// earliest live record carrying this entry address.
pub fn get_association(s: &Store, entry_hash: EntryHash) -> (r: Option<Record>)
    ensures
        r == s@.spec_get_entry(entry_hash),
{
    s.get_entry(entry_hash)
}

/// The logically-current version of the association at
/// `original_association_hash`.  Associations are immutable, so with a
/// valid history this is the original itself; the resolver still runs so
/// every caller reads through one path.
pub fn get_association_by_action_hash(
    s: &Store,
    original_association_hash: ActionHash,
) -> (r: Option<Record>)
    ensures
        r == s@.spec_resolve_latest(
            original_association_hash,
            LinkKind::Craving(LinkTypes::AssociationUpdates),
        ),
{
    resolve_latest(
        s,
        original_association_hash,
        LinkKind::Craving(LinkTypes::AssociationUpdates),
    )
}

} // verus!
