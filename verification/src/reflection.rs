//! Per-participant operations on reflections: the entity engine
//! instantiated for the a reflection kind.

use vstd::prelude::*;
use crate::types::{ActionHash, AgentPubKey, AnchorName, AnyLinkableHash, CravingError, Timestamp};
use crate::entry::{CravingDnaProperties, Entry, LinkKind, LinkTypes, Reflection};
use crate::action::Record;
use crate::store::Store;
use crate::resolver::resolve_latest;
use crate::validate::spec_entry_create_rule;
use crate::entity::{
    create_entity, delete_entity, spec_create_entity, spec_create_error, spec_delete_error,
    spec_update_entity, spec_update_error, update_entity,
};

verus! {

/// What an update to a reflection names: the chain's original record,
/// the version being superseded, and the new content.
#[derive(Clone, Debug)]
pub struct UpdateReflectionInput {
    pub original_reflection_hash: ActionHash,
    pub previous_reflection_hash: ActionHash,
    pub updated_reflection: Reflection,
}

/// Create a reflection and hang it off the all-reflections index anchor.
/// Accepted exactly when every peer's validator will accept it; the full
/// new record comes back, so callers never re-fetch.
pub fn create_reflection(
    s: &mut Store,
    author: AgentPubKey,
    now: Timestamp,
    reflection: Reflection,
    props: &CravingDnaProperties,
) -> (r: Result<Record, CravingError>)
    requires
        old(s)@.wf(),
    ensures
        match r {
            Result::Ok(rec) => {
                &&& spec_entry_create_rule(old(s)@, *props, Entry::Reflection(reflection)) is None
                &&& final(s)@ == spec_create_entity(
                    old(s)@,
                    author,
                    now,
                    Entry::Reflection(reflection),
                    AnyLinkableHash::Anchor(AnchorName::AllReflections),
                    LinkKind::Craving(LinkTypes::AllReflections),
                )
                &&& final(s)@.wf()
                &&& rec == final(s)@.records[old(s)@.records.len() as int]
                &&& rec.entry == Option::Some(Entry::Reflection(reflection))
            },
            Result::Err(e) => {
                &&& spec_entry_create_rule(old(s)@, *props, Entry::Reflection(reflection)) is Some
                &&& e == spec_create_error(old(s)@, *props, Entry::Reflection(reflection))
                &&& final(s)@ == old(s)@
            },
        },
{
    create_entity(
        s,
        author,
        now,
        Entry::Reflection(reflection),
        AnyLinkableHash::Anchor(AnchorName::AllReflections),
        LinkKind::Craving(LinkTypes::AllReflections),
        props,
    )
}

/// The logically-current version of the reflection at `original_reflection_hash`:
/// the original while no update link exists, else the latest update's
/// record.
pub fn get_reflection(s: &Store, original_reflection_hash: ActionHash) -> (r: Option<Record>)
    ensures
        r == s@.spec_resolve_latest(
            original_reflection_hash,
            LinkKind::Craving(LinkTypes::ReflectionUpdates),
        ),
{
    resolve_latest(s, original_reflection_hash, LinkKind::Craving(LinkTypes::ReflectionUpdates))
}

/// Update a reflection: a new record plus an update-chain link from the
/// original; the superseded version stays intact forever.
pub fn update_reflection(
    s: &mut Store,
    author: AgentPubKey,
    now: Timestamp,
    input: UpdateReflectionInput,
    props: &CravingDnaProperties,
) -> (r: Result<Record, CravingError>)
    requires
        old(s)@.wf(),
    ensures
        match r {
            Result::Ok(rec) => {
                &&& spec_update_error(
                    old(s)@,
                    *props,
                    input.previous_reflection_hash,
                    Entry::Reflection(input.updated_reflection),
                ) is None
                &&& final(s)@ == spec_update_entity(
                    old(s)@,
                    author,
                    now,
                    input.original_reflection_hash,
                    input.previous_reflection_hash,
                    Entry::Reflection(input.updated_reflection),
                )
                &&& final(s)@.wf()
                &&& rec == final(s)@.records[old(s)@.records.len() as int]
                &&& rec.entry == Option::Some(Entry::Reflection(input.updated_reflection))
            },
            Result::Err(e) => {
                &&& spec_update_error(
                    old(s)@,
                    *props,
                    input.previous_reflection_hash,
                    Entry::Reflection(input.updated_reflection),
                ) == Option::Some(e)
                &&& final(s)@ == old(s)@
            },
        },
{
    update_entity(
        s,
        author,
        now,
        input.original_reflection_hash,
        input.previous_reflection_hash,
        Entry::Reflection(input.updated_reflection),
        props,
    )
}

/// Delete the reflection at `original_reflection_hash`: a tombstone record; the
/// original stays in the store, but plain fetches stop returning it.
pub fn delete_reflection(
    s: &mut Store,
    author: AgentPubKey,
    now: Timestamp,
    original_reflection_hash: ActionHash,
) -> (r: Result<ActionHash, CravingError>)
    requires
        old(s)@.wf(),
    ensures
        match r {
            Result::Ok(h) => {
                &&& spec_delete_error(old(s)@, original_reflection_hash) is None
                &&& final(s)@ == old(s)@.spec_delete_entry(author, now, original_reflection_hash)
                &&& final(s)@.wf()
                &&& h.0 == old(s)@.records.len()
            },
            Result::Err(e) => {
                &&& spec_delete_error(old(s)@, original_reflection_hash) == Option::Some(e)
                &&& final(s)@ == old(s)@
            },
        },
{
    delete_entity(s, author, now, original_reflection_hash)
}

} // verus!
