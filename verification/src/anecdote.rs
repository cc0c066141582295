//! Per-participant operations on anecdotes: the entity engine
//! instantiated for the an anecdote kind.

use vstd::prelude::*;
use crate::types::{ActionHash, AgentPubKey, AnchorName, AnyLinkableHash, CravingError, Timestamp};
use crate::entry::{CravingDnaProperties, Entry, LinkKind, LinkTypes, Anecdote};
use crate::action::Record;
use crate::store::Store;
use crate::resolver::resolve_latest;
use crate::validate::spec_entry_create_rule;
use crate::entity::{
    create_entity, delete_entity, spec_create_entity, spec_create_error, spec_delete_error,
    spec_update_entity, spec_update_error, update_entity,
};

verus! {

/// What an update to an anecdote names: the chain's original record,
/// the version being superseded, and the new content.
#[derive(Clone, Debug)]
pub struct UpdateAnecdoteInput {
    pub original_anecdote_hash: ActionHash,
    pub previous_anecdote_hash: ActionHash,
    pub updated_anecdote: Anecdote,
}

/// Create an anecdote and hang it off the all-anecdotes index anchor.
/// Accepted exactly when every peer's validator will accept it; the full
/// new record comes back, so callers never re-fetch.
pub fn create_anecdote(
    s: &mut Store,
    author: AgentPubKey,
    now: Timestamp,
    anecdote: Anecdote,
    props: &CravingDnaProperties,
) -> (r: Result<Record, CravingError>)
    requires
        old(s)@.wf(),
    ensures
        match r {
            Result::Ok(rec) => {
                &&& spec_entry_create_rule(old(s)@, *props, Entry::Anecdote(anecdote)) is None
                &&& final(s)@ == spec_create_entity(
                    old(s)@,
                    author,
                    now,
                    Entry::Anecdote(anecdote),
                    AnyLinkableHash::Anchor(AnchorName::AllAnecdotes),
                    LinkKind::Craving(LinkTypes::AllAnecdotes),
                )
                &&& final(s)@.wf()
                &&& rec == final(s)@.records[old(s)@.records.len() as int]
                &&& rec.entry == Option::Some(Entry::Anecdote(anecdote))
            },
            Result::Err(e) => {
                &&& spec_entry_create_rule(old(s)@, *props, Entry::Anecdote(anecdote)) is Some
                &&& e == spec_create_error(old(s)@, *props, Entry::Anecdote(anecdote))
                &&& final(s)@ == old(s)@
            },
        },
{
    create_entity(
        s,
        author,
        now,
        Entry::Anecdote(anecdote),
        AnyLinkableHash::Anchor(AnchorName::AllAnecdotes),
        LinkKind::Craving(LinkTypes::AllAnecdotes),
        props,
    )
}

/// The logically-current version of the anecdote at `original_anecdote_hash`:
/// the original while no update link exists, else the latest update's
/// record.
pub fn get_anecdote(s: &Store, original_anecdote_hash: ActionHash) -> (r: Option<Record>)
    ensures
        r == s@.spec_resolve_latest(
            original_anecdote_hash,
            LinkKind::Craving(LinkTypes::AnecdoteUpdates),
        ),
{
    resolve_latest(s, original_anecdote_hash, LinkKind::Craving(LinkTypes::AnecdoteUpdates))
}

/// Update an anecdote: a new record plus an update-chain link from the
/// original; the superseded version stays intact forever.
pub fn update_anecdote(
    s: &mut Store,
    author: AgentPubKey,
    now: Timestamp,
    input: UpdateAnecdoteInput,
    props: &CravingDnaProperties,
) -> (r: Result<Record, CravingError>)
    requires
        old(s)@.wf(),
    ensures
        match r {
            Result::Ok(rec) => {
                &&& spec_update_error(
                    old(s)@,
                    *props,
                    input.previous_anecdote_hash,
                    Entry::Anecdote(input.updated_anecdote),
                ) is None
                &&& final(s)@ == spec_update_entity(
                    old(s)@,
                    author,
                    now,
                    input.original_anecdote_hash,
                    input.previous_anecdote_hash,
                    Entry::Anecdote(input.updated_anecdote),
                )
                &&& final(s)@.wf()
                &&& rec == final(s)@.records[old(s)@.records.len() as int]
                &&& rec.entry == Option::Some(Entry::Anecdote(input.updated_anecdote))
            },
            Result::Err(e) => {
                &&& spec_update_error(
                    old(s)@,
                    *props,
                    input.previous_anecdote_hash,
                    Entry::Anecdote(input.updated_anecdote),
                ) == Option::Some(e)
                &&& final(s)@ == old(s)@
            },
        },
{
    update_entity(
        s,
        author,
        now,
        input.original_anecdote_hash,
        input.previous_anecdote_hash,
        Entry::Anecdote(input.updated_anecdote),
        props,
    )
}

/// Delete the anecdote at `original_anecdote_hash`: a tombstone record; the
/// original stays in the store, but plain fetches stop returning it.
pub fn delete_anecdote(
    s: &mut Store,
    author: AgentPubKey,
    now: Timestamp,
    original_anecdote_hash: ActionHash,
) -> (r: Result<ActionHash, CravingError>)
    requires
        old(s)@.wf(),
    ensures
        match r {
            Result::Ok(h) => {
                &&& spec_delete_error(old(s)@, original_anecdote_hash) is None
                &&& final(s)@ == old(s)@.spec_delete_entry(author, now, original_anecdote_hash)
                &&& final(s)@.wf()
                &&& h.0 == old(s)@.records.len()
            },
            Result::Err(e) => {
                &&& spec_delete_error(old(s)@, original_anecdote_hash) == Option::Some(e)
                &&& final(s)@ == old(s)@
            },
        },
{
    delete_entity(s, author, now, original_anecdote_hash)
}

} // verus!
