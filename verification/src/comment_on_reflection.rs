//! Per-participant operations on comments below reflections: the
//! entity engine instantiated for the dependent comment kind, whose
//! records hang off their parent reflection through a relation link.

use vstd::prelude::*;
use crate::types::{ActionHash, AgentPubKey, AnyLinkableHash, CravingError, Timestamp};
use crate::entry::{CravingDnaProperties, Entry, LinkKind, LinkTypes, CommentOnReflection};
use crate::action::Record;
use crate::store::Store;
use crate::resolver::resolve_latest;
use crate::validate::spec_entry_create_rule;
use crate::entity::{
    create_entity, delete_entity, fetch_link_targets, spec_create_entity, spec_create_error,
    spec_delete_error, spec_fetch_targets, spec_update_entity, spec_update_error, update_entity,
};

verus! {

/// What an update to a comment names: the chain's original record, the
/// version being superseded, and the new content.
#[derive(Clone, Debug)]
pub struct UpdateCommentOnReflectionInput {
    pub original_comment_on_reflection_hash: ActionHash,
    pub previous_comment_on_reflection_hash: ActionHash,
    pub updated_comment_on_reflection: CommentOnReflection,
}

/// Create a comment below the reflection it names and hang it off that
/// reflection through a relation link.  Accepted exactly when every
/// peer's validator will accept it: the parent must dereference to
/// a reflection record, and the comment must be within
/// its limit.
pub fn create_comment_on_reflection(
    s: &mut Store,
    author: AgentPubKey,
    now: Timestamp,
    comment_on_reflection: CommentOnReflection,
    props: &CravingDnaProperties,
) -> (r: Result<Record, CravingError>)
    requires
        old(s)@.wf(),
    ensures
        match r {
            Result::Ok(rec) => {
                &&& spec_entry_create_rule(old(s)@, *props, Entry::CommentOnReflection(comment_on_reflection)) is None
                &&& final(s)@ == spec_create_entity(
                    old(s)@,
                    author,
                    now,
                    Entry::CommentOnReflection(comment_on_reflection),
                    AnyLinkableHash::Action(comment_on_reflection.reflection_hash),
                    LinkKind::Craving(LinkTypes::ReflectionToCommentOnReflections),
                )
                &&& final(s)@.wf()
                &&& rec == final(s)@.records[old(s)@.records.len() as int]
                &&& rec.entry == Option::Some(Entry::CommentOnReflection(comment_on_reflection))
            },
            Result::Err(e) => {
                &&& spec_entry_create_rule(old(s)@, *props, Entry::CommentOnReflection(comment_on_reflection)) is Some
                &&& e == spec_create_error(old(s)@, *props, Entry::CommentOnReflection(comment_on_reflection))
                &&& final(s)@ == old(s)@
            },
        },
{
    let base = AnyLinkableHash::Action(comment_on_reflection.reflection_hash);
    create_entity(
        s,
        author,
        now,
        Entry::CommentOnReflection(comment_on_reflection),
        base,
        LinkKind::Craving(LinkTypes::ReflectionToCommentOnReflections),
        props,
    )
}

/// The logically-current version of the comment at
/// `original_comment_on_reflection_hash`.
pub fn get_comment_on_reflection(s: &Store, original_comment_on_reflection_hash: ActionHash) -> (r: Option<Record>)
    ensures
        r == s@.spec_resolve_latest(
            original_comment_on_reflection_hash,
            LinkKind::Craving(LinkTypes::CommentOnReflectionUpdates),
        ),
{
    resolve_latest(s, original_comment_on_reflection_hash, LinkKind::Craving(LinkTypes::CommentOnReflectionUpdates))
}

/// Update a comment: a new record plus an update-chain link from the
/// original; the superseded version stays intact forever.
pub fn update_comment_on_reflection(
    s: &mut Store,
    author: AgentPubKey,
    now: Timestamp,
    input: UpdateCommentOnReflectionInput,
    props: &CravingDnaProperties,
) -> (r: Result<Record, CravingError>)
    requires
        old(s)@.wf(),
    ensures
        match r {
            Result::Ok(rec) => {
                &&& spec_update_error(
                    old(s)@,
                    *props,
                    input.previous_comment_on_reflection_hash,
                    Entry::CommentOnReflection(input.updated_comment_on_reflection),
                ) is None
                &&& final(s)@ == spec_update_entity(
                    old(s)@,
                    author,
                    now,
                    input.original_comment_on_reflection_hash,
                    input.previous_comment_on_reflection_hash,
                    Entry::CommentOnReflection(input.updated_comment_on_reflection),
                )
                &&& final(s)@.wf()
                &&& rec == final(s)@.records[old(s)@.records.len() as int]
                &&& rec.entry == Option::Some(Entry::CommentOnReflection(input.updated_comment_on_reflection))
            },
            Result::Err(e) => {
                &&& spec_update_error(
                    old(s)@,
                    *props,
                    input.previous_comment_on_reflection_hash,
                    Entry::CommentOnReflection(input.updated_comment_on_reflection),
                ) == Option::Some(e)
                &&& final(s)@ == old(s)@
            },
        },
{
    update_entity(
        s,
        author,
        now,
        input.original_comment_on_reflection_hash,
        input.previous_comment_on_reflection_hash,
        Entry::CommentOnReflection(input.updated_comment_on_reflection),
        props,
    )
}

/// Delete the comment at `original_comment_on_reflection_hash`: a tombstone record.
pub fn delete_comment_on_reflection(
    s: &mut Store,
    author: AgentPubKey,
    now: Timestamp,
    original_comment_on_reflection_hash: ActionHash,
) -> (r: Result<ActionHash, CravingError>)
    requires
        old(s)@.wf(),
    ensures
        match r {
            Result::Ok(h) => {
                &&& spec_delete_error(old(s)@, original_comment_on_reflection_hash) is None
                &&& final(s)@ == old(s)@.spec_delete_entry(author, now, original_comment_on_reflection_hash)
                &&& final(s)@.wf()
                &&& h.0 == old(s)@.records.len()
            },
            Result::Err(e) => {
                &&& spec_delete_error(old(s)@, original_comment_on_reflection_hash) == Option::Some(e)
                &&& final(s)@ == old(s)@
            },
        },
{
    delete_entity(s, author, now, original_comment_on_reflection_hash)
}

/// Every comment record hanging off the reflection at
/// `reflection_hash`, in link order, skipping deleted ones.
pub fn get_comment_on_reflections_for_reflection(s: &Store, reflection_hash: ActionHash) -> (r: Vec<
    Record,
>)
    ensures
        r@ == spec_fetch_targets(
            s@,
            s@.links(
                AnyLinkableHash::Action(reflection_hash),
                LinkKind::Craving(LinkTypes::ReflectionToCommentOnReflections),
            ),
        ),
{
    fetch_link_targets(
        s,
        AnyLinkableHash::Action(reflection_hash),
        LinkKind::Craving(LinkTypes::ReflectionToCommentOnReflections),
    )
}

} // verus!
