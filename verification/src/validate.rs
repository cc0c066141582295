//! The deterministic peer-validation state machine.
//!
//! Every record and every link, as it arrives at any participant — the
//! author included — is checked for structural and business-rule validity
//! from hash-reachable data alone.  The verdict is a pure function of the
//! operation, the store it is checked against, and the network's fixed
//! property bag, so every peer reaches the same verdict whatever order
//! things arrived in.  Every transition is terminal: Accept, or Reject
//! with a reason; combinations no rule claims are accepted, so that
//! framework-internal operations pass.

use vstd::prelude::*;
use crate::types::{ActionHash, AgentPubKey, AnyLinkableHash, Timestamp, ValidateCallbackResult};
use crate::entry::{
    entry_content, CravingDnaProperties, Entry, EntryTypes, LinkKind, LinkTypes,
    DEFAULT_MAX_ANECDOTE_CHARS, DEFAULT_MAX_ASSOCIATION_CHARS, DEFAULT_MAX_OFFER_CHARS,
    DEFAULT_MAX_REFLECTION_CHARS,
};
use crate::action::{
    Action, Create, CreateLink, Delete, DeleteLink, EntryCreationAction, LinkTag, Update,
};
use crate::store::{Store, StoreModel};

verus! {

/// The entity kinds the store can hold, one per entry variant.
#[derive(Clone, Copy, Debug, PartialEq, Eq, Structural)]
pub enum EntityKind {
    Offer,
    Reflection,
    Association,
    Anecdote,
    CommentOnOffer,
    CommentOnReflection,
    DnaRecipe,
    LobbyInfo,
}

/// The kind of an entry payload.
pub open spec fn entry_kind(e: Entry) -> EntityKind {
    match e {
        Entry::Offer(_) => EntityKind::Offer,
        Entry::Reflection(_) => EntityKind::Reflection,
        Entry::Association(_) => EntityKind::Association,
        Entry::Anecdote(_) => EntityKind::Anecdote,
        Entry::CommentOnOffer(_) => EntityKind::CommentOnOffer,
        Entry::CommentOnReflection(_) => EntityKind::CommentOnReflection,
        Entry::DnaRecipe(_) => EntityKind::DnaRecipe,
        Entry::LobbyInfo(_) => EntityKind::LobbyInfo,
    }
}

/// The kind of an entry payload.
pub(crate) fn entry_kind_of(e: &Entry) -> (k: EntityKind)
    ensures
        k == entry_kind(*e),
{
    match e {
        Entry::Offer(_) => EntityKind::Offer,
        Entry::Reflection(_) => EntityKind::Reflection,
        Entry::Association(_) => EntityKind::Association,
        Entry::Anecdote(_) => EntityKind::Anecdote,
        Entry::CommentOnOffer(_) => EntityKind::CommentOnOffer,
        Entry::CommentOnReflection(_) => EntityKind::CommentOnReflection,
        Entry::DnaRecipe(_) => EntityKind::DnaRecipe,
        Entry::LobbyInfo(_) => EntityKind::LobbyInfo,
    }
}

/// A verdict as a mathematical value: accept, or reject with a reason.
pub open spec fn outcome_matches(r: ValidateCallbackResult, o: Option<Seq<char>>) -> bool {
    match o {
        Option::None => r.is_valid(),
        Option::Some(m) => r.is_invalid_with(m),
    }
}

/// A rejection carrying the given reason.
pub(crate) fn invalid(m: &str) -> (r: ValidateCallbackResult)
    ensures
        r.is_invalid_with(m@),
{
    ValidateCallbackResult::Invalid(String::from_str(m))
}

/// Reason: a link names an address that is not an action address.
pub open spec fn msg_not_action_hash() -> Seq<char> {
    "Linked address must be an action hash"@
}

/// Reason: a referenced action cannot be fetched; a fetch failure is
/// treated as a missing dependency, never as valid.
pub open spec fn msg_unfetchable() -> Seq<char> {
    "Linked action must be fetchable"@
}

/// Reason: a referenced record does not carry an entry of the expected
/// entity kind.
pub open spec fn msg_wrong_entry() -> Seq<char> {
    "Linked action must reference an entry"@
}

/// What checking that `addr` dereferences to a record carrying an entry
/// of kind `k` yields.  Fetches go to immutable data, so a logically
/// deleted record still satisfies the reference.
pub open spec fn spec_check_entity_ref(
    s: StoreModel,
    addr: AnyLinkableHash,
    k: EntityKind,
) -> Option<Seq<char>> {
    match addr {
        AnyLinkableHash::Action(h) => match s.spec_must_get(h) {
            Option::Some(rec) => match rec.entry {
                Option::Some(e) => if entry_kind(e) == k {
                    Option::None
                } else {
                    Option::Some(msg_wrong_entry())
                },
                Option::None => Option::Some(msg_wrong_entry()),
            },
            Option::None => Option::Some(msg_unfetchable()),
        },
        _ => Option::Some(msg_not_action_hash()),
    }
}

/// Check that `addr` dereferences to a record carrying an entry of kind
/// `k`; reject otherwise.
pub(crate) fn check_entity_ref(s: &Store, addr: AnyLinkableHash, k: EntityKind) -> (r: ValidateCallbackResult)
    ensures
        outcome_matches(r, spec_check_entity_ref(s@, addr, k)),
{
    match addr {
        AnyLinkableHash::Action(h) => match s.must_get_record(h) {
            Option::Some(rec) => match &rec.entry {
                Option::Some(e) => {
                    if entry_kind_of(e) == k {
                        ValidateCallbackResult::Valid
                    } else {
                        invalid("Linked action must reference an entry")
                    }
                },
                Option::None => invalid("Linked action must reference an entry"),
            },
            Option::None => invalid("Linked action must be fetchable"),
        },
        _ => invalid("Linked address must be an action hash"),
    }
}

/// What checking that `addr` dereferences to a record carrying any
/// application entry yields.
pub open spec fn spec_check_any_entry_ref(s: StoreModel, addr: AnyLinkableHash) -> Option<
    Seq<char>,
> {
    match addr {
        AnyLinkableHash::Action(h) => match s.spec_must_get(h) {
            Option::Some(rec) => match rec.entry {
                Option::Some(e) => Option::None,
                Option::None => Option::Some(msg_wrong_entry()),
            },
            Option::None => Option::Some(msg_unfetchable()),
        },
        _ => Option::Some(msg_not_action_hash()),
    }
}

/// Check that `addr` dereferences to a record carrying any application
/// entry; reject otherwise.
fn check_any_entry_ref(s: &Store, addr: AnyLinkableHash) -> (r: ValidateCallbackResult)
    ensures
        outcome_matches(r, spec_check_any_entry_ref(s@, addr)),
{
    match addr {
        AnyLinkableHash::Action(h) => match s.must_get_record(h) {
            Option::Some(rec) => match &rec.entry {
                Option::Some(_) => ValidateCallbackResult::Valid,
                Option::None => invalid("Linked action must reference an entry"),
            },
            Option::None => invalid("Linked action must be fetchable"),
        },
        _ => invalid("Linked address must be an action hash"),
    }
}

/// The character limit for an offer: configured, or the default.
pub open spec fn spec_offer_limit(props: CravingDnaProperties) -> usize {
    match props.max_offer_chars {
        Option::Some(m) => m,
        Option::None => DEFAULT_MAX_OFFER_CHARS,
    }
}

/// The character limit for a reflection — and for comments below one.
pub open spec fn spec_reflection_limit(props: CravingDnaProperties) -> usize {
    match props.max_reflection_chars {
        Option::Some(m) => m,
        Option::None => DEFAULT_MAX_REFLECTION_CHARS,
    }
}

/// The character limit for an association.
pub open spec fn spec_association_limit(props: CravingDnaProperties) -> usize {
    match props.max_association_chars {
        Option::Some(m) => m,
        Option::None => DEFAULT_MAX_ASSOCIATION_CHARS,
    }
}

/// The character limit for an anecdote.
pub open spec fn spec_anecdote_limit(props: CravingDnaProperties) -> usize {
    match props.max_anecdote_chars {
        Option::Some(m) => m,
        Option::None => DEFAULT_MAX_ANECDOTE_CHARS,
    }
}

/// The character limit for an offer: configured, or the default.
pub fn offer_limit(props: &CravingDnaProperties) -> (l: usize)
    ensures
        l == spec_offer_limit(*props),
{
    match props.max_offer_chars {
        Option::Some(m) => m,
        Option::None => DEFAULT_MAX_OFFER_CHARS,
    }
}

/// The character limit for a reflection — and for comments below one.
pub fn reflection_limit(props: &CravingDnaProperties) -> (l: usize)
    ensures
        l == spec_reflection_limit(*props),
{
    match props.max_reflection_chars {
        Option::Some(m) => m,
        Option::None => DEFAULT_MAX_REFLECTION_CHARS,
    }
}

/// The character limit for an association.
pub fn association_limit(props: &CravingDnaProperties) -> (l: usize)
    ensures
        l == spec_association_limit(*props),
{
    match props.max_association_chars {
        Option::Some(m) => m,
        Option::None => DEFAULT_MAX_ASSOCIATION_CHARS,
    }
}

/// The character limit for an anecdote.
pub fn anecdote_limit(props: &CravingDnaProperties) -> (l: usize)
    ensures
        l == spec_anecdote_limit(*props),
{
    match props.max_anecdote_chars {
        Option::Some(m) => m,
        Option::None => DEFAULT_MAX_ANECDOTE_CHARS,
    }
}

/// The number of characters in a string.
pub(crate) fn char_len(s: &String) -> (n: usize)
    ensures
        n == s@.len(),
{
    s.as_str().unicode_len()
}

/// What creating an offer yields: accepted exactly when the text is
/// within the configured or default limit.
pub open spec fn spec_validate_create_offer(
    props: CravingDnaProperties,
    offer: crate::entry::Offer,
) -> Option<Seq<char>> {
    if offer.offer@.len() > spec_offer_limit(props) {
        Option::Some("Offer is longer than allowed"@)
    } else {
        Option::None
    }
}

/// Validate the creation of an offer, on first write and again on every
/// peer: the text must be within the configured or default limit.
pub fn validate_create_offer(
    _action: &EntryCreationAction,
    offer: &crate::entry::Offer,
    props: &CravingDnaProperties,
) -> (r: ValidateCallbackResult)
    ensures
        outcome_matches(r, spec_validate_create_offer(*props, *offer)),
{
    if char_len(&offer.offer) > offer_limit(props) {
        invalid("Offer is longer than allowed")
    } else {
        ValidateCallbackResult::Valid
    }
}

/// Offers are mutable: updating one is always accepted.
pub fn validate_update_offer(
    _action: &Update,
    _offer: &crate::entry::Offer,
    _original_action: &EntryCreationAction,
    _original_offer: &crate::entry::Offer,
) -> (r: ValidateCallbackResult)
    ensures
        r.is_valid(),
{
    ValidateCallbackResult::Valid
}

/// Offers are mutable: deleting one is always accepted.
pub fn validate_delete_offer(
    _action: &Delete,
    _original_action: &EntryCreationAction,
    _original_offer: &crate::entry::Offer,
) -> (r: ValidateCallbackResult)
    ensures
        r.is_valid(),
{
    ValidateCallbackResult::Valid
}

/// What creating a reflection yields: the body must be within the
/// configured or default limit, the title within a fixed limit.
pub open spec fn spec_validate_create_reflection(
    props: CravingDnaProperties,
    reflection: crate::entry::Reflection,
) -> Option<Seq<char>> {
    if reflection.reflection@.len() > spec_reflection_limit(props) {
        Option::Some("Reflection is longer than allowed"@)
    } else if reflection.title@.len() > 80 {
        Option::Some("Reflection title is longer than allowed"@)
    } else {
        Option::None
    }
}

/// Validate the creation of a reflection: body within the configured or
/// default limit, title within a fixed limit of 80 characters.
pub fn validate_create_reflection(
    _action: &EntryCreationAction,
    reflection: &crate::entry::Reflection,
    props: &CravingDnaProperties,
) -> (r: ValidateCallbackResult)
    ensures
        outcome_matches(r, spec_validate_create_reflection(*props, *reflection)),
{
    if char_len(&reflection.reflection) > reflection_limit(props) {
        invalid("Reflection is longer than allowed")
    } else if char_len(&reflection.title) > 80 {
        invalid("Reflection title is longer than allowed")
    } else {
        ValidateCallbackResult::Valid
    }
}

/// Reflections are mutable: updating one is always accepted.
pub fn validate_update_reflection(
    _action: &Update,
    _reflection: &crate::entry::Reflection,
    _original_action: &EntryCreationAction,
    _original_reflection: &crate::entry::Reflection,
) -> (r: ValidateCallbackResult)
    ensures
        r.is_valid(),
{
    ValidateCallbackResult::Valid
}

/// Reflections are mutable: deleting one is always accepted.
pub fn validate_delete_reflection(
    _action: &Delete,
    _original_action: &EntryCreationAction,
    _original_reflection: &crate::entry::Reflection,
) -> (r: ValidateCallbackResult)
    ensures
        r.is_valid(),
{
    ValidateCallbackResult::Valid
}

/// What creating an association yields: accepted exactly when the text
/// is within the configured or default limit.
pub open spec fn spec_validate_create_association(
    props: CravingDnaProperties,
    association: crate::entry::Association,
) -> Option<Seq<char>> {
    if association.association@.len() > spec_association_limit(props) {
        Option::Some("Association is longer than allowed"@)
    } else {
        Option::None
    }
}

/// Validate the creation of an association: the text must be within the
/// configured or default limit.
pub fn validate_create_association(
    _action: &EntryCreationAction,
    association: &crate::entry::Association,
    props: &CravingDnaProperties,
) -> (r: ValidateCallbackResult)
    ensures
        outcome_matches(r, spec_validate_create_association(*props, *association)),
{
    if char_len(&association.association) > association_limit(props) {
        invalid("Association is longer than allowed")
    } else {
        ValidateCallbackResult::Valid
    }
}

/// Associations are immutable: updating one is always rejected, whoever
/// asks.
pub fn validate_update_association(
    _action: &Update,
    _association: &crate::entry::Association,
    _original_action: &EntryCreationAction,
    _original_association: &crate::entry::Association,
) -> (r: ValidateCallbackResult)
    ensures
        r.is_invalid_with("Associations cannot be updated"@),
{
    invalid("Associations cannot be updated")
}

/// Associations are immutable: deleting one is always rejected, whoever
/// asks.
pub fn validate_delete_association(
    _action: &Delete,
    _original_action: &EntryCreationAction,
    _original_association: &crate::entry::Association,
) -> (r: ValidateCallbackResult)
    ensures
        r.is_invalid_with("Associations cannot be deleted"@),
{
    invalid("Associations cannot be deleted")
}

/// What creating an anecdote yields: accepted exactly when the text is
/// within the configured or default limit.
pub open spec fn spec_validate_create_anecdote(
    props: CravingDnaProperties,
    anecdote: crate::entry::Anecdote,
) -> Option<Seq<char>> {
    if anecdote.anecdote@.len() > spec_anecdote_limit(props) {
        Option::Some("Anecdote is longer than allowed"@)
    } else {
        Option::None
    }
}

/// Validate the creation of an anecdote: the text must be within the
/// configured or default limit.
pub fn validate_create_anecdote(
    _action: &EntryCreationAction,
    anecdote: &crate::entry::Anecdote,
    props: &CravingDnaProperties,
) -> (r: ValidateCallbackResult)
    ensures
        outcome_matches(r, spec_validate_create_anecdote(*props, *anecdote)),
{
    if char_len(&anecdote.anecdote) > anecdote_limit(props) {
        invalid("Anecdote is longer than allowed")
    } else {
        ValidateCallbackResult::Valid
    }
}

/// Anecdotes are mutable: updating one is always accepted.
pub fn validate_update_anecdote(
    _action: &Update,
    _anecdote: &crate::entry::Anecdote,
    _original_action: &EntryCreationAction,
    _original_anecdote: &crate::entry::Anecdote,
) -> (r: ValidateCallbackResult)
    ensures
        r.is_valid(),
{
    ValidateCallbackResult::Valid
}

/// Anecdotes are mutable: deleting one is always accepted.
pub fn validate_delete_anecdote(
    _action: &Delete,
    _original_action: &EntryCreationAction,
    _original_anecdote: &crate::entry::Anecdote,
) -> (r: ValidateCallbackResult)
    ensures
        r.is_valid(),
{
    ValidateCallbackResult::Valid
}

/// What creating a comment below an offer yields: the offer it names must
/// dereference to an offer record, and the comment is limited to a fixed
/// 800 characters.
pub open spec fn spec_validate_create_comment_on_offer(
    s: StoreModel,
    comment: crate::entry::CommentOnOffer,
) -> Option<Seq<char>> {
    match spec_check_entity_ref(s, AnyLinkableHash::Action(comment.offer_hash), EntityKind::Offer) {
        Option::Some(m) => Option::Some(m),
        Option::None => if comment.comment@.len() > 800 {
            Option::Some("Comment on Offer is longer than allowed"@)
        } else {
            Option::None
        },
    }
}

/// Validate the creation of a comment below an offer: the named offer
/// must be reachable and of the right kind, the comment within a fixed
/// limit of 800 characters.
pub fn validate_create_comment_on_offer(
    _action: &EntryCreationAction,
    comment_on_offer: &crate::entry::CommentOnOffer,
    s: &Store,
) -> (r: ValidateCallbackResult)
    ensures
        outcome_matches(r, spec_validate_create_comment_on_offer(s@, *comment_on_offer)),
{
    let dep = check_entity_ref(
        s,
        AnyLinkableHash::Action(comment_on_offer.offer_hash),
        EntityKind::Offer,
    );
    if let ValidateCallbackResult::Invalid(_) = &dep {
        return dep;
    }
    if char_len(&comment_on_offer.comment) > 800 {
        invalid("Comment on Offer is longer than allowed")
    } else {
        ValidateCallbackResult::Valid
    }
}

/// Comments below offers are mutable: updating one is always accepted.
pub fn validate_update_comment_on_offer(
    _action: &Update,
    _comment_on_offer: &crate::entry::CommentOnOffer,
    _original_action: &EntryCreationAction,
    _original_comment_on_offer: &crate::entry::CommentOnOffer,
) -> (r: ValidateCallbackResult)
    ensures
        r.is_valid(),
{
    ValidateCallbackResult::Valid
}

/// Comments below offers are mutable: deleting one is always accepted.
pub fn validate_delete_comment_on_offer(
    _action: &Delete,
    _original_action: &EntryCreationAction,
    _original_comment_on_offer: &crate::entry::CommentOnOffer,
) -> (r: ValidateCallbackResult)
    ensures
        r.is_valid(),
{
    ValidateCallbackResult::Valid
}

/// What creating a comment below a reflection yields: the reflection it
/// names must dereference to a reflection record, and the comment shares
/// the reflection's own limit.
pub open spec fn spec_validate_create_comment_on_reflection(
    s: StoreModel,
    props: CravingDnaProperties,
    comment: crate::entry::CommentOnReflection,
) -> Option<Seq<char>> {
    match spec_check_entity_ref(
        s,
        AnyLinkableHash::Action(comment.reflection_hash),
        EntityKind::Reflection,
    ) {
        Option::Some(m) => Option::Some(m),
        Option::None => if comment.comment@.len() > spec_reflection_limit(props) {
            Option::Some("Comment on Reflection is longer than allowed"@)
        } else {
            Option::None
        },
    }
}

/// Validate the creation of a comment below a reflection: the named
/// reflection must be reachable and of the right kind, the comment within
/// the reflection's configured or default limit.
pub fn validate_create_comment_on_reflection(
    _action: &EntryCreationAction,
    comment_on_reflection: &crate::entry::CommentOnReflection,
    s: &Store,
    props: &CravingDnaProperties,
) -> (r: ValidateCallbackResult)
    ensures
        outcome_matches(
            r,
            spec_validate_create_comment_on_reflection(s@, *props, *comment_on_reflection),
        ),
{
    let dep = check_entity_ref(
        s,
        AnyLinkableHash::Action(comment_on_reflection.reflection_hash),
        EntityKind::Reflection,
    );
    if let ValidateCallbackResult::Invalid(_) = &dep {
        return dep;
    }
    if char_len(&comment_on_reflection.comment) > reflection_limit(props) {
        invalid("Comment on Reflection is longer than allowed")
    } else {
        ValidateCallbackResult::Valid
    }
}

/// Comments below reflections are mutable: updating one is always
/// accepted.
pub fn validate_update_comment_on_reflection(
    _action: &Update,
    _comment_on_reflection: &crate::entry::CommentOnReflection,
    _original_action: &EntryCreationAction,
    _original_comment_on_reflection: &crate::entry::CommentOnReflection,
) -> (r: ValidateCallbackResult)
    ensures
        r.is_valid(),
{
    ValidateCallbackResult::Valid
}

/// Comments below reflections are mutable: deleting one is always
/// accepted.
pub fn validate_delete_comment_on_reflection(
    _action: &Delete,
    _original_action: &EntryCreationAction,
    _original_comment_on_reflection: &crate::entry::CommentOnReflection,
) -> (r: ValidateCallbackResult)
    ensures
        r.is_valid(),
{
    ValidateCallbackResult::Valid
}

/// What an update-chain link creation yields: base and target must both
/// dereference to records of the chain's entity kind.
pub open spec fn spec_update_link_rule(
    s: StoreModel,
    base: AnyLinkableHash,
    target: AnyLinkableHash,
    k: EntityKind,
) -> Option<Seq<char>> {
    match spec_check_entity_ref(s, base, k) {
        Option::Some(m) => Option::Some(m),
        Option::None => spec_check_entity_ref(s, target, k),
    }
}

/// Check base and target of an update-chain link against the chain's
/// entity kind.
pub(crate) fn check_update_link(
    s: &Store,
    base: AnyLinkableHash,
    target: AnyLinkableHash,
    k: EntityKind,
) -> (r: ValidateCallbackResult)
    ensures
        outcome_matches(r, spec_update_link_rule(s@, base, target, k)),
{
    let b = check_entity_ref(s, base, k);
    if let ValidateCallbackResult::Invalid(_) = &b {
        return b;
    }
    check_entity_ref(s, target, k)
}

/// Validate laying an update-chain link between two offer records.
pub fn validate_create_link_offer_updates(
    _action: &CreateLink,
    base_address: AnyLinkableHash,
    target_address: AnyLinkableHash,
    _tag: LinkTag,
    s: &Store,
) -> (r: ValidateCallbackResult)
    ensures
        outcome_matches(
            r,
            spec_update_link_rule(s@, base_address, target_address, EntityKind::Offer),
        ),
{
    check_update_link(s, base_address, target_address, EntityKind::Offer)
}

/// Update-chain links are permanent: deleting one is always rejected.
pub fn validate_delete_link_offer_updates(
    _action: &DeleteLink,
    _original_action: &CreateLink,
    _base: AnyLinkableHash,
    _target: AnyLinkableHash,
    _tag: LinkTag,
) -> (r: ValidateCallbackResult)
    ensures
        r.is_invalid_with("OfferUpdates links cannot be deleted"@),
{
    invalid("OfferUpdates links cannot be deleted")
}

/// Validate laying an update-chain link between two reflection records.
pub fn validate_create_link_reflection_updates(
    _action: &CreateLink,
    base_address: AnyLinkableHash,
    target_address: AnyLinkableHash,
    _tag: LinkTag,
    s: &Store,
) -> (r: ValidateCallbackResult)
    ensures
        outcome_matches(
            r,
            spec_update_link_rule(s@, base_address, target_address, EntityKind::Reflection),
        ),
{
    check_update_link(s, base_address, target_address, EntityKind::Reflection)
}

/// Update-chain links are permanent: deleting one is always rejected.
pub fn validate_delete_link_reflection_updates(
    _action: &DeleteLink,
    _original_action: &CreateLink,
    _base: AnyLinkableHash,
    _target: AnyLinkableHash,
    _tag: LinkTag,
) -> (r: ValidateCallbackResult)
    ensures
        r.is_invalid_with("ReflectionUpdates links cannot be deleted"@),
{
    invalid("ReflectionUpdates links cannot be deleted")
}

/// Associations are immutable, so their update-chain is never begun:
/// laying such a link is always rejected.
pub fn validate_create_link_association_updates(
    _action: &CreateLink,
    _base_address: AnyLinkableHash,
    _target_address: AnyLinkableHash,
    _tag: LinkTag,
) -> (r: ValidateCallbackResult)
    ensures
        r.is_invalid_with("AssociationUpdates links cannot be created"@),
{
    invalid("AssociationUpdates links cannot be created")
}

/// Update-chain links are permanent: deleting one is always rejected.
pub fn validate_delete_link_association_updates(
    _action: &DeleteLink,
    _original_action: &CreateLink,
    _base: AnyLinkableHash,
    _target: AnyLinkableHash,
    _tag: LinkTag,
) -> (r: ValidateCallbackResult)
    ensures
        r.is_invalid_with("AssociationUpdates links cannot be deleted"@),
{
    invalid("AssociationUpdates links cannot be deleted")
}

/// Validate laying an update-chain link between two anecdote records.
pub fn validate_create_link_anecdote_updates(
    _action: &CreateLink,
    base_address: AnyLinkableHash,
    target_address: AnyLinkableHash,
    _tag: LinkTag,
    s: &Store,
) -> (r: ValidateCallbackResult)
    ensures
        outcome_matches(
            r,
            spec_update_link_rule(s@, base_address, target_address, EntityKind::Anecdote),
        ),
{
    check_update_link(s, base_address, target_address, EntityKind::Anecdote)
}

/// Update-chain links are permanent: deleting one is always rejected.
pub fn validate_delete_link_anecdote_updates(
    _action: &DeleteLink,
    _original_action: &CreateLink,
    _base: AnyLinkableHash,
    _target: AnyLinkableHash,
    _tag: LinkTag,
) -> (r: ValidateCallbackResult)
    ensures
        r.is_invalid_with("AnecdoteUpdates links cannot be deleted"@),
{
    invalid("AnecdoteUpdates links cannot be deleted")
}

/// What an index link creation yields: the target must dereference to a
/// record of the indexed entity kind; the base is the well-known anchor
/// and is not constrained here.
pub open spec fn spec_index_link_rule(
    s: StoreModel,
    target: AnyLinkableHash,
    k: EntityKind,
) -> Option<Seq<char>> {
    spec_check_entity_ref(s, target, k)
}

/// Validate laying an index link to an offer record.
pub fn validate_create_link_all_offers(
    _action: &CreateLink,
    _base_address: AnyLinkableHash,
    target_address: AnyLinkableHash,
    _tag: LinkTag,
    s: &Store,
) -> (r: ValidateCallbackResult)
    ensures
        outcome_matches(r, spec_index_link_rule(s@, target_address, EntityKind::Offer)),
{
    check_entity_ref(s, target_address, EntityKind::Offer)
}

/// Index links are permanent: deleting one is always rejected.
pub fn validate_delete_link_all_offers(
    _action: &DeleteLink,
    _original_action: &CreateLink,
    _base: AnyLinkableHash,
    _target: AnyLinkableHash,
    _tag: LinkTag,
) -> (r: ValidateCallbackResult)
    ensures
        r.is_invalid_with("AllOffers links cannot be deleted"@),
{
    invalid("AllOffers links cannot be deleted")
}

/// Validate laying an index link to an association record.
pub fn validate_create_link_all_associations(
    _action: &CreateLink,
    _base_address: AnyLinkableHash,
    target_address: AnyLinkableHash,
    _tag: LinkTag,
    s: &Store,
) -> (r: ValidateCallbackResult)
    ensures
        outcome_matches(r, spec_index_link_rule(s@, target_address, EntityKind::Association)),
{
    check_entity_ref(s, target_address, EntityKind::Association)
}

/// Index links are permanent: deleting one is always rejected.
pub fn validate_delete_link_all_associations(
    _action: &DeleteLink,
    _original_action: &CreateLink,
    _base: AnyLinkableHash,
    _target: AnyLinkableHash,
    _tag: LinkTag,
) -> (r: ValidateCallbackResult)
    ensures
        r.is_invalid_with("AllAssociations links cannot be deleted"@),
{
    invalid("AllAssociations links cannot be deleted")
}

/// Validate laying an index link to a reflection record.
pub fn validate_create_link_all_reflections(
    _action: &CreateLink,
    _base_address: AnyLinkableHash,
    target_address: AnyLinkableHash,
    _tag: LinkTag,
    s: &Store,
) -> (r: ValidateCallbackResult)
    ensures
        outcome_matches(r, spec_index_link_rule(s@, target_address, EntityKind::Reflection)),
{
    check_entity_ref(s, target_address, EntityKind::Reflection)
}

/// Index links are permanent: deleting one is always rejected.
pub fn validate_delete_link_all_reflections(
    _action: &DeleteLink,
    _original_action: &CreateLink,
    _base: AnyLinkableHash,
    _target: AnyLinkableHash,
    _tag: LinkTag,
) -> (r: ValidateCallbackResult)
    ensures
        r.is_invalid_with("AllReflections links cannot be deleted"@),
{
    invalid("AllReflections links cannot be deleted")
}

/// Validate laying an index link to an anecdote record.
pub fn validate_create_link_all_anecdotes(
    _action: &CreateLink,
    _base_address: AnyLinkableHash,
    target_address: AnyLinkableHash,
    _tag: LinkTag,
    s: &Store,
) -> (r: ValidateCallbackResult)
    ensures
        outcome_matches(r, spec_index_link_rule(s@, target_address, EntityKind::Anecdote)),
{
    check_entity_ref(s, target_address, EntityKind::Anecdote)
}

/// Index links are permanent: deleting one is always rejected.
pub fn validate_delete_link_all_anecdotes(
    _action: &DeleteLink,
    _original_action: &CreateLink,
    _base: AnyLinkableHash,
    _target: AnyLinkableHash,
    _tag: LinkTag,
) -> (r: ValidateCallbackResult)
    ensures
        r.is_invalid_with("AllAnecdotes links cannot be deleted"@),
{
    invalid("AllAnecdotes links cannot be deleted")
}

/// What a relation link creation yields: the base must dereference to a
/// record of the parent kind, the target to one of the dependent kind.
pub open spec fn spec_relation_link_rule(
    s: StoreModel,
    base: AnyLinkableHash,
    target: AnyLinkableHash,
    parent: EntityKind,
    dependent: EntityKind,
) -> Option<Seq<char>> {
    match spec_check_entity_ref(s, base, parent) {
        Option::Some(m) => Option::Some(m),
        Option::None => spec_check_entity_ref(s, target, dependent),
    }
}

/// Validate laying a relation link from an offer to a comment below it.
pub fn validate_create_link_offer_to_comment_on_offers(
    _action: &CreateLink,
    base_address: AnyLinkableHash,
    target_address: AnyLinkableHash,
    _tag: LinkTag,
    s: &Store,
) -> (r: ValidateCallbackResult)
    ensures
        outcome_matches(
            r,
            spec_relation_link_rule(
                s@,
                base_address,
                target_address,
                EntityKind::Offer,
                EntityKind::CommentOnOffer,
            ),
        ),
{
    let b = check_entity_ref(s, base_address, EntityKind::Offer);
    if let ValidateCallbackResult::Invalid(_) = &b {
        return b;
    }
    check_entity_ref(s, target_address, EntityKind::CommentOnOffer)
}

/// Relation links are permanent: deleting one is always rejected.
pub fn validate_delete_link_offer_to_comment_on_offers(
    _action: &DeleteLink,
    _original_action: &CreateLink,
    _base: AnyLinkableHash,
    _target: AnyLinkableHash,
    _tag: LinkTag,
) -> (r: ValidateCallbackResult)
    ensures
        r.is_invalid_with("OfferToCommentOnOffers links cannot be deleted"@),
{
    invalid("OfferToCommentOnOffers links cannot be deleted")
}

/// Validate laying an update-chain link between two comments below
/// offers.
pub fn validate_create_link_comment_on_offer_updates(
    _action: &CreateLink,
    base_address: AnyLinkableHash,
    target_address: AnyLinkableHash,
    _tag: LinkTag,
    s: &Store,
) -> (r: ValidateCallbackResult)
    ensures
        outcome_matches(
            r,
            spec_update_link_rule(s@, base_address, target_address, EntityKind::CommentOnOffer),
        ),
{
    check_update_link(s, base_address, target_address, EntityKind::CommentOnOffer)
}

/// Update-chain links are permanent: deleting one is always rejected.
pub fn validate_delete_link_comment_on_offer_updates(
    _action: &DeleteLink,
    _original_action: &CreateLink,
    _base: AnyLinkableHash,
    _target: AnyLinkableHash,
    _tag: LinkTag,
) -> (r: ValidateCallbackResult)
    ensures
        r.is_invalid_with("CommentOnOfferUpdates links cannot be deleted"@),
{
    invalid("CommentOnOfferUpdates links cannot be deleted")
}

/// Validate laying a relation link from a reflection to a comment below
/// it.
pub fn validate_create_link_reflection_to_comment_on_reflections(
    _action: &CreateLink,
    base_address: AnyLinkableHash,
    target_address: AnyLinkableHash,
    _tag: LinkTag,
    s: &Store,
) -> (r: ValidateCallbackResult)
    ensures
        outcome_matches(
            r,
            spec_relation_link_rule(
                s@,
                base_address,
                target_address,
                EntityKind::Reflection,
                EntityKind::CommentOnReflection,
            ),
        ),
{
    let b = check_entity_ref(s, base_address, EntityKind::Reflection);
    if let ValidateCallbackResult::Invalid(_) = &b {
        return b;
    }
    check_entity_ref(s, target_address, EntityKind::CommentOnReflection)
}

/// Relation links are permanent: deleting one is always rejected.
pub fn validate_delete_link_reflection_to_comment_on_reflections(
    _action: &DeleteLink,
    _original_action: &CreateLink,
    _base: AnyLinkableHash,
    _target: AnyLinkableHash,
    _tag: LinkTag,
) -> (r: ValidateCallbackResult)
    ensures
        r.is_invalid_with("ReflectionToCommentOnReflections links cannot be deleted"@),
{
    invalid("ReflectionToCommentOnReflections links cannot be deleted")
}

/// Validate laying an update-chain link between two comments below
/// reflections.
pub fn validate_create_link_comment_on_reflection_updates(
    _action: &CreateLink,
    base_address: AnyLinkableHash,
    target_address: AnyLinkableHash,
    _tag: LinkTag,
    s: &Store,
) -> (r: ValidateCallbackResult)
    ensures
        outcome_matches(
            r,
            spec_update_link_rule(
                s@,
                base_address,
                target_address,
                EntityKind::CommentOnReflection,
            ),
        ),
{
    check_update_link(s, base_address, target_address, EntityKind::CommentOnReflection)
}

/// Update-chain links are permanent: deleting one is always rejected.
pub fn validate_delete_link_comment_on_reflection_updates(
    _action: &DeleteLink,
    _original_action: &CreateLink,
    _base: AnyLinkableHash,
    _target: AnyLinkableHash,
    _tag: LinkTag,
) -> (r: ValidateCallbackResult)
    ensures
        r.is_invalid_with("CommentOnReflectionUpdates links cannot be deleted"@),
{
    invalid("CommentOnReflectionUpdates links cannot be deleted")
}

/// What laying a resonator link on a record yields: the target must be
/// the laying author's own identity, and the base must dereference to a
/// record carrying an application entry.
pub open spec fn spec_action_resonator_rule(
    s: StoreModel,
    author: AgentPubKey,
    base: AnyLinkableHash,
    target: AnyLinkableHash,
) -> Option<Seq<char>> {
    match target {
        AnyLinkableHash::Agent(k) => if k != author {
            Option::Some(msg_resonator_self())
        } else {
            spec_check_any_entry_ref(s, base)
        },
        _ => Option::Some(msg_target_not_agent()),
    }
}

/// Reason: a scoped tag may only target the participant laying it.
pub open spec fn msg_resonator_self() -> Seq<char> {
    "Resonators can only be created for oneself"@
}

/// Reason: a scoped tag's target must be a participant identity.
pub open spec fn msg_target_not_agent() -> Seq<char> {
    "Link target must be an agent public key"@
}

/// Reason: only one's own scoped tag may be withdrawn.
pub open spec fn msg_resonator_own() -> Seq<char> {
    "Only own resonators can be deleted"@
}

/// Validate laying a resonator link on a record: self-targeting only,
/// and the record must carry an entry.  The second line of defence behind
/// the tag manager's own check, run by every peer.
pub fn validate_create_link_action_to_resonator(
    action: &CreateLink,
    base_address: AnyLinkableHash,
    target_address: AnyLinkableHash,
    _tag: LinkTag,
    s: &Store,
) -> (r: ValidateCallbackResult)
    ensures
        outcome_matches(
            r,
            spec_action_resonator_rule(s@, action.author, base_address, target_address),
        ),
{
    match target_address {
        AnyLinkableHash::Agent(k) => {
            if !(k.0 == action.author.0) {
                invalid("Resonators can only be created for oneself")
            } else {
                check_any_entry_ref(s, base_address)
            }
        },
        _ => invalid("Link target must be an agent public key"),
    }
}

/// Validate withdrawing a resonator link from a record: only the link's
/// own holder may do so.
pub fn validate_delete_link_action_to_resonator(
    action: &DeleteLink,
    _original_action: &CreateLink,
    _base: AnyLinkableHash,
    target: AnyLinkableHash,
    _tag: LinkTag,
) -> (r: ValidateCallbackResult)
    ensures
        outcome_matches(
            r,
            match target {
                AnyLinkableHash::Agent(k) => if k != action.author {
                    Option::Some(msg_resonator_own())
                } else {
                    Option::<Seq<char>>::None
                },
                _ => Option::Some(msg_target_not_agent()),
            },
        ),
{
    match target {
        AnyLinkableHash::Agent(k) => {
            if !(k.0 == action.author.0) {
                invalid("Only own resonators can be deleted")
            } else {
                ValidateCallbackResult::Valid
            }
        },
        _ => invalid("Link target must be an agent public key"),
    }
}

/// What laying a resonator link on an entry yields: the target must be
/// the laying author's own identity, and the base must be a known entry
/// address.
pub open spec fn spec_entry_resonator_rule(
    s: StoreModel,
    author: AgentPubKey,
    base: AnyLinkableHash,
    target: AnyLinkableHash,
) -> Option<Seq<char>> {
    match target {
        AnyLinkableHash::Agent(k) => if k != author {
            Option::Some(msg_resonator_self())
        } else {
            match base {
                AnyLinkableHash::Entry(eh) => if eh.0 < s.payloads.len() {
                    Option::None
                } else {
                    Option::Some(msg_unfetchable())
                },
                _ => Option::Some(msg_base_not_entry()),
            }
        },
        _ => Option::Some(msg_target_not_agent()),
    }
}

/// Reason: the base of an entry-scoped tag must be an entry address.
pub open spec fn msg_base_not_entry() -> Seq<char> {
    "Link base must be an entry hash"@
}

/// Validate laying a resonator link on an entry: self-targeting only,
/// and the entry must be fetchable.
pub fn validate_create_link_entry_to_resonator(
    action: &CreateLink,
    base_address: AnyLinkableHash,
    target_address: AnyLinkableHash,
    _tag: LinkTag,
    s: &Store,
) -> (r: ValidateCallbackResult)
    ensures
        outcome_matches(
            r,
            spec_entry_resonator_rule(s@, action.author, base_address, target_address),
        ),
{
    match target_address {
        AnyLinkableHash::Agent(k) => {
            if !(k.0 == action.author.0) {
                invalid("Resonators can only be created for oneself")
            } else {
                match base_address {
                    AnyLinkableHash::Entry(eh) => {
                        if eh.0 < s.payloads.len() {
                            ValidateCallbackResult::Valid
                        } else {
                            invalid("Linked action must be fetchable")
                        }
                    },
                    _ => invalid("Link base must be an entry hash"),
                }
            }
        },
        _ => invalid("Link target must be an agent public key"),
    }
}

/// Validate withdrawing a resonator link from an entry: only the link's
/// own holder may do so.
pub fn validate_delete_link_entry_to_resonator(
    action: &DeleteLink,
    _original_action: &CreateLink,
    _base: AnyLinkableHash,
    target: AnyLinkableHash,
    _tag: LinkTag,
) -> (r: ValidateCallbackResult)
    ensures
        outcome_matches(
            r,
            match target {
                AnyLinkableHash::Agent(k) => if k != action.author {
                    Option::Some(msg_resonator_self())
                } else {
                    Option::<Seq<char>>::None
                },
                _ => Option::Some(msg_target_not_agent()),
            },
        ),
{
    match target {
        AnyLinkableHash::Agent(k) => {
            if !(k.0 == action.author.0) {
                invalid("Resonators can only be created for oneself")
            } else {
                ValidateCallbackResult::Valid
            }
        },
        _ => invalid("Link target must be an agent public key"),
    }
}

/// Index and relation links are permanent once created — a deliberate
/// invariant, not an oversight: deleting one is rejected whoever asks,
/// whatever the link points at.
pub proof fn lemma_index_and_relation_links_permanent(
    author: AgentPubKey,
    target: AnyLinkableHash,
    lt: LinkTypes,
)
    requires
        lt == LinkTypes::AllOffers || lt == LinkTypes::AllAssociations || lt
            == LinkTypes::AllReflections || lt == LinkTypes::AllAnecdotes || lt
            == LinkTypes::OfferToCommentOnOffers || lt
            == LinkTypes::ReflectionToCommentOnReflections,
    ensures
        spec_delete_link_rule(author, target, lt) is Some,
{
}

/// An entry operation as authority over the entry itself: the entry
/// content is at hand.
#[derive(Debug)]
pub enum OpEntry {
    CreateEntry { app_entry: Entry, action: Create },
    UpdateEntry { app_entry: Entry, action: Update },
}

/// An update operation as authority over the original action: old and new
/// entries are both at hand.  Kinds other than application entries pass.
#[derive(Debug)]
pub enum OpUpdate {
    Entry {
        original_action: EntryCreationAction,
        original_app_entry: Entry,
        app_entry: Entry,
        action: Update,
    },
    Other,
}

/// A delete operation as authority over the deleted action.
#[derive(Debug)]
pub enum OpDelete {
    Entry { original_action: EntryCreationAction, original_app_entry: Entry, action: Delete },
    Other,
}

/// A record operation as authority over its own chain: only what the
/// record itself carries is at hand, so originals are re-fetched.
#[derive(Debug)]
pub enum OpRecord {
    CreateEntry { app_entry: Entry, action: Create },
    UpdateEntry { original_action_hash: ActionHash, app_entry: Entry, action: Update },
    DeleteEntry { original_action_hash: ActionHash, action: Delete },
    CreateLink {
        base_address: AnyLinkableHash,
        target_address: AnyLinkableHash,
        tag: LinkTag,
        link_type: LinkKind,
        action: CreateLink,
    },
    DeleteLink { original_action_hash: ActionHash, base_address: AnyLinkableHash, action: DeleteLink },
    Other,
}

/// A chain-activity operation; only a participant's joining is ruled on.
#[derive(Clone, Copy, Debug, PartialEq, Eq, Structural)]
pub enum OpActivity {
    CreateAgent { agent: AgentPubKey, prev_action: ActionHash },
    Other,
}

/// One incoming ledger operation, as each peer receives it for
/// validation.  The same operation reaches a peer under several
/// authorities; each must come to the same verdict from hash-reachable
/// data alone.
#[derive(Debug)]
pub enum Op {
    StoreEntry(OpEntry),
    RegisterUpdate(OpUpdate),
    RegisterDelete(OpDelete),
    RegisterCreateLink {
        base_address: AnyLinkableHash,
        target_address: AnyLinkableHash,
        tag: LinkTag,
        link_type: LinkKind,
        action: CreateLink,
    },
    RegisterDeleteLink {
        base_address: AnyLinkableHash,
        target_address: AnyLinkableHash,
        tag: LinkTag,
        link_type: LinkKind,
        original_action: CreateLink,
        action: DeleteLink,
    },
    StoreRecord(OpRecord),
    RegisterAgentActivity(OpActivity),
}

/// Whether this entry belongs to the craving network's own entry kinds.
pub open spec fn is_craving_entry(e: Entry) -> bool {
    match e {
        Entry::DnaRecipe(_) => false,
        Entry::LobbyInfo(_) => false,
        _ => true,
    }
}

/// What creating any entry yields, dispatched on its kind; entries of
/// another network pass.
pub open spec fn spec_entry_create_rule(
    s: StoreModel,
    props: CravingDnaProperties,
    e: Entry,
) -> Option<Seq<char>> {
    match e {
        Entry::Offer(o) => spec_validate_create_offer(props, o),
        Entry::Reflection(r) => spec_validate_create_reflection(props, r),
        Entry::Association(a) => spec_validate_create_association(props, a),
        Entry::Anecdote(a) => spec_validate_create_anecdote(props, a),
        Entry::CommentOnOffer(c) => spec_validate_create_comment_on_offer(s, c),
        Entry::CommentOnReflection(c) => spec_validate_create_comment_on_reflection(s, props, c),
        Entry::DnaRecipe(_) => Option::None,
        Entry::LobbyInfo(_) => Option::None,
    }
}

/// What updating an entity of this kind yields: mutable kinds accept,
/// the immutable association always rejects.
pub open spec fn spec_update_rule(e: Entry) -> Option<Seq<char>> {
    match e {
        Entry::Association(_) => Option::Some("Associations cannot be updated"@),
        _ => Option::None,
    }
}

/// What deleting an entity of this kind yields: mutable kinds accept,
/// the immutable association always rejects.
pub open spec fn spec_delete_rule(e: Entry) -> Option<Seq<char>> {
    match e {
        Entry::Association(_) => Option::Some("Associations cannot be deleted"@),
        _ => Option::None,
    }
}

/// Reason: an update must replace an entry with one of the same kind.
pub open spec fn msg_update_kind_mismatch() -> Seq<char> {
    "Original and updated entry types must be the same"@
}

/// What laying a link of this kind yields, dispatched per link kind.
pub open spec fn spec_create_link_rule(
    s: StoreModel,
    author: AgentPubKey,
    base: AnyLinkableHash,
    target: AnyLinkableHash,
    lt: LinkTypes,
) -> Option<Seq<char>> {
    match lt {
        LinkTypes::OfferUpdates => spec_update_link_rule(s, base, target, EntityKind::Offer),
        LinkTypes::ReflectionUpdates => spec_update_link_rule(
            s,
            base,
            target,
            EntityKind::Reflection,
        ),
        LinkTypes::AssociationUpdates => Option::Some("AssociationUpdates links cannot be created"@),
        LinkTypes::AnecdoteUpdates => spec_update_link_rule(s, base, target, EntityKind::Anecdote),
        LinkTypes::OfferToCommentOnOffers => spec_relation_link_rule(
            s,
            base,
            target,
            EntityKind::Offer,
            EntityKind::CommentOnOffer,
        ),
        LinkTypes::CommentOnOfferUpdates => spec_update_link_rule(
            s,
            base,
            target,
            EntityKind::CommentOnOffer,
        ),
        LinkTypes::ReflectionToCommentOnReflections => spec_relation_link_rule(
            s,
            base,
            target,
            EntityKind::Reflection,
            EntityKind::CommentOnReflection,
        ),
        LinkTypes::CommentOnReflectionUpdates => spec_update_link_rule(
            s,
            base,
            target,
            EntityKind::CommentOnReflection,
        ),
        LinkTypes::EntryToResonator => spec_entry_resonator_rule(s, author, base, target),
        LinkTypes::ActionToResonator => spec_action_resonator_rule(s, author, base, target),
        LinkTypes::AllOffers => spec_index_link_rule(s, target, EntityKind::Offer),
        LinkTypes::AllAssociations => spec_index_link_rule(s, target, EntityKind::Association),
        LinkTypes::AllReflections => spec_index_link_rule(s, target, EntityKind::Reflection),
        LinkTypes::AllAnecdotes => spec_index_link_rule(s, target, EntityKind::Anecdote),
    }
}

/// What deleting a link of this kind yields: update-chain, index and
/// relation links are permanent; only one's own resonator marks may go.
pub open spec fn spec_delete_link_rule(
    author: AgentPubKey,
    target: AnyLinkableHash,
    lt: LinkTypes,
) -> Option<Seq<char>> {
    match lt {
        LinkTypes::OfferUpdates => Option::Some("OfferUpdates links cannot be deleted"@),
        LinkTypes::ReflectionUpdates => Option::Some("ReflectionUpdates links cannot be deleted"@),
        LinkTypes::AssociationUpdates => Option::Some(
            "AssociationUpdates links cannot be deleted"@,
        ),
        LinkTypes::AnecdoteUpdates => Option::Some("AnecdoteUpdates links cannot be deleted"@),
        LinkTypes::OfferToCommentOnOffers => Option::Some(
            "OfferToCommentOnOffers links cannot be deleted"@,
        ),
        LinkTypes::CommentOnOfferUpdates => Option::Some(
            "CommentOnOfferUpdates links cannot be deleted"@,
        ),
        LinkTypes::ReflectionToCommentOnReflections => Option::Some(
            "ReflectionToCommentOnReflections links cannot be deleted"@,
        ),
        LinkTypes::CommentOnReflectionUpdates => Option::Some(
            "CommentOnReflectionUpdates links cannot be deleted"@,
        ),
        LinkTypes::EntryToResonator => match target {
            AnyLinkableHash::Agent(k) => if k != author {
                Option::Some(msg_resonator_self())
            } else {
                Option::None
            },
            _ => Option::Some(msg_target_not_agent()),
        },
        LinkTypes::ActionToResonator => match target {
            AnyLinkableHash::Agent(k) => if k != author {
                Option::Some(msg_resonator_own())
            } else {
                Option::None
            },
            _ => Option::Some(msg_target_not_agent()),
        },
        LinkTypes::AllOffers => Option::Some("AllOffers links cannot be deleted"@),
        LinkTypes::AllAssociations => Option::Some("AllAssociations links cannot be deleted"@),
        LinkTypes::AllReflections => Option::Some("AllReflections links cannot be deleted"@),
        LinkTypes::AllAnecdotes => Option::Some("AllAnecdotes links cannot be deleted"@),
    }
}

/// Reason: the original of an update must itself write an entry.
pub open spec fn msg_update_original_kind() -> Seq<char> {
    "Original action for an update must be a Create or Update action"@
}

/// Reason: the original of a delete must itself write an entry.
pub open spec fn msg_delete_original_kind() -> Seq<char> {
    "Original action for a delete must be a Create or Update action"@
}

/// Reason: a deleted public entry's record must carry the entry.
pub open spec fn msg_delete_original_entry() -> Seq<char> {
    "Original record for a delete of a public entry must contain an entry"@
}

/// Reason: the new and original entry of one update must share a kind.
pub open spec fn msg_update_entry_mismatch() -> Seq<char> {
    "The updated entry type must be the same as the original entry type"@
}

/// Reason: a link deletion must name a link creation.
pub open spec fn msg_delete_link_original() -> Seq<char> {
    "The action that a DeleteLink deletes must be a CreateLink"@
}

/// Reason: a joining participant's chain must open with the validation
/// package.
pub open spec fn msg_malformed_join() -> Seq<char> {
    "The previous action for a `CreateAgent` action must be an `AgentValidationPkg`"@
}

/// What ruling on an update under record authority yields: re-fetch the
/// original to recover its prior typed payload, reject when it cannot be
/// recovered or does not match, else apply create- and update-rules.
pub open spec fn spec_record_update_rule(
    s: StoreModel,
    props: CravingDnaProperties,
    original_action_hash: ActionHash,
    e: Entry,
) -> Option<Seq<char>> {
    match s.spec_must_get(original_action_hash) {
        Option::None => Option::Some(msg_unfetchable()),
        Option::Some(orig) => {
            if !orig.action.is_entry_creation() {
                Option::Some(msg_update_original_kind())
            } else {
                match spec_entry_create_rule(s, props, e) {
                    Option::Some(m) => Option::Some(m),
                    Option::None => {
                        if !is_craving_entry(e) {
                            Option::None
                        } else {
                            match orig.entry {
                                Option::Some(oe) => if entry_kind(oe) == entry_kind(e) {
                                    spec_update_rule(e)
                                } else {
                                    Option::Some(msg_update_entry_mismatch())
                                },
                                Option::None => Option::Some(msg_update_entry_mismatch()),
                            }
                        }
                    },
                }
            }
        },
    }
}

/// What ruling on a delete under record authority yields: re-fetch the
/// original to recover its prior typed payload, then apply the
/// delete-rule of its kind.
pub open spec fn spec_record_delete_rule(
    s: StoreModel,
    original_action_hash: ActionHash,
) -> Option<Seq<char>> {
    match s.spec_must_get(original_action_hash) {
        Option::None => Option::Some(msg_unfetchable()),
        Option::Some(orig) => {
            if !orig.action.is_entry_creation() {
                Option::Some(msg_delete_original_kind())
            } else {
                match orig.entry {
                    Option::Some(oe) => spec_delete_rule(oe),
                    Option::None => Option::Some(msg_delete_original_entry()),
                }
            }
        },
    }
}

/// What ruling on a link deletion under record authority yields:
/// re-fetch the deleted link-creation to recover its kind and target.
pub open spec fn spec_record_delete_link_rule(
    s: StoreModel,
    author: AgentPubKey,
    original_action_hash: ActionHash,
) -> Option<Seq<char>> {
    match s.spec_must_get(original_action_hash) {
        Option::None => Option::Some(msg_unfetchable()),
        Option::Some(orig) => match orig.action {
            Action::CreateLink(cl) => match cl.link_type {
                LinkKind::Craving(lt) => spec_delete_link_rule(author, cl.target_address, lt),
                LinkKind::Lobby(_) => Option::None,
            },
            _ => Option::Some(msg_delete_link_original()),
        },
    }
}

/// What ruling on a participant's joining yields: the action before the
/// key record must be the validation package.
pub open spec fn spec_join_rule(s: StoreModel, prev_action: ActionHash) -> Option<Seq<char>> {
    match s.spec_must_get(prev_action) {
        Option::None => Option::Some(msg_unfetchable()),
        Option::Some(prev) => match prev.action {
            Action::AgentValidationPkg { .. } => Option::None,
            _ => Option::Some(msg_malformed_join()),
        },
    }
}

/// The whole craving-network validation state machine as a mathematical
/// function: every peer computes this same verdict for an operation,
/// whatever order records arrived in.  Combinations no rule claims are
/// accepted.
pub open spec fn spec_validate(
    s: StoreModel,
    props: CravingDnaProperties,
    op: Op,
) -> Option<Seq<char>> {
    match op {
        Op::StoreEntry(oe) => match oe {
            OpEntry::CreateEntry { app_entry, .. } => spec_entry_create_rule(s, props, app_entry),
            OpEntry::UpdateEntry { app_entry, .. } => spec_entry_create_rule(s, props, app_entry),
        },
        Op::RegisterUpdate(ou) => match ou {
            OpUpdate::Entry { original_app_entry, app_entry, .. } => {
                if !is_craving_entry(app_entry) && !is_craving_entry(original_app_entry) {
                    Option::None
                } else if entry_kind(app_entry) == entry_kind(original_app_entry) {
                    spec_update_rule(app_entry)
                } else {
                    Option::Some(msg_update_kind_mismatch())
                }
            },
            OpUpdate::Other => Option::None,
        },
        Op::RegisterDelete(od) => match od {
            OpDelete::Entry { original_app_entry, .. } => {
                if !is_craving_entry(original_app_entry) {
                    Option::None
                } else {
                    spec_delete_rule(original_app_entry)
                }
            },
            OpDelete::Other => Option::None,
        },
        Op::RegisterCreateLink { base_address, target_address, link_type, action, .. } => {
            match link_type {
                LinkKind::Craving(lt) => spec_create_link_rule(
                    s,
                    action.author,
                    base_address,
                    target_address,
                    lt,
                ),
                LinkKind::Lobby(_) => Option::None,
            }
        },
        Op::RegisterDeleteLink { target_address, link_type, action, .. } => match link_type {
            LinkKind::Craving(lt) => spec_delete_link_rule(action.author, target_address, lt),
            LinkKind::Lobby(_) => Option::None,
        },
        Op::StoreRecord(orec) => match orec {
            OpRecord::CreateEntry { app_entry, .. } => spec_entry_create_rule(s, props, app_entry),
            OpRecord::UpdateEntry { original_action_hash, app_entry, .. } => spec_record_update_rule(
                s,
                props,
                original_action_hash,
                app_entry,
            ),
            OpRecord::DeleteEntry { original_action_hash, .. } => spec_record_delete_rule(
                s,
                original_action_hash,
            ),
            OpRecord::CreateLink { base_address, target_address, link_type, action, .. } => {
                match link_type {
                    LinkKind::Craving(lt) => spec_create_link_rule(
                        s,
                        action.author,
                        base_address,
                        target_address,
                        lt,
                    ),
                    LinkKind::Lobby(_) => Option::None,
                }
            },
            OpRecord::DeleteLink { original_action_hash, action, .. } => {
                spec_record_delete_link_rule(s, action.author, original_action_hash)
            },
            OpRecord::Other => Option::None,
        },
        Op::RegisterAgentActivity(oa) => match oa {
            OpActivity::CreateAgent { prev_action, .. } => spec_join_rule(s, prev_action),
            OpActivity::Other => Option::None,
        },
    }
}

/// Associations are immutable: every update operation that touches an
/// association — as the new entry or as the original — is rejected,
/// whoever authored it and whatever the rest of the store holds.
pub proof fn lemma_immutable_update_rejected(
    s: StoreModel,
    props: CravingDnaProperties,
    ou: OpUpdate,
)
    requires
        match ou {
            OpUpdate::Entry { original_app_entry, .. } => original_app_entry is Association,
            OpUpdate::Other => false,
        },
    ensures
        spec_validate(s, props, Op::RegisterUpdate(ou)) is Some,
{
}

/// Associations are immutable: every delete operation against one is
/// rejected, whoever authored it and whatever the rest of the store
/// holds.
pub proof fn lemma_immutable_delete_rejected(
    s: StoreModel,
    props: CravingDnaProperties,
    od: OpDelete,
)
    requires
        match od {
            OpDelete::Entry { original_app_entry, .. } => original_app_entry is Association,
            OpDelete::Other => false,
        },
    ensures
        spec_validate(s, props, Op::RegisterDelete(od)) is Some,
{
}

/// What a joining participant submits for their own first check.
#[derive(Clone, Copy, Debug, PartialEq, Eq, Structural)]
pub struct GenesisSelfCheckData {
    pub agent_key: AgentPubKey,
    pub membrane_proof: Option<crate::lobby::MembraneProof>,
}

/// The joining participant's own pre-commit self check: this network is
/// open, so it always passes.
pub fn genesis_self_check(_data: &GenesisSelfCheckData) -> (r: ValidateCallbackResult)
    ensures
        r.is_valid(),
{
    ValidateCallbackResult::Valid
}

/// Whether a participant may join: this network is open, so anyone may.
pub fn validate_agent_joining(
    _agent_pub_key: AgentPubKey,
    _membrane_proof: &Option<crate::lobby::MembraneProof>,
) -> (r: ValidateCallbackResult)
    ensures
        r.is_valid(),
{
    ValidateCallbackResult::Valid
}

/// Rule on one incoming operation of the craving network.  Dispatched on
/// (operation kind, entity or link kind); each pair maps to exactly one
/// rule, and unclaimed combinations are accepted.  Identical logic runs
/// locally pre-commit and at every receiving peer.
pub fn validate(s: &Store, props: &CravingDnaProperties, op: &Op) -> (r: ValidateCallbackResult)
    ensures
        outcome_matches(r, spec_validate(s@, *props, *op)),
{
    match op {
        Op::StoreEntry(oe) => match oe {
            OpEntry::CreateEntry { app_entry, action } => validate_entry_create(
                s,
                props,
                &EntryCreationAction::Create(*action),
                app_entry,
            ),
            OpEntry::UpdateEntry { app_entry, action } => validate_entry_create(
                s,
                props,
                &EntryCreationAction::Update(*action),
                app_entry,
            ),
        },
        Op::RegisterUpdate(ou) => match ou {
            OpUpdate::Entry { original_action, original_app_entry, app_entry, action } => {
                match (app_entry, original_app_entry) {
                    (Entry::Offer(n), Entry::Offer(o)) => validate_update_offer(
                        action,
                        n,
                        original_action,
                        o,
                    ),
                    (Entry::Reflection(n), Entry::Reflection(o)) => validate_update_reflection(
                        action,
                        n,
                        original_action,
                        o,
                    ),
                    (Entry::Association(n), Entry::Association(o)) => validate_update_association(
                        action,
                        n,
                        original_action,
                        o,
                    ),
                    (Entry::Anecdote(n), Entry::Anecdote(o)) => validate_update_anecdote(
                        action,
                        n,
                        original_action,
                        o,
                    ),
                    (Entry::CommentOnOffer(n), Entry::CommentOnOffer(o)) => validate_update_comment_on_offer(
                        action,
                        n,
                        original_action,
                        o,
                    ),
                    (Entry::CommentOnReflection(n), Entry::CommentOnReflection(o)) => validate_update_comment_on_reflection(
                        action,
                        n,
                        original_action,
                        o,
                    ),
                    _ => {
                        let new_craving = match app_entry {
                            Entry::DnaRecipe(_) => false,
                            Entry::LobbyInfo(_) => false,
                            _ => true,
                        };
                        let orig_craving = match original_app_entry {
                            Entry::DnaRecipe(_) => false,
                            Entry::LobbyInfo(_) => false,
                            _ => true,
                        };
                        if !new_craving && !orig_craving {
                            ValidateCallbackResult::Valid
                        } else {
                            invalid("Original and updated entry types must be the same")
                        }
                    },
                }
            },
            OpUpdate::Other => ValidateCallbackResult::Valid,
        },
        Op::RegisterDelete(od) => match od {
            OpDelete::Entry { original_action, original_app_entry, action } => {
                match original_app_entry {
                    Entry::Offer(o) => validate_delete_offer(action, original_action, o),
                    Entry::Reflection(o) => validate_delete_reflection(action, original_action, o),
                    Entry::Association(o) => validate_delete_association(
                        action,
                        original_action,
                        o,
                    ),
                    Entry::Anecdote(o) => validate_delete_anecdote(action, original_action, o),
                    Entry::CommentOnOffer(o) => validate_delete_comment_on_offer(
                        action,
                        original_action,
                        o,
                    ),
                    Entry::CommentOnReflection(o) => validate_delete_comment_on_reflection(
                        action,
                        original_action,
                        o,
                    ),
                    Entry::DnaRecipe(_) => ValidateCallbackResult::Valid,
                    Entry::LobbyInfo(_) => ValidateCallbackResult::Valid,
                }
            },
            OpDelete::Other => ValidateCallbackResult::Valid,
        },
        Op::RegisterCreateLink { base_address, target_address, tag, link_type, action } => {
            match link_type {
                LinkKind::Craving(lt) => validate_craving_create_link(
                    s,
                    action,
                    *base_address,
                    *target_address,
                    *tag,
                    *lt,
                ),
                LinkKind::Lobby(_) => ValidateCallbackResult::Valid,
            }
        },
        Op::RegisterDeleteLink { target_address, link_type, original_action, action, .. } => {
            match link_type {
                LinkKind::Craving(lt) => validate_craving_delete_link(
                    action,
                    original_action,
                    *target_address,
                    *lt,
                ),
                LinkKind::Lobby(_) => ValidateCallbackResult::Valid,
            }
        },
        Op::StoreRecord(orec) => match orec {
            OpRecord::CreateEntry { app_entry, action } => validate_entry_create(
                s,
                props,
                &EntryCreationAction::Create(*action),
                app_entry,
            ),
            OpRecord::UpdateEntry { original_action_hash, app_entry, action } => {
                let orig = match s.must_get_record(*original_action_hash) {
                    Option::Some(orig) => orig,
                    Option::None => {
                        return invalid("Linked action must be fetchable");
                    },
                };
                let original_action = match orig.action {
                    Action::Create(c) => EntryCreationAction::Create(c),
                    Action::Update(u) => EntryCreationAction::Update(u),
                    _ => {
                        return invalid(
                            "Original action for an update must be a Create or Update action",
                        );
                    },
                };
                let created = validate_entry_create(
                    s,
                    props,
                    &EntryCreationAction::Update(*action),
                    app_entry,
                );
                if let ValidateCallbackResult::Invalid(_) = &created {
                    return created;
                }
                match (app_entry, &orig.entry) {
                    (Entry::Offer(n), Option::Some(Entry::Offer(o))) => validate_update_offer(
                        action,
                        n,
                        &original_action,
                        o,
                    ),
                    (Entry::Reflection(n), Option::Some(Entry::Reflection(o))) => validate_update_reflection(
                        action,
                        n,
                        &original_action,
                        o,
                    ),
                    (Entry::Association(n), Option::Some(Entry::Association(o))) => validate_update_association(
                        action,
                        n,
                        &original_action,
                        o,
                    ),
                    (Entry::Anecdote(n), Option::Some(Entry::Anecdote(o))) => validate_update_anecdote(
                        action,
                        n,
                        &original_action,
                        o,
                    ),
                    (
                        Entry::CommentOnOffer(n),
                        Option::Some(Entry::CommentOnOffer(o)),
                    ) => validate_update_comment_on_offer(action, n, &original_action, o),
                    (
                        Entry::CommentOnReflection(n),
                        Option::Some(Entry::CommentOnReflection(o)),
                    ) => validate_update_comment_on_reflection(action, n, &original_action, o),
                    (Entry::DnaRecipe(_), _) => ValidateCallbackResult::Valid,
                    (Entry::LobbyInfo(_), _) => ValidateCallbackResult::Valid,
                    _ => invalid(
                        "The updated entry type must be the same as the original entry type",
                    ),
                }
            },
            OpRecord::DeleteEntry { original_action_hash, action } => {
                let orig = match s.must_get_record(*original_action_hash) {
                    Option::Some(orig) => orig,
                    Option::None => {
                        return invalid("Linked action must be fetchable");
                    },
                };
                let original_action = match orig.action {
                    Action::Create(c) => EntryCreationAction::Create(c),
                    Action::Update(u) => EntryCreationAction::Update(u),
                    _ => {
                        return invalid(
                            "Original action for a delete must be a Create or Update action",
                        );
                    },
                };
                match &orig.entry {
                    Option::Some(oe) => match oe {
                        Entry::Offer(o) => validate_delete_offer(action, &original_action, o),
                        Entry::Reflection(o) => validate_delete_reflection(
                            action,
                            &original_action,
                            o,
                        ),
                        Entry::Association(o) => validate_delete_association(
                            action,
                            &original_action,
                            o,
                        ),
                        Entry::Anecdote(o) => validate_delete_anecdote(action, &original_action, o),
                        Entry::CommentOnOffer(o) => validate_delete_comment_on_offer(
                            action,
                            &original_action,
                            o,
                        ),
                        Entry::CommentOnReflection(o) => validate_delete_comment_on_reflection(
                            action,
                            &original_action,
                            o,
                        ),
                        Entry::DnaRecipe(_) => ValidateCallbackResult::Valid,
                        Entry::LobbyInfo(_) => ValidateCallbackResult::Valid,
                    },
                    Option::None => invalid(
                        "Original record for a delete of a public entry must contain an entry",
                    ),
                }
            },
            OpRecord::CreateLink { base_address, target_address, tag, link_type, action } => {
                match link_type {
                    LinkKind::Craving(lt) => validate_craving_create_link(
                        s,
                        action,
                        *base_address,
                        *target_address,
                        *tag,
                        *lt,
                    ),
                    LinkKind::Lobby(_) => ValidateCallbackResult::Valid,
                }
            },
            OpRecord::DeleteLink { original_action_hash, action, .. } => {
                let orig = match s.must_get_record(*original_action_hash) {
                    Option::Some(orig) => orig,
                    Option::None => {
                        return invalid("Linked action must be fetchable");
                    },
                };
                match orig.action {
                    Action::CreateLink(cl) => match cl.link_type {
                        LinkKind::Craving(lt) => validate_craving_delete_link(
                            action,
                            &cl,
                            cl.target_address,
                            lt,
                        ),
                        LinkKind::Lobby(_) => ValidateCallbackResult::Valid,
                    },
                    _ => invalid("The action that a DeleteLink deletes must be a CreateLink"),
                }
            },
            OpRecord::Other => ValidateCallbackResult::Valid,
        },
        Op::RegisterAgentActivity(oa) => match oa {
            OpActivity::CreateAgent { agent, prev_action } => {
                match s.must_get_record(*prev_action) {
                    Option::None => invalid("Linked action must be fetchable"),
                    Option::Some(prev) => match prev.action {
                        Action::AgentValidationPkg { membrane_proof, .. } => validate_agent_joining(
                            *agent,
                            &membrane_proof,
                        ),
                        _ => invalid(
                            "The previous action for a `CreateAgent` action must be an `AgentValidationPkg`",
                        ),
                    },
                }
            },
            OpActivity::Other => ValidateCallbackResult::Valid,
        },
    }
}

/// Rule on creating any entry, dispatched on its kind; entries of another
/// network pass.
fn validate_entry_create(
    s: &Store,
    props: &CravingDnaProperties,
    action: &EntryCreationAction,
    e: &Entry,
) -> (r: ValidateCallbackResult)
    ensures
        outcome_matches(r, spec_entry_create_rule(s@, *props, *e)),
{
    match e {
        Entry::Offer(o) => validate_create_offer(action, o, props),
        Entry::Reflection(rf) => validate_create_reflection(action, rf, props),
        Entry::Association(a) => validate_create_association(action, a, props),
        Entry::Anecdote(a) => validate_create_anecdote(action, a, props),
        Entry::CommentOnOffer(c) => validate_create_comment_on_offer(action, c, s),
        Entry::CommentOnReflection(c) => validate_create_comment_on_reflection(
            action,
            c,
            s,
            props,
        ),
        Entry::DnaRecipe(_) => ValidateCallbackResult::Valid,
        Entry::LobbyInfo(_) => ValidateCallbackResult::Valid,
    }
}

/// Rule on laying a craving-network link, dispatched per link kind.
fn validate_craving_create_link(
    s: &Store,
    action: &CreateLink,
    base_address: AnyLinkableHash,
    target_address: AnyLinkableHash,
    tag: LinkTag,
    lt: LinkTypes,
) -> (r: ValidateCallbackResult)
    ensures
        outcome_matches(
            r,
            spec_create_link_rule(s@, action.author, base_address, target_address, lt),
        ),
{
    match lt {
        LinkTypes::OfferUpdates => validate_create_link_offer_updates(
            action,
            base_address,
            target_address,
            tag,
            s,
        ),
        LinkTypes::ReflectionUpdates => validate_create_link_reflection_updates(
            action,
            base_address,
            target_address,
            tag,
            s,
        ),
        LinkTypes::AssociationUpdates => validate_create_link_association_updates(
            action,
            base_address,
            target_address,
            tag,
        ),
        LinkTypes::AnecdoteUpdates => validate_create_link_anecdote_updates(
            action,
            base_address,
            target_address,
            tag,
            s,
        ),
        LinkTypes::OfferToCommentOnOffers => validate_create_link_offer_to_comment_on_offers(
            action,
            base_address,
            target_address,
            tag,
            s,
        ),
        LinkTypes::CommentOnOfferUpdates => validate_create_link_comment_on_offer_updates(
            action,
            base_address,
            target_address,
            tag,
            s,
        ),
        LinkTypes::ReflectionToCommentOnReflections => validate_create_link_reflection_to_comment_on_reflections(
            action,
            base_address,
            target_address,
            tag,
            s,
        ),
        LinkTypes::CommentOnReflectionUpdates => validate_create_link_comment_on_reflection_updates(
            action,
            base_address,
            target_address,
            tag,
            s,
        ),
        LinkTypes::EntryToResonator => validate_create_link_entry_to_resonator(
            action,
            base_address,
            target_address,
            tag,
            s,
        ),
        LinkTypes::ActionToResonator => validate_create_link_action_to_resonator(
            action,
            base_address,
            target_address,
            tag,
            s,
        ),
        LinkTypes::AllOffers => validate_create_link_all_offers(
            action,
            base_address,
            target_address,
            tag,
            s,
        ),
        LinkTypes::AllAssociations => validate_create_link_all_associations(
            action,
            base_address,
            target_address,
            tag,
            s,
        ),
        LinkTypes::AllReflections => validate_create_link_all_reflections(
            action,
            base_address,
            target_address,
            tag,
            s,
        ),
        LinkTypes::AllAnecdotes => validate_create_link_all_anecdotes(
            action,
            base_address,
            target_address,
            tag,
            s,
        ),
    }
}

/// Rule on deleting a craving-network link, dispatched per link kind.
fn validate_craving_delete_link(
    action: &DeleteLink,
    original_action: &CreateLink,
    target_address: AnyLinkableHash,
    lt: LinkTypes,
) -> (r: ValidateCallbackResult)
    ensures
        outcome_matches(r, spec_delete_link_rule(action.author, target_address, lt)),
{
    let tag = LinkTag(0);
    let base = original_action.base_address;
    match lt {
        LinkTypes::OfferUpdates => validate_delete_link_offer_updates(
            action,
            original_action,
            base,
            target_address,
            tag,
        ),
        LinkTypes::ReflectionUpdates => validate_delete_link_reflection_updates(
            action,
            original_action,
            base,
            target_address,
            tag,
        ),
        LinkTypes::AssociationUpdates => validate_delete_link_association_updates(
            action,
            original_action,
            base,
            target_address,
            tag,
        ),
        LinkTypes::AnecdoteUpdates => validate_delete_link_anecdote_updates(
            action,
            original_action,
            base,
            target_address,
            tag,
        ),
        LinkTypes::OfferToCommentOnOffers => validate_delete_link_offer_to_comment_on_offers(
            action,
            original_action,
            base,
            target_address,
            tag,
        ),
        LinkTypes::CommentOnOfferUpdates => validate_delete_link_comment_on_offer_updates(
            action,
            original_action,
            base,
            target_address,
            tag,
        ),
        LinkTypes::ReflectionToCommentOnReflections => validate_delete_link_reflection_to_comment_on_reflections(
            action,
            original_action,
            base,
            target_address,
            tag,
        ),
        LinkTypes::CommentOnReflectionUpdates => validate_delete_link_comment_on_reflection_updates(
            action,
            original_action,
            base,
            target_address,
            tag,
        ),
        LinkTypes::EntryToResonator => validate_delete_link_entry_to_resonator(
            action,
            original_action,
            base,
            target_address,
            tag,
        ),
        LinkTypes::ActionToResonator => validate_delete_link_action_to_resonator(
            action,
            original_action,
            base,
            target_address,
            tag,
        ),
        LinkTypes::AllOffers => validate_delete_link_all_offers(
            action,
            original_action,
            base,
            target_address,
            tag,
        ),
        LinkTypes::AllAssociations => validate_delete_link_all_associations(
            action,
            original_action,
            base,
            target_address,
            tag,
        ),
        LinkTypes::AllReflections => validate_delete_link_all_reflections(
            action,
            original_action,
            base,
            target_address,
            tag,
        ),
        LinkTypes::AllAnecdotes => validate_delete_link_all_anecdotes(
            action,
            original_action,
            base,
            target_address,
            tag,
        ),
    }
}

} // verus!
