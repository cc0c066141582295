//! The parameterised entity engine.
//!
//! Every entity kind follows one pattern: create a record and hang it off
//! its index anchor or its parent, update through a new record plus an
//! update-chain link, delete through a tombstone — each step checked by
//! the same rules the peer-side validator applies, so nothing a local
//! writer commits would be rejected on arrival elsewhere.  The per-kind
//! modules instantiate this engine.

use vstd::prelude::*;
use crate::types::{
    ActionHash, AgentPubKey, AnyLinkableHash, CravingError, Timestamp,
};
use crate::entry::{CravingDnaProperties, Entry, LinkKind, LinkTypes};
use crate::action::{Action, LinkTag, Record};
use crate::store::{Store, StoreModel};
use crate::validate::{
    spec_anecdote_limit, spec_association_limit, spec_check_entity_ref, spec_entry_create_rule,
    spec_offer_limit, spec_reflection_limit, anecdote_limit, association_limit, check_entity_ref,
    entry_kind, entry_kind_of, offer_limit, reflection_limit, EntityKind,
};
use crate::validate::char_len;

verus! {

/// Whether entities of this kind may be updated: mutable kinds only;
/// associations and recipes are immutable, the lobby description is
/// append-only but updatable.
pub open spec fn kind_updatable(k: EntityKind) -> bool {
    match k {
        EntityKind::Association => false,
        EntityKind::DnaRecipe => false,
        _ => true,
    }
}

/// Whether entities of this kind may be deleted: immutable kinds never,
/// and the append-only lobby description never.
pub open spec fn kind_deletable(k: EntityKind) -> bool {
    match k {
        EntityKind::Association => false,
        EntityKind::DnaRecipe => false,
        EntityKind::LobbyInfo => false,
        _ => true,
    }
}

/// The update-chain link kind of each entity kind.  Kinds that cannot be
/// updated never lay one.
pub open spec fn updates_link_kind(k: EntityKind) -> LinkKind {
    match k {
        EntityKind::Offer => LinkKind::Craving(LinkTypes::OfferUpdates),
        EntityKind::Reflection => LinkKind::Craving(LinkTypes::ReflectionUpdates),
        EntityKind::Association => LinkKind::Craving(LinkTypes::AssociationUpdates),
        EntityKind::Anecdote => LinkKind::Craving(LinkTypes::AnecdoteUpdates),
        EntityKind::CommentOnOffer => LinkKind::Craving(LinkTypes::CommentOnOfferUpdates),
        EntityKind::CommentOnReflection => LinkKind::Craving(
            LinkTypes::CommentOnReflectionUpdates,
        ),
        EntityKind::DnaRecipe => LinkKind::Lobby(crate::lobby::LinkTypes::LobbyInfoUpdates),
        EntityKind::LobbyInfo => LinkKind::Lobby(crate::lobby::LinkTypes::LobbyInfoUpdates),
    }
}

/// The update-chain link kind of each entity kind.
pub fn updates_link_kind_of(k: EntityKind) -> (lt: LinkKind)
    ensures
        lt == updates_link_kind(k),
{
    match k {
        EntityKind::Offer => LinkKind::Craving(LinkTypes::OfferUpdates),
        EntityKind::Reflection => LinkKind::Craving(LinkTypes::ReflectionUpdates),
        EntityKind::Association => LinkKind::Craving(LinkTypes::AssociationUpdates),
        EntityKind::Anecdote => LinkKind::Craving(LinkTypes::AnecdoteUpdates),
        EntityKind::CommentOnOffer => LinkKind::Craving(LinkTypes::CommentOnOfferUpdates),
        EntityKind::CommentOnReflection => LinkKind::Craving(
            LinkTypes::CommentOnReflectionUpdates,
        ),
        EntityKind::DnaRecipe => LinkKind::Lobby(crate::lobby::LinkTypes::LobbyInfoUpdates),
        EntityKind::LobbyInfo => LinkKind::Lobby(crate::lobby::LinkTypes::LobbyInfoUpdates),
    }
}

/// The typed failure a local writer receives when the creation rule
/// rejects this payload: the limit that was exceeded — and whether it was
/// configured or the default — or the dependency that did not resolve.
pub open spec fn spec_create_error(
    s: StoreModel,
    props: CravingDnaProperties,
    e: Entry,
) -> CravingError {
    match e {
        Entry::Offer(o) => CravingError::SizeLimitExceeded {
            limit: spec_offer_limit(props),
            configured: props.max_offer_chars is Some,
        },
        Entry::Reflection(r) => if r.reflection@.len() > spec_reflection_limit(props) {
            CravingError::SizeLimitExceeded {
                limit: spec_reflection_limit(props),
                configured: props.max_reflection_chars is Some,
            }
        } else {
            CravingError::SizeLimitExceeded { limit: 80, configured: false }
        },
        Entry::Association(_) => CravingError::SizeLimitExceeded {
            limit: spec_association_limit(props),
            configured: props.max_association_chars is Some,
        },
        Entry::Anecdote(_) => CravingError::SizeLimitExceeded {
            limit: spec_anecdote_limit(props),
            configured: props.max_anecdote_chars is Some,
        },
        Entry::CommentOnOffer(c) => if spec_check_entity_ref(
            s,
            AnyLinkableHash::Action(c.offer_hash),
            EntityKind::Offer,
        ) is Some {
            CravingError::DependencyMissing
        } else {
            CravingError::SizeLimitExceeded { limit: 800, configured: false }
        },
        Entry::CommentOnReflection(c) => if spec_check_entity_ref(
            s,
            AnyLinkableHash::Action(c.reflection_hash),
            EntityKind::Reflection,
        ) is Some {
            CravingError::DependencyMissing
        } else {
            CravingError::SizeLimitExceeded {
                limit: spec_reflection_limit(props),
                configured: props.max_reflection_chars is Some,
            }
        },
        _ => CravingError::NotFound,
    }
}

/// Run the creation rule and hand back the typed failure, if any.
fn check_create(s: &Store, props: &CravingDnaProperties, e: &Entry) -> (r: Option<CravingError>)
    ensures
        r is Some <==> spec_entry_create_rule(s@, *props, *e) is Some,
        r is Some ==> r == Option::Some(spec_create_error(s@, *props, *e)),
{
    match e {
        Entry::Offer(o) => {
            if char_len(&o.offer) > offer_limit(props) {
                Option::Some(
                    CravingError::SizeLimitExceeded {
                        limit: offer_limit(props),
                        configured: props.max_offer_chars.is_some(),
                    },
                )
            } else {
                Option::None
            }
        },
        Entry::Reflection(rf) => {
            if char_len(&rf.reflection) > reflection_limit(props) {
                Option::Some(
                    CravingError::SizeLimitExceeded {
                        limit: reflection_limit(props),
                        configured: props.max_reflection_chars.is_some(),
                    },
                )
            } else if char_len(&rf.title) > 80 {
                Option::Some(CravingError::SizeLimitExceeded { limit: 80, configured: false })
            } else {
                Option::None
            }
        },
        Entry::Association(a) => {
            if char_len(&a.association) > association_limit(props) {
                Option::Some(
                    CravingError::SizeLimitExceeded {
                        limit: association_limit(props),
                        configured: props.max_association_chars.is_some(),
                    },
                )
            } else {
                Option::None
            }
        },
        Entry::Anecdote(a) => {
            if char_len(&a.anecdote) > anecdote_limit(props) {
                Option::Some(
                    CravingError::SizeLimitExceeded {
                        limit: anecdote_limit(props),
                        configured: props.max_anecdote_chars.is_some(),
                    },
                )
            } else {
                Option::None
            }
        },
        Entry::CommentOnOffer(c) => {
            let dep = check_entity_ref(s, AnyLinkableHash::Action(c.offer_hash), EntityKind::Offer);
            if let crate::types::ValidateCallbackResult::Invalid(_) = dep {
                return Option::Some(CravingError::DependencyMissing);
            }
            if char_len(&c.comment) > 800 {
                Option::Some(CravingError::SizeLimitExceeded { limit: 800, configured: false })
            } else {
                Option::None
            }
        },
        Entry::CommentOnReflection(c) => {
            let dep = check_entity_ref(
                s,
                AnyLinkableHash::Action(c.reflection_hash),
                EntityKind::Reflection,
            );
            if let crate::types::ValidateCallbackResult::Invalid(_) = dep {
                return Option::Some(CravingError::DependencyMissing);
            }
            if char_len(&c.comment) > reflection_limit(props) {
                Option::Some(
                    CravingError::SizeLimitExceeded {
                        limit: reflection_limit(props),
                        configured: props.max_reflection_chars.is_some(),
                    },
                )
            } else {
                Option::None
            }
        },
        Entry::DnaRecipe(_) => Option::None,
        Entry::LobbyInfo(_) => Option::None,
    }
}

/// The store after an accepted entity creation: the new record, and a
/// link to it from `link_base` — its index anchor, or its parent.
pub open spec fn spec_create_entity(
    s: StoreModel,
    author: AgentPubKey,
    now: Timestamp,
    payload: Entry,
    link_base: AnyLinkableHash,
    lt: LinkKind,
) -> StoreModel {
    s.spec_create_entry(author, now, payload).spec_create_link(
        author,
        now,
        link_base,
        AnyLinkableHash::Action(ActionHash(s.records.len() as usize)),
        lt,
        LinkTag(0),
    )
}

/// Create an entity: check the creation rule exactly as every peer will,
/// write the record, and hang it off `link_base`.  Returns the full new
/// record, so callers never re-fetch.
pub fn create_entity(
    s: &mut Store,
    author: AgentPubKey,
    now: Timestamp,
    payload: Entry,
    link_base: AnyLinkableHash,
    lt: LinkKind,
    props: &CravingDnaProperties,
) -> (r: Result<Record, CravingError>)
    requires
        old(s)@.wf(),
    ensures
        match r {
            Result::Ok(rec) => {
                &&& spec_entry_create_rule(old(s)@, *props, payload) is None
                &&& final(s)@ == spec_create_entity(old(s)@, author, now, payload, link_base, lt)
                &&& final(s)@.wf()
                &&& rec == final(s)@.records[old(s)@.records.len() as int]
                &&& rec.entry == Option::Some(payload)
            },
            Result::Err(e) => {
                &&& spec_entry_create_rule(old(s)@, *props, payload) is Some
                &&& e == spec_create_error(old(s)@, *props, payload)
                &&& final(s)@ == old(s)@
            },
        },
{
    if let Option::Some(e) = check_create(s, props, &payload) {
        return Result::Err(e);
    }
    let h = s.create_entry(author, now, payload);
    let rec = s.records[h.0].clone();
    s.create_link(author, now, link_base, AnyLinkableHash::Action(h), lt, LinkTag(0));
    Result::Ok(rec)
}

/// The store after an accepted entity update: the update record against
/// `previous`, and an update-chain link from `original` to it.
pub open spec fn spec_update_entity(
    s: StoreModel,
    author: AgentPubKey,
    now: Timestamp,
    original: ActionHash,
    previous: ActionHash,
    payload: Entry,
) -> StoreModel {
    s.spec_update_entry(author, now, previous, payload).spec_create_link(
        author,
        now,
        AnyLinkableHash::Action(original),
        AnyLinkableHash::Action(ActionHash(s.records.len() as usize)),
        updates_link_kind(entry_kind(payload)),
        LinkTag(0),
    )
}

/// The typed failure an update stops with, checked in this order: the
/// creation rule on the new payload, the kind's mutability, then the
/// previous record — it must exist, write an entry, and write one of the
/// same kind.
pub open spec fn spec_update_error(
    s: StoreModel,
    props: CravingDnaProperties,
    previous: ActionHash,
    payload: Entry,
) -> Option<CravingError> {
    if spec_entry_create_rule(s, props, payload) is Some {
        Option::Some(spec_create_error(s, props, payload))
    } else if !kind_updatable(entry_kind(payload)) {
        Option::Some(CravingError::ImmutableViolation)
    } else if !s.has_record(previous) {
        Option::Some(CravingError::NotFound)
    } else if !s.record_at(previous).action.is_entry_creation() {
        Option::Some(CravingError::InconsistentHistory)
    } else if match s.record_at(previous).entry {
        Option::Some(oe) => entry_kind(oe) != entry_kind(payload),
        Option::None => true,
    } {
        Option::Some(CravingError::InconsistentHistory)
    } else {
        Option::None
    }
}

/// Update an entity: check the same rules every peer will — the creation
/// rule on the new payload, the kind's mutability, and that the previous
/// record is a matching original — then write the update record and the
/// update-chain link from `original`.  The original record stays intact
/// forever; readers rank versions at read time.
pub fn update_entity(
    s: &mut Store,
    author: AgentPubKey,
    now: Timestamp,
    original: ActionHash,
    previous: ActionHash,
    payload: Entry,
    props: &CravingDnaProperties,
) -> (r: Result<Record, CravingError>)
    requires
        old(s)@.wf(),
    ensures
        match r {
            Result::Ok(rec) => {
                &&& spec_update_error(old(s)@, *props, previous, payload) is None
                &&& final(s)@ == spec_update_entity(
                    old(s)@,
                    author,
                    now,
                    original,
                    previous,
                    payload,
                )
                &&& final(s)@.wf()
                &&& rec == final(s)@.records[old(s)@.records.len() as int]
                &&& rec.entry == Option::Some(payload)
            },
            Result::Err(e) => {
                &&& spec_update_error(old(s)@, *props, previous, payload) == Option::Some(e)
                &&& final(s)@ == old(s)@
            },
        },
{
    if let Option::Some(e) = check_create(s, props, &payload) {
        return Result::Err(e);
    }
    let k = entry_kind_of(&payload);
    let updatable = match k {
        EntityKind::Association => false,
        EntityKind::DnaRecipe => false,
        _ => true,
    };
    if !updatable {
        return Result::Err(CravingError::ImmutableViolation);
    }
    let prev = match s.must_get_record(previous) {
        Option::Some(prev) => prev,
        Option::None => {
            return Result::Err(CravingError::NotFound);
        },
    };
    let prev_is_creation = match prev.action {
        Action::Create(_) => true,
        Action::Update(_) => true,
        _ => false,
    };
    if !prev_is_creation {
        return Result::Err(CravingError::InconsistentHistory);
    }
    let same_kind = match &prev.entry {
        Option::Some(oe) => entry_kind_of(oe) == k,
        Option::None => false,
    };
    if !same_kind {
        return Result::Err(CravingError::InconsistentHistory);
    }
    let lt = updates_link_kind_of(k);
    let h = match s.update_entry(author, now, previous, payload) {
        Result::Ok(h) => h,
        Result::Err(e) => {
            return Result::Err(e);
        },
    };
    let rec = s.records[h.0].clone();
    s.create_link(
        author,
        now,
        AnyLinkableHash::Action(original),
        AnyLinkableHash::Action(h),
        lt,
        LinkTag(0),
    );
    Result::Ok(rec)
}

/// The typed failure a delete stops with: the original must exist and
/// write an entry, and its kind must allow deletion at all.
pub open spec fn spec_delete_error(s: StoreModel, original: ActionHash) -> Option<CravingError> {
    if !s.has_record(original) {
        Option::Some(CravingError::NotFound)
    } else if !s.record_at(original).action.is_entry_creation() {
        Option::Some(CravingError::InconsistentHistory)
    } else if match s.record_at(original).entry {
        Option::Some(oe) => !kind_deletable(entry_kind(oe)),
        Option::None => false,
    } {
        Option::Some(CravingError::ImmutableViolation)
    } else {
        Option::None
    }
}

/// Delete an entity: check the same rules every peer will — the original
/// must be a record of a deletable kind — then write the tombstone.  The
/// original record itself stays in the store forever; plain fetches stop
/// returning it.
pub fn delete_entity(
    s: &mut Store,
    author: AgentPubKey,
    now: Timestamp,
    original: ActionHash,
) -> (r: Result<ActionHash, CravingError>)
    requires
        old(s)@.wf(),
    ensures
        match r {
            Result::Ok(h) => {
                &&& spec_delete_error(old(s)@, original) is None
                &&& final(s)@ == old(s)@.spec_delete_entry(author, now, original)
                &&& final(s)@.wf()
                &&& h.0 == old(s)@.records.len()
            },
            Result::Err(e) => {
                &&& spec_delete_error(old(s)@, original) == Option::Some(e)
                &&& final(s)@ == old(s)@
            },
        },
{
    let orig = match s.must_get_record(original) {
        Option::Some(orig) => orig,
        Option::None => {
            return Result::Err(CravingError::NotFound);
        },
    };
    let orig_is_creation = match orig.action {
        Action::Create(_) => true,
        Action::Update(_) => true,
        _ => false,
    };
    if !orig_is_creation {
        return Result::Err(CravingError::InconsistentHistory);
    }
    let deletable = match &orig.entry {
        Option::Some(oe) => match entry_kind_of(oe) {
            EntityKind::Association => false,
            EntityKind::DnaRecipe => false,
            EntityKind::LobbyInfo => false,
            _ => true,
        },
        Option::None => true,
    };
    if !deletable {
        return Result::Err(CravingError::ImmutableViolation);
    }
    match s.delete_entry(author, now, original) {
        Result::Ok(h) => Result::Ok(h),
        Result::Err(e) => Result::Err(e),
    }
}

/// A payload exactly at its configured or default limit is accepted by
/// the creation rule, whatever the store holds.
pub proof fn lemma_create_at_limit_accepted(
    s: StoreModel,
    props: CravingDnaProperties,
    offer: crate::entry::Offer,
)
    requires
        offer.offer@.len() == spec_offer_limit(props),
    ensures
        spec_entry_create_rule(s, props, Entry::Offer(offer)) is None,
{
}

/// A payload one character over its limit is rejected, and the local
/// writer receives the limit that was exceeded and whether it was
/// configured or the default.
pub proof fn lemma_create_over_limit_rejected(
    s: StoreModel,
    props: CravingDnaProperties,
    offer: crate::entry::Offer,
)
    requires
        offer.offer@.len() == spec_offer_limit(props) + 1,
    ensures
        spec_entry_create_rule(s, props, Entry::Offer(offer)) is Some,
        spec_create_error(s, props, Entry::Offer(offer)) == (CravingError::SizeLimitExceeded {
            limit: spec_offer_limit(props),
            configured: props.max_offer_chars is Some,
        }),
{
}

/// The records the given links point at, in link order: targets that are
/// not action addresses or no longer dereference to a live record are
/// skipped.
pub open spec fn spec_fetch_targets(s: StoreModel, links: Seq<crate::action::Link>) -> Seq<Record>
    decreases links.len(),
{
    if links.len() == 0 {
        Seq::empty()
    } else {
        let rest = spec_fetch_targets(s, links.drop_last());
        match links.last().target {
            AnyLinkableHash::Action(h) => match s.spec_get(h) {
                Option::Some(rec) => rest.push(rec),
                Option::None => rest,
            },
            _ => rest,
        }
    }
}

/// Fetch every record the links of `base` point at, in link order,
/// dropping targets that no longer dereference.
pub fn fetch_link_targets(s: &Store, base: AnyLinkableHash, lt: LinkKind) -> (r: Vec<Record>)
    ensures
        r@ == spec_fetch_targets(s@, s@.links(base, lt)),
{
    let links = s.get_links(base, lt);
    let m = links.len();
    let mut out: Vec<Record> = Vec::new();
    let mut i: usize = 0;
    while i < m
        invariant
            m == links.len(),
            links@ == s@.links(base, lt),
            i <= m,
            out@ == spec_fetch_targets(s@, links@.subrange(0, i as int)),
        decreases m - i,
    {
        proof {
            assert(links@.subrange(0, i + 1 as int).drop_last() =~= links@.subrange(0, i as int));
            assert(links@.subrange(0, i + 1 as int).last() == links@[i as int]);
        }
        if let AnyLinkableHash::Action(h) = links[i].target {
            if let Option::Some(rec) = s.get(h) {
                out.push(rec);
            }
        }
        i = i + 1;
    }
    proof {
        assert(links@.subrange(0, m as int) =~= links@);
    }
    out
}

} // verus!
