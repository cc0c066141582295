//! The peer-validation state machine: size limits, immutability,
//! permanent links, scoped-tag authorship, and the join preamble — the
//! same verdict for every peer, whoever authored the operation.

use craving::action::{Create, CreateLink, Delete, DeleteLink, EntryCreationAction, LinkTag, Update};
use craving::entry::{
    Anecdote, Association, CommentOnOffer, CravingDnaProperties, Entry, LinkKind, LinkTypes, Offer,
    Reflection,
};
use craving::store::Store;
use craving::types::{
    ActionHash, AgentPubKey, AnyLinkableHash, Timestamp, ValidateCallbackResult,
};
use craving::validate::{
    validate, validate_create_anecdote, validate_create_association, validate_create_offer,
    validate_create_reflection, validate_delete_association, validate_update_association, Op,
    OpDelete, OpEntry, OpUpdate,
};

fn props() -> CravingDnaProperties {
    CravingDnaProperties {
        title: String::from("a craving"),
        description: String::from("about craving"),
        max_association_chars: None,
        max_reflection_chars: None,
        max_offer_chars: None,
        max_anecdote_chars: None,
    }
}

fn create_action(author: u64, t: i64) -> EntryCreationAction {
    EntryCreationAction::Create(Create {
        author: AgentPubKey(author),
        timestamp: Timestamp(t),
        entry_hash: craving::types::EntryHash(0),
    })
}

fn update_action(author: u64, t: i64) -> Update {
    Update {
        author: AgentPubKey(author),
        timestamp: Timestamp(t),
        original_action_address: ActionHash(0),
        original_entry_address: craving::types::EntryHash(0),
        entry_hash: craving::types::EntryHash(0),
    }
}

fn delete_action(author: u64, t: i64) -> Delete {
    Delete {
        author: AgentPubKey(author),
        timestamp: Timestamp(t),
        deletes_address: ActionHash(0),
        deletes_entry_address: craving::types::EntryHash(0),
    }
}

fn assert_valid(r: &ValidateCallbackResult) {
    match r {
        ValidateCallbackResult::Valid => {},
        ValidateCallbackResult::Invalid(m) => panic!("unexpected rejection: {}", m),
    }
}

fn assert_invalid_with(r: &ValidateCallbackResult, msg: &str) {
    match r {
        ValidateCallbackResult::Valid => panic!("expected rejection: {}", msg),
        ValidateCallbackResult::Invalid(m) => assert_eq!(m, msg),
    }
}

#[test]
fn payload_at_default_limit_is_accepted() {
    // 300 characters is the default offer limit.
    let text: String = "x".repeat(300);
    let r = validate_create_offer(
        &create_action(1, 100),
        &Offer { offer: text, explanation: None },
        &props(),
    );
    assert_valid(&r);
}

#[test]
fn payload_over_default_limit_is_rejected() {
    let text: String = "x".repeat(301);
    let r = validate_create_offer(
        &create_action(1, 100),
        &Offer { offer: text, explanation: None },
        &props(),
    );
    assert_invalid_with(&r, "Offer is longer than allowed");
}

#[test]
fn payload_at_configured_limit_is_accepted() {
    let mut p = props();
    p.max_offer_chars = Some(10);
    let at = validate_create_offer(
        &create_action(1, 100),
        &Offer { offer: "x".repeat(10), explanation: None },
        &p,
    );
    assert_valid(&at);
    let over = validate_create_offer(
        &create_action(1, 100),
        &Offer { offer: "x".repeat(11), explanation: None },
        &p,
    );
    assert_invalid_with(&over, "Offer is longer than allowed");
}

#[test]
fn every_entity_limit_is_enforced() {
    let p = props();
    let a = create_action(1, 100);
    assert_invalid_with(
        &validate_create_association(&a, &Association { association: "x".repeat(71) }, &p),
        "Association is longer than allowed",
    );
    assert_valid(&validate_create_association(
        &a,
        &Association { association: "x".repeat(70) },
        &p,
    ));
    assert_invalid_with(
        &validate_create_anecdote(&a, &Anecdote { anecdote: "x".repeat(751) }, &p),
        "Anecdote is longer than allowed",
    );
    assert_invalid_with(
        &validate_create_reflection(
            &a,
            &Reflection { title: String::from("t"), reflection: "x".repeat(4001) },
            &p,
        ),
        "Reflection is longer than allowed",
    );
    assert_invalid_with(
        &validate_create_reflection(
            &a,
            &Reflection { title: "t".repeat(81), reflection: String::from("r") },
            &p,
        ),
        "Reflection title is longer than allowed",
    );
}

#[test]
fn association_update_rejects_for_any_caller() {
    let orig = Association { association: String::from("water") };
    let new = Association { association: String::from("fire") };
    for author in [1u64, 2, 42] {
        let r = validate_update_association(
            &update_action(author, 500),
            &new,
            &create_action(1, 100),
            &orig,
        );
        assert_invalid_with(&r, "Associations cannot be updated");
    }
}

#[test]
fn association_delete_rejects_for_any_caller() {
    let orig = Association { association: String::from("water") };
    for author in [1u64, 2, 42] {
        let r = validate_delete_association(
            &delete_action(author, 500),
            &create_action(1, 100),
            &orig,
        );
        assert_invalid_with(&r, "Associations cannot be deleted");
    }
}

#[test]
fn index_and_relation_link_deletion_always_rejects() {
    let s = Store::new();
    let p = props();
    let cases = [
        (LinkTypes::AllOffers, "AllOffers links cannot be deleted"),
        (LinkTypes::AllAssociations, "AllAssociations links cannot be deleted"),
        (LinkTypes::AllReflections, "AllReflections links cannot be deleted"),
        (LinkTypes::AllAnecdotes, "AllAnecdotes links cannot be deleted"),
        (
            LinkTypes::OfferToCommentOnOffers,
            "OfferToCommentOnOffers links cannot be deleted",
        ),
        (
            LinkTypes::ReflectionToCommentOnReflections,
            "ReflectionToCommentOnReflections links cannot be deleted",
        ),
    ];
    for author in [1u64, 7] {
        for (lt, msg) in &cases {
            let op = Op::RegisterDeleteLink {
                base_address: AnyLinkableHash::Action(ActionHash(0)),
                target_address: AnyLinkableHash::Action(ActionHash(1)),
                tag: LinkTag(0),
                link_type: LinkKind::Craving(*lt),
                original_action: CreateLink {
                    author: AgentPubKey(9),
                    timestamp: Timestamp(10),
                    base_address: AnyLinkableHash::Action(ActionHash(0)),
                    target_address: AnyLinkableHash::Action(ActionHash(1)),
                    link_type: LinkKind::Craving(*lt),
                    tag: LinkTag(0),
                },
                action: DeleteLink {
                    author: AgentPubKey(author),
                    timestamp: Timestamp(20),
                    link_add_address: ActionHash(2),
                    base_address: AnyLinkableHash::Action(ActionHash(0)),
                },
            };
            assert_invalid_with(&validate(&s, &p, &op), msg);
        }
    }
}

#[test]
fn update_dispatch_rejects_association_and_kind_mismatch() {
    let s = Store::new();
    let p = props();
    let assoc_update = Op::RegisterUpdate(OpUpdate::Entry {
        original_action: create_action(1, 100),
        original_app_entry: Entry::Association(Association { association: String::from("w") }),
        app_entry: Entry::Association(Association { association: String::from("f") }),
        action: update_action(2, 200),
    });
    assert_invalid_with(&validate(&s, &p, &assoc_update), "Associations cannot be updated");
    let mismatched = Op::RegisterUpdate(OpUpdate::Entry {
        original_action: create_action(1, 100),
        original_app_entry: Entry::Offer(Offer { offer: String::from("o"), explanation: None }),
        app_entry: Entry::Anecdote(Anecdote { anecdote: String::from("a") }),
        action: update_action(2, 200),
    });
    assert_invalid_with(
        &validate(&s, &p, &mismatched),
        "Original and updated entry types must be the same",
    );
    let offer_update = Op::RegisterUpdate(OpUpdate::Entry {
        original_action: create_action(1, 100),
        original_app_entry: Entry::Offer(Offer { offer: String::from("o"), explanation: None }),
        app_entry: Entry::Offer(Offer { offer: String::from("o2"), explanation: None }),
        action: update_action(2, 200),
    });
    assert_valid(&validate(&s, &p, &offer_update));
}

#[test]
fn delete_dispatch_rejects_association_only() {
    let s = Store::new();
    let p = props();
    let assoc = Op::RegisterDelete(OpDelete::Entry {
        original_action: create_action(1, 100),
        original_app_entry: Entry::Association(Association { association: String::from("w") }),
        action: delete_action(2, 200),
    });
    assert_invalid_with(&validate(&s, &p, &assoc), "Associations cannot be deleted");
    let offer = Op::RegisterDelete(OpDelete::Entry {
        original_action: create_action(1, 100),
        original_app_entry: Entry::Offer(Offer { offer: String::from("o"), explanation: None }),
        action: delete_action(2, 200),
    });
    assert_valid(&validate(&s, &p, &offer));
}

#[test]
fn comment_on_missing_offer_is_rejected() {
    let s = Store::new();
    let p = props();
    let op = Op::StoreEntry(OpEntry::CreateEntry {
        app_entry: Entry::CommentOnOffer(CommentOnOffer {
            offer_hash: ActionHash(3),
            comment: String::from("nice"),
        }),
        action: Create {
            author: AgentPubKey(1),
            timestamp: Timestamp(100),
            entry_hash: craving::types::EntryHash(0),
        },
    });
    assert_invalid_with(&validate(&s, &p, &op), "Linked action must be fetchable");
}

#[test]
fn resonator_link_for_someone_else_is_rejected() {
    let mut s = Store::new();
    let p = props();
    let subject = s.create_entry(
        AgentPubKey(9),
        Timestamp(50),
        Entry::Offer(Offer { offer: String::from("help"), explanation: None }),
    );
    let mk = |author: u64, target: u64| Op::RegisterCreateLink {
        base_address: AnyLinkableHash::Action(subject),
        target_address: AnyLinkableHash::Agent(AgentPubKey(target)),
        tag: LinkTag(0),
        link_type: LinkKind::Craving(LinkTypes::ActionToResonator),
        action: CreateLink {
            author: AgentPubKey(author),
            timestamp: Timestamp(100),
            base_address: AnyLinkableHash::Action(subject),
            target_address: AnyLinkableHash::Agent(AgentPubKey(target)),
            link_type: LinkKind::Craving(LinkTypes::ActionToResonator),
            tag: LinkTag(0),
        },
    };
    assert_invalid_with(&validate(&s, &p, &mk(1, 2)), "Resonators can only be created for oneself");
    assert_valid(&validate(&s, &p, &mk(1, 1)));
}

#[test]
fn joining_needs_the_validation_package_before_the_key() {
    let mut s = Store::new();
    let p = props();
    let alice = AgentPubKey(1);
    let key_record = s.genesis(alice, Timestamp(10));
    let prev_ok = ActionHash(key_record.0 - 1);
    let good = Op::RegisterAgentActivity(craving::validate::OpActivity::CreateAgent {
        agent: alice,
        prev_action: prev_ok,
    });
    assert_valid(&validate(&s, &p, &good));
    let bad = Op::RegisterAgentActivity(craving::validate::OpActivity::CreateAgent {
        agent: alice,
        prev_action: ActionHash(prev_ok.0 - 1),
    });
    assert_invalid_with(
        &validate(&s, &p, &bad),
        "The previous action for a `CreateAgent` action must be an `AgentValidationPkg`",
    );
}
