//! The lobby network: a singleton description resolved through its
//! update chain, recipes deduplicated at write time, and the lobby's own
//! validation rules.

use craving::action::{Create, Delete, EntryCreationAction, Update};
use craving::entry::{CravingDnaProperties, Entry};
use craving::lobby::{
    add_lobby_info_for_anchor, create_dna_recipe, create_lobby_info, get_all_craving_recipes,
    get_dna_recipe, get_lobby_info, get_lobby_infos_for_anchor, get_lobby_name, update_lobby_info,
    validate_delete_dna_recipe, validate_delete_lobby_info, validate_update_dna_recipe,
    AddLobbyInfoForAnchorInput, DnaRecipe, LobbyDnaProperties, LobbyInfo, UpdateLobbyInfoInput,
};
use craving::store::Store;
use craving::types::{
    ActionHash, AgentPubKey, CravingError, DnaHash, EntryHash, Timestamp, ValidateCallbackResult,
};

fn lobby_info(seed: &str) -> LobbyInfo {
    LobbyInfo {
        description: String::from("a quiet lobby"),
        unenforced_rules: None,
        logo_src: None,
        network_seed: String::from(seed),
    }
}

fn recipe(title: &str) -> DnaRecipe {
    DnaRecipe {
        title: String::from(title),
        network_seed: None,
        properties: CravingDnaProperties {
            title: String::from(title),
            description: String::from("d"),
            max_association_chars: None,
            max_reflection_chars: None,
            max_offer_chars: None,
            max_anecdote_chars: None,
        },
        origin_time: Some(Timestamp(5)),
        membrane_proof: None,
        resulting_dna_hash: DnaHash(7),
    }
}

#[test]
fn lobby_info_is_a_singleton() {
    let mut s = Store::new();
    let alice = AgentPubKey(1);
    let first = create_lobby_info(&mut s, alice, Timestamp(100), lobby_info("seed")).unwrap();
    let again = create_lobby_info(&mut s, AgentPubKey(2), Timestamp(200), lobby_info("other"));
    assert_eq!(again.unwrap_err(), CravingError::AlreadyExists);
    let got = get_lobby_info(&s).unwrap().expect("the singleton must resolve");
    assert_eq!(got.action_hash, first.action_hash);
}

#[test]
fn lobby_info_resolves_to_latest_update() {
    let mut s = Store::new();
    let alice = AgentPubKey(1);
    let bob = AgentPubKey(2);
    match get_lobby_info(&s) {
        Err(CravingError::NotFound) => {},
        _ => panic!("an empty lobby must report nothing to point at"),
    }
    let first = create_lobby_info(&mut s, alice, Timestamp(100), lobby_info("seed")).unwrap();
    // Anyone may update the description.
    let updated = update_lobby_info(
        &mut s,
        bob,
        Timestamp(200),
        UpdateLobbyInfoInput {
            original_lobby_info_hash: first.action_hash,
            previous_lobby_info_hash: first.action_hash,
            updated_lobby_info: lobby_info("seed-v2"),
        },
    )
    .unwrap();
    let got = get_lobby_info(&s).unwrap().expect("must resolve");
    assert_eq!(got.action_hash, updated.action_hash);
    match &got.entry {
        Some(Entry::LobbyInfo(l)) => assert_eq!(l.network_seed, "seed-v2"),
        _ => panic!("resolved record must hold the updated description"),
    }
}

#[test]
fn update_of_missing_lobby_info_errors() {
    let mut s = Store::new();
    let r = update_lobby_info(
        &mut s,
        AgentPubKey(1),
        Timestamp(100),
        UpdateLobbyInfoInput {
            original_lobby_info_hash: ActionHash(9),
            previous_lobby_info_hash: ActionHash(9),
            updated_lobby_info: lobby_info("seed"),
        },
    );
    assert_eq!(r.unwrap_err(), CravingError::NotFound);
}

#[test]
fn recipes_deduplicate_at_write_time() {
    let mut s = Store::new();
    let first = create_dna_recipe(&mut s, AgentPubKey(1), Timestamp(100), recipe("tea")).unwrap();
    let dup = create_dna_recipe(&mut s, AgentPubKey(2), Timestamp(200), recipe("tea"));
    assert_eq!(dup.unwrap_err(), CravingError::AlreadyExists);
    let other = create_dna_recipe(&mut s, AgentPubKey(2), Timestamp(300), recipe("coffee"))
        .unwrap();
    let listed = get_all_craving_recipes(&s);
    assert_eq!(listed.len(), 2);
    assert_eq!(listed[0].action_hash, first.action_hash);
    assert_eq!(listed[1].action_hash, other.action_hash);
    let fetched = get_dna_recipe(&s, first.action_hash).expect("recipe must fetch");
    assert_eq!(fetched.action_hash, first.action_hash);
}

#[test]
fn lobby_infos_hang_off_participant_anchors() {
    let mut s = Store::new();
    let alice = AgentPubKey(1);
    let info = create_lobby_info(&mut s, alice, Timestamp(100), lobby_info("seed")).unwrap();
    add_lobby_info_for_anchor(
        &mut s,
        alice,
        Timestamp(200),
        AddLobbyInfoForAnchorInput { anchor: AgentPubKey(50), lobby_info_hash: info.action_hash },
    )
    .unwrap();
    let for_anchor = get_lobby_infos_for_anchor(&s, AgentPubKey(50));
    assert_eq!(for_anchor.len(), 1);
    assert_eq!(for_anchor[0].action_hash, info.action_hash);
    assert!(get_lobby_infos_for_anchor(&s, AgentPubKey(51)).is_empty());
}

#[test]
fn lobby_info_behind_a_non_record_anchor_link_is_a_type_mismatch() {
    let mut s = Store::new();
    // A stray anchor link pointing at a participant identity instead of a
    // record: resolution reports the wrong type rather than nothing.
    s.create_link(
        AgentPubKey(1),
        Timestamp(100),
        craving::types::AnyLinkableHash::Anchor(craving::types::AnchorName::LobbyInfo),
        craving::types::AnyLinkableHash::Agent(AgentPubKey(2)),
        craving::entry::LinkKind::Lobby(craving::lobby::LinkTypes::AnchorToLobbyInfo),
        craving::action::LinkTag(0),
    );
    match get_lobby_info(&s) {
        Err(CravingError::TypeMismatch) => {},
        _ => panic!("a non-record target must be reported as a type mismatch"),
    }
}

#[test]
fn lobby_name_comes_from_the_properties() {
    let p = LobbyDnaProperties { name: String::from("the commons") };
    assert_eq!(get_lobby_name(&p), "the commons");
}

#[test]
fn lobby_immutability_rules_reject() {
    let ca = EntryCreationAction::Create(Create {
        author: AgentPubKey(1),
        timestamp: Timestamp(100),
        entry_hash: EntryHash(0),
    });
    let ua = Update {
        author: AgentPubKey(2),
        timestamp: Timestamp(200),
        original_action_address: ActionHash(0),
        original_entry_address: EntryHash(0),
        entry_hash: EntryHash(0),
    };
    let da = Delete {
        author: AgentPubKey(2),
        timestamp: Timestamp(200),
        deletes_address: ActionHash(0),
        deletes_entry_address: EntryHash(0),
    };
    match validate_update_dna_recipe(&ua, &recipe("a"), &ca, &recipe("b")) {
        ValidateCallbackResult::Invalid(m) => assert_eq!(m, "Dna Recipes cannot be updated"),
        ValidateCallbackResult::Valid => panic!("recipe updates must reject"),
    }
    match validate_delete_dna_recipe(&da, &ca, &recipe("a")) {
        ValidateCallbackResult::Invalid(m) => assert_eq!(m, "Dna Recipes cannot be deleted"),
        ValidateCallbackResult::Valid => panic!("recipe deletes must reject"),
    }
    match validate_delete_lobby_info(&da, &ca, &lobby_info("seed")) {
        ValidateCallbackResult::Invalid(m) => assert_eq!(m, "Lobby Infos cannot be deleted"),
        ValidateCallbackResult::Valid => panic!("lobby info deletes must reject"),
    }
}
