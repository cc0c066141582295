//! Entity types of the lobby network: a singleton lobby description and the
//! recipes from which craving networks are installed.

use vstd::prelude::*;
use crate::types::{
    ActionHash, AgentPubKey, AnchorName, AnyLinkableHash, CravingError, DnaHash, Timestamp,
    ValidateCallbackResult,
};
use crate::entry::{entry_content, CravingDnaProperties, Entry, LinkKind};
use crate::action::{
    Action, Create, CreateLink, Delete, DeleteLink, EntryCreationAction, LinkTag, Record, Update,
};
use crate::store::{Store, StoreModel};
use crate::resolver::resolve_latest;
use crate::entity::{fetch_link_targets, spec_create_entity, spec_fetch_targets, spec_update_entity};
use crate::validate::{
    entry_kind, msg_delete_link_original, msg_delete_original_entry, msg_delete_original_kind,
    msg_unfetchable, msg_update_entry_mismatch, msg_update_kind_mismatch, msg_update_original_kind,
    outcome_matches, spec_check_entity_ref, spec_index_link_rule, spec_join_rule,
    spec_update_link_rule, EntityKind, Op, OpActivity, OpDelete, OpEntry, OpRecord, OpUpdate,
};

verus! {

/// Opaque proof of membership carried by a recipe.  The logic only compares
/// proofs and hands them on, so the model stands one in for its bytes.
#[derive(Clone, Copy, Debug, PartialEq, Eq, Structural)]
pub struct MembraneProof(pub u64);

/// The description of one lobby, shown to every participant of it.
#[derive(Debug)]
pub struct LobbyInfo {
    pub description: String,
    pub unenforced_rules: Option<String>,
    pub logo_src: Option<String>,
    pub network_seed: String,
}

/// Everything needed to install the craving network a lobby talks about.
#[derive(Debug)]
pub struct DnaRecipe {
    pub title: String,
    pub network_seed: Option<String>,
    pub properties: CravingDnaProperties,
    pub origin_time: Option<Timestamp>,
    pub membrane_proof: Option<MembraneProof>,
    pub resulting_dna_hash: DnaHash,
}

/// Network-wide settings of a lobby, fixed at installation.
#[derive(Debug)]
pub struct LobbyDnaProperties {
    pub name: String,
}

impl Clone for LobbyInfo {
    fn clone(&self) -> (r: Self)
        ensures
            r == *self,
    {
        LobbyInfo {
            description: self.description.clone(),
            unenforced_rules: self.unenforced_rules.clone(),
            logo_src: self.logo_src.clone(),
            network_seed: self.network_seed.clone(),
        }
    }
}

impl Clone for DnaRecipe {
    fn clone(&self) -> (r: Self)
        ensures
            r == *self,
    {
        DnaRecipe {
            title: self.title.clone(),
            network_seed: self.network_seed.clone(),
            properties: self.properties.clone(),
            origin_time: self.origin_time,
            membrane_proof: self.membrane_proof,
            resulting_dna_hash: self.resulting_dna_hash,
        }
    }
}

impl Clone for LobbyDnaProperties {
    fn clone(&self) -> (r: Self)
        ensures
            r == *self,
    {
        LobbyDnaProperties { name: self.name.clone() }
    }
}

/// Whether this entry belongs to the lobby network's own entry kinds.
pub open spec fn is_lobby_entry(e: Entry) -> bool {
    match e {
        Entry::DnaRecipe(_) => true,
        Entry::LobbyInfo(_) => true,
        _ => false,
    }
}

/// The lobby is open by design: creating its description is always
/// accepted.
pub fn validate_create_lobby_info(
    _action: &EntryCreationAction,
    _lobby_info: &LobbyInfo,
) -> (r: ValidateCallbackResult)
    ensures
        r.is_valid(),
{
    ValidateCallbackResult::Valid
}

/// Anyone may update the lobby description, to keep invitations
/// friction-free: always accepted.
pub fn validate_update_lobby_info(
    _action: &Update,
    _lobby_info: &LobbyInfo,
    _original_action: &EntryCreationAction,
    _original_lobby_info: &LobbyInfo,
) -> (r: ValidateCallbackResult)
    ensures
        r.is_valid(),
{
    ValidateCallbackResult::Valid
}

/// The lobby description is append-only: deleting it is always rejected.
pub fn validate_delete_lobby_info(
    _action: &Delete,
    _original_action: &EntryCreationAction,
    _original_lobby_info: &LobbyInfo,
) -> (r: ValidateCallbackResult)
    ensures
        r.is_invalid_with("Lobby Infos cannot be deleted"@),
{
    crate::validate::invalid("Lobby Infos cannot be deleted")
}

/// Creating a recipe is always accepted; duplicates converge by content
/// identity at write and read time.
pub fn validate_create_dna_recipe(
    _action: &EntryCreationAction,
    _dna_recipe: &DnaRecipe,
) -> (r: ValidateCallbackResult)
    ensures
        r.is_valid(),
{
    ValidateCallbackResult::Valid
}

/// Recipes are immutable: updating one is always rejected, whoever asks.
pub fn validate_update_dna_recipe(
    _action: &Update,
    _dna_recipe: &DnaRecipe,
    _original_action: &EntryCreationAction,
    _original_dna_recipe: &DnaRecipe,
) -> (r: ValidateCallbackResult)
    ensures
        r.is_invalid_with("Dna Recipes cannot be updated"@),
{
    crate::validate::invalid("Dna Recipes cannot be updated")
}

/// Recipes are immutable: deleting one is always rejected, whoever asks.
pub fn validate_delete_dna_recipe(
    _action: &Delete,
    _original_action: &EntryCreationAction,
    _original_dna_recipe: &DnaRecipe,
) -> (r: ValidateCallbackResult)
    ensures
        r.is_invalid_with("Dna Recipes cannot be deleted"@),
{
    crate::validate::invalid("Dna Recipes cannot be deleted")
}

/// Validate laying an index link to a recipe record.
pub fn validate_create_link_all_craving_recipes(
    _action: &CreateLink,
    _base_address: AnyLinkableHash,
    target_address: AnyLinkableHash,
    _tag: LinkTag,
    s: &Store,
) -> (r: ValidateCallbackResult)
    ensures
        outcome_matches(r, spec_index_link_rule(s@, target_address, EntityKind::DnaRecipe)),
{
    crate::validate::check_entity_ref(s, target_address, EntityKind::DnaRecipe)
}

/// Index links are permanent: deleting one is always rejected.
pub fn validate_delete_link_all_craving_recipes(
    _action: &DeleteLink,
    _original_action: &CreateLink,
    _base: AnyLinkableHash,
    _target: AnyLinkableHash,
    _tag: LinkTag,
) -> (r: ValidateCallbackResult)
    ensures
        r.is_invalid_with("AllCravingRecipes links cannot be deleted"@),
{
    crate::validate::invalid("AllCravingRecipes links cannot be deleted")
}

/// Validate laying an update-chain link between two lobby descriptions.
pub fn validate_create_link_lobby_info_updates(
    _action: &CreateLink,
    base_address: AnyLinkableHash,
    target_address: AnyLinkableHash,
    _tag: LinkTag,
    s: &Store,
) -> (r: ValidateCallbackResult)
    ensures
        outcome_matches(
            r,
            spec_update_link_rule(s@, base_address, target_address, EntityKind::LobbyInfo),
        ),
{
    crate::validate::check_update_link(s, base_address, target_address, EntityKind::LobbyInfo)
}

/// Update-chain links are permanent: deleting one is always rejected.
pub fn validate_delete_link_lobby_info_updates(
    _action: &DeleteLink,
    _original_action: &CreateLink,
    _base: AnyLinkableHash,
    _target: AnyLinkableHash,
    _tag: LinkTag,
) -> (r: ValidateCallbackResult)
    ensures
        r.is_invalid_with("LobbyInfoUpdates links cannot be deleted"@),
{
    crate::validate::invalid("LobbyInfoUpdates links cannot be deleted")
}

/// Anchor links to lobby descriptions may be laid freely.
pub fn validate_create_link_anchor_to_lobby_infos(
    _action: &CreateLink,
    _base_address: AnyLinkableHash,
    _target_address: AnyLinkableHash,
    _tag: LinkTag,
) -> (r: ValidateCallbackResult)
    ensures
        r.is_valid(),
{
    ValidateCallbackResult::Valid
}

/// Anchor links are permanent: deleting one is always rejected.
pub fn validate_delete_link_anchor_to_lobby_infos(
    _action: &DeleteLink,
    _original_action: &CreateLink,
    _base: AnyLinkableHash,
    _target: AnyLinkableHash,
    _tag: LinkTag,
) -> (r: ValidateCallbackResult)
    ensures
        r.is_invalid_with("AnchorToLobbyInfo links cannot be deleted"@),
{
    crate::validate::invalid("AnchorToLobbyInfo links cannot be deleted")
}

/// The joining participant's own pre-commit self check: the lobby is
/// open, so it always passes.
pub fn genesis_self_check(_data: &crate::validate::GenesisSelfCheckData) -> (r:
    ValidateCallbackResult)
    ensures
        r.is_valid(),
{
    ValidateCallbackResult::Valid
}

/// Whether a participant may join: the lobby is open, so anyone may.
pub fn validate_agent_joining(
    _agent_pub_key: AgentPubKey,
    _membrane_proof: &Option<MembraneProof>,
) -> (r: ValidateCallbackResult)
    ensures
        r.is_valid(),
{
    ValidateCallbackResult::Valid
}

/// What updating an entity of a lobby kind yields: the description may
/// change, recipes never.
pub open spec fn spec_lobby_update_rule(e: Entry) -> Option<Seq<char>> {
    match e {
        Entry::DnaRecipe(_) => Option::Some("Dna Recipes cannot be updated"@),
        _ => Option::None,
    }
}

/// What deleting an entity of a lobby kind yields: neither the
/// description nor a recipe may go.
pub open spec fn spec_lobby_delete_rule(e: Entry) -> Option<Seq<char>> {
    match e {
        Entry::DnaRecipe(_) => Option::Some("Dna Recipes cannot be deleted"@),
        Entry::LobbyInfo(_) => Option::Some("Lobby Infos cannot be deleted"@),
        _ => Option::None,
    }
}

/// What laying a lobby link yields, dispatched per link kind.
pub open spec fn spec_lobby_create_link_rule(
    s: StoreModel,
    base: AnyLinkableHash,
    target: AnyLinkableHash,
    lt: LinkTypes,
) -> Option<Seq<char>> {
    match lt {
        LinkTypes::AllCravingRecipes => spec_index_link_rule(s, target, EntityKind::DnaRecipe),
        LinkTypes::LobbyInfoUpdates => spec_update_link_rule(
            s,
            base,
            target,
            EntityKind::LobbyInfo,
        ),
        LinkTypes::AnchorToLobbyInfo => Option::None,
    }
}

/// What deleting a lobby link yields: all three kinds are permanent.
pub open spec fn spec_lobby_delete_link_rule(lt: LinkTypes) -> Option<Seq<char>> {
    match lt {
        LinkTypes::AllCravingRecipes => Option::Some("AllCravingRecipes links cannot be deleted"@),
        LinkTypes::LobbyInfoUpdates => Option::Some("LobbyInfoUpdates links cannot be deleted"@),
        LinkTypes::AnchorToLobbyInfo => Option::Some("AnchorToLobbyInfo links cannot be deleted"@),
    }
}

/// What ruling on an update under record authority yields for the lobby
/// network: re-fetch the original, reject when it cannot be recovered or
/// does not match, else apply the update rule of its kind.
pub open spec fn spec_lobby_record_update_rule(
    s: StoreModel,
    original_action_hash: ActionHash,
    e: Entry,
) -> Option<Seq<char>> {
    match s.spec_must_get(original_action_hash) {
        Option::None => Option::Some(msg_unfetchable()),
        Option::Some(orig) => {
            if !orig.action.is_entry_creation() {
                Option::Some(msg_update_original_kind())
            } else if !is_lobby_entry(e) {
                Option::None
            } else {
                match orig.entry {
                    Option::Some(oe) => if entry_kind(oe) == entry_kind(e) {
                        spec_lobby_update_rule(e)
                    } else {
                        Option::Some(msg_update_entry_mismatch())
                    },
                    Option::None => Option::Some(msg_update_entry_mismatch()),
                }
            }
        },
    }
}

/// What ruling on a delete under record authority yields for the lobby
/// network.
pub open spec fn spec_lobby_record_delete_rule(
    s: StoreModel,
    original_action_hash: ActionHash,
) -> Option<Seq<char>> {
    match s.spec_must_get(original_action_hash) {
        Option::None => Option::Some(msg_unfetchable()),
        Option::Some(orig) => {
            if !orig.action.is_entry_creation() {
                Option::Some(msg_delete_original_kind())
            } else {
                match orig.entry {
                    Option::Some(oe) => spec_lobby_delete_rule(oe),
                    Option::None => Option::Some(msg_delete_original_entry()),
                }
            }
        },
    }
}

/// What ruling on a link deletion under record authority yields for the
/// lobby network.
pub open spec fn spec_lobby_record_delete_link_rule(
    s: StoreModel,
    original_action_hash: ActionHash,
) -> Option<Seq<char>> {
    match s.spec_must_get(original_action_hash) {
        Option::None => Option::Some(msg_unfetchable()),
        Option::Some(orig) => match orig.action {
            Action::CreateLink(cl) => match cl.link_type {
                LinkKind::Lobby(lt) => spec_lobby_delete_link_rule(lt),
                LinkKind::Craving(_) => Option::None,
            },
            _ => Option::Some(msg_delete_link_original()),
        },
    }
}

/// The whole lobby-network validation state machine as a mathematical
/// function.
pub open spec fn spec_validate(s: StoreModel, op: Op) -> Option<Seq<char>> {
    match op {
        Op::StoreEntry(_) => Option::None,
        Op::RegisterUpdate(ou) => match ou {
            OpUpdate::Entry { original_app_entry, app_entry, .. } => {
                if !is_lobby_entry(app_entry) && !is_lobby_entry(original_app_entry) {
                    Option::None
                } else if entry_kind(app_entry) == entry_kind(original_app_entry) {
                    spec_lobby_update_rule(app_entry)
                } else {
                    Option::Some(msg_update_kind_mismatch())
                }
            },
            OpUpdate::Other => Option::None,
        },
        Op::RegisterDelete(od) => match od {
            OpDelete::Entry { original_app_entry, .. } => {
                if !is_lobby_entry(original_app_entry) {
                    Option::None
                } else {
                    spec_lobby_delete_rule(original_app_entry)
                }
            },
            OpDelete::Other => Option::None,
        },
        Op::RegisterCreateLink { base_address, target_address, link_type, .. } => {
            match link_type {
                LinkKind::Lobby(lt) => spec_lobby_create_link_rule(
                    s,
                    base_address,
                    target_address,
                    lt,
                ),
                LinkKind::Craving(_) => Option::None,
            }
        },
        Op::RegisterDeleteLink { link_type, .. } => match link_type {
            LinkKind::Lobby(lt) => spec_lobby_delete_link_rule(lt),
            LinkKind::Craving(_) => Option::None,
        },
        Op::StoreRecord(orec) => match orec {
            OpRecord::CreateEntry { .. } => Option::None,
            OpRecord::UpdateEntry { original_action_hash, app_entry, .. } => {
                spec_lobby_record_update_rule(s, original_action_hash, app_entry)
            },
            OpRecord::DeleteEntry { original_action_hash, .. } => spec_lobby_record_delete_rule(
                s,
                original_action_hash,
            ),
            OpRecord::CreateLink { base_address, target_address, link_type, .. } => {
                match link_type {
                    LinkKind::Lobby(lt) => spec_lobby_create_link_rule(
                        s,
                        base_address,
                        target_address,
                        lt,
                    ),
                    LinkKind::Craving(_) => Option::None,
                }
            },
            OpRecord::DeleteLink { original_action_hash, .. } => {
                spec_lobby_record_delete_link_rule(s, original_action_hash)
            },
            OpRecord::Other => Option::None,
        },
        Op::RegisterAgentActivity(oa) => match oa {
            OpActivity::CreateAgent { prev_action, .. } => spec_join_rule(s, prev_action),
            OpActivity::Other => Option::None,
        },
    }
}

/// Rule on one incoming operation of the lobby network.  Identical logic
/// runs locally pre-commit and at every receiving peer; combinations no
/// rule claims are accepted.
pub fn validate(s: &Store, op: &Op) -> (r: ValidateCallbackResult)
    ensures
        outcome_matches(r, spec_validate(s@, *op)),
{
    match op {
        Op::StoreEntry(_) => ValidateCallbackResult::Valid,
        Op::RegisterUpdate(ou) => match ou {
            OpUpdate::Entry { original_action, original_app_entry, app_entry, action } => {
                match (app_entry, original_app_entry) {
                    (Entry::DnaRecipe(n), Entry::DnaRecipe(o)) => validate_update_dna_recipe(
                        action,
                        n,
                        original_action,
                        o,
                    ),
                    (Entry::LobbyInfo(n), Entry::LobbyInfo(o)) => validate_update_lobby_info(
                        action,
                        n,
                        original_action,
                        o,
                    ),
                    _ => {
                        let new_lobby = match app_entry {
                            Entry::DnaRecipe(_) => true,
                            Entry::LobbyInfo(_) => true,
                            _ => false,
                        };
                        let orig_lobby = match original_app_entry {
                            Entry::DnaRecipe(_) => true,
                            Entry::LobbyInfo(_) => true,
                            _ => false,
                        };
                        if !new_lobby && !orig_lobby {
                            ValidateCallbackResult::Valid
                        } else {
                            crate::validate::invalid(
                                "Original and updated entry types must be the same",
                            )
                        }
                    },
                }
            },
            OpUpdate::Other => ValidateCallbackResult::Valid,
        },
        Op::RegisterDelete(od) => match od {
            OpDelete::Entry { original_action, original_app_entry, action } => {
                match original_app_entry {
                    Entry::DnaRecipe(o) => validate_delete_dna_recipe(action, original_action, o),
                    Entry::LobbyInfo(o) => validate_delete_lobby_info(action, original_action, o),
                    _ => ValidateCallbackResult::Valid,
                }
            },
            OpDelete::Other => ValidateCallbackResult::Valid,
        },
        Op::RegisterCreateLink { base_address, target_address, tag, link_type, action } => {
            match link_type {
                LinkKind::Lobby(lt) => lobby_create_link(
                    s,
                    action,
                    *base_address,
                    *target_address,
                    *tag,
                    *lt,
                ),
                LinkKind::Craving(_) => ValidateCallbackResult::Valid,
            }
        },
        Op::RegisterDeleteLink { link_type, original_action, action, target_address, .. } => {
            match link_type {
                LinkKind::Lobby(lt) => lobby_delete_link(action, original_action, *target_address, *lt),
                LinkKind::Craving(_) => ValidateCallbackResult::Valid,
            }
        },
        Op::StoreRecord(orec) => match orec {
            OpRecord::CreateEntry { .. } => ValidateCallbackResult::Valid,
            OpRecord::UpdateEntry { original_action_hash, app_entry, action } => {
                let orig = match s.must_get_record(*original_action_hash) {
                    Option::Some(orig) => orig,
                    Option::None => {
                        return crate::validate::invalid("Linked action must be fetchable");
                    },
                };
                let original_action = match orig.action {
                    Action::Create(c) => EntryCreationAction::Create(c),
                    Action::Update(u) => EntryCreationAction::Update(u),
                    _ => {
                        return crate::validate::invalid(
                            "Original action for an update must be a Create or Update action",
                        );
                    },
                };
                match (app_entry, &orig.entry) {
                    (Entry::DnaRecipe(n), Option::Some(Entry::DnaRecipe(o))) => validate_update_dna_recipe(
                        action,
                        n,
                        &original_action,
                        o,
                    ),
                    (Entry::LobbyInfo(n), Option::Some(Entry::LobbyInfo(o))) => validate_update_lobby_info(
                        action,
                        n,
                        &original_action,
                        o,
                    ),
                    (Entry::DnaRecipe(_), _) => crate::validate::invalid(
                        "The updated entry type must be the same as the original entry type",
                    ),
                    (Entry::LobbyInfo(_), _) => crate::validate::invalid(
                        "The updated entry type must be the same as the original entry type",
                    ),
                    _ => ValidateCallbackResult::Valid,
                }
            },
            OpRecord::DeleteEntry { original_action_hash, action } => {
                let orig = match s.must_get_record(*original_action_hash) {
                    Option::Some(orig) => orig,
                    Option::None => {
                        return crate::validate::invalid("Linked action must be fetchable");
                    },
                };
                let original_action = match orig.action {
                    Action::Create(c) => EntryCreationAction::Create(c),
                    Action::Update(u) => EntryCreationAction::Update(u),
                    _ => {
                        return crate::validate::invalid(
                            "Original action for a delete must be a Create or Update action",
                        );
                    },
                };
                match &orig.entry {
                    Option::Some(oe) => match oe {
                        Entry::DnaRecipe(o) => validate_delete_dna_recipe(
                            action,
                            &original_action,
                            o,
                        ),
                        Entry::LobbyInfo(o) => validate_delete_lobby_info(
                            action,
                            &original_action,
                            o,
                        ),
                        _ => ValidateCallbackResult::Valid,
                    },
                    Option::None => crate::validate::invalid(
                        "Original record for a delete of a public entry must contain an entry",
                    ),
                }
            },
            OpRecord::CreateLink { base_address, target_address, tag, link_type, action } => {
                match link_type {
                    LinkKind::Lobby(lt) => lobby_create_link(
                        s,
                        action,
                        *base_address,
                        *target_address,
                        *tag,
                        *lt,
                    ),
                    LinkKind::Craving(_) => ValidateCallbackResult::Valid,
                }
            },
            OpRecord::DeleteLink { original_action_hash, action, .. } => {
                let orig = match s.must_get_record(*original_action_hash) {
                    Option::Some(orig) => orig,
                    Option::None => {
                        return crate::validate::invalid("Linked action must be fetchable");
                    },
                };
                match orig.action {
                    Action::CreateLink(cl) => match cl.link_type {
                        LinkKind::Lobby(lt) => lobby_delete_link(
                            action,
                            &cl,
                            cl.target_address,
                            lt,
                        ),
                        LinkKind::Craving(_) => ValidateCallbackResult::Valid,
                    },
                    _ => crate::validate::invalid(
                        "The action that a DeleteLink deletes must be a CreateLink",
                    ),
                }
            },
            OpRecord::Other => ValidateCallbackResult::Valid,
        },
        Op::RegisterAgentActivity(oa) => match oa {
            OpActivity::CreateAgent { agent, prev_action } => {
                match s.must_get_record(*prev_action) {
                    Option::None => crate::validate::invalid("Linked action must be fetchable"),
                    Option::Some(prev) => match prev.action {
                        Action::AgentValidationPkg { membrane_proof, .. } => validate_agent_joining(
                            *agent,
                            &membrane_proof,
                        ),
                        _ => crate::validate::invalid(
                            "The previous action for a `CreateAgent` action must be an `AgentValidationPkg`",
                        ),
                    },
                }
            },
            OpActivity::Other => ValidateCallbackResult::Valid,
        },
    }
}

/// Rule on laying a lobby-network link, dispatched per link kind.
fn lobby_create_link(
    s: &Store,
    action: &CreateLink,
    base_address: AnyLinkableHash,
    target_address: AnyLinkableHash,
    tag: LinkTag,
    lt: LinkTypes,
) -> (r: ValidateCallbackResult)
    ensures
        outcome_matches(r, spec_lobby_create_link_rule(s@, base_address, target_address, lt)),
{
    match lt {
        LinkTypes::AllCravingRecipes => validate_create_link_all_craving_recipes(
            action,
            base_address,
            target_address,
            tag,
            s,
        ),
        LinkTypes::LobbyInfoUpdates => validate_create_link_lobby_info_updates(
            action,
            base_address,
            target_address,
            tag,
            s,
        ),
        LinkTypes::AnchorToLobbyInfo => validate_create_link_anchor_to_lobby_infos(
            action,
            base_address,
            target_address,
            tag,
        ),
    }
}

/// What an update to the lobby description names: the chain's original
/// record, the version being superseded, and the new content.
#[derive(Clone, Debug)]
pub struct UpdateLobbyInfoInput {
    pub original_lobby_info_hash: ActionHash,
    pub previous_lobby_info_hash: ActionHash,
    pub updated_lobby_info: LobbyInfo,
}

/// What hanging a lobby description off a participant anchor names.
#[derive(Clone, Copy, Debug, PartialEq, Eq, Structural)]
pub struct AddLobbyInfoForAnchorInput {
    pub anchor: AgentPubKey,
    pub lobby_info_hash: ActionHash,
}

/// Create the lobby's description and hang it off the well-known lobby
/// anchor.  The description is a singleton: while any anchor link stands,
/// creating another is refused.
pub fn create_lobby_info(
    s: &mut Store,
    author: AgentPubKey,
    now: Timestamp,
    lobby_info: LobbyInfo,
) -> (r: Result<Record, CravingError>)
    requires
        old(s)@.wf(),
    ensures
        match r {
            Result::Ok(rec) => {
                &&& old(s)@.links(
                    AnyLinkableHash::Anchor(AnchorName::LobbyInfo),
                    LinkKind::Lobby(LinkTypes::AnchorToLobbyInfo),
                ).len() == 0
                &&& final(s)@ == spec_create_entity(
                    old(s)@,
                    author,
                    now,
                    Entry::LobbyInfo(lobby_info),
                    AnyLinkableHash::Anchor(AnchorName::LobbyInfo),
                    LinkKind::Lobby(LinkTypes::AnchorToLobbyInfo),
                )
                &&& final(s)@.wf()
                &&& rec == final(s)@.records[old(s)@.records.len() as int]
                &&& rec.entry == Option::Some(Entry::LobbyInfo(lobby_info))
            },
            Result::Err(e) => {
                &&& e == CravingError::AlreadyExists
                &&& old(s)@.links(
                    AnyLinkableHash::Anchor(AnchorName::LobbyInfo),
                    LinkKind::Lobby(LinkTypes::AnchorToLobbyInfo),
                ).len() != 0
                &&& final(s)@ == old(s)@
            },
        },
{
    let existing = s.get_links(
        AnyLinkableHash::Anchor(AnchorName::LobbyInfo),
        LinkKind::Lobby(LinkTypes::AnchorToLobbyInfo),
    );
    if existing.len() != 0 {
        return Result::Err(CravingError::AlreadyExists);
    }
    let h = s.create_entry(author, now, Entry::LobbyInfo(lobby_info));
    let rec = s.records[h.0].clone();
    s.create_link(
        author,
        now,
        AnyLinkableHash::Anchor(AnchorName::LobbyInfo),
        AnyLinkableHash::Action(h),
        LinkKind::Lobby(LinkTypes::AnchorToLobbyInfo),
        LinkTag(0),
    );
    Result::Ok(rec)
}

/// The logically-current lobby description: follow the first anchor link
/// to the original, then its update chain.  Erring when no anchor link
/// stands yet, so a caller can tell "not yet created" apart from a
/// dangling reference.
pub fn get_lobby_info(s: &Store) -> (r: Result<Option<Record>, CravingError>)
    ensures
        ({
            let links = s@.links(
                AnyLinkableHash::Anchor(AnchorName::LobbyInfo),
                LinkKind::Lobby(LinkTypes::AnchorToLobbyInfo),
            );
            match r {
                Result::Ok(v) => links.len() > 0 && links[0].target is Action && v
                    == s@.spec_resolve_latest(
                    links[0].target->Action_0,
                    LinkKind::Lobby(LinkTypes::LobbyInfoUpdates),
                ),
                Result::Err(e) => (links.len() == 0 && e == CravingError::NotFound) || (links.len()
                    > 0 && !(links[0].target is Action) && e == CravingError::TypeMismatch),
            }
        }),
{
    let links = s.get_links(
        AnyLinkableHash::Anchor(AnchorName::LobbyInfo),
        LinkKind::Lobby(LinkTypes::AnchorToLobbyInfo),
    );
    if links.len() == 0 {
        return Result::Err(CravingError::NotFound);
    }
    match links[0].target {
        AnyLinkableHash::Action(h) => Result::Ok(
            resolve_latest(s, h, LinkKind::Lobby(LinkTypes::LobbyInfoUpdates)),
        ),
        _ => Result::Err(CravingError::TypeMismatch),
    }
}

/// The typed failure a lobby-description update stops with: the previous
/// record must exist and be a lobby description.
pub open spec fn spec_update_lobby_info_error(
    s: StoreModel,
    previous: ActionHash,
) -> Option<CravingError> {
    if !s.has_record(previous) {
        Option::Some(CravingError::NotFound)
    } else if !s.record_at(previous).action.is_entry_creation() {
        Option::Some(CravingError::InconsistentHistory)
    } else if match s.record_at(previous).entry {
        Option::Some(oe) => !(oe is LobbyInfo),
        Option::None => true,
    } {
        Option::Some(CravingError::InconsistentHistory)
    } else {
        Option::None
    }
}

/// Update the lobby description: a new record plus an update-chain link
/// from the original.  Anyone may update it, to keep out-of-band
/// invitations friction-free.
pub fn update_lobby_info(
    s: &mut Store,
    author: AgentPubKey,
    now: Timestamp,
    input: UpdateLobbyInfoInput,
) -> (r: Result<Record, CravingError>)
    requires
        old(s)@.wf(),
    ensures
        match r {
            Result::Ok(rec) => {
                &&& spec_update_lobby_info_error(old(s)@, input.previous_lobby_info_hash) is None
                &&& final(s)@ == spec_update_entity(
                    old(s)@,
                    author,
                    now,
                    input.original_lobby_info_hash,
                    input.previous_lobby_info_hash,
                    Entry::LobbyInfo(input.updated_lobby_info),
                )
                &&& final(s)@.wf()
                &&& rec == final(s)@.records[old(s)@.records.len() as int]
                &&& rec.entry == Option::Some(Entry::LobbyInfo(input.updated_lobby_info))
            },
            Result::Err(e) => {
                &&& spec_update_lobby_info_error(old(s)@, input.previous_lobby_info_hash)
                    == Option::Some(e)
                &&& final(s)@ == old(s)@
            },
        },
{
    let prev = match s.must_get_record(input.previous_lobby_info_hash) {
        Option::Some(prev) => prev,
        Option::None => {
            return Result::Err(CravingError::NotFound);
        },
    };
    let prev_is_creation = match prev.action {
        Action::Create(_) => true,
        Action::Update(_) => true,
        _ => false,
    };
    if !prev_is_creation {
        return Result::Err(CravingError::InconsistentHistory);
    }
    let prev_is_lobby = match &prev.entry {
        Option::Some(Entry::LobbyInfo(_)) => true,
        _ => false,
    };
    if !prev_is_lobby {
        return Result::Err(CravingError::InconsistentHistory);
    }
    let h = match s.update_entry(
        author,
        now,
        input.previous_lobby_info_hash,
        Entry::LobbyInfo(input.updated_lobby_info),
    ) {
        Result::Ok(h) => h,
        Result::Err(e) => {
            return Result::Err(e);
        },
    };
    let rec = s.records[h.0].clone();
    s.create_link(
        author,
        now,
        AnyLinkableHash::Action(input.original_lobby_info_hash),
        AnyLinkableHash::Action(h),
        LinkKind::Lobby(LinkTypes::LobbyInfoUpdates),
        LinkTag(0),
    );
    Result::Ok(rec)
}

/// The lobby's name, as fixed in the network's properties at creation.
pub fn get_lobby_name(props: &LobbyDnaProperties) -> (r: String)
    ensures
        r@ == props.name@,
{
    props.name.clone()
}

/// Hang a lobby description off a participant anchor, so that holders of
/// that participant's identity can find it.
pub fn add_lobby_info_for_anchor(
    s: &mut Store,
    author: AgentPubKey,
    now: Timestamp,
    input: AddLobbyInfoForAnchorInput,
) -> (r: Result<(), CravingError>)
    requires
        old(s)@.wf(),
    ensures
        r is Ok,
        final(s)@ == old(s)@.spec_create_link(
            author,
            now,
            AnyLinkableHash::Agent(input.anchor),
            AnyLinkableHash::Action(input.lobby_info_hash),
            LinkKind::Lobby(LinkTypes::AnchorToLobbyInfo),
            LinkTag(0),
        ),
        final(s)@.wf(),
{
    s.create_link(
        author,
        now,
        AnyLinkableHash::Agent(input.anchor),
        AnyLinkableHash::Action(input.lobby_info_hash),
        LinkKind::Lobby(LinkTypes::AnchorToLobbyInfo),
        LinkTag(0),
    );
    Result::Ok(())
}

/// Every lobby description hanging off the given participant anchor, in
/// link order, skipping deleted ones.
pub fn get_lobby_infos_for_anchor(s: &Store, anchor: AgentPubKey) -> (r: Vec<Record>)
    ensures
        r@ == spec_fetch_targets(
            s@,
            s@.links(
                AnyLinkableHash::Agent(anchor),
                LinkKind::Lobby(LinkTypes::AnchorToLobbyInfo),
            ),
        ),
{
    fetch_link_targets(
        s,
        AnyLinkableHash::Agent(anchor),
        LinkKind::Lobby(LinkTypes::AnchorToLobbyInfo),
    )
}

/// Whether a live record with this entry's exact content already stands:
/// write-time convergence for recipes, checked by content identity, not
/// authorship.
pub open spec fn spec_recipe_exists(s: StoreModel, e: Entry) -> bool {
    &&& s.has_content(entry_content(e))
    &&& s.spec_get_entry(
        crate::types::EntryHash(s.content_index(entry_content(e)) as usize),
    ) is Some
}

/// Create a recipe and hang it off the all-recipes index anchor — unless
/// a live record with the same content already stands, whoever wrote it.
pub fn create_dna_recipe(
    s: &mut Store,
    author: AgentPubKey,
    now: Timestamp,
    dna_recipe: DnaRecipe,
) -> (r: Result<Record, CravingError>)
    requires
        old(s)@.wf(),
    ensures
        match r {
            Result::Ok(rec) => {
                &&& !spec_recipe_exists(old(s)@, Entry::DnaRecipe(dna_recipe))
                &&& final(s)@ == spec_create_entity(
                    old(s)@,
                    author,
                    now,
                    Entry::DnaRecipe(dna_recipe),
                    AnyLinkableHash::Anchor(AnchorName::AllCravingRecipes),
                    LinkKind::Lobby(LinkTypes::AllCravingRecipes),
                )
                &&& final(s)@.wf()
                &&& rec == final(s)@.records[old(s)@.records.len() as int]
                &&& rec.entry == Option::Some(Entry::DnaRecipe(dna_recipe))
            },
            Result::Err(e) => {
                &&& e == CravingError::AlreadyExists
                &&& spec_recipe_exists(old(s)@, Entry::DnaRecipe(dna_recipe))
                &&& final(s)@ == old(s)@
            },
        },
{
    let payload = Entry::DnaRecipe(dna_recipe);
    let exists = match s.find_content(&payload) {
        Option::Some(j) => {
            proof {
                crate::store::lemma_content_index_unique(s@, entry_content(payload), j as int);
            }
            s.get_entry(crate::types::EntryHash(j)).is_some()
        },
        Option::None => false,
    };
    if exists {
        return Result::Err(CravingError::AlreadyExists);
    }
    let h = s.create_entry(author, now, payload);
    let rec = s.records[h.0].clone();
    s.create_link(
        author,
        now,
        AnyLinkableHash::Anchor(AnchorName::AllCravingRecipes),
        AnyLinkableHash::Action(h),
        LinkKind::Lobby(LinkTypes::AllCravingRecipes),
        LinkTag(0),
    );
    Result::Ok(rec)
}

/// Fetch a recipe by its record address.
pub fn get_dna_recipe(s: &Store, dna_recipe_hash: ActionHash) -> (r: Option<Record>)
    ensures
        r == s@.spec_get(dna_recipe_hash),
{
    s.get(dna_recipe_hash)
}

/// Every recipe record on the all-recipes index, in link order, skipping
/// deleted ones.  Duplicates were already refused at write time.
pub fn get_all_craving_recipes(s: &Store) -> (r: Vec<Record>)
    ensures
        r@ == spec_fetch_targets(
            s@,
            s@.links(
                AnyLinkableHash::Anchor(AnchorName::AllCravingRecipes),
                LinkKind::Lobby(LinkTypes::AllCravingRecipes),
            ),
        ),
{
    fetch_link_targets(
        s,
        AnyLinkableHash::Anchor(AnchorName::AllCravingRecipes),
        LinkKind::Lobby(LinkTypes::AllCravingRecipes),
    )
}

/// Rule on deleting a lobby-network link: all three kinds are permanent.
fn lobby_delete_link(
    action: &DeleteLink,
    original_action: &CreateLink,
    target_address: AnyLinkableHash,
    lt: LinkTypes,
) -> (r: ValidateCallbackResult)
    ensures
        outcome_matches(r, spec_lobby_delete_link_rule(lt)),
{
    let tag = LinkTag(0);
    let base = original_action.base_address;
    match lt {
        LinkTypes::AllCravingRecipes => validate_delete_link_all_craving_recipes(
            action,
            original_action,
            base,
            target_address,
            tag,
        ),
        LinkTypes::LobbyInfoUpdates => validate_delete_link_lobby_info_updates(
            action,
            original_action,
            base,
            target_address,
            tag,
        ),
        LinkTypes::AnchorToLobbyInfo => validate_delete_link_anchor_to_lobby_infos(
            action,
            original_action,
            base,
            target_address,
            tag,
        ),
    }
}

/// The lobby network's application entry kinds, as its validator dispatches
/// over them.
#[derive(Debug)]
pub enum EntryTypes {
    DnaRecipe(DnaRecipe),
    LobbyInfo(LobbyInfo),
}

/// The lobby network's link kinds.
#[derive(Clone, Copy, Debug, PartialEq, Eq, Structural)]
pub enum LinkTypes {
    AllCravingRecipes,
    LobbyInfoUpdates,
    AnchorToLobbyInfo,
}

} // verus!
