//! Entity payloads of the craving network, their content identity, and the
//! union of everything the store can hold as an entry.
//!
//! Two payloads are the same logical fact when their *content* is equal:
//! the store assigns one entry hash to content-equal payloads from any
//! author.  `entry_content` is the content of a payload as a mathematical
//! value; `entry_eq` decides content equality executably.

use vstd::prelude::*;
use crate::types::{ActionHash, DnaHash, Timestamp};
use crate::lobby::{DnaRecipe, LobbyInfo, MembraneProof};

verus! {

pub const DEFAULT_MAX_ASSOCIATION_CHARS: usize = 70;

pub const DEFAULT_MAX_REFLECTION_CHARS: usize = 4000;

pub const DEFAULT_MAX_OFFER_CHARS: usize = 300;

pub const DEFAULT_MAX_ANECDOTE_CHARS: usize = 750;

/// A thing a participant offers to the group.
#[derive(Debug)]
pub struct Offer {
    pub offer: String,
    pub explanation: Option<String>,
}

/// A titled, long-form reflection.
#[derive(Debug)]
pub struct Reflection {
    pub title: String,
    pub reflection: String,
}

/// A short free association; immutable once written.
#[derive(Debug)]
pub struct Association {
    pub association: String,
}

/// A short anecdote.
#[derive(Debug)]
pub struct Anecdote {
    pub anecdote: String,
}

/// A comment below an offer; depends on the offer it references.
#[derive(Debug)]
pub struct CommentOnOffer {
    pub offer_hash: ActionHash,
    pub comment: String,
}

/// A comment below a reflection; depends on the reflection it references.
#[derive(Debug)]
pub struct CommentOnReflection {
    pub reflection_hash: ActionHash,
    pub comment: String,
}

/// Network-wide settings of a craving network, fixed at installation.
/// Each unset limit falls back to a type-specific default.
#[derive(Debug)]
pub struct CravingDnaProperties {
    pub title: String,
    pub description: String,
    pub max_association_chars: Option<usize>,
    pub max_reflection_chars: Option<usize>,
    pub max_offer_chars: Option<usize>,
    pub max_anecdote_chars: Option<usize>,
}

/// The craving network's application entry kinds, as its validator
/// dispatches over them.
#[derive(Debug)]
pub enum EntryTypes {
    Offer(Offer),
    Reflection(Reflection),
    Association(Association),
    Anecdote(Anecdote),
    CommentOnOffer(CommentOnOffer),
    CommentOnReflection(CommentOnReflection),
}

/// Everything the store can hold as an application entry, across both
/// networks of the system.
#[derive(Debug)]
pub enum Entry {
    Offer(Offer),
    Reflection(Reflection),
    Association(Association),
    Anecdote(Anecdote),
    CommentOnOffer(CommentOnOffer),
    CommentOnReflection(CommentOnReflection),
    DnaRecipe(DnaRecipe),
    LobbyInfo(LobbyInfo),
}

/// The content of an entry as a mathematical value: character sequences in
/// place of strings, byte sequences in place of proof bytes.  Entry hashes
/// coincide exactly on payloads with equal content.
pub enum EntryContent {
    Offer { offer: Seq<char>, explanation: Option<Seq<char>> },
    Reflection { title: Seq<char>, reflection: Seq<char> },
    Association { association: Seq<char> },
    Anecdote { anecdote: Seq<char> },
    CommentOnOffer { offer_hash: ActionHash, comment: Seq<char> },
    CommentOnReflection { reflection_hash: ActionHash, comment: Seq<char> },
    DnaRecipe {
        title: Seq<char>,
        network_seed: Option<Seq<char>>,
        properties: PropertiesContent,
        origin_time: Option<Timestamp>,
        membrane_proof: Option<MembraneProof>,
        resulting_dna_hash: DnaHash,
    },
    LobbyInfo {
        description: Seq<char>,
        unenforced_rules: Option<Seq<char>>,
        logo_src: Option<Seq<char>>,
        network_seed: Seq<char>,
    },
}

/// The content of a craving network's property bag.
pub struct PropertiesContent {
    pub title: Seq<char>,
    pub description: Seq<char>,
    pub max_association_chars: Option<usize>,
    pub max_reflection_chars: Option<usize>,
    pub max_offer_chars: Option<usize>,
    pub max_anecdote_chars: Option<usize>,
}

/// The view of an optional string as an optional character sequence.
pub open spec fn opt_str_view(o: Option<String>) -> Option<Seq<char>> {
    match o {
        Option::None => Option::None,
        Option::Some(s) => Option::Some(s@),
    }
}

/// The content of a property bag.
pub open spec fn properties_content(p: CravingDnaProperties) -> PropertiesContent {
    PropertiesContent {
        title: p.title@,
        description: p.description@,
        max_association_chars: p.max_association_chars,
        max_reflection_chars: p.max_reflection_chars,
        max_offer_chars: p.max_offer_chars,
        max_anecdote_chars: p.max_anecdote_chars,
    }
}

/// The content of an entry payload.
pub open spec fn entry_content(e: Entry) -> EntryContent {
    match e {
        Entry::Offer(o) => EntryContent::Offer {
            offer: o.offer@,
            explanation: opt_str_view(o.explanation),
        },
        Entry::Reflection(r) => EntryContent::Reflection {
            title: r.title@,
            reflection: r.reflection@,
        },
        Entry::Association(a) => EntryContent::Association { association: a.association@ },
        Entry::Anecdote(a) => EntryContent::Anecdote { anecdote: a.anecdote@ },
        Entry::CommentOnOffer(c) => EntryContent::CommentOnOffer {
            offer_hash: c.offer_hash,
            comment: c.comment@,
        },
        Entry::CommentOnReflection(c) => EntryContent::CommentOnReflection {
            reflection_hash: c.reflection_hash,
            comment: c.comment@,
        },
        Entry::DnaRecipe(d) => EntryContent::DnaRecipe {
            title: d.title@,
            network_seed: opt_str_view(d.network_seed),
            properties: properties_content(d.properties),
            origin_time: d.origin_time,
            membrane_proof: d.membrane_proof,
            resulting_dna_hash: d.resulting_dna_hash,
        },
        Entry::LobbyInfo(l) => EntryContent::LobbyInfo {
            description: l.description@,
            unenforced_rules: opt_str_view(l.unenforced_rules),
            logo_src: opt_str_view(l.logo_src),
            network_seed: l.network_seed@,
        },
    }
}

/// Equality of optional strings by their character sequences.
pub fn opt_str_eq(a: &Option<String>, b: &Option<String>) -> (r: bool)
    ensures
        r == (opt_str_view(*a) == opt_str_view(*b)),
{
    match (a, b) {
        (Option::None, Option::None) => true,
        (Option::Some(x), Option::Some(y)) => *x == *y,
        _ => false,
    }
}

/// Equality of optional character limits.
fn opt_usize_eq(a: &Option<usize>, b: &Option<usize>) -> (r: bool)
    ensures
        r == (*a == *b),
{
    match (a, b) {
        (Option::None, Option::None) => true,
        (Option::Some(x), Option::Some(y)) => *x == *y,
        _ => false,
    }
}

/// Equality of optional timestamps.
fn opt_timestamp_eq(a: &Option<Timestamp>, b: &Option<Timestamp>) -> (r: bool)
    ensures
        r == (*a == *b),
{
    match (a, b) {
        (Option::None, Option::None) => true,
        (Option::Some(x), Option::Some(y)) => *x == *y,
        _ => false,
    }
}

/// Equality of optional membership proofs.
fn opt_proof_eq(a: &Option<MembraneProof>, b: &Option<MembraneProof>) -> (r: bool)
    ensures
        r == (*a == *b),
{
    match (a, b) {
        (Option::None, Option::None) => true,
        (Option::Some(x), Option::Some(y)) => *x == *y,
        _ => false,
    }
}

/// Content equality of property bags.
fn properties_eq(a: &CravingDnaProperties, b: &CravingDnaProperties) -> (r: bool)
    ensures
        r == (properties_content(*a) == properties_content(*b)),
{
    a.title == b.title && a.description == b.description
        && opt_usize_eq(&a.max_association_chars, &b.max_association_chars)
        && opt_usize_eq(&a.max_reflection_chars, &b.max_reflection_chars)
        && opt_usize_eq(&a.max_offer_chars, &b.max_offer_chars)
        && opt_usize_eq(&a.max_anecdote_chars, &b.max_anecdote_chars)
}

/// Content equality of entry payloads: decides whether two payloads are the
/// same logical fact, whatever their authors and timestamps.
pub fn entry_eq(a: &Entry, b: &Entry) -> (r: bool)
    ensures
        r == (entry_content(*a) == entry_content(*b)),
{
    match (a, b) {
        (Entry::Offer(x), Entry::Offer(y)) => {
            x.offer == y.offer && opt_str_eq(&x.explanation, &y.explanation)
        },
        (Entry::Reflection(x), Entry::Reflection(y)) => {
            x.title == y.title && x.reflection == y.reflection
        },
        (Entry::Association(x), Entry::Association(y)) => x.association == y.association,
        (Entry::Anecdote(x), Entry::Anecdote(y)) => x.anecdote == y.anecdote,
        (Entry::CommentOnOffer(x), Entry::CommentOnOffer(y)) => {
            x.offer_hash == y.offer_hash && x.comment == y.comment
        },
        (Entry::CommentOnReflection(x), Entry::CommentOnReflection(y)) => {
            x.reflection_hash == y.reflection_hash && x.comment == y.comment
        },
        (Entry::DnaRecipe(x), Entry::DnaRecipe(y)) => {
            x.title == y.title && opt_str_eq(&x.network_seed, &y.network_seed)
                && properties_eq(&x.properties, &y.properties)
                && opt_timestamp_eq(&x.origin_time, &y.origin_time)
                && opt_proof_eq(&x.membrane_proof, &y.membrane_proof)
                && x.resulting_dna_hash == y.resulting_dna_hash
        },
        (Entry::LobbyInfo(x), Entry::LobbyInfo(y)) => {
            x.description == y.description
                && opt_str_eq(&x.unenforced_rules, &y.unenforced_rules)
                && opt_str_eq(&x.logo_src, &y.logo_src)
                && x.network_seed == y.network_seed
        },
        _ => false,
    }
}

impl Clone for Offer {
    fn clone(&self) -> (r: Self)
        ensures
            r == *self,
    {
        Offer { offer: self.offer.clone(), explanation: self.explanation.clone() }
    }
}

impl Clone for Reflection {
    fn clone(&self) -> (r: Self)
        ensures
            r == *self,
    {
        Reflection { title: self.title.clone(), reflection: self.reflection.clone() }
    }
}

impl Clone for Association {
    fn clone(&self) -> (r: Self)
        ensures
            r == *self,
    {
        Association { association: self.association.clone() }
    }
}

impl Clone for Anecdote {
    fn clone(&self) -> (r: Self)
        ensures
            r == *self,
    {
        Anecdote { anecdote: self.anecdote.clone() }
    }
}

impl Clone for CommentOnOffer {
    fn clone(&self) -> (r: Self)
        ensures
            r == *self,
    {
        CommentOnOffer { offer_hash: self.offer_hash, comment: self.comment.clone() }
    }
}

impl Clone for CommentOnReflection {
    fn clone(&self) -> (r: Self)
        ensures
            r == *self,
    {
        CommentOnReflection {
            reflection_hash: self.reflection_hash,
            comment: self.comment.clone(),
        }
    }
}

impl Clone for CravingDnaProperties {
    fn clone(&self) -> (r: Self)
        ensures
            r == *self,
    {
        CravingDnaProperties {
            title: self.title.clone(),
            description: self.description.clone(),
            max_association_chars: self.max_association_chars,
            max_reflection_chars: self.max_reflection_chars,
            max_offer_chars: self.max_offer_chars,
            max_anecdote_chars: self.max_anecdote_chars,
        }
    }
}

impl Clone for Entry {
    fn clone(&self) -> (r: Self)
        ensures
            r == *self,
    {
        match self {
            Entry::Offer(o) => Entry::Offer(o.clone()),
            Entry::Reflection(o) => Entry::Reflection(o.clone()),
            Entry::Association(o) => Entry::Association(o.clone()),
            Entry::Anecdote(o) => Entry::Anecdote(o.clone()),
            Entry::CommentOnOffer(o) => Entry::CommentOnOffer(o.clone()),
            Entry::CommentOnReflection(o) => Entry::CommentOnReflection(o.clone()),
            Entry::DnaRecipe(o) => Entry::DnaRecipe(o.clone()),
            Entry::LobbyInfo(o) => Entry::LobbyInfo(o.clone()),
        }
    }
}

/// The craving network's link kinds.
#[derive(Clone, Copy, Debug, PartialEq, Eq, Structural)]
pub enum LinkTypes {
    OfferUpdates,
    ReflectionUpdates,
    AssociationUpdates,
    AnecdoteUpdates,
    OfferToCommentOnOffers,
    CommentOnOfferUpdates,
    ReflectionToCommentOnReflections,
    CommentOnReflectionUpdates,
    EntryToResonator,
    ActionToResonator,
    AllOffers,
    AllAssociations,
    AllReflections,
    AllAnecdotes,
}

/// A link kind of either network, as the store records it.
#[derive(Clone, Copy, Debug, PartialEq, Eq, Structural)]
pub enum LinkKind {
    Craving(LinkTypes),
    Lobby(crate::lobby::LinkTypes),
}

} // verus!
