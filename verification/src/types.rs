//! Plain identifier and time types of the ledger model.
//!
//! Addresses in a content-addressed store are opaque identifiers; the model
//! represents each kind of address as a wrapped integer.  Action addresses
//! are assigned densely by the store (the address of the `i`-th record is
//! `ActionHash(i)`), entry addresses index the store's table of distinct
//! payloads, so byte-identical payloads from any author share one entry
//! address.

use vstd::prelude::*;

verus! {

/// Address of one immutable record (one action on some participant's chain).
#[derive(Clone, Copy, Debug, PartialEq, Eq, Structural)]
pub struct ActionHash(pub usize);

/// Content address of an entry payload: byte-identical payloads from any
/// author share one entry hash.
#[derive(Clone, Copy, Debug, PartialEq, Eq, Structural)]
pub struct EntryHash(pub usize);

/// A participant's cryptographic identity.
#[derive(Clone, Copy, Debug, PartialEq, Eq, Structural)]
pub struct AgentPubKey(pub u64);

/// Address of an installed ledger network.
#[derive(Clone, Copy, Debug, PartialEq, Eq, Structural)]
pub struct DnaHash(pub u64);

/// Microseconds since the epoch, as the substrate stamps actions and links.
#[derive(Clone, Copy, Debug, PartialEq, Eq, Structural)]
pub struct Timestamp(pub i64);

/// The fixed, well-known anchors that index links hang from.
#[derive(Clone, Copy, Debug, PartialEq, Eq, Structural)]
pub enum AnchorName {
    AllOffers,
    AllAssociations,
    AllReflections,
    AllAnecdotes,
    AllCravingRecipes,
    LobbyInfo,
}

/// Anything a link may point at or hang from.
#[derive(Clone, Copy, Debug, PartialEq, Eq, Structural)]
pub enum AnyLinkableHash {
    Action(ActionHash),
    Entry(EntryHash),
    Agent(AgentPubKey),
    Anchor(AnchorName),
}

/// Typed failure of a local write-path operation.  Peer-validation failures
/// are not errors but rejections (`ValidateCallbackResult::Invalid`).
#[derive(Clone, Debug, PartialEq, Eq, Structural)]
pub enum CravingError {
    /// A hash does not resolve to a record.
    NotFound,
    /// A referenced hash does not resolve to a record of the expected type.
    DependencyMissing,
    /// A record or link target has the wrong entity type.
    TypeMismatch,
    /// Authorship or target mismatch on a scoped link.
    Unauthorized,
    /// A payload is longer than the configured or default limit allows;
    /// carries the limit and whether it was configured or the default.
    SizeLimitExceeded { limit: usize, configured: bool },
    /// An update or delete was attempted on a non-mutable entity type.
    ImmutableViolation,
    /// The original record of an update or delete cannot be recovered or
    /// has the wrong type.
    InconsistentHistory,
    /// A participant's join preamble is not the expected action.
    MalformedJoin,
    /// A singleton entry or anchor link already exists.
    AlreadyExists,
}

/// Verdict of the operation validator: every transition is terminal.
#[derive(Clone, Debug)]
pub enum ValidateCallbackResult {
    Valid,
    Invalid(String),
}

impl ValidateCallbackResult {
    /// Whether this verdict accepts the operation.
    pub open spec fn is_valid(&self) -> bool {
        matches!(self, ValidateCallbackResult::Valid)
    }

    /// Whether this verdict rejects with exactly the given reason.
    pub open spec fn is_invalid_with(&self, msg: Seq<char>) -> bool {
        match self {
            ValidateCallbackResult::Valid => false,
            ValidateCallbackResult::Invalid(s) => s@ == msg,
        }
    }
}

/// Result of the one-time chain initialisation callback.
#[derive(Clone, Copy, Debug, PartialEq, Eq, Structural)]
pub enum InitCallbackResult {
    Pass,
}

} // verus!
