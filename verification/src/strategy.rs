//! Strategy packs and retrieval.
//!
//! Strategy packs are **data, never code**. They are community-authored
//! Markdown with validated front matter, and they are treated as untrusted
//! input all the way through: delimited when they reach a prompt, never
//! interpreted as instructions.
//!
//! Retrieval is deterministic first and clever later: exact metadata filters,
//! then entity filters, then lexical ranking over what survives, then a hard
//! document and token cap, then citation verification against what was
//! actually retrieved.

use vstd::prelude::*;

use vstd::std_specs::cmp::PartialEqSpec;

use crate::ids::GameId;

verus! {

/// Editorial state of a strategy document.
///
/// Retrieval excludes `Deprecated` outright and excludes `Draft` unless the
/// user opted in, so a half-finished document cannot quietly become the basis
/// for advice.
#[derive(Debug, Clone, Copy, PartialEq, Eq, Structural)]
pub enum DocumentStatus {
    /// Work in progress. Excluded unless the user opts in.
    Draft,
    /// Reviewed and current.
    Stable,
    /// Superseded. Never retrieved.
    Deprecated,
}

/// Stable identifier of a strategy document, as cited by a recommendation.
///
/// Citations are checked against the identifiers retrieval actually returned,
/// so this type is the join key of that check.
#[derive(Debug, Eq, Hash, PartialOrd, Ord)]
pub struct StrategyDocumentId(String);

impl View for StrategyDocumentId {
    type V = Seq<char>;

    closed spec fn view(&self) -> Seq<char> {
        self.0@
    }
}

impl StrategyDocumentId {
    /// Wrap an identifier.
    pub fn new(value: &str) -> (r: Self)
        ensures
            r@ == value@,
    {
        StrategyDocumentId(value.to_owned())
    }

    /// Borrow the underlying string.
    pub fn as_str(&self) -> (r: &str)
        ensures
            r@ == self@,
    {
        self.0.as_str()
    }

    /// The identifier as displayed: the wrapped text, unchanged.
    pub fn to_string(&self) -> (r: String)
        ensures
            r@ == self@,
    {
        self.0.clone()
    }
}

impl Clone for StrategyDocumentId {
    fn clone(&self) -> (r: Self)
        ensures
            r == *self,
    {
        StrategyDocumentId(self.0.clone())
    }
}

impl PartialEq for StrategyDocumentId {
    fn eq(&self, other: &Self) -> (r: bool) {
        self.0 == other.0
    }
}

impl vstd::std_specs::cmp::PartialEqSpecImpl for StrategyDocumentId {
    open spec fn obeys_eq_spec() -> bool {
        true
    }

    open spec fn eq_spec(&self, other: &Self) -> bool {
        self@ == other@
    }
}

/// Two strategy document ids are equal exactly when they wrap the same text,
/// which is what lets a citation be matched against what was retrieved.
pub proof fn lemma_strategy_document_id_equality_is_textual(a: StrategyDocumentId, b: StrategyDocumentId)
    ensures
        a.eq_spec(&b) == (a@ == b@),
{
}

/// One retrievable strategy document.
#[derive(Debug, Clone, PartialEq, Eq)]
pub struct StrategyDocument {
    /// Identifier used in citations.
    pub id: StrategyDocumentId,
    /// Which game this document is about.
    pub game_id: GameId,
    /// Season or pack this document belongs to.
    pub season: String,
    /// Editorial state.
    pub status: DocumentStatus,
    /// Document body. Untrusted text: delimited before it reaches a prompt.
    pub body: String,
}

/// Hard limits on what one coaching turn may retrieve.
///
/// Caps are part of the contract rather than a tuning knob buried in a config
/// file, because an unbounded retrieval is how a coaching turn silently becomes
/// expensive and slow.
#[derive(Debug, Clone, Copy, PartialEq, Eq, Structural)]
pub struct RetrievalCaps {
    /// Most documents that may be returned.
    pub max_documents: usize,
    /// Most tokens those documents may contribute.
    pub max_tokens: usize,
}

/// Why retrieval failed.
#[derive(Debug)]
pub enum RetrievalError {
    /// No pack is active for the requested game.
    NoActivePack(GameId),
    /// The pack index could not be read.
    IndexUnavailable(String),
}

impl RetrievalError {
    /// The human-readable description of this error.
    pub fn message(&self) -> (r: String)
        ensures
            r@ == match self {
                RetrievalError::NoActivePack(game) => "no active strategy pack for game "@ + game@,
                RetrievalError::IndexUnavailable(why) => "strategy index unavailable: "@ + why@,
            },
    {
        let mut out = String::new();
        match self {
            RetrievalError::NoActivePack(game) => {
                out.append("no active strategy pack for game ");
                out.append(game.as_str());
            },
            RetrievalError::IndexUnavailable(why) => {
                out.append("strategy index unavailable: ");
                out.append(why.as_str());
            },
        }
        out
    }
}

/// Deterministic retrieval over a validated strategy corpus.
pub trait StrategyRetriever: Send + Sync {
    /// Retrieve documents for a scope, within caps.
    ///
    /// Implementations must fall back to the season's fundamentals when state
    /// recognition is incomplete: incomplete extraction should degrade the
    /// advice, not remove the grounding.
    fn retrieve(&self, game: &GameId, caps: RetrievalCaps) -> Result<
        Vec<StrategyDocument>,
        RetrievalError,
    >;
}

} // verus!
