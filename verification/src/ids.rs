//! Identifiers that travel across every Augur boundary.
//!
//! These are newtypes rather than bare `String`s because they cross process
//! boundaries (RPC), storage boundaries (the match session store), and the
//! model boundary (the coaching turn), and the compiler is the cheapest place
//! to catch a session id used where an observation id was meant. The
//! recommendation-invalidation rule turns on exactly that distinction.
//!
//! Each identifier is viewed as the sequence of characters it wraps.

use vstd::prelude::*;

use vstd::std_specs::cmp::PartialEqSpec;

verus! {

broadcast use vstd::string::group_string_axioms;

/// Schema version carried by the observation envelope and the recommendation
/// contract.
///
/// Bumped when a change would make an older consumer misread a payload. Adding
/// an optional field is not such a change; removing a field, changing its
/// meaning, or narrowing its type is.
pub type SchemaVersion = u32;

/// The current envelope and recommendation schema version.
pub const CURRENT_SCHEMA_VERSION: SchemaVersion = 1;

/// Stable identifier for a supported game, matching the directory name
/// under `games/` and the `id` field of that game's `game.yaml`.
///
/// A `GameId` value may exist in platform modules; a *literal* game id may
/// not, outside the adapter registry.
#[derive(Debug, Eq, Hash, PartialOrd, Ord)]
pub struct GameId(String);

impl View for GameId {
    type V = Seq<char>;

    closed spec fn view(&self) -> Seq<char> {
        self.0@
    }
}

impl GameId {
    /// Wrap an already-validated identifier.
    pub fn new(value: &str) -> (r: Self)
        ensures
            r@ == value@,
    {
        GameId(value.to_string())
    }

    /// Borrow the underlying string.
    pub fn as_str(&self) -> (r: &str)
        ensures
            r@ == self@,
    {
        self.0.as_str()
    }

    /// Consume the newtype and return the owned string.
    pub fn into_inner(self) -> (r: String)
        ensures
            r@ == self@,
    {
        self.0
    }

    /// The identifier as displayed: the wrapped text, unchanged.
    pub fn to_string(&self) -> (r: String)
        ensures
            r@ == self@,
    {
        self.0.clone()
    }
}

impl Clone for GameId {
    fn clone(&self) -> (r: Self)
        ensures
            r == *self,
    {
        GameId(self.0.clone())
    }
}

impl PartialEq for GameId {
    fn eq(&self, other: &Self) -> (r: bool) {
        self.0 == other.0
    }
}

impl vstd::std_specs::cmp::PartialEqSpecImpl for GameId {
    open spec fn obeys_eq_spec() -> bool {
        true
    }

    open spec fn eq_spec(&self, other: &Self) -> bool {
        self@ == other@
    }
}

impl AsRef<str> for GameId {
    fn as_ref(&self) -> (r: &str)
        ensures
            r@ == self@,
    {
        self.0.as_str()
    }
}

/// Identifies one coaching session: a run of the app bound to one game and
/// one capture target. Outlives individual matches.
#[derive(Debug, Eq, Hash, PartialOrd, Ord)]
pub struct SessionId(String);

impl View for SessionId {
    type V = Seq<char>;

    closed spec fn view(&self) -> Seq<char> {
        self.0@
    }
}

impl SessionId {
    /// Wrap an already-validated identifier.
    pub fn new(value: &str) -> (r: Self)
        ensures
            r@ == value@,
    {
        SessionId(value.to_string())
    }

    /// Borrow the underlying string.
    pub fn as_str(&self) -> (r: &str)
        ensures
            r@ == self@,
    {
        self.0.as_str()
    }

    /// Consume the newtype and return the owned string.
    pub fn into_inner(self) -> (r: String)
        ensures
            r@ == self@,
    {
        self.0
    }

    /// The identifier as displayed: the wrapped text, unchanged.
    pub fn to_string(&self) -> (r: String)
        ensures
            r@ == self@,
    {
        self.0.clone()
    }
}

impl Clone for SessionId {
    fn clone(&self) -> (r: Self)
        ensures
            r == *self,
    {
        SessionId(self.0.clone())
    }
}

impl PartialEq for SessionId {
    fn eq(&self, other: &Self) -> (r: bool) {
        self.0 == other.0
    }
}

impl vstd::std_specs::cmp::PartialEqSpecImpl for SessionId {
    open spec fn obeys_eq_spec() -> bool {
        true
    }

    open spec fn eq_spec(&self, other: &Self) -> bool {
        self@ == other@
    }
}

impl AsRef<str> for SessionId {
    fn as_ref(&self) -> (r: &str)
        ensures
            r@ == self@,
    {
        self.0.as_str()
    }
}

/// Identifies one match within a session. Match state, not open-ended agent
/// memory, is the source of truth for what has happened so far.
#[derive(Debug, Eq, Hash, PartialOrd, Ord)]
pub struct MatchId(String);

impl View for MatchId {
    type V = Seq<char>;

    closed spec fn view(&self) -> Seq<char> {
        self.0@
    }
}

impl MatchId {
    /// Wrap an already-validated identifier.
    pub fn new(value: &str) -> (r: Self)
        ensures
            r@ == value@,
    {
        MatchId(value.to_string())
    }

    /// Borrow the underlying string.
    pub fn as_str(&self) -> (r: &str)
        ensures
            r@ == self@,
    {
        self.0.as_str()
    }

    /// Consume the newtype and return the owned string.
    pub fn into_inner(self) -> (r: String)
        ensures
            r@ == self@,
    {
        self.0
    }

    /// The identifier as displayed: the wrapped text, unchanged.
    pub fn to_string(&self) -> (r: String)
        ensures
            r@ == self@,
    {
        self.0.clone()
    }
}

impl Clone for MatchId {
    fn clone(&self) -> (r: Self)
        ensures
            r == *self,
    {
        MatchId(self.0.clone())
    }
}

impl PartialEq for MatchId {
    fn eq(&self, other: &Self) -> (r: bool) {
        self.0 == other.0
    }
}

impl vstd::std_specs::cmp::PartialEqSpecImpl for MatchId {
    open spec fn obeys_eq_spec() -> bool {
        true
    }

    open spec fn eq_spec(&self, other: &Self) -> bool {
        self@ == other@
    }
}

impl AsRef<str> for MatchId {
    fn as_ref(&self) -> (r: &str)
        ensures
            r@ == self@,
    {
        self.0.as_str()
    }
}

/// Identifies one observation of game state.
///
/// Load-bearing: every recommendation is bound to the `ObservationId` it
/// was generated from, and a recommendation whose observation has been
/// superseded is invalidated rather than shown as current. This is the
/// identifier that makes "never silently stale" checkable.
#[derive(Debug, Eq, Hash, PartialOrd, Ord)]
pub struct ObservationId(String);

impl View for ObservationId {
    type V = Seq<char>;

    closed spec fn view(&self) -> Seq<char> {
        self.0@
    }
}

impl ObservationId {
    /// Wrap an already-validated identifier.
    pub fn new(value: &str) -> (r: Self)
        ensures
            r@ == value@,
    {
        ObservationId(value.to_string())
    }

    /// Borrow the underlying string.
    pub fn as_str(&self) -> (r: &str)
        ensures
            r@ == self@,
    {
        self.0.as_str()
    }

    /// Consume the newtype and return the owned string.
    pub fn into_inner(self) -> (r: String)
        ensures
            r@ == self@,
    {
        self.0
    }

    /// The identifier as displayed: the wrapped text, unchanged.
    pub fn to_string(&self) -> (r: String)
        ensures
            r@ == self@,
    {
        self.0.clone()
    }
}

impl Clone for ObservationId {
    fn clone(&self) -> (r: Self)
        ensures
            r == *self,
    {
        ObservationId(self.0.clone())
    }
}

impl PartialEq for ObservationId {
    fn eq(&self, other: &Self) -> (r: bool) {
        self.0 == other.0
    }
}

impl vstd::std_specs::cmp::PartialEqSpecImpl for ObservationId {
    open spec fn obeys_eq_spec() -> bool {
        true
    }

    open spec fn eq_spec(&self, other: &Self) -> bool {
        self@ == other@
    }
}

impl AsRef<str> for ObservationId {
    fn as_ref(&self) -> (r: &str)
        ensures
            r@ == self@,
    {
        self.0.as_str()
    }
}

/// Version of the game adapter that produced an envelope, so a stored
/// observation can be interpreted by the adapter version that wrote it.
#[derive(Debug, Eq, Hash, PartialOrd, Ord)]
pub struct AdapterVersion(String);

impl View for AdapterVersion {
    type V = Seq<char>;

    closed spec fn view(&self) -> Seq<char> {
        self.0@
    }
}

impl AdapterVersion {
    /// Wrap an already-validated identifier.
    pub fn new(value: &str) -> (r: Self)
        ensures
            r@ == value@,
    {
        AdapterVersion(value.to_string())
    }

    /// Borrow the underlying string.
    pub fn as_str(&self) -> (r: &str)
        ensures
            r@ == self@,
    {
        self.0.as_str()
    }

    /// Consume the newtype and return the owned string.
    pub fn into_inner(self) -> (r: String)
        ensures
            r@ == self@,
    {
        self.0
    }

    /// The identifier as displayed: the wrapped text, unchanged.
    pub fn to_string(&self) -> (r: String)
        ensures
            r@ == self@,
    {
        self.0.clone()
    }
}

impl Clone for AdapterVersion {
    fn clone(&self) -> (r: Self)
        ensures
            r == *self,
    {
        AdapterVersion(self.0.clone())
    }
}

impl PartialEq for AdapterVersion {
    fn eq(&self, other: &Self) -> (r: bool) {
        self.0 == other.0
    }
}

impl vstd::std_specs::cmp::PartialEqSpecImpl for AdapterVersion {
    open spec fn obeys_eq_spec() -> bool {
        true
    }

    open spec fn eq_spec(&self, other: &Self) -> bool {
        self@ == other@
    }
}

impl AsRef<str> for AdapterVersion {
    fn as_ref(&self) -> (r: &str)
        ensures
            r@ == self@,
    {
        self.0.as_str()
    }
}

/// Two game ids are equal exactly when they wrap the same text.
pub proof fn lemma_game_id_equality_is_textual(a: GameId, b: GameId)
    ensures
        a.eq_spec(&b) == (a@ == b@),
{
}

/// Two session ids are equal exactly when they wrap the same text.
pub proof fn lemma_session_id_equality_is_textual(a: SessionId, b: SessionId)
    ensures
        a.eq_spec(&b) == (a@ == b@),
{
}

/// Two match ids are equal exactly when they wrap the same text.
pub proof fn lemma_match_id_equality_is_textual(a: MatchId, b: MatchId)
    ensures
        a.eq_spec(&b) == (a@ == b@),
{
}

/// Two observation ids are equal exactly when they wrap the same text.
pub proof fn lemma_observation_id_equality_is_textual(a: ObservationId, b: ObservationId)
    ensures
        a.eq_spec(&b) == (a@ == b@),
{
}

/// Two adapter versions are equal exactly when they wrap the same text.
pub proof fn lemma_adapter_version_equality_is_textual(a: AdapterVersion, b: AdapterVersion)
    ensures
        a.eq_spec(&b) == (a@ == b@),
{
}

} // verus!
