//! The `GameAdapter` seam.
//!
//! This module is the entire surface a new game implements. If supporting a
//! second game requires changing anything outside the game's own adapter and
//! one registry entry, this seam has failed.
//!
//! Loading model: adapters are compile-time Rust types in a static registry,
//! not dynamically loaded plugins.

use vstd::prelude::*;

use crate::evidence::Confidence;
use crate::ids::GameId;
use crate::observation::GameStateEnvelope;
use crate::recommendation::Recommendation;

verus! {

/// How far along a game's support has come.
///
/// Status is data in the game's manifest, surfaced in the interface, and
/// enforced: a `DisabledPolicyReview` game cannot ship enabled, whatever the
/// code says.
#[derive(Debug, Clone, Copy, PartialEq, Eq, Structural)]
pub enum SupportStatus {
    /// Works for the author; no promises.
    Experimental,
    /// Community-maintained.
    Community,
    /// Actively maintained with fixtures and evaluation coverage.
    Maintained,
    /// No longer maintained; still loadable.
    Deprecated,
    /// Held back pending a game-policy review outcome. Cannot ship enabled.
    DisabledPolicyReview,
}

impl SupportStatus {
    /// Whether a game in this status may be offered to a user.
    ///
    /// The policy-review gate is the reason this is a method and not a
    /// comparison at each call site: one place to be right.
    pub fn is_shippable(self) -> (r: bool)
        ensures
            r == (self != SupportStatus::DisabledPolicyReview),
    {
        match self {
            SupportStatus::Experimental
            | SupportStatus::Community
            | SupportStatus::Maintained
            | SupportStatus::Deprecated => true,
            SupportStatus::DisabledPolicyReview => false,
        }
    }
}

/// Static description of a supported game.
#[derive(Debug, Clone, PartialEq)]
pub struct GameManifest {
    /// Stable identifier, matching the game's directory and the `game_id` key
    /// of its manifest file.
    pub game_id: GameId,
    /// Name shown to a player.
    pub display_name: String,
    /// Version of the adapter implementing this game.
    pub adapter_version: String,
    /// How far along support is.
    pub support_status: SupportStatus,
}

/// What the platform knows when asking an adapter whether its game is running.
///
/// Deliberately not "the whole system": an adapter gets enumerated windows and
/// process names, never the ability to go looking for itself.
#[derive(Debug, Clone)]
pub struct DetectionContext {
    /// Executable names of running processes, as the platform observed them.
    pub process_names: Vec<String>,
    /// Titles of enumerated top-level windows.
    pub window_titles: Vec<String>,
}

impl Default for DetectionContext {
    fn default() -> (r: Self)
        ensures
            r.process_names@.len() == 0,
            r.window_titles@.len() == 0,
    {
        DetectionContext { process_names: Vec::new(), window_titles: Vec::new() }
    }
}

/// An adapter's answer to "is your game here?".
#[derive(Debug, Clone, PartialEq)]
pub enum DetectionResult {
    /// Not present.
    NotFound,
    /// Present, with the adapter's confidence in the match.
    Found {
        /// Which enumerated window the adapter believes is the game.
        window_title: String,
        /// How sure the adapter is.
        confidence: Confidence,
    },
}

/// Capture hints an adapter supplies for its game.
///
/// Hints, not commands: the capture layer owns the platform APIs and may refuse
/// a cadence the system cannot sustain.
#[derive(Debug, Clone, PartialEq, Eq, Structural)]
pub struct CaptureProfile {
    /// Fastest cadence worth capturing at, in milliseconds.
    pub min_interval_ms: u32,
    /// Slowest cadence before the coach is too far behind to be useful.
    pub max_interval_ms: u32,
}

/// The retrieval scope derived from observed state.
///
/// Retrieval is deterministic filtering before it is anything else, so this is
/// a set of exact filters rather than a free-text query.
#[derive(Debug, Clone, PartialEq, Eq)]
pub struct StrategyScope {
    /// Season or pack identifier to search within.
    pub season: Option<String>,
    /// Game phase, used to exclude documents that do not apply.
    pub phase: Option<String>,
    /// Recognized entities (heroes, tribes, minions, mechanics) to match
    /// against document `applies_to` front matter.
    pub entities: Vec<String>,
}

impl Default for StrategyScope {
    fn default() -> (r: Self)
        ensures
            r.season is None,
            r.phase is None,
            r.entities@.len() == 0,
    {
        StrategyScope { season: None, phase: None, entities: Vec::new() }
    }
}

/// The bounded, delimited context assembled for one coaching turn.
///
/// `strategy_refs` is not decoration: the recommendation validator rejects
/// advice citing a document that is not in this list, which is what stops a
/// model from inventing a citation.
#[derive(Debug, Clone, PartialEq, Eq)]
pub struct CoachingContext {
    /// The prompt body, with untrusted content already delimited.
    pub prompt: String,
    /// Identifiers of the strategy documents supplied to this turn.
    pub strategy_refs: Vec<String>,
}

impl Default for CoachingContext {
    fn default() -> (r: Self)
        ensures
            r.prompt@.len() == 0,
            r.strategy_refs@.len() == 0,
    {
        CoachingContext { prompt: String::new(), strategy_refs: Vec::new() }
    }
}

/// The outcome of an adapter's game-specific checks on a recommendation.
#[derive(Debug, Clone, PartialEq, Eq)]
pub struct ValidationReport {
    /// Findings that make the advice unsafe to show.
    pub rejections: Vec<String>,
    /// Findings worth surfacing alongside the advice.
    pub warnings: Vec<String>,
}

impl Default for ValidationReport {
    fn default() -> (r: Self)
        ensures
            r.rejections@.len() == 0,
            r.warnings@.len() == 0,
    {
        ValidationReport { rejections: Vec::new(), warnings: Vec::new() }
    }
}

impl ValidationReport {
    /// Whether the recommendation may be published: warnings never block it,
    /// any rejection does.
    pub fn is_acceptable(&self) -> (r: bool)
        ensures
            r == (self.rejections@.len() == 0),
    {
        self.rejections.len() == 0
    }
}

/// Why an observation could not be produced.
#[derive(Debug)]
pub enum ObservationError {
    /// The frame did not show a state this adapter recognizes.
    Unrecognized(String),
    /// Extraction ran but the result was too uncertain to publish.
    ConfidenceTooLow,
}

impl ObservationError {
    /// The human-readable description of this error.
    pub fn message(&self) -> (r: String)
        ensures
            r@ == match self {
                ObservationError::Unrecognized(why) => "frame did not match a known game state: "@
                    + why@,
                ObservationError::ConfidenceTooLow => "extraction confidence too low to publish"@,
            },
    {
        let mut out = String::new();
        match self {
            ObservationError::Unrecognized(why) => {
                out.append("frame did not match a known game state: ");
                out.append(why.as_str());
            },
            ObservationError::ConfidenceTooLow => {
                out.append("extraction confidence too low to publish");
            },
        }
        out
    }
}

/// Everything a game must implement, and nothing more.
///
/// Note what is *absent*: no method returns pixels, no method sends input, and
/// no method reaches the model provider directly.
pub trait GameAdapter: Send + Sync {
    /// The static description this adapter reports: what [`Self::manifest`]
    /// returns, unchanged over the adapter's lifetime. An adapter written
    /// outside verified code implements it as an ordinary method returning a
    /// copy of that manifest.
    spec fn spec_manifest(&self) -> GameManifest;

    /// Static description of this game.
    fn manifest(&self) -> (m: &GameManifest)
        ensures
            *m == self.spec_manifest(),
    ;

    /// Is this game running, and which window is it?
    fn detect(&self, ctx: &DetectionContext) -> DetectionResult;

    /// Cadence and framing hints for capturing this game.
    fn capture_profile(&self) -> CaptureProfile;

    /// Turn extracted state into a validated envelope.
    ///
    /// `previous` is supplied so the adapter can compute `change_summary` and
    /// carry forward fields the current frame does not show. Fields that cannot
    /// be read stay missing; inventing a plausible value is the failure mode
    /// this whole contract exists to prevent.
    fn parse_observation(&self, previous: Option<&GameStateEnvelope>) -> Result<
        GameStateEnvelope,
        ObservationError,
    >;

    /// Map observed state to the retrieval scope for this turn.
    fn strategy_scope(&self, state: &GameStateEnvelope) -> StrategyScope;

    /// Assemble the bounded coaching context.
    fn coaching_context(&self, state: &GameStateEnvelope) -> CoachingContext;

    /// Game-specific sanity checks, for example refusing a purchase the
    /// observed gold cannot cover *when gold was actually observed*.
    fn validate_recommendation(
        &self,
        state: &GameStateEnvelope,
        recommendation: &Recommendation,
    ) -> ValidationReport;
}

} // verus!
