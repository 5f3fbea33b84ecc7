//! Hearthstone Battlegrounds adapter.
//!
//! This module may name Hearthstone freely; platform modules may not. The
//! game's data (manifest, state schema, prompts, strategy packs, fixtures)
//! lives beside its adapter.
//!
//! Every method reports honestly that its subsystem does not exist yet rather
//! than returning a plausible-looking placeholder, because a fake detection or
//! a fabricated observation would be indistinguishable from a broken one.
//!
//! The game's manifest records a pending policy review, which blocks release
//! until the review is recorded. [`crate::policy`] enforces that; this module
//! does not decide it.

use vstd::prelude::*;

use crate::game_api::{
    CaptureProfile, CoachingContext, DetectionContext, DetectionResult, GameAdapter, GameManifest,
    ObservationError, StrategyScope, SupportStatus, ValidationReport,
};
use crate::ids::GameId;
use crate::observation::GameStateEnvelope;
use crate::recommendation::Recommendation;

verus! {

broadcast use vstd::string::group_string_axioms;

/// Stable identifier for this game, matching its directory name.
pub const GAME_ID: &'static str = "hearthstone-battlegrounds";

/// The Hearthstone Battlegrounds adapter.
#[derive(Debug)]
pub struct BattlegroundsAdapter {
    manifest: GameManifest,
}

impl BattlegroundsAdapter {
    /// Construct the adapter.
    pub fn new() -> (r: Self)
        ensures
            r.spec_manifest().game_id@ == GAME_ID@,
            r.spec_manifest().display_name@ == "Hearthstone Battlegrounds"@,
            r.spec_manifest().adapter_version@ == "0.1.0"@,
            r.spec_manifest().support_status == SupportStatus::Experimental,
    {
        BattlegroundsAdapter {
            manifest: GameManifest {
                game_id: GameId::new(GAME_ID),
                display_name: "Hearthstone Battlegrounds".to_string(),
                adapter_version: "0.1.0".to_string(),
                // Mirrors `status: experimental` in the game's manifest.
                // Shipping is separately blocked by the pending policy review;
                // support status and policy review are two gates on purpose.
                support_status: SupportStatus::Experimental,
            },
        }
    }
}

impl Default for BattlegroundsAdapter {
    fn default() -> (r: Self)
        ensures
            r.spec_manifest().game_id@ == GAME_ID@,
            r.spec_manifest().display_name@ == "Hearthstone Battlegrounds"@,
            r.spec_manifest().adapter_version@ == "0.1.0"@,
            r.spec_manifest().support_status == SupportStatus::Experimental,
    {
        Self::new()
    }
}

impl GameAdapter for BattlegroundsAdapter {
    closed spec fn spec_manifest(&self) -> GameManifest {
        self.manifest
    }

    fn manifest(&self) -> (m: &GameManifest) {
        &self.manifest
    }

    /// Detection rules live in the game's manifest and are read by the
    /// detection work. Reporting `NotFound` is the honest answer while that is
    /// unbuilt: a hardcoded match would make a broken enumeration look like
    /// success.
    fn detect(&self, _ctx: &DetectionContext) -> (r: DetectionResult)
        ensures
            r == DetectionResult::NotFound,
    {
        DetectionResult::NotFound
    }

    /// A shop turn runs roughly 60 to 90 seconds, so advice is useful at a
    /// cadence measured in seconds, not frames.
    fn capture_profile(&self) -> (r: CaptureProfile)
        ensures
            r == (CaptureProfile { min_interval_ms: 500, max_interval_ms: 5_000 }),
    {
        CaptureProfile { min_interval_ms: 500, max_interval_ms: 5_000 }
    }

    /// State extraction does not exist yet, so no observation is ever
    /// produced: absence is reported rather than state invented.
    fn parse_observation(&self, _previous: Option<&GameStateEnvelope>) -> (r: Result<
        GameStateEnvelope,
        ObservationError,
    >)
        ensures
            r matches Err(ObservationError::Unrecognized(why)) && why@
                == "Battlegrounds state extraction is not implemented yet"@,
    {
        Err(
            ObservationError::Unrecognized(
                "Battlegrounds state extraction is not implemented yet".to_string(),
            ),
        )
    }

    fn strategy_scope(&self, _state: &GameStateEnvelope) -> (r: StrategyScope)
        ensures
            r.season is None,
            r.phase is None,
            r.entities@.len() == 0,
    {
        StrategyScope::default()
    }

    fn coaching_context(&self, _state: &GameStateEnvelope) -> (r: CoachingContext)
        ensures
            r.prompt@.len() == 0,
            r.strategy_refs@.len() == 0,
    {
        CoachingContext::default()
    }

    fn validate_recommendation(
        &self,
        _state: &GameStateEnvelope,
        _recommendation: &Recommendation,
    ) -> (r: ValidationReport)
        ensures
            r.rejections@.len() == 0,
            r.warnings@.len() == 0,
    {
        ValidationReport::default()
    }
}

} // verus!
