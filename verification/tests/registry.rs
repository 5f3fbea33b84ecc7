use augur::battlegrounds::{BattlegroundsAdapter, GAME_ID};
use augur::game_api::{
    CaptureProfile, CoachingContext, DetectionContext, DetectionResult, GameAdapter, GameManifest,
    ObservationError, StrategyScope, SupportStatus, ValidationReport,
};
use augur::ids::GameId;
use augur::observation::GameStateEnvelope;
use augur::recommendation::Recommendation;
use augur::registry::{AdapterRegistry, RegistryError};

/// A second game, standing in for a community adapter.
struct FixtureAdapter {
    manifest: GameManifest,
}

impl FixtureAdapter {
    fn new(id: &str, name: &str) -> Self {
        FixtureAdapter {
            manifest: GameManifest {
                game_id: GameId::new(id),
                display_name: name.to_string(),
                adapter_version: "0.0.1".to_string(),
                support_status: SupportStatus::Community,
            },
        }
    }
}

impl GameAdapter for FixtureAdapter {
    fn spec_manifest(&self) -> GameManifest {
        self.manifest.clone()
    }

    fn manifest(&self) -> &GameManifest {
        &self.manifest
    }

    fn detect(&self, _ctx: &DetectionContext) -> DetectionResult {
        DetectionResult::NotFound
    }

    fn capture_profile(&self) -> CaptureProfile {
        CaptureProfile { min_interval_ms: 1_000, max_interval_ms: 2_000 }
    }

    fn parse_observation(
        &self,
        _previous: Option<&GameStateEnvelope>,
    ) -> Result<GameStateEnvelope, ObservationError> {
        Err(ObservationError::ConfidenceTooLow)
    }

    fn strategy_scope(&self, _state: &GameStateEnvelope) -> StrategyScope {
        StrategyScope::default()
    }

    fn coaching_context(&self, _state: &GameStateEnvelope) -> CoachingContext {
        CoachingContext::default()
    }

    fn validate_recommendation(
        &self,
        _state: &GameStateEnvelope,
        _recommendation: &Recommendation,
    ) -> ValidationReport {
        ValidationReport::default()
    }
}

#[test]
fn the_builtin_registry_is_reachable_end_to_end() {
    // A game adapter is constructible, registered, and retrievable through the
    // platform seam without the platform knowing anything about it beyond its
    // id.
    let registry = AdapterRegistry::with_builtin_adapters();
    assert!(!registry.is_empty());

    let id = registry
        .game_ids()
        .first()
        .expect("at least one game")
        .clone();
    let adapter = registry.get(&id).expect("registered adapter resolves");
    assert_eq!(adapter.manifest().game_id, id);
}

#[test]
fn unknown_games_are_an_error_not_a_default() {
    let registry = AdapterRegistry::with_builtin_adapters();
    let missing = GameId::new("no-such-game");
    assert_eq!(
        registry.get(&missing).err(),
        Some(RegistryError::UnknownGame(missing))
    );
}

#[test]
fn the_builtin_registry_holds_exactly_battlegrounds() {
    let registry = AdapterRegistry::default();
    assert_eq!(registry.len(), 1);
    assert_eq!(registry.game_ids(), vec![GameId::new(GAME_ID)]);
    let adapter = registry.get(&GameId::new(GAME_ID)).expect("battlegrounds is registered");
    assert_eq!(adapter.manifest().display_name, "Hearthstone Battlegrounds");
}

#[test]
fn game_ids_come_back_in_ascending_order() {
    let mut registry = AdapterRegistry::with_builtin_adapters();
    registry.register(Box::new(FixtureAdapter::new("zzz-game", "Last")));
    registry.register(Box::new(FixtureAdapter::new("aaa-game", "First")));
    registry.register(Box::new(FixtureAdapter::new("hearthstone", "Prefix")));
    assert_eq!(registry.len(), 4);
    assert_eq!(
        registry.game_ids(),
        vec![
            GameId::new("aaa-game"),
            GameId::new("hearthstone"),
            GameId::new(GAME_ID),
            GameId::new("zzz-game"),
        ]
    );
}

#[test]
fn a_lookup_gives_back_what_was_registered() {
    let mut registry = AdapterRegistry::with_builtin_adapters();
    registry.register(Box::new(FixtureAdapter::new("second-game", "Second")));
    let adapter = registry.get(&GameId::new("second-game")).expect("registered");
    assert_eq!(adapter.manifest().display_name, "Second");
    assert_eq!(adapter.capture_profile().max_interval_ms, 2_000);
    // The other game is untouched.
    let builtin = registry.get(&GameId::new(GAME_ID)).expect("still registered");
    assert_eq!(builtin.manifest().display_name, "Hearthstone Battlegrounds");
}

#[test]
fn registering_an_existing_id_replaces_the_adapter() {
    let mut registry = AdapterRegistry::with_builtin_adapters();
    registry.register(Box::new(FixtureAdapter::new(GAME_ID, "Replacement")));
    assert_eq!(registry.len(), 1);
    let adapter = registry.get(&GameId::new(GAME_ID)).expect("registered");
    assert_eq!(adapter.manifest().display_name, "Replacement");
    registry.register(Box::new(BattlegroundsAdapter::new()));
    assert_eq!(registry.len(), 1);
    let adapter = registry.get(&GameId::new(GAME_ID)).expect("registered");
    assert_eq!(adapter.manifest().display_name, "Hearthstone Battlegrounds");
}

#[test]
fn registry_error_message() {
    assert_eq!(
        RegistryError::UnknownGame(GameId::new("no-such-game")).message(),
        "no adapter registered for game no-such-game"
    );
}
