use augur::battlegrounds::{BattlegroundsAdapter, GAME_ID};
use augur::evidence::{Confidence, Privacy};
use augur::game_api::{
    CaptureProfile, DetectionContext, DetectionResult, GameAdapter, ObservationError, SupportStatus,
};
use augur::ids::{AdapterVersion, GameId, ObservationId, SessionId};
use augur::observation::{CaptureSource, GameStateEnvelope};
use augur::recommendation::{Recommendation, RecommendationEvidence, Validity};

fn envelope() -> GameStateEnvelope {
    GameStateEnvelope {
        schema_version: 1,
        game_id: GameId::new(GAME_ID),
        game_version: "season".to_string(),
        adapter_version: AdapterVersion::new("0.1.0"),
        session_id: SessionId::new("s"),
        observation_id: ObservationId::new("o"),
        phase: "shop".to_string(),
        source: CaptureSource {
            kind: "screen_capture".to_string(),
            window_id: "w".to_string(),
            frame_hash: "h".to_string(),
        },
        confidence: Confidence::none(),
        change_summary: vec![],
        privacy: Privacy::LocalDerivedText,
        evidence: vec![],
        state: serde_json::Value::Null,
    }
}

#[test]
fn extraction_reports_absence_rather_than_inventing_state() {
    let adapter = BattlegroundsAdapter::new();
    assert!(adapter.parse_observation(None).is_err());
}

#[test]
fn the_manifest_describes_battlegrounds() {
    let adapter = BattlegroundsAdapter::default();
    let manifest = adapter.manifest();
    assert_eq!(manifest.game_id.as_str(), GAME_ID);
    assert_eq!(manifest.game_id.as_str(), "hearthstone-battlegrounds");
    assert_eq!(manifest.display_name, "Hearthstone Battlegrounds");
    assert_eq!(manifest.adapter_version, "0.1.0");
    assert_eq!(manifest.support_status, SupportStatus::Experimental);
}

#[test]
fn unbuilt_subsystems_answer_honestly() {
    let adapter = BattlegroundsAdapter::new();
    let ctx = DetectionContext {
        process_names: vec!["Hearthstone.exe".to_string()],
        window_titles: vec!["Hearthstone".to_string()],
    };
    assert_eq!(adapter.detect(&ctx), DetectionResult::NotFound);
    assert_eq!(
        adapter.capture_profile(),
        CaptureProfile { min_interval_ms: 500, max_interval_ms: 5_000 }
    );
    match adapter.parse_observation(Some(&envelope())) {
        Err(ObservationError::Unrecognized(why)) => {
            assert_eq!(why, "Battlegrounds state extraction is not implemented yet")
        }
        _ => panic!("extraction must report absence"),
    }
    let state = envelope();
    assert!(adapter.strategy_scope(&state).entities.is_empty());
    assert!(adapter.coaching_context(&state).strategy_refs.is_empty());
    let recommendation = Recommendation {
        schema_version: 1,
        game_id: GameId::new(GAME_ID),
        session_id: SessionId::new("s"),
        observation_id: ObservationId::new("o"),
        summary: "Hold.".to_string(),
        actions: vec![],
        rationale: String::new(),
        confidence: Confidence::none(),
        evidence: RecommendationEvidence::default(),
        warnings: vec![],
        validity: Validity { expires_at: None, invalidated_by: vec![] },
    };
    assert!(adapter.validate_recommendation(&state, &recommendation).is_acceptable());
}
