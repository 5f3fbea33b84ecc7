//! The rules of the observation and recommendation contracts that the wire
//! format cannot express, and what they refuse.

use augur::evidence::{Confidence, FieldEvidence, Privacy};
use augur::ids::{AdapterVersion, GameId, ObservationId, SessionId, CURRENT_SCHEMA_VERSION};
use augur::observation::{CaptureSource, GameStateEnvelope};
use augur::recommendation::{
    Recommendation, RecommendationEvidence, RecommendedAction, Validity,
};
use augur::validate::{check_schema_version, is_dense_priority_ranking, ContractError};

fn confidence(value: f32) -> Confidence {
    Confidence::new(value.to_bits()).expect("a confidence in range")
}

fn envelope() -> GameStateEnvelope {
    GameStateEnvelope {
        schema_version: 1,
        game_id: GameId::new("hearthstone-battlegrounds"),
        game_version: "season-2026-08".to_string(),
        adapter_version: AdapterVersion::new("0.1.0"),
        session_id: SessionId::new("session-1"),
        observation_id: ObservationId::new("obs-1"),
        phase: "shop".to_string(),
        source: CaptureSource {
            kind: "screen_capture".to_string(),
            window_id: "win-42".to_string(),
            frame_hash: "sha256:abc".to_string(),
        },
        confidence: confidence(0.93),
        change_summary: vec!["shop_contents".to_string(), "gold".to_string()],
        privacy: Privacy::LocalFrameTransient,
        evidence: vec![FieldEvidence { field: "gold".to_string(), confidence: confidence(0.99) }],
        state: serde_json::from_str(r#"{ "gold": 7, "tier": 3 }"#).expect("a JSON object"),
    }
}

fn recommendation() -> Recommendation {
    Recommendation {
        schema_version: 1,
        game_id: GameId::new("hearthstone-battlegrounds"),
        session_id: SessionId::new("session-1"),
        observation_id: ObservationId::new("obs-1"),
        summary: "Level to five before rerolling.".to_string(),
        actions: vec![RecommendedAction {
            priority: 1,
            action: "level".to_string(),
            target: "tavern".to_string(),
            condition: None,
        }],
        rationale: "Seven gold on turn four buys the tier without losing tempo.".to_string(),
        confidence: confidence(0.87),
        evidence: RecommendationEvidence {
            observed_facts: vec!["gold=7".to_string(), "tier=3".to_string()],
            strategy_refs: vec!["battlegrounds/season-2026-08/economy-and-leveling".to_string()],
            model_inferences: vec!["opponents likely ahead on tempo".to_string()],
            user_provided: vec![],
        },
        warnings: vec![],
        validity: Validity {
            expires_at: None,
            invalidated_by: vec!["shop_changes".to_string(), "turn_ends".to_string()],
        },
    }
}

#[test]
fn a_valid_envelope_and_recommendation_pass() {
    assert!(envelope().validate().is_ok());
    assert!(recommendation().validate().is_ok());
}

#[test]
fn the_game_owned_state_payload_survives_untouched() {
    let parsed = envelope();
    assert_eq!(parsed.state["gold"], 7);
    assert_eq!(parsed.state["tier"], 3);
    assert_eq!(parsed.clone().state, parsed.state);
}

#[test]
fn an_unknown_schema_version_is_refused_rather_than_guessed_at() {
    let mut future = envelope();
    future.schema_version = 99;
    assert_eq!(
        future.validate(),
        Err(ContractError::UnsupportedSchemaVersion {
            found: 99,
            supported: CURRENT_SCHEMA_VERSION,
        }),
        "a future schema version must be refused; a later revision may give an \
         existing field a new meaning, and reading it with today's rules would \
         describe a state that never existed"
    );
}

#[test]
fn only_the_current_schema_version_is_supported() {
    assert_eq!(check_schema_version(1), Ok(()));
    assert_eq!(
        check_schema_version(0),
        Err(ContractError::UnsupportedSchemaVersion { found: 0, supported: 1 })
    );
    let mut rec = recommendation();
    rec.schema_version = 2;
    rec.summary = "   ".to_string();
    // The version is checked before anything else.
    assert_eq!(
        rec.validate(),
        Err(ContractError::UnsupportedSchemaVersion { found: 2, supported: 1 })
    );
}

#[test]
fn an_envelope_needs_a_game_and_a_frame_hash() {
    let mut env = envelope();
    env.game_id = GameId::new("");
    assert_eq!(env.validate(), Err(ContractError::Empty { field: "game_id" }));
    let mut env = envelope();
    env.source.frame_hash = String::new();
    assert_eq!(env.validate(), Err(ContractError::Empty { field: "source.frame_hash" }));
}

#[test]
fn an_empty_summary_is_not_advice() {
    let mut rec = recommendation();
    rec.summary = "   ".to_string();
    assert_eq!(rec.validate(), Err(ContractError::Empty { field: "summary" }));
}

#[test]
fn a_summary_of_unicode_white_space_is_empty_too() {
    let mut rec = recommendation();
    rec.summary = "\t\u{3000}\u{2028}\n\u{a0}".to_string();
    assert_eq!(rec.validate(), Err(ContractError::Empty { field: "summary" }));
    rec.summary = "\u{200b}".to_string(); // zero-width space is not white space
    assert!(rec.validate().is_ok());
    rec.summary = String::new();
    assert_eq!(rec.validate(), Err(ContractError::Empty { field: "summary" }));
}

#[test]
fn action_priorities_must_be_a_dense_ranking_from_one() {
    let mut rec = recommendation();
    let base = rec.actions[0].clone();

    // Duplicate priorities: which one is the top recommendation?
    rec.actions = vec![base.clone(), base.clone()];
    assert!(matches!(
        rec.validate(),
        Err(ContractError::MalformedPriorities { .. })
    ));

    // Starting at 2 implies a missing first action.
    let mut second = base.clone();
    second.priority = 2;
    rec.actions = vec![second];
    assert!(matches!(
        rec.validate(),
        Err(ContractError::MalformedPriorities { .. })
    ));

    // A proper ranking passes.
    let mut second = base.clone();
    second.priority = 2;
    rec.actions = vec![base, second];
    assert!(rec.validate().is_ok());
}

#[test]
fn malformed_priorities_are_reported_in_action_order() {
    let mut rec = recommendation();
    let base = rec.actions[0].clone();
    let mut third = base.clone();
    third.priority = 3;
    rec.actions = vec![third, base.clone(), base];
    assert_eq!(
        rec.validate(),
        Err(ContractError::MalformedPriorities { found: vec![3, 1, 1] })
    );
}

#[test]
fn no_actions_at_all_is_allowed() {
    // "Hold, nothing worth doing" is real advice, and the summary carries it.
    let mut rec = recommendation();
    rec.actions.clear();
    assert!(rec.validate().is_ok());
}

#[test]
fn the_dense_ranking_rule_on_concrete_lists() {
    assert!(is_dense_priority_ranking(&vec![]));
    assert!(is_dense_priority_ranking(&vec![1]));
    assert!(is_dense_priority_ranking(&vec![3, 1, 2]));
    assert!(!is_dense_priority_ranking(&vec![0]));
    assert!(!is_dense_priority_ranking(&vec![1, 3]));
    assert!(!is_dense_priority_ranking(&vec![2, 2]));
    let full: Vec<u8> = (1..=255).rev().collect();
    assert!(is_dense_priority_ranking(&full));
    // A u8 priority has no rank beyond 255: longer lists never rank densely.
    let mut many = full.clone();
    many.push(255);
    assert!(!is_dense_priority_ranking(&many));
    assert!(!is_dense_priority_ranking(&vec![1u8; 256]));
    assert!(!is_dense_priority_ranking(&vec![1u8; 257]));
}

#[test]
fn a_repeated_priority_is_refused_however_many_actions_there_are() {
    let mut rec = recommendation();
    let first = rec.actions[0].clone();
    rec.actions = vec![first; 257];
    assert_eq!(
        rec.validate(),
        Err(ContractError::MalformedPriorities { found: vec![1u8; 257] })
    );
}

#[test]
fn contract_error_messages() {
    assert_eq!(
        ContractError::UnsupportedSchemaVersion { found: 99, supported: 1 }.message(),
        "schema_version 99 is not supported by this build (supports 1)"
    );
    assert_eq!(
        ContractError::UnsupportedSchemaVersion { found: 4_294_967_295, supported: 10 }.message(),
        "schema_version 4294967295 is not supported by this build (supports 10)"
    );
    assert_eq!(ContractError::Empty { field: "summary" }.message(), "summary must not be empty");
    assert_eq!(
        ContractError::MalformedPriorities { found: vec![1, 1, 255] }.message(),
        "action priorities must be unique and start at 1; found [1, 1, 255]"
    );
    assert_eq!(
        ContractError::MalformedPriorities { found: vec![] }.message(),
        "action priorities must be unique and start at 1; found []"
    );
}

#[test]
fn recommendation_evidence_defaults_to_nothing() {
    let evidence = RecommendationEvidence::default();
    assert!(evidence.observed_facts.is_empty());
    assert!(evidence.strategy_refs.is_empty());
    assert!(evidence.model_inferences.is_empty());
    assert!(evidence.user_provided.is_empty());
}
