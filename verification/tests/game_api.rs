use augur::evidence::Confidence;
use augur::game_api::{
    CaptureProfile, CoachingContext, DetectionContext, DetectionResult, ObservationError,
    StrategyScope, SupportStatus, ValidationReport,
};

#[test]
fn policy_review_blocks_shipping() {
    assert!(!SupportStatus::DisabledPolicyReview.is_shippable());
    assert!(SupportStatus::Experimental.is_shippable());
    assert!(SupportStatus::Deprecated.is_shippable());
}

#[test]
fn every_other_support_status_ships() {
    assert!(SupportStatus::Community.is_shippable());
    assert!(SupportStatus::Maintained.is_shippable());
}

#[test]
fn a_report_with_rejections_is_not_acceptable() {
    let mut report = ValidationReport::default();
    assert!(report.is_acceptable());
    report.warnings.push("low confidence on tier".into());
    assert!(
        report.is_acceptable(),
        "warnings must not block publication"
    );
    report.rejections.push("cannot afford".into());
    assert!(!report.is_acceptable());
}

#[test]
fn defaults_are_empty() {
    let ctx = DetectionContext::default();
    assert!(ctx.process_names.is_empty() && ctx.window_titles.is_empty());
    assert_eq!(StrategyScope::default(), StrategyScope { season: None, phase: None, entities: vec![] });
    assert_eq!(CoachingContext::default(), CoachingContext { prompt: String::new(), strategy_refs: vec![] });
}

#[test]
fn detection_results_compare_by_content() {
    let found = DetectionResult::Found {
        window_title: "Hearthstone".to_string(),
        confidence: Confidence::certain(),
    };
    assert_eq!(found.clone(), found);
    assert_ne!(found, DetectionResult::NotFound);
    assert_eq!(
        CaptureProfile { min_interval_ms: 1, max_interval_ms: 2 },
        CaptureProfile { min_interval_ms: 1, max_interval_ms: 2 }
    );
}

#[test]
fn observation_error_messages() {
    assert_eq!(
        ObservationError::Unrecognized("menu".to_string()).message(),
        "frame did not match a known game state: menu"
    );
    assert_eq!(
        ObservationError::ConfidenceTooLow.message(),
        "extraction confidence too low to publish"
    );
}
