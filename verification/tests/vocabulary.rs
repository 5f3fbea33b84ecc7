use augur::advice::{InvalidationReason, ValidationOutcome};
use augur::capture::{CaptureError, CapturedFrame, GameWindow};
use augur::evidence::Privacy;
use augur::ids::{GameId, MatchId, ObservationId, SessionId};
use augur::match_state::{MatchIdentity, MatchStateError};
use augur::strategy::{
    DocumentStatus, RetrievalCaps, RetrievalError, StrategyDocument, StrategyDocumentId,
};
use augur::voice::VoiceState;

#[test]
fn strategy_document_ids_wrap_their_text() {
    let id = StrategyDocumentId::new("battlegrounds/economy");
    assert_eq!(id.as_str(), "battlegrounds/economy");
    assert_eq!(id.to_string(), "battlegrounds/economy");
    assert_eq!(id.clone(), StrategyDocumentId::new("battlegrounds/economy"));
    assert_ne!(id, StrategyDocumentId::new("battlegrounds/other"));
    let document = StrategyDocument {
        id,
        game_id: GameId::new("g"),
        season: "s".to_string(),
        status: DocumentStatus::Stable,
        body: String::new(),
    };
    assert_eq!(document.clone(), document);
    let caps = RetrievalCaps { max_documents: 4, max_tokens: 2_000 };
    assert_eq!(caps, RetrievalCaps { max_documents: 4, max_tokens: 2_000 });
}

#[test]
fn error_messages_name_what_failed() {
    assert_eq!(
        RetrievalError::NoActivePack(GameId::new("g")).message(),
        "no active strategy pack for game g"
    );
    assert_eq!(
        RetrievalError::IndexUnavailable("disk".to_string()).message(),
        "strategy index unavailable: disk"
    );
    assert_eq!(
        CaptureError::PermissionDenied.message(),
        "screen capture permission has not been granted"
    );
    assert_eq!(
        CaptureError::WindowGone("42".to_string()).message(),
        "window 42 is no longer available"
    );
    assert_eq!(CaptureError::Backend("x".to_string()).message(), "capture failed: x");
    assert_eq!(
        MatchStateError::NoActiveMatch(SessionId::new("s-1")).message(),
        "no active match for session s-1"
    );
    assert_eq!(
        MatchStateError::Store("locked".to_string()).message(),
        "match state store failed: locked"
    );
}

#[test]
fn plain_records_compare_by_content() {
    let window = GameWindow {
        id: "w".to_string(),
        title: "t".to_string(),
        process_name: "p".to_string(),
    };
    assert_eq!(window.clone(), window);
    let frame = CapturedFrame {
        window_id: "w".to_string(),
        frame_hash: "h".to_string(),
        path: std::path::PathBuf::from("/tmp/frame.png"),
        privacy: Privacy::LocalFrameTransient,
    };
    assert_eq!(frame.clone(), frame);
    let identity = MatchIdentity {
        game_id: GameId::new("g"),
        session_id: SessionId::new("s"),
        match_id: MatchId::new("m"),
    };
    assert_eq!(identity.clone(), identity);
    let reason = InvalidationReason::StateChanged {
        superseded_by: ObservationId::new("obs-2"),
        changes: vec!["gold".to_string()],
    };
    assert_eq!(reason.clone(), reason);
    assert_ne!(reason, InvalidationReason::Expired);
    assert_ne!(ValidationOutcome::Accepted, ValidationOutcome::Rejected { reasons: vec![] });
    assert_ne!(VoiceState::Idle, VoiceState::Muted);
}
