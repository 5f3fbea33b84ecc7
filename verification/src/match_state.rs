//! Match session state and the observation lifecycle.
//!
//! Explicit match state is the source of truth for what has happened in a
//! match, not open-ended agent memory: a coach that "remembers" a match through
//! a summarization pipeline will eventually contradict the board in front of
//! the player, and there is no way to test that it has not.

use vstd::prelude::*;

use crate::ids::{GameId, MatchId, SessionId};
use crate::observation::GameStateEnvelope;

verus! {

/// What makes a match distinct from the one before it.
#[derive(Debug, Clone, PartialEq, Eq)]
pub struct MatchIdentity {
    /// Which game.
    pub game_id: GameId,
    /// The coaching session this match belongs to.
    pub session_id: SessionId,
    /// This match's identity.
    pub match_id: MatchId,
}

/// Why a match-state operation failed.
#[derive(Debug)]
pub enum MatchStateError {
    /// No match has been started for this session.
    NoActiveMatch(SessionId),
    /// The backing store failed.
    Store(String),
}

impl MatchStateError {
    /// The human-readable description of this error.
    pub fn message(&self) -> (r: String)
        ensures
            r@ == match self {
                MatchStateError::NoActiveMatch(session) => "no active match for session "@
                    + session@,
                MatchStateError::Store(why) => "match state store failed: "@ + why@,
            },
    {
        let mut out = String::new();
        match self {
            MatchStateError::NoActiveMatch(session) => {
                out.append("no active match for session ");
                out.append(session.as_str());
            },
            MatchStateError::Store(why) => {
                out.append("match state store failed: ");
                out.append(why.as_str());
            },
        }
        out
    }
}

/// Durable per-match observation history.
///
/// Survives daemon restarts so that "what happened earlier this match" is
/// answerable after a crash, which is when a player is least willing to lose
/// context.
pub trait MatchSessionStore: Send + Sync {
    /// Begin a new match, ending any active one for the same session.
    fn begin_match(&self, identity: &MatchIdentity) -> Result<(), MatchStateError>;

    /// Append an observation to the active match.
    fn append(&self, envelope: &GameStateEnvelope) -> Result<(), MatchStateError>;

    /// The most recent observation for a session, if any.
    fn latest(&self, session: &SessionId) -> Result<Option<GameStateEnvelope>, MatchStateError>;

    /// End the active match for a session.
    fn end_match(&self, session: &SessionId) -> Result<(), MatchStateError>;
}

} // verus!
