//! Spoken coaching.
//!
//! Push-to-talk is the default and wake-word listening is deliberately not
//! built: a coach that listens continuously is a different product with a
//! different privacy story. Audio is never retained; transcripts are retained
//! only on explicit opt-in.

use vstd::prelude::*;

verus! {

/// What the voice subsystem is doing right now.
///
/// Interruption is a state transition rather than a special case: a player who
/// starts talking over the coach expects it to stop immediately.
#[derive(Debug, Clone, Copy, PartialEq, Eq, Structural)]
pub enum VoiceState {
    /// Nothing is being captured or spoken.
    Idle,
    /// Speaking a recommendation.
    Speaking,
    /// Capturing push-to-talk input.
    Listening,
    /// Output is muted by the player; recommendations still arrive silently.
    Muted,
}

} // verus!
