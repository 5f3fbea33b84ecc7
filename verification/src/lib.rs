//! Augur: real-time game coaching. A coach, never a bot.
//!
//! The library holds the platform's contracts and rules: identifiers, the
//! observation envelope and the recommendation contract with their validation
//! rules, the game-adapter seam and the registry of compiled-in adapters, the
//! game-policy gate, and the vocabulary of capture, match state, strategy
//! retrieval, advice staleness and voice.
//!
//! Game-specific code lives only in [`battlegrounds`] and is reached through
//! [`game_api::GameAdapter`] and the [`registry`].

pub mod advice;
pub mod battlegrounds;
pub mod capture;
pub mod evidence;
pub mod game_api;
pub mod ids;
pub mod match_state;
pub mod observation;
pub mod policy;
pub mod recommendation;
pub mod registry;
pub mod strategy;
pub mod text;
pub mod validate;
pub mod voice;
