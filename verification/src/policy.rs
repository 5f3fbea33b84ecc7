//! Game-policy gating.
//!
//! Every game carries a recorded policy-review outcome. A game whose review is
//! still `Pending`, or which came back `NoGo`, cannot be offered to a player,
//! and that is enforced here rather than left to whoever wires up the registry.
//! The standing product rules, no gameplay automation, no game-memory reading,
//! no anti-cheat circumvention, apply regardless of any review outcome; a
//! favourable review does not unlock them.

use vstd::prelude::*;

use crate::game_api::SupportStatus;
use crate::ids::GameId;

verus! {

/// Recorded outcome of a game's policy review.
#[derive(Debug, Clone, Copy, PartialEq, Eq, Structural)]
pub enum PolicyReviewStatus {
    /// Not yet reviewed. Blocks release.
    Pending,
    /// Reviewed, no restrictions found.
    Go,
    /// Reviewed, permitted subject to recorded conditions.
    Conditional,
    /// Reviewed, must not ship.
    NoGo,
}

/// Why a game may not be offered.
#[derive(Debug, Clone, PartialEq, Eq)]
pub enum PolicyRefusal {
    /// The policy review has not been performed.
    ReviewPending(GameId),
    /// The review concluded the game must not ship.
    ReviewNoGo(GameId),
    /// The game is held back pending review.
    SupportStatusBlocked(GameId),
}

/// The decision on offering `game`: the support-status gate first, then the
/// review gate. Only `Go` and `Conditional` reviews pass.
pub open spec fn offer_verdict(
    game: GameId,
    support: SupportStatus,
    review: PolicyReviewStatus,
) -> Result<(), PolicyRefusal> {
    if support == SupportStatus::DisabledPolicyReview {
        Err(PolicyRefusal::SupportStatusBlocked(game))
    } else {
        match review {
            PolicyReviewStatus::Pending => Err(PolicyRefusal::ReviewPending(game)),
            PolicyReviewStatus::NoGo => Err(PolicyRefusal::ReviewNoGo(game)),
            PolicyReviewStatus::Go | PolicyReviewStatus::Conditional => Ok(()),
        }
    }
}

/// The support-status gate is checked before the review: a game whose
/// support status is held back for policy review is refused for that reason
/// whatever its review says, and only a shippable game is refused for its
/// review (`Pending` or `NoGo`), each refusal naming the game.
pub proof fn lemma_support_gate_comes_first(
    game: GameId,
    support: SupportStatus,
    review: PolicyReviewStatus,
)
    ensures
        support == SupportStatus::DisabledPolicyReview ==> offer_verdict(game, support, review)
            == Err::<(), PolicyRefusal>(PolicyRefusal::SupportStatusBlocked(game)),
        support != SupportStatus::DisabledPolicyReview && review == PolicyReviewStatus::Pending
            ==> offer_verdict(game, support, review) == Err::<(), PolicyRefusal>(
            PolicyRefusal::ReviewPending(game),
        ),
        support != SupportStatus::DisabledPolicyReview && review == PolicyReviewStatus::NoGo
            ==> offer_verdict(game, support, review) == Err::<(), PolicyRefusal>(
            PolicyRefusal::ReviewNoGo(game),
        ),
        offer_verdict(game, support, review) is Ok <==> (support
            != SupportStatus::DisabledPolicyReview && (review == PolicyReviewStatus::Go || review
            == PolicyReviewStatus::Conditional)),
{
}

/// Decide whether a game may be offered to a player.
///
/// Both gates are checked, and both fail closed: the game is offered exactly
/// when its support status is shippable and its review came back `Go` or
/// `Conditional`. A `Conditional` outcome passes here because the conditions
/// are recorded in the game's manifest and enforced where they apply; this
/// function answers only "may it ship at all".
pub fn may_offer(game: &GameId, support: SupportStatus, review: PolicyReviewStatus) -> (r: Result<
    (),
    PolicyRefusal,
>)
    ensures
        r == offer_verdict(*game, support, review),
        r is Ok <==> (support != SupportStatus::DisabledPolicyReview && (review
            == PolicyReviewStatus::Go || review == PolicyReviewStatus::Conditional)),
        support == SupportStatus::DisabledPolicyReview ==> r == Err::<(), PolicyRefusal>(
            PolicyRefusal::SupportStatusBlocked(*game),
        ),
        support != SupportStatus::DisabledPolicyReview && review == PolicyReviewStatus::Pending
            ==> r == Err::<(), PolicyRefusal>(PolicyRefusal::ReviewPending(*game)),
        support != SupportStatus::DisabledPolicyReview && review == PolicyReviewStatus::NoGo
            ==> r == Err::<(), PolicyRefusal>(PolicyRefusal::ReviewNoGo(*game)),
{
    proof {
        lemma_support_gate_comes_first(*game, support, review);
    }
    if !support.is_shippable() {
        return Err(PolicyRefusal::SupportStatusBlocked(game.clone()));
    }
    match review {
        PolicyReviewStatus::Pending => Err(PolicyRefusal::ReviewPending(game.clone())),
        PolicyReviewStatus::NoGo => Err(PolicyRefusal::ReviewNoGo(game.clone())),
        PolicyReviewStatus::Go | PolicyReviewStatus::Conditional => Ok(()),
    }
}

} // verus!
