use augur::game_api::SupportStatus;
use augur::ids::GameId;
use augur::policy::{may_offer, PolicyRefusal, PolicyReviewStatus};

fn game() -> GameId {
    GameId::new("test-game")
}

#[test]
fn pending_review_blocks_even_a_maintained_game() {
    // The failure mode this guards against: a game gets polished to
    // `Maintained` and ships while its review was never done.
    let result = may_offer(
        &game(),
        SupportStatus::Maintained,
        PolicyReviewStatus::Pending,
    );
    assert_eq!(result, Err(PolicyRefusal::ReviewPending(game())));
}

#[test]
fn no_go_blocks() {
    let result = may_offer(&game(), SupportStatus::Maintained, PolicyReviewStatus::NoGo);
    assert_eq!(result, Err(PolicyRefusal::ReviewNoGo(game())));
}

#[test]
fn disabled_support_status_blocks_even_with_a_go_review() {
    let result = may_offer(
        &game(),
        SupportStatus::DisabledPolicyReview,
        PolicyReviewStatus::Go,
    );
    assert_eq!(result, Err(PolicyRefusal::SupportStatusBlocked(game())));
}

#[test]
fn conditional_review_may_ship() {
    assert!(
        may_offer(
            &game(),
            SupportStatus::Community,
            PolicyReviewStatus::Conditional
        )
        .is_ok()
    );
}

#[test]
fn both_gates_fail_closed_over_every_combination() {
    let statuses = [
        SupportStatus::Experimental,
        SupportStatus::Community,
        SupportStatus::Maintained,
        SupportStatus::Deprecated,
        SupportStatus::DisabledPolicyReview,
    ];
    let reviews = [
        PolicyReviewStatus::Pending,
        PolicyReviewStatus::Go,
        PolicyReviewStatus::Conditional,
        PolicyReviewStatus::NoGo,
    ];
    for support in statuses {
        for review in reviews {
            let offered = may_offer(&game(), support, review).is_ok();
            let expected = support != SupportStatus::DisabledPolicyReview
                && matches!(review, PolicyReviewStatus::Go | PolicyReviewStatus::Conditional);
            assert_eq!(offered, expected);
        }
    }
    // The support-status gate is reported before the review gate.
    assert_eq!(
        may_offer(&game(), SupportStatus::DisabledPolicyReview, PolicyReviewStatus::Pending),
        Err(PolicyRefusal::SupportStatusBlocked(game()))
    );
}
