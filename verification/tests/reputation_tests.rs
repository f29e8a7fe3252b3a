//! Reputation scoring: weighted averages, percentages, tier thresholds and
//! the review gate.

use marketx::reputation::{validate_review, Error, ReputationTier, UserReputation};

#[test]
fn new_reputation_is_empty() {
    let rep = UserReputation::new(5, 1000);
    assert_eq!(rep.user, 5);
    assert_eq!(rep.calculate_score(), 0);
    assert_eq!(rep.calculate_percentage(), 0);
    assert_eq!(rep.tier, ReputationTier::New);
}

#[test]
fn weighted_score_calculation() {
    // one 5-star review of weight 100: 5.00 stars
    let mut rep = UserReputation::new(5, 1000);
    rep.apply_review(5, 100, 1001);
    assert_eq!(rep.calculate_score(), 500);

    // a 1-star review of the same weight drags it to the middle:
    // (5*100 + 1*100) / 200 * 100 = 300, i.e. 3.00 stars
    rep.apply_review(1, 100, 1002);
    assert_eq!(rep.calculate_score(), 300);

    // a 5-star review of weight 10 and a 3-star review of weight 30:
    // (5*100*10 + 3*100*30) / 40 = 14000 / 40 = 350, i.e. 3.50 stars
    let mut rep = UserReputation::new(6, 1000);
    rep.apply_review(5, 10, 1001);
    rep.apply_review(3, 30, 1002);
    assert_eq!(rep.calculate_score(), 350);
    assert_eq!(rep.calculate_percentage(), 70);
    assert_eq!(rep.review_count, 2);
    assert_eq!(rep.positive_count, 1);
    assert_eq!(rep.negative_count, 0);
}

#[test]
fn positive_and_negative_counts() {
    let mut rep = UserReputation::new(5, 1000);
    rep.apply_review(5, 1, 1001);
    rep.apply_review(4, 1, 1002);
    rep.apply_review(3, 1, 1003);
    rep.apply_review(2, 1, 1004);
    rep.apply_review(1, 1, 1005);
    assert_eq!(rep.review_count, 5);
    assert_eq!(rep.positive_count, 2);
    assert_eq!(rep.negative_count, 2);
}

#[test]
fn tier_progression() {
    let mut rep = UserReputation::new(5, 1000);
    // four 5-star reviews: still New for want of count
    for i in 0..4 {
        rep.apply_review(5, 10, 1000 + i);
    }
    assert_eq!(rep.tier, ReputationTier::New);

    // the fifth pushes the count to Bronze territory at 100%
    rep.apply_review(5, 10, 2000);
    assert_eq!(rep.tier, ReputationTier::Bronze);

    for i in 0..15 {
        rep.apply_review(5, 10, 3000 + i);
    }
    assert_eq!(rep.review_count, 20);
    assert_eq!(rep.tier, ReputationTier::Silver);

    for i in 0..30 {
        rep.apply_review(5, 10, 4000 + i);
    }
    assert_eq!(rep.review_count, 50);
    assert_eq!(rep.tier, ReputationTier::Gold);

    for i in 0..50 {
        rep.apply_review(5, 10, 5000 + i);
    }
    assert_eq!(rep.review_count, 100);
    assert_eq!(rep.tier, ReputationTier::Platinum);
}

#[test]
fn low_scores_stay_in_low_tiers() {
    let mut rep = UserReputation::new(5, 1000);
    // a hundred 2-star reviews: 40% score earns no tier at all
    for i in 0..100 {
        rep.apply_review(2, 10, 1000 + i);
    }
    assert_eq!(rep.calculate_score(), 200);
    assert_eq!(rep.calculate_percentage(), 40);
    assert_eq!(rep.tier, ReputationTier::New);
}

#[test]
fn review_gate() {
    assert_eq!(validate_review(5, 5, 3, 10), Err(Error::SelfReview));
    assert_eq!(validate_review(5, 6, 0, 10), Err(Error::InvalidRating));
    assert_eq!(validate_review(5, 6, 6, 10), Err(Error::InvalidRating));
    assert_eq!(validate_review(5, 6, 3, 0), Err(Error::InvalidWeight));
    assert_eq!(validate_review(5, 6, 3, 101), Err(Error::InvalidWeight));
    assert_eq!(validate_review(5, 6, 3, 10), Ok(()));
}
