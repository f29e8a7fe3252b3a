//! Reputation scoring: weighted ratings, percentage scores and tiers.
//! Review records and their disputes are keyed storage owned by the host;
//! the arithmetic that turns reviews into a reputation lives here.

use vstd::prelude::*;

verus! {

/// Why a reputation operation was rejected.
#[derive(Clone, Copy, Debug, PartialEq, Eq, Structural)]
pub enum Error {
    /// The contract already has an admin.
    AlreadyInitialized,
    /// The contract has no admin yet.
    NotInitialized,
    /// The caller is not the admin.
    NotAdmin,
    /// A rating outside 1 to 5.
    InvalidRating,
    /// A weight outside 1 to 100.
    InvalidWeight,
    /// A second rating of one transaction by the same party.
    AlreadyReviewed,
    /// A party rating themselves.
    SelfReview,
    /// No review under the given identifier.
    ReviewNotFound,
    /// No reputation recorded for the user.
    UserNotFound,
    /// The review is already under dispute.
    AlreadyDisputed,
    /// No dispute under the given review.
    DisputeNotFound,
    /// Only the reviewee may dispute a review.
    NotReviewee,
}

/// Who reviewed whom, by their role in the transaction.
#[derive(Clone, Copy, Debug, PartialEq, Eq, Structural)]
pub enum ReviewType {
    BuyerToSeller,
    SellerToBuyer,
}

/// Reputation tiers, from newest to best-established.
#[derive(Clone, Copy, Debug, PartialEq, Eq, Structural)]
pub enum ReputationTier {
    New,
    Bronze,
    Silver,
    Gold,
    Platinum,
}

/// Largest total weight the scoring accepts: `floor(i64::MAX / 500)`, so
/// the weighted score sum stays inside the `i64` range.
pub const MAX_TOTAL_WEIGHT: u64 = 18_446_744_073_709_551;

/// The weighted average score of a reputation, on the 0 to 500 scale
/// (0.00 to 5.00 stars), zero while no weight is recorded.
pub open spec fn spec_score(total_weighted_score: i64, total_weight: u64) -> int {
    if total_weight == 0 {
        0
    } else {
        total_weighted_score as int / total_weight as int
    }
}

/// The percentage score, 0 to 100: the star scale divided by five.
pub open spec fn spec_percentage(total_weighted_score: i64, total_weight: u64) -> int {
    spec_score(total_weighted_score, total_weight) / 5
}

/// The tier a review count and percentage score earn.
pub open spec fn tier_of(review_count: u32, percentage: int) -> ReputationTier {
    if review_count >= 100 && percentage >= 90 {
        ReputationTier::Platinum
    } else if review_count >= 50 && percentage >= 85 {
        ReputationTier::Gold
    } else if review_count >= 20 && percentage >= 75 {
        ReputationTier::Silver
    } else if review_count >= 5 && percentage >= 60 {
        ReputationTier::Bronze
    } else {
        ReputationTier::New
    }
}

/// A user's aggregated reputation: the weighted score sum (ratings scaled
/// by 100), the weight sum, the review counts and the earned tier.
#[derive(Clone, Copy, Debug, PartialEq, Eq, Structural)]
pub struct UserReputation {
    pub user: u64,
    pub total_weighted_score: i64,
    pub total_weight: u64,
    pub review_count: u32,
    pub positive_count: u32,
    pub negative_count: u32,
    pub tier: ReputationTier,
    pub last_updated: u64,
}

impl UserReputation {
    /// Every rating is 1 to 5 stars scaled by 100 and weighted, so the
    /// score sum always lies between 100 and 500 times the weight sum, and
    /// the review counters cover the positive and negative tallies.
    pub open spec fn wf(self) -> bool {
        &&& self.total_weight <= MAX_TOTAL_WEIGHT
        &&& 100 * self.total_weight as int <= self.total_weighted_score as int
        &&& self.total_weighted_score as int <= 500 * self.total_weight as int
        &&& self.positive_count <= self.review_count
        &&& self.negative_count <= self.review_count
    }

    /// A fresh, empty reputation for `user`.
    pub fn new(user: u64, timestamp: u64) -> (r: UserReputation)
        ensures
            r.wf(),
            r == (UserReputation {
                user,
                total_weighted_score: 0i64,
                total_weight: 0u64,
                review_count: 0u32,
                positive_count: 0u32,
                negative_count: 0u32,
                tier: ReputationTier::New,
                last_updated: timestamp,
            }),
    {
        UserReputation {
            user,
            total_weighted_score: 0,
            total_weight: 0,
            review_count: 0,
            positive_count: 0,
            negative_count: 0,
            tier: ReputationTier::New,
            last_updated: timestamp,
        }
    }

    /// The weighted average score, 0 to 500 (0.00 to 5.00 stars).
    pub fn calculate_score(&self) -> (r: u32)
        requires
            self.wf(),
        ensures
            r as int == spec_score(self.total_weighted_score, self.total_weight),
            r <= 500,
    {
        if self.total_weight == 0 {
            return 0;
        }
        proof {
            vstd::arithmetic::div_mod::lemma_div_pos_is_pos(
                self.total_weighted_score as int,
                self.total_weight as int,
            );
            vstd::arithmetic::div_mod::lemma_div_is_ordered(
                self.total_weighted_score as int,
                500 * self.total_weight as int,
                self.total_weight as int,
            );
            vstd::arithmetic::div_mod::lemma_div_by_multiple(500, self.total_weight as int);
            vstd::arithmetic::mul::lemma_mul_is_commutative(500, self.total_weight as int);
        }
        (self.total_weighted_score / (self.total_weight as i64)) as u32
    }

    /// The percentage score, 0 to 100.
    pub fn calculate_percentage(&self) -> (r: u32)
        requires
            self.wf(),
        ensures
            r as int == spec_percentage(self.total_weighted_score, self.total_weight),
            r <= 100,
    {
        let score = self.calculate_score();
        score / 5
    }

    /// The tier this reputation earns from its review count and
    /// percentage score.
    pub fn calculate_tier(&self) -> (r: ReputationTier)
        requires
            self.wf(),
        ensures
            r == tier_of(
                self.review_count,
                spec_percentage(self.total_weighted_score, self.total_weight),
            ),
    {
        let percentage = self.calculate_percentage();
        if self.review_count >= 100 && percentage >= 90 {
            ReputationTier::Platinum
        } else if self.review_count >= 50 && percentage >= 85 {
            ReputationTier::Gold
        } else if self.review_count >= 20 && percentage >= 75 {
            ReputationTier::Silver
        } else if self.review_count >= 5 && percentage >= 60 {
            ReputationTier::Bronze
        } else {
            ReputationTier::New
        }
    }

    /// Applies one accepted review: the weighted score and weight grow,
    /// the counters track the rating's sign (4 stars and above count
    /// positive, 2 and below negative), and the tier is recomputed.
    pub fn apply_review(&mut self, rating: u32, weight: u32, timestamp: u64) -> (r: ())
        requires
            old(self).wf(),
            1 <= rating <= 5,
            1 <= weight <= 100,
            old(self).total_weight + weight <= MAX_TOTAL_WEIGHT,
            old(self).review_count < u32::MAX,
        ensures
            final(self).wf(),
            final(self).user == old(self).user,
            final(self).total_weighted_score as int
                == old(self).total_weighted_score as int + rating as int * 100 * weight as int,
            final(self).total_weight == old(self).total_weight + weight,
            final(self).review_count == old(self).review_count + 1,
            final(self).positive_count == if rating >= 4 {
                (old(self).positive_count + 1) as u32
            } else {
                old(self).positive_count
            },
            final(self).negative_count == if rating <= 2 {
                (old(self).negative_count + 1) as u32
            } else {
                old(self).negative_count
            },
            final(self).tier == tier_of(
                final(self).review_count,
                spec_percentage(final(self).total_weighted_score, final(self).total_weight),
            ),
            final(self).last_updated == timestamp,
    {
        proof {
            vstd::arithmetic::mul::lemma_mul_is_distributive_add(
                100,
                old(self).total_weight as int,
                weight as int,
            );
            vstd::arithmetic::mul::lemma_mul_is_distributive_add(
                500,
                old(self).total_weight as int,
                weight as int,
            );
            assert(100 * weight as int <= rating as int * 100 * weight as int
                && rating as int * 100 * weight as int <= 500 * weight as int) by (nonlinear_arith)
                requires 1 <= rating as int <= 5 && 1 <= weight as int;
            assert(500 * MAX_TOTAL_WEIGHT as int <= i64::MAX as int);
        }
        self.total_weighted_score =
            self.total_weighted_score + (rating as i64) * 100 * (weight as i64);
        self.total_weight = self.total_weight + weight as u64;
        self.review_count = self.review_count + 1;
        if rating >= 4 {
            self.positive_count = self.positive_count + 1;
        } else if rating <= 2 {
            self.negative_count = self.negative_count + 1;
        }
        self.tier = self.calculate_tier();
        self.last_updated = timestamp;
    }
}

/// The review gate every submission passes first: no self-review, a
/// rating of 1 to 5 stars, a weight of 1 to 100.
pub fn validate_review(reviewer: u64, reviewee: u64, rating: u32, weight: u32) -> (r: Result<(), Error>)
    ensures
        reviewer == reviewee ==> r === Err(Error::SelfReview),
        reviewer != reviewee && !(1 <= rating <= 5) ==> r === Err(Error::InvalidRating),
        reviewer != reviewee && 1 <= rating <= 5 && !(1 <= weight <= 100)
            ==> r === Err(Error::InvalidWeight),
        reviewer != reviewee && 1 <= rating <= 5 && 1 <= weight <= 100 ==> r is Ok,
{
    if reviewer == reviewee {
        return Err(Error::SelfReview);
    }
    if rating < 1 || rating > 5 {
        return Err(Error::InvalidRating);
    }
    if weight < 1 || weight > 100 {
        return Err(Error::InvalidWeight);
    }
    Ok(())
}

} // verus!
