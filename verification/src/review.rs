//! The rating gate: authorization-checked ingestion of a bounded rating
//! into a merchant record, with an EXP reward for the submitting user.

use vstd::prelude::*;

use crate::ErrorCode;
use crate::ProgramState;
use crate::auth::Role;
use crate::auth::authorize;
use crate::auth::role_identity;
use crate::merchant::MAX_REVIEWS;
use crate::merchant::Merchant;
use crate::user::User;
use crate::user::exp_credited;

verus! {

/// Smallest admissible rating.
pub const MIN_RATING: u8 = 1;

/// Largest admissible rating.
pub const MAX_RATING: u8 = 5;

/// EXP credited to the submitting user for an accepted rating.
pub const REVIEWER_EXP_REWARD: u32 = 20;

/// What rating ingestion decides, checks in order: the rating must lie in
/// the admissible range, the signer must be the review service, and the
/// merchant's rating sequence must not be full — a full sequence refuses
/// further ratings rather than dropping or wrapping them.
pub open spec fn add_rating_decision(
    signer: u64,
    rating: u8,
    state: ProgramState,
    merchant_pre: Merchant,
) -> Result<(), ErrorCode> {
    if rating < MIN_RATING || rating > MAX_RATING {
        Err(ErrorCode::InvalidRating)
    } else if signer != role_identity(Role::ReviewService, state) {
        Err(ErrorCode::Unauthorized)
    } else if merchant_pre.ratings@.len() >= MAX_REVIEWS as int {
        Err(ErrorCode::CapacityExceeded)
    } else {
        Ok(())
    }
}

/// Appends a rating to the merchant's sequence — preserving submission
/// order — and credits the submitting user's EXP reward, atomically. A refused
/// call leaves both records untouched.
pub fn add_rating(
    signer: u64,
    rating: u8,
    state: &ProgramState,
    merchant: &mut Merchant,
    reviewer: &mut User,
) -> (r: Result<(), ErrorCode>)
    requires
        old(reviewer).exp_points + REVIEWER_EXP_REWARD <= u32::MAX,
    ensures
        r == add_rating_decision(signer, rating, *state, *old(merchant)),
        r is Ok ==> final(merchant).ratings@ == old(merchant).ratings@.push(rating),
        r is Ok ==> final(merchant).is_initialized == old(merchant).is_initialized,
        r is Ok ==> final(merchant).nft_identifier == old(merchant).nft_identifier,
        r is Ok ==> final(merchant).user_pubkey == old(merchant).user_pubkey,
        r is Ok ==> exp_credited(*old(reviewer), *final(reviewer), REVIEWER_EXP_REWARD),
        r is Err ==> *final(merchant) == *old(merchant),
        r is Err ==> *final(reviewer) == *old(reviewer),
{
    if rating < MIN_RATING || rating > MAX_RATING {
        return Err(ErrorCode::InvalidRating);
    }
    if let Err(e) = authorize(signer, Role::ReviewService, state) {
        return Err(e);
    }
    if merchant.ratings.len() >= MAX_REVIEWS {
        return Err(ErrorCode::CapacityExceeded);
    }
    merchant.ratings.push(rating);
    reviewer.exp_points = reviewer.exp_points + REVIEWER_EXP_REWARD;
    Ok(())
}

/// The review gate admits nothing it should not: a rating outside the
/// admissible range is always refused as `InvalidRating`, and a signer
/// other than the review service never gets a rating through — and by the
/// gate's contract a refused call leaves the ratings sequence untouched.
pub proof fn lemma_review_gate_closed(
    signer: u64,
    rating: u8,
    state: ProgramState,
    merchant_pre: Merchant,
)
    ensures
        rating < MIN_RATING || rating > MAX_RATING ==> add_rating_decision(
            signer,
            rating,
            state,
            merchant_pre,
        ) == Err::<(), ErrorCode>(ErrorCode::InvalidRating),
        signer != role_identity(Role::ReviewService, state) ==> add_rating_decision(
            signer,
            rating,
            state,
            merchant_pre,
        ) is Err,
{
}

} // verus!
