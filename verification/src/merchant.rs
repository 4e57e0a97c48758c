//! The merchant registry: binding a merchant record 1:1 to an initialized
//! user, with or without crediting that user's referrer.

use vstd::prelude::*;

use crate::ErrorCode;
use crate::ProgramState;
use crate::auth::Role;
use crate::auth::authorize;
use crate::auth::role_identity;
use crate::user::User;
use crate::user::exp_credited;

verus! {

/// Capacity of a merchant's rating sequence.
pub const MAX_REVIEWS: usize = 255;

/// EXP credited to a user when it registers as a merchant.
pub const MERCHANT_REGISTRATION_EXP: u32 = 100;

/// EXP credited to the referrer when a user it referred registers as a
/// merchant.
pub const MERCHANT_REFERRAL_BONUS: u32 = 200;

/// The opaque profile reference a merchant record carries: a content
/// identifier for off-chain metadata, stored and propagated but never
/// interpreted here.
#[derive(Clone, Copy, Debug, PartialEq, Eq, Structural)]
pub struct CnftIdentifier {
    pub merkle_tree_address: u64,
    pub leaf_index: u32,
}

/// A merchant record, bound to exactly one user identity, carrying the
/// profile reference and the append-only, bounded rating sequence.
#[derive(Clone, Debug, PartialEq)]
pub struct Merchant {
    pub is_initialized: bool,
    pub nft_identifier: CnftIdentifier,
    pub user_pubkey: u64,
    pub ratings: Vec<u8>,
}

/// What merchant registration decides, checks in order: the owner itself
/// must sign, its user record must exist, and neither the user nor the
/// merchant record may already be registered — the 1:1 binding guard.
pub open spec fn init_merchant_decision(
    signer: u64,
    user_pubkey: u64,
    state: ProgramState,
    merchant_pre: Merchant,
    user_pre: User,
) -> Result<(), ErrorCode> {
    if signer != role_identity(Role::SelfOwner(user_pubkey), state) {
        Err(ErrorCode::Unauthorized)
    } else if !user_pre.is_initialized {
        Err(ErrorCode::UserDoesNotExist)
    } else if user_pre.is_merchant || merchant_pre.is_initialized {
        Err(ErrorCode::UserAlreadyExists)
    } else {
        Ok(())
    }
}

/// The record registration creates: initialized, bound to its owner, with
/// the given profile reference and no ratings yet.
pub open spec fn merchant_created(
    post: Merchant,
    user_pubkey: u64,
    nft_identifier: CnftIdentifier,
) -> bool {
    &&& post.is_initialized
    &&& post.nft_identifier == nft_identifier
    &&& post.user_pubkey == user_pubkey
    &&& post.ratings@ == Seq::<u8>::empty()
}

/// The owner's user record after registration: marked a merchant, credited
/// the registration EXP, everything else untouched.
pub open spec fn merchant_user_updated(pre: User, post: User) -> bool {
    &&& post.is_initialized == pre.is_initialized
    &&& post.is_merchant
    &&& post.exp_points == pre.exp_points + MERCHANT_REGISTRATION_EXP
    &&& post.usdc_account == pre.usdc_account
    &&& post.referrer == pre.referrer
}

/// The global state after a registration: the merchant counter one higher,
/// every configured identity and the fee rate untouched.
pub open spec fn counter_bumped(pre: ProgramState, post: ProgramState) -> bool {
    &&& post.merchant_counter == pre.merchant_counter + 1
    &&& post.usdc_mint == pre.usdc_mint
    &&& post.fee_bps == pre.fee_bps
    &&& post.dao_pubkey == pre.dao_pubkey
    &&& post.onboarding_service_wallet_pubkey == pre.onboarding_service_wallet_pubkey
    &&& post.merchant_id_service_wallet_pubkey == pre.merchant_id_service_wallet_pubkey
    &&& post.transaction_service_wallet_pubkey == pre.transaction_service_wallet_pubkey
    &&& post.review_service_wallet_pubkey == pre.review_service_wallet_pubkey
}

/// Registers `user_pubkey` as a merchant: binds a fresh merchant record,
/// bumps the global merchant counter, and credits the registration EXP —
/// atomically. A refused call leaves all three records untouched.
pub fn initialize_merchant(
    signer: u64,
    user_pubkey: u64,
    nft_identifier: CnftIdentifier,
    state: &mut ProgramState,
    merchant_account: &mut Merchant,
    user_account: &mut User,
) -> (r: Result<(), ErrorCode>)
    requires
        old(state).merchant_counter < u32::MAX,
        old(user_account).exp_points + MERCHANT_REGISTRATION_EXP <= u32::MAX,
    ensures
        r == init_merchant_decision(
            signer,
            user_pubkey,
            *old(state),
            *old(merchant_account),
            *old(user_account),
        ),
        r is Ok ==> merchant_created(*final(merchant_account), user_pubkey, nft_identifier),
        r is Ok ==> counter_bumped(*old(state), *final(state)),
        r is Ok ==> merchant_user_updated(*old(user_account), *final(user_account)),
        r is Err ==> *final(state) == *old(state),
        r is Err ==> *final(merchant_account) == *old(merchant_account),
        r is Err ==> *final(user_account) == *old(user_account),
{
    if let Err(e) = authorize(signer, Role::SelfOwner(user_pubkey), state) {
        return Err(e);
    }
    if !user_account.is_initialized {
        return Err(ErrorCode::UserDoesNotExist);
    }
    if user_account.is_merchant || merchant_account.is_initialized {
        return Err(ErrorCode::UserAlreadyExists);
    }
    merchant_account.is_initialized = true;
    merchant_account.nft_identifier = nft_identifier;
    merchant_account.user_pubkey = user_pubkey;
    merchant_account.ratings = Vec::new();
    state.merchant_counter = state.merchant_counter + 1;
    user_account.exp_points = user_account.exp_points + MERCHANT_REGISTRATION_EXP;
    user_account.is_merchant = true;
    Ok(())
}

/// What registration with a referrer decides: the checks of
/// [`init_merchant_decision`], then the user's referral edge — it must be
/// set, and it must name exactly the presented referrer.
pub open spec fn init_merchant_with_referrer_decision(
    signer: u64,
    user_pubkey: u64,
    referrer_pubkey: u64,
    state: ProgramState,
    merchant_pre: Merchant,
    user_pre: User,
) -> Result<(), ErrorCode> {
    if signer != role_identity(Role::SelfOwner(user_pubkey), state) {
        Err(ErrorCode::Unauthorized)
    } else if !user_pre.is_initialized {
        Err(ErrorCode::UserDoesNotExist)
    } else if user_pre.is_merchant || merchant_pre.is_initialized {
        Err(ErrorCode::UserAlreadyExists)
    } else if user_pre.referrer is None {
        Err(ErrorCode::ReferrerDoesNotExist)
    } else if user_pre.referrer != Some(referrer_pubkey) {
        Err(ErrorCode::InvalidReferrer)
    } else {
        Ok(())
    }
}

/// Registers `user_pubkey` as a merchant and credits the merchant referral
/// bonus to the referrer named by the user's own referral edge. All four
/// effects — profile bind, counter bump, owner EXP, referrer EXP — are one
/// atomic unit: a refused call leaves all four records untouched.
pub fn initialize_merchant_with_referrer(
    signer: u64,
    user_pubkey: u64,
    referrer_pubkey: u64,
    nft_identifier: CnftIdentifier,
    state: &mut ProgramState,
    merchant_account: &mut Merchant,
    user_account: &mut User,
    referrer_account: &mut User,
) -> (r: Result<(), ErrorCode>)
    requires
        old(state).merchant_counter < u32::MAX,
        old(user_account).exp_points + MERCHANT_REGISTRATION_EXP <= u32::MAX,
        old(referrer_account).exp_points + MERCHANT_REFERRAL_BONUS <= u32::MAX,
    ensures
        r == init_merchant_with_referrer_decision(
            signer,
            user_pubkey,
            referrer_pubkey,
            *old(state),
            *old(merchant_account),
            *old(user_account),
        ),
        r is Ok ==> merchant_created(*final(merchant_account), user_pubkey, nft_identifier),
        r is Ok ==> counter_bumped(*old(state), *final(state)),
        r is Ok ==> merchant_user_updated(*old(user_account), *final(user_account)),
        r is Ok ==> exp_credited(
            *old(referrer_account),
            *final(referrer_account),
            MERCHANT_REFERRAL_BONUS,
        ),
        r is Err ==> *final(state) == *old(state),
        r is Err ==> *final(merchant_account) == *old(merchant_account),
        r is Err ==> *final(user_account) == *old(user_account),
        r is Err ==> *final(referrer_account) == *old(referrer_account),
{
    if let Err(e) = authorize(signer, Role::SelfOwner(user_pubkey), state) {
        return Err(e);
    }
    if !user_account.is_initialized {
        return Err(ErrorCode::UserDoesNotExist);
    }
    if user_account.is_merchant || merchant_account.is_initialized {
        return Err(ErrorCode::UserAlreadyExists);
    }
    match user_account.referrer {
        None => {
            return Err(ErrorCode::ReferrerDoesNotExist);
        },
        Some(set_referrer) => {
            if set_referrer != referrer_pubkey {
                return Err(ErrorCode::InvalidReferrer);
            }
        },
    }
    merchant_account.is_initialized = true;
    merchant_account.nft_identifier = nft_identifier;
    merchant_account.user_pubkey = user_pubkey;
    merchant_account.ratings = Vec::new();
    state.merchant_counter = state.merchant_counter + 1;
    user_account.exp_points = user_account.exp_points + MERCHANT_REGISTRATION_EXP;
    user_account.is_merchant = true;
    referrer_account.exp_points = referrer_account.exp_points + MERCHANT_REFERRAL_BONUS;
    Ok(())
}

/// The 1:1 binding is guarded: a user already marked a merchant — in
/// particular one whose registration just succeeded — is refused a second
/// registration with `UserAlreadyExists`, by either registration operation.
pub proof fn lemma_merchant_registration_once(
    signer: u64,
    user_pubkey: u64,
    referrer_pubkey: u64,
    state: ProgramState,
    merchant_pre: Merchant,
    user_pre: User,
)
    requires
        user_pre.is_merchant,
        user_pre.is_initialized,
        signer == user_pubkey,
    ensures
        init_merchant_decision(signer, user_pubkey, state, merchant_pre, user_pre)
            == Err::<(), ErrorCode>(ErrorCode::UserAlreadyExists),
        init_merchant_with_referrer_decision(
            signer,
            user_pubkey,
            referrer_pubkey,
            state,
            merchant_pre,
            user_pre,
        ) == Err::<(), ErrorCode>(ErrorCode::UserAlreadyExists),
{
}

} // verus!
