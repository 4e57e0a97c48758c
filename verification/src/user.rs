//! The user ledger: onboarding (with or without a referrer) and the
//! existence check.

use vstd::prelude::*;

use spl_associated_token_account::get_associated_token_address;

use crate::ErrorCode;
use crate::ProgramState;
use crate::auth::Role;
use crate::auth::authorize;
use crate::auth::role_identity;

verus! {

/// EXP granted to a user onboarded without a referrer.
pub const NEW_USER_EXP: u32 = 100;

/// EXP granted to a user onboarded with a referrer.
pub const REFERRED_USER_EXP: u32 = 150;

/// EXP credited to the referrer when a user it referred is onboarded.
pub const REFERRAL_BONUS_EXP: u32 = 50;

/// A per-identity ledger record. The identity itself is the key under which
/// the account store files the record, so it does not recur here. EXP only
/// ever grows, and the referrer edge is written once, at creation.
#[derive(Clone, Debug, PartialEq)]
pub struct User {
    pub is_initialized: bool,
    pub is_merchant: bool,
    pub exp_points: u32,
    pub usdc_account: Vec<u8>,
    pub referrer: Option<u64>,
}

/// The associated token address that the token program derives for a wallet
/// and a mint. The derivation (a program-derived-address search over
/// SHA-256) is left to the outside crate; only its determinism is relied on.
pub uninterp spec fn ata_of(owner: u64, mint: u64) -> Seq<u8>;

/// Relies on `spl_associated_token_account::get_associated_token_address`:
/// the derived associated token address is 32 bytes and depends on the
/// wallet and mint keys alone. The 64-bit identities are embedded
/// little-endian into the 32-byte key space.
#[allow(deprecated)]
#[verifier::external_body]
fn derive_associated_token_account(owner: u64, mint: u64) -> (r: Vec<u8>)
    ensures
        r@ == ata_of(owner, mint),
        r@.len() == 32,
{
    let mut owner_bytes = [0u8; 32];
    owner_bytes[..8].copy_from_slice(&owner.to_le_bytes());
    let mut mint_bytes = [0u8; 32];
    mint_bytes[..8].copy_from_slice(&mint.to_le_bytes());
    let owner_key = solana_pubkey::Pubkey::new_from_array(owner_bytes);
    let mint_key = solana_pubkey::Pubkey::new_from_array(mint_bytes);
    get_associated_token_address(&owner_key, &mint_key).to_bytes().to_vec()
}

/// A record whose EXP grew by `bonus` and whose every other field is as it
/// was. This is the only shape in which any operation ever touches an
/// existing user record, so EXP is monotonically non-decreasing over a
/// record's lifetime.
pub open spec fn exp_credited(pre: User, post: User, bonus: u32) -> bool {
    &&& post.exp_points == pre.exp_points + bonus
    &&& post.is_initialized == pre.is_initialized
    &&& post.is_merchant == pre.is_merchant
    &&& post.usdc_account == pre.usdc_account
    &&& post.referrer == pre.referrer
}

/// EXP is monotonically non-decreasing: every way an operation touches an
/// existing record either leaves it untouched (a refused call) or credits
/// EXP — it is never debited, and no other field moves with it.
pub proof fn lemma_exp_monotonic(pre: User, post: User, bonus: u32)
    requires
        exp_credited(pre, post, bonus),
    ensures
        post.exp_points >= pre.exp_points,
        post.referrer == pre.referrer,
{
}

/// What onboarding without a referrer decides, checks in order:
/// authorization, then the idempotency guard.
pub open spec fn init_user_decision(
    service_wallet: u64,
    state: ProgramState,
    pre: User,
) -> Result<(), ErrorCode> {
    if service_wallet != role_identity(Role::OnboardingService, state) {
        Err(ErrorCode::Unauthorized)
    } else if pre.is_initialized {
        Err(ErrorCode::UserAlreadyExists)
    } else {
        Ok(())
    }
}

/// The record a plain onboarding creates: initialized, not a merchant, the
/// starting EXP, the associated token account bound, no referrer.
pub open spec fn user_created(post: User, user_pubkey: u64, state: ProgramState) -> bool {
    &&& post.is_initialized
    &&& !post.is_merchant
    &&& post.exp_points == NEW_USER_EXP
    &&& post.usdc_account@ == ata_of(user_pubkey, state.usdc_mint)
    &&& post.referrer is None
}

/// Onboards `user_pubkey`: creates its record with the starting EXP and its
/// associated token account. Refuses a signer other than the onboarding
/// service, and a record that already exists; a refused call changes
/// nothing.
pub fn initialize_user(
    service_wallet: u64,
    user_pubkey: u64,
    state: &ProgramState,
    user_account: &mut User,
) -> (r: Result<(), ErrorCode>)
    ensures
        r == init_user_decision(service_wallet, *state, *old(user_account)),
        r is Ok ==> user_created(*final(user_account), user_pubkey, *state),
        r is Err ==> *final(user_account) == *old(user_account),
{
    if let Err(e) = authorize(service_wallet, Role::OnboardingService, state) {
        return Err(e);
    }
    if user_account.is_initialized {
        return Err(ErrorCode::UserAlreadyExists);
    }
    let associated_usdc_account = derive_associated_token_account(user_pubkey, state.usdc_mint);
    user_account.is_initialized = true;
    user_account.is_merchant = false;
    user_account.exp_points = NEW_USER_EXP;
    user_account.usdc_account = associated_usdc_account;
    user_account.referrer = None;
    Ok(())
}

/// What onboarding with a referrer decides, checks in order: authorization,
/// the idempotency guard, the referrer distinct from the new user, the
/// referrer's record initialized.
pub open spec fn init_user_with_referrer_decision(
    service_wallet: u64,
    user_pubkey: u64,
    referrer_pubkey: u64,
    state: ProgramState,
    pre: User,
    referrer_pre: User,
) -> Result<(), ErrorCode> {
    if service_wallet != role_identity(Role::OnboardingService, state) {
        Err(ErrorCode::Unauthorized)
    } else if pre.is_initialized {
        Err(ErrorCode::UserAlreadyExists)
    } else if referrer_pubkey == user_pubkey {
        Err(ErrorCode::InvalidReferrer)
    } else if !referrer_pre.is_initialized {
        Err(ErrorCode::ReferrerDoesNotExist)
    } else {
        Ok(())
    }
}

/// The record a referred onboarding creates: as [`user_created`], but with
/// the higher starting EXP and the referral edge written once, to the
/// referrer.
pub open spec fn referred_user_created(
    post: User,
    user_pubkey: u64,
    referrer_pubkey: u64,
    state: ProgramState,
) -> bool {
    &&& post.is_initialized
    &&& !post.is_merchant
    &&& post.exp_points == REFERRED_USER_EXP
    &&& post.usdc_account@ == ata_of(user_pubkey, state.usdc_mint)
    &&& post.referrer == Some(referrer_pubkey)
}

/// Onboards `user_pubkey` under a referrer: creates its record with the
/// higher starting EXP and credits the referral bonus to the referrer's
/// record, atomically. The referrer must be a distinct, already initialized
/// record; a refused call leaves both records untouched.
pub fn initialize_user_with_referrer(
    service_wallet: u64,
    user_pubkey: u64,
    referrer_pubkey: u64,
    state: &ProgramState,
    user_account: &mut User,
    referrer_account: &mut User,
) -> (r: Result<(), ErrorCode>)
    requires
        old(referrer_account).exp_points + REFERRAL_BONUS_EXP <= u32::MAX,
    ensures
        r == init_user_with_referrer_decision(
            service_wallet,
            user_pubkey,
            referrer_pubkey,
            *state,
            *old(user_account),
            *old(referrer_account),
        ),
        r is Ok ==> referred_user_created(*final(user_account), user_pubkey, referrer_pubkey, *state),
        r is Ok ==> exp_credited(*old(referrer_account), *final(referrer_account), REFERRAL_BONUS_EXP),
        r is Err ==> *final(user_account) == *old(user_account),
        r is Err ==> *final(referrer_account) == *old(referrer_account),
{
    if let Err(e) = authorize(service_wallet, Role::OnboardingService, state) {
        return Err(e);
    }
    if user_account.is_initialized {
        return Err(ErrorCode::UserAlreadyExists);
    }
    if referrer_pubkey == user_pubkey {
        return Err(ErrorCode::InvalidReferrer);
    }
    if !referrer_account.is_initialized {
        return Err(ErrorCode::ReferrerDoesNotExist);
    }
    let associated_usdc_account = derive_associated_token_account(user_pubkey, state.usdc_mint);
    user_account.is_initialized = true;
    user_account.is_merchant = false;
    user_account.exp_points = REFERRED_USER_EXP;
    user_account.usdc_account = associated_usdc_account;
    user_account.referrer = Some(referrer_pubkey);
    referrer_account.exp_points = referrer_account.exp_points + REFERRAL_BONUS_EXP;
    Ok(())
}

/// The pure existence read: succeeds exactly on an initialized record.
pub fn check_user_exists(user: &User) -> (r: Result<(), ErrorCode>)
    ensures
        r is Ok <==> user.is_initialized,
        r is Err ==> r == Err::<(), ErrorCode>(ErrorCode::UserDoesNotExist),
{
    if !user.is_initialized {
        return Err(ErrorCode::UserDoesNotExist);
    }
    Ok(())
}

/// Onboarding is not re-entrant: once a record is initialized, both
/// onboarding operations refuse it with `UserAlreadyExists` for every
/// authorized signer — and by their contracts a refused call leaves the
/// record, its EXP included, and any referrer record untouched.
pub proof fn lemma_onboarding_not_reentrant(
    service_wallet: u64,
    user_pubkey: u64,
    referrer_pubkey: u64,
    state: ProgramState,
    pre: User,
    referrer_pre: User,
)
    requires
        pre.is_initialized,
        service_wallet == role_identity(Role::OnboardingService, state),
    ensures
        init_user_decision(service_wallet, state, pre) == Err::<(), ErrorCode>(
            ErrorCode::UserAlreadyExists,
        ),
        init_user_with_referrer_decision(
            service_wallet,
            user_pubkey,
            referrer_pubkey,
            state,
            pre,
            referrer_pre,
        ) == Err::<(), ErrorCode>(ErrorCode::UserAlreadyExists),
{
}

/// The referral bonus is bound to creation: onboarding with a referrer
/// succeeds — and that success is the only path that credits the bonus —
/// exactly when the signer is the onboarding service, the target record does
/// not yet exist, and the referrer is distinct and already initialized. With
/// [`lemma_onboarding_not_reentrant`], a record's referrer can therefore be
/// credited for it at most once.
pub proof fn lemma_referral_bonus_only_at_creation(
    service_wallet: u64,
    user_pubkey: u64,
    referrer_pubkey: u64,
    state: ProgramState,
    pre: User,
    referrer_pre: User,
)
    ensures
        init_user_with_referrer_decision(
            service_wallet,
            user_pubkey,
            referrer_pubkey,
            state,
            pre,
            referrer_pre,
        ) is Ok <==> {
            &&& service_wallet == role_identity(Role::OnboardingService, state)
            &&& !pre.is_initialized
            &&& referrer_pubkey != user_pubkey
            &&& referrer_pre.is_initialized
        },
{
}

} // verus!
