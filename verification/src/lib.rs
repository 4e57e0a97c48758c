//! Role-gated ledger core for a merchant/payment platform.
//!
//! The library verifies the account state machine of the platform: the global
//! configuration record, per-identity user records with a monotonically
//! growing reputation (EXP) score and a write-once referral edge, merchant
//! records bound 1:1 to users, fee-split token transfers, and
//! authorization-checked rating ingestion.
//!
//! Identities (wallets, mints) are the logical 64-bit keys under which the
//! surrounding account store files records; the store itself — deterministic
//! record addressing, signature verification, payer-funded creation — is an
//! external collaborator. Every operation here receives the records it
//! touches, checks authorization and its local preconditions first, and
//! either applies all of its effects or leaves every record untouched.

use vstd::prelude::*;

mod auth;
mod merchant;
mod review;
mod transaction;
mod user;

pub use auth::Role;
pub use auth::authorize;
pub use auth::role_identity;
pub use merchant::CnftIdentifier;
pub use merchant::MAX_REVIEWS;
pub use merchant::MERCHANT_REFERRAL_BONUS;
pub use merchant::MERCHANT_REGISTRATION_EXP;
pub use merchant::Merchant;
pub use merchant::initialize_merchant;
pub use merchant::initialize_merchant_with_referrer;
pub use review::MAX_RATING;
pub use review::MIN_RATING;
pub use review::REVIEWER_EXP_REWARD;
pub use review::add_rating;
pub use transaction::MIN_TRANSACTION_AMOUNT;
pub use transaction::TRANSACTION_EXP_REWARD;
pub use transaction::TokenAccount;
pub use transaction::execute_transaction;
pub use user::NEW_USER_EXP;
pub use user::REFERRAL_BONUS_EXP;
pub use user::REFERRED_USER_EXP;
pub use user::User;
pub use user::check_user_exists;
pub use user::initialize_user;
pub use user::initialize_user_with_referrer;

verus! {

/// Largest admissible fee rate: the whole amount, expressed in basis points.
pub const MAX_FEE_BPS: u16 = 10_000;

/// Every way an operation can refuse to run. Each check is evaluated before
/// any mutation, so an operation that returns one of these has changed
/// nothing.
#[derive(Clone, Copy, Debug, PartialEq, Eq, Structural)]
pub enum ErrorCode {
    UserDoesNotExist,
    UserAlreadyExists,
    ReferrerDoesNotExist,
    TransactionAmountTooLow,
    InsufficientFunds,
    InvalidRating,
    InvalidReferrer,
    InvalidTokenAccount,
    Unauthorized,
    CapacityExceeded,
}

/// The singleton global configuration: the governance authority, the four
/// role wallets, the token mint, the fee rate, and the monotonic merchant
/// counter.
#[derive(Clone, Copy, Debug, PartialEq, Eq, Structural)]
pub struct ProgramState {
    pub usdc_mint: u64,
    pub fee_bps: u16,
    pub dao_pubkey: u64,
    pub onboarding_service_wallet_pubkey: u64,
    pub merchant_id_service_wallet_pubkey: u64,
    pub transaction_service_wallet_pubkey: u64,
    pub review_service_wallet_pubkey: u64,
    pub merchant_counter: u32,
}

impl ProgramState {
    /// The configuration invariant: the fee rate is a valid basis-point
    /// value. Established at creation and never disturbed, since no
    /// operation rewrites the fee field.
    pub open spec fn wf(self) -> bool {
        self.fee_bps <= MAX_FEE_BPS
    }
}

/// Creates the global configuration. The surrounding account store makes the
/// record exist exactly once; this constructor fixes its initial contents:
/// the given identities and fee rate, and a merchant counter starting at
/// zero.
pub fn initialize(
    usdc_mint: u64,
    fee_bps: u16,
    dao_pubkey: u64,
    onboarding_service_wallet_pubkey: u64,
    merchant_id_service_wallet_pubkey: u64,
    transaction_service_wallet_pubkey: u64,
    review_service_wallet_pubkey: u64,
) -> (state: ProgramState)
    requires
        fee_bps <= MAX_FEE_BPS,
    ensures
        state == (ProgramState {
            usdc_mint,
            fee_bps,
            dao_pubkey,
            onboarding_service_wallet_pubkey,
            merchant_id_service_wallet_pubkey,
            transaction_service_wallet_pubkey,
            review_service_wallet_pubkey,
            merchant_counter: 0,
        }),
        state.wf(),
{
    ProgramState {
        usdc_mint,
        fee_bps,
        dao_pubkey,
        onboarding_service_wallet_pubkey,
        merchant_id_service_wallet_pubkey,
        transaction_service_wallet_pubkey,
        review_service_wallet_pubkey,
        merchant_counter: 0,
    }
}

} // verus!
