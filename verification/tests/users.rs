use crypto_mapp::ErrorCode;
use crypto_mapp::ProgramState;
use crypto_mapp::User;
use crypto_mapp::check_user_exists;
use crypto_mapp::initialize;
use crypto_mapp::initialize_user;
use crypto_mapp::initialize_user_with_referrer;

use solana_pubkey::Pubkey;
#[allow(deprecated)]
use spl_associated_token_account::get_associated_token_address;

const MINT: u64 = 9;
const DAO: u64 = 1;
const ONBOARDING: u64 = 2;
const MERCHANT_SVC: u64 = 3;
const TRANSACTION_SVC: u64 = 4;
const REVIEW_SVC: u64 = 5;

fn test_config() -> ProgramState {
    initialize(MINT, 30, DAO, ONBOARDING, MERCHANT_SVC, TRANSACTION_SVC, REVIEW_SVC)
}

fn blank_user() -> User {
    User {
        is_initialized: false,
        is_merchant: false,
        exp_points: 0,
        usdc_account: Vec::new(),
        referrer: None,
    }
}

fn expected_ata(owner: u64, mint: u64) -> Vec<u8> {
    let mut owner_bytes = [0u8; 32];
    owner_bytes[..8].copy_from_slice(&owner.to_le_bytes());
    let mut mint_bytes = [0u8; 32];
    mint_bytes[..8].copy_from_slice(&mint.to_le_bytes());
    let owner_key = Pubkey::new_from_array(owner_bytes);
    let mint_key = Pubkey::new_from_array(mint_bytes);
    get_associated_token_address(&owner_key, &mint_key).to_bytes().to_vec()
}

#[test]
fn config_fields_and_counter() {
    let state = test_config();
    assert_eq!(state.usdc_mint, MINT);
    assert_eq!(state.fee_bps, 30);
    assert_eq!(state.dao_pubkey, DAO);
    assert_eq!(state.onboarding_service_wallet_pubkey, ONBOARDING);
    assert_eq!(state.merchant_id_service_wallet_pubkey, MERCHANT_SVC);
    assert_eq!(state.transaction_service_wallet_pubkey, TRANSACTION_SVC);
    assert_eq!(state.review_service_wallet_pubkey, REVIEW_SVC);
    assert_eq!(state.merchant_counter, 0);
}

#[test]
fn onboarding_creates_record() {
    let state = test_config();
    let mut user = blank_user();
    assert_eq!(initialize_user(ONBOARDING, 100, &state, &mut user), Ok(()));
    assert!(user.is_initialized);
    assert!(!user.is_merchant);
    assert_eq!(user.exp_points, 100);
    assert_eq!(user.referrer, None);
    assert_eq!(user.usdc_account, expected_ata(100, MINT));
}

#[test]
fn onboarding_rejects_foreign_signer() {
    let state = test_config();
    let mut user = blank_user();
    assert_eq!(
        initialize_user(REVIEW_SVC, 100, &state, &mut user),
        Err(ErrorCode::Unauthorized)
    );
    assert_eq!(user, blank_user());
}

#[test]
fn onboarding_is_not_reentrant() {
    let state = test_config();
    let mut user = blank_user();
    assert_eq!(initialize_user(ONBOARDING, 100, &state, &mut user), Ok(()));
    let created = user.clone();
    assert_eq!(
        initialize_user(ONBOARDING, 100, &state, &mut user),
        Err(ErrorCode::UserAlreadyExists)
    );
    assert_eq!(user, created);
    assert_eq!(user.exp_points, 100);
}

#[test]
fn referred_onboarding_credits_both() {
    let state = test_config();
    let mut referrer = blank_user();
    assert_eq!(initialize_user(ONBOARDING, 100, &state, &mut referrer), Ok(()));
    let mut user = blank_user();
    assert_eq!(
        initialize_user_with_referrer(ONBOARDING, 101, 100, &state, &mut user, &mut referrer),
        Ok(())
    );
    assert_eq!(user.exp_points, 150);
    assert_eq!(user.referrer, Some(100));
    assert_eq!(user.usdc_account, expected_ata(101, MINT));
    assert_eq!(referrer.exp_points, 150);
}

#[test]
fn referred_onboarding_is_not_reentrant() {
    let state = test_config();
    let mut referrer = blank_user();
    assert_eq!(initialize_user(ONBOARDING, 100, &state, &mut referrer), Ok(()));
    let mut user = blank_user();
    assert_eq!(
        initialize_user_with_referrer(ONBOARDING, 101, 100, &state, &mut user, &mut referrer),
        Ok(())
    );
    let created = user.clone();
    let credited = referrer.clone();
    assert_eq!(
        initialize_user_with_referrer(ONBOARDING, 101, 100, &state, &mut user, &mut referrer),
        Err(ErrorCode::UserAlreadyExists)
    );
    assert_eq!(user, created);
    assert_eq!(referrer, credited);
}

#[test]
fn referred_onboarding_rejects_self_referral() {
    let state = test_config();
    let mut user = blank_user();
    let mut other = blank_user();
    assert_eq!(initialize_user(ONBOARDING, 100, &state, &mut other), Ok(()));
    assert_eq!(
        initialize_user_with_referrer(ONBOARDING, 101, 101, &state, &mut user, &mut other),
        Err(ErrorCode::InvalidReferrer)
    );
    assert_eq!(user, blank_user());
    assert_eq!(other.exp_points, 100);
}

#[test]
fn referred_onboarding_rejects_missing_referrer() {
    let state = test_config();
    let mut user = blank_user();
    let mut referrer = blank_user();
    assert_eq!(
        initialize_user_with_referrer(ONBOARDING, 101, 100, &state, &mut user, &mut referrer),
        Err(ErrorCode::ReferrerDoesNotExist)
    );
    assert_eq!(user, blank_user());
    assert_eq!(referrer, blank_user());
}

#[test]
fn existence_check_reads_initialization() {
    let state = test_config();
    let mut user = blank_user();
    assert_eq!(check_user_exists(&user), Err(ErrorCode::UserDoesNotExist));
    assert_eq!(initialize_user(ONBOARDING, 100, &state, &mut user), Ok(()));
    assert_eq!(check_user_exists(&user), Ok(()));
}

#[test]
fn payment_account_binding_is_deterministic() {
    let state = test_config();
    let mut first = blank_user();
    let mut second = blank_user();
    let mut other_owner = blank_user();
    assert_eq!(initialize_user(ONBOARDING, 100, &state, &mut first), Ok(()));
    assert_eq!(initialize_user(ONBOARDING, 100, &state, &mut second), Ok(()));
    assert_eq!(initialize_user(ONBOARDING, 101, &state, &mut other_owner), Ok(()));
    assert_eq!(first.usdc_account, second.usdc_account);
    assert_ne!(first.usdc_account, other_owner.usdc_account);
    assert_eq!(first.usdc_account.len(), 32);
}
