//! One end-to-end run over every component: configuration, onboarding with
//! and without a referrer, merchant registration with a referral bonus, a
//! fee-split transfer, and a rating.

use crypto_mapp::CnftIdentifier;
use crypto_mapp::Merchant;
use crypto_mapp::TokenAccount;
use crypto_mapp::User;
use crypto_mapp::add_rating;
use crypto_mapp::execute_transaction;
use crypto_mapp::initialize;
use crypto_mapp::initialize_merchant_with_referrer;
use crypto_mapp::initialize_user;
use crypto_mapp::initialize_user_with_referrer;

const MINT: u64 = 9;
const DAO: u64 = 1;
const ONBOARDING: u64 = 2;
const REVIEW_SVC: u64 = 5;
const ALICE: u64 = 100;
const BOB: u64 = 101;
const CAROL: u64 = 102;

fn new_record() -> User {
    User {
        is_initialized: false,
        is_merchant: false,
        exp_points: 0,
        usdc_account: Vec::new(),
        referrer: None,
    }
}

#[test]
fn platform_walkthrough() {
    let mut state = initialize(MINT, 30, DAO, ONBOARDING, 3, 4, REVIEW_SVC);

    let mut alice = new_record();
    assert_eq!(initialize_user(ONBOARDING, ALICE, &state, &mut alice), Ok(()));
    assert_eq!(alice.exp_points, 100);

    let mut bob = new_record();
    assert_eq!(
        initialize_user_with_referrer(ONBOARDING, BOB, ALICE, &state, &mut bob, &mut alice),
        Ok(())
    );
    assert_eq!(bob.exp_points, 150);
    assert_eq!(alice.exp_points, 150);

    let mut bob_merchant = Merchant {
        is_initialized: false,
        nft_identifier: CnftIdentifier { merkle_tree_address: 0, leaf_index: 0 },
        user_pubkey: 0,
        ratings: Vec::new(),
    };
    let profile = CnftIdentifier { merkle_tree_address: 42, leaf_index: 7 };
    assert_eq!(
        initialize_merchant_with_referrer(
            BOB,
            BOB,
            ALICE,
            profile,
            &mut state,
            &mut bob_merchant,
            &mut bob,
            &mut alice,
        ),
        Ok(())
    );
    assert_eq!(state.merchant_counter, 1);
    assert_eq!(bob.exp_points, 250);
    assert_eq!(alice.exp_points, 350);

    let mut carol = new_record();
    assert_eq!(initialize_user(ONBOARDING, CAROL, &state, &mut carol), Ok(()));
    let mut carol_usdc = TokenAccount { mint: MINT, balance: 1_000_000 };
    let mut bob_usdc = TokenAccount { mint: MINT, balance: 0 };
    let mut dao_usdc = TokenAccount { mint: MINT, balance: 0 };
    assert_eq!(
        execute_transaction(
            CAROL,
            CAROL,
            100_000,
            &state,
            &mut carol_usdc,
            &mut bob_usdc,
            &mut dao_usdc,
            &mut carol,
            &mut bob,
        ),
        Ok(())
    );
    assert_eq!(carol_usdc.balance, 900_000);
    assert_eq!(bob_usdc.balance, 99_700);
    assert_eq!(dao_usdc.balance, 300);
    assert_eq!(carol.exp_points, 110);
    assert_eq!(bob.exp_points, 260);

    assert_eq!(add_rating(REVIEW_SVC, 5, &state, &mut bob_merchant, &mut carol), Ok(()));
    assert_eq!(bob_merchant.ratings, vec![5]);
    assert_eq!(carol.exp_points, 130);
}
