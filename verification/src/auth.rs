//! The authorization policy: one capability check, consulted first by every
//! mutating operation.

use vstd::prelude::*;

use crate::ErrorCode;
use crate::ProgramState;

verus! {

/// The role an operation demands of its signer. `SelfOwner` carries the
/// identity of the record's own subject; the service roles and `Governance`
/// name wallets configured in the global state.
#[derive(Clone, Copy, Debug, PartialEq, Eq, Structural)]
pub enum Role {
    SelfOwner(u64),
    OnboardingService,
    MerchantService,
    TransactionService,
    ReviewService,
    Governance,
}

/// The identity the configuration assigns to a role: the subject itself for
/// `SelfOwner`, the configured wallet otherwise.
pub open spec fn role_identity(role: Role, state: ProgramState) -> u64 {
    match role {
        Role::SelfOwner(owner) => owner,
        Role::OnboardingService => state.onboarding_service_wallet_pubkey,
        Role::MerchantService => state.merchant_id_service_wallet_pubkey,
        Role::TransactionService => state.transaction_service_wallet_pubkey,
        Role::ReviewService => state.review_service_wallet_pubkey,
        Role::Governance => state.dao_pubkey,
    }
}

/// The capability check: a presented signer passes exactly when it is the
/// identity the configuration assigns to the required role.
pub fn authorize(signer: u64, role: Role, state: &ProgramState) -> (r: Result<(), ErrorCode>)
    ensures
        r is Ok <==> signer == role_identity(role, *state),
        r is Err ==> r == Err::<(), ErrorCode>(ErrorCode::Unauthorized),
{
    let required: u64 = match role {
        Role::SelfOwner(owner) => owner,
        Role::OnboardingService => state.onboarding_service_wallet_pubkey,
        Role::MerchantService => state.merchant_id_service_wallet_pubkey,
        Role::TransactionService => state.transaction_service_wallet_pubkey,
        Role::ReviewService => state.review_service_wallet_pubkey,
        Role::Governance => state.dao_pubkey,
    };
    if signer == required {
        Ok(())
    } else {
        Err(ErrorCode::Unauthorized)
    }
}

} // verus!
