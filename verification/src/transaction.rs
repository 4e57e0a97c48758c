//! The transaction engine: fee-split transfers between two bound payment
//! accounts, with EXP credited to both parties.

use vstd::prelude::*;
use vstd::arithmetic::div_mod::lemma_div_is_ordered;
use vstd::arithmetic::div_mod::lemma_div_multiples_vanish;
use vstd::arithmetic::mul::lemma_mul_inequality;
use vstd::arithmetic::mul::lemma_mul_is_commutative;

use crate::ErrorCode;
use crate::MAX_FEE_BPS;
use crate::ProgramState;
use crate::auth::Role;
use crate::auth::authorize;
use crate::auth::role_identity;
use crate::user::User;
use crate::user::exp_credited;

verus! {

/// Smallest amount a transaction may move, in the token's smallest
/// denomination.
pub const MIN_TRANSACTION_AMOUNT: u64 = 10_000;

/// EXP credited to each of sender and receiver by a settled transaction.
pub const TRANSACTION_EXP_REWARD: u32 = 10;

/// A mint-scoped payment account: the mint it belongs to and its balance.
/// Debits and credits between such accounts are the token collaborator's
/// atomic primitive; this engine decides them and accounts for them.
#[derive(Clone, Copy, Debug, PartialEq, Eq, Structural)]
pub struct TokenAccount {
    pub mint: u64,
    pub balance: u64,
}

/// The fee a transaction of `amount` owes: the floor of its basis-point
/// share.
pub open spec fn fee_of(amount: u64, fee_bps: u16) -> int {
    (amount as int) * (fee_bps as int) / 10_000
}

/// What the receiver is owed: the amount net of the fee. The floor
/// remainder of the fee division stays with the payer implicitly, by never
/// being debited.
pub open spec fn transfer_amount_of(amount: u64, fee_bps: u16) -> int {
    amount - fee_of(amount, fee_bps)
}

/// What a transaction decides, checks in order: the sender itself must
/// sign, both payment accounts must carry the configured mint, the amount
/// must reach the minimum, and the sender must hold it.
pub open spec fn transaction_decision(
    signer: u64,
    sender: u64,
    state: ProgramState,
    sender_token_pre: TokenAccount,
    receiver_token_pre: TokenAccount,
    amount: u64,
) -> Result<(), ErrorCode> {
    if signer != role_identity(Role::SelfOwner(sender), state) {
        Err(ErrorCode::Unauthorized)
    } else if sender_token_pre.mint != state.usdc_mint
        || receiver_token_pre.mint != state.usdc_mint {
        Err(ErrorCode::InvalidTokenAccount)
    } else if amount < MIN_TRANSACTION_AMOUNT {
        Err(ErrorCode::TransactionAmountTooLow)
    } else if sender_token_pre.balance < amount {
        Err(ErrorCode::InsufficientFunds)
    } else {
        Ok(())
    }
}

/// A settled transaction over the three payment accounts: the sender paid
/// the full amount, the receiver gained the net transfer, the fee account
/// gained the fee; no mint changed.
pub open spec fn settled(
    sender_pre: TokenAccount,
    receiver_pre: TokenAccount,
    dao_pre: TokenAccount,
    sender_post: TokenAccount,
    receiver_post: TokenAccount,
    dao_post: TokenAccount,
    amount: u64,
    fee_bps: u16,
) -> bool {
    &&& sender_post.balance == sender_pre.balance - amount
    &&& receiver_post.balance == receiver_pre.balance + transfer_amount_of(amount, fee_bps)
    &&& dao_post.balance == dao_pre.balance + fee_of(amount, fee_bps)
    &&& sender_post.mint == sender_pre.mint
    &&& receiver_post.mint == receiver_pre.mint
    &&& dao_post.mint == dao_pre.mint
}

/// The token balance a group of sender, receiver and fee account holds in
/// all.
pub open spec fn total_balance(
    sender: TokenAccount,
    receiver: TokenAccount,
    dao: TokenAccount,
) -> int {
    sender.balance + receiver.balance + dao.balance
}

/// Fee and transfer amount partition the amount exactly: nothing is created
/// or destroyed by the rounding, and the fee never exceeds the amount
/// while the rate is a valid basis-point value.
pub proof fn lemma_fee_split_exact(amount: u64, fee_bps: u16)
    requires
        fee_bps <= MAX_FEE_BPS,
    ensures
        fee_of(amount, fee_bps) + transfer_amount_of(amount, fee_bps) == amount,
        0 <= fee_of(amount, fee_bps) <= amount,
        (amount as int) * (fee_bps as int) <= 10_000 * (u64::MAX as int),
{
    let a: int = amount as int;
    let b: int = fee_bps as int;
    let d: int = 10_000;
    lemma_mul_is_commutative(a, b);
    lemma_mul_inequality(b, d, a);
    lemma_div_is_ordered(a * b, d * a, d);
    lemma_div_multiples_vanish(a, d);
    assert(fee_of(amount, fee_bps) <= a);
    assert(0 <= a * b) by (nonlinear_arith)
        requires
            a >= 0,
            b >= 0,
    ;
    lemma_div_is_ordered(0, a * b, d);
}

/// Executes a fee-split transfer of `amount` from the sender's payment
/// account: the net transfer to the receiver, the fee to the governance fee
/// account, and the EXP reward to both parties' user records — one atomic
/// group. A refused call changes no balance and no EXP.
///
/// The caller owes the machine limits: the group's total balance fits the
/// balance type (the mint's total supply does), and neither EXP credit
/// overflows.
pub fn execute_transaction(
    signer: u64,
    sender: u64,
    amount: u64,
    state: &ProgramState,
    sender_usdc_account: &mut TokenAccount,
    receiver_usdc_account: &mut TokenAccount,
    dao_usdc_account: &mut TokenAccount,
    sender_user_account: &mut User,
    receiver_user_account: &mut User,
) -> (r: Result<(), ErrorCode>)
    requires
        state.wf(),
        old(sender_usdc_account).balance + old(receiver_usdc_account).balance + old(
            dao_usdc_account,
        ).balance <= u64::MAX,
        old(sender_user_account).exp_points + TRANSACTION_EXP_REWARD <= u32::MAX,
        old(receiver_user_account).exp_points + TRANSACTION_EXP_REWARD <= u32::MAX,
    ensures
        r == transaction_decision(
            signer,
            sender,
            *state,
            *old(sender_usdc_account),
            *old(receiver_usdc_account),
            amount,
        ),
        r is Ok ==> settled(
            *old(sender_usdc_account),
            *old(receiver_usdc_account),
            *old(dao_usdc_account),
            *final(sender_usdc_account),
            *final(receiver_usdc_account),
            *final(dao_usdc_account),
            amount,
            state.fee_bps,
        ),
        r is Ok ==> total_balance(
            *final(sender_usdc_account),
            *final(receiver_usdc_account),
            *final(dao_usdc_account),
        ) == total_balance(
            *old(sender_usdc_account),
            *old(receiver_usdc_account),
            *old(dao_usdc_account),
        ),
        r is Ok ==> exp_credited(
            *old(sender_user_account),
            *final(sender_user_account),
            TRANSACTION_EXP_REWARD,
        ),
        r is Ok ==> exp_credited(
            *old(receiver_user_account),
            *final(receiver_user_account),
            TRANSACTION_EXP_REWARD,
        ),
        r is Err ==> *final(sender_usdc_account) == *old(sender_usdc_account),
        r is Err ==> *final(receiver_usdc_account) == *old(receiver_usdc_account),
        r is Err ==> *final(dao_usdc_account) == *old(dao_usdc_account),
        r is Err ==> *final(sender_user_account) == *old(sender_user_account),
        r is Err ==> *final(receiver_user_account) == *old(receiver_user_account),
{
    if let Err(e) = authorize(signer, Role::SelfOwner(sender), state) {
        return Err(e);
    }
    if sender_usdc_account.mint != state.usdc_mint
        || receiver_usdc_account.mint != state.usdc_mint {
        return Err(ErrorCode::InvalidTokenAccount);
    }
    if amount < MIN_TRANSACTION_AMOUNT {
        return Err(ErrorCode::TransactionAmountTooLow);
    }
    if sender_usdc_account.balance < amount {
        return Err(ErrorCode::InsufficientFunds);
    }
    proof {
        lemma_fee_split_exact(amount, state.fee_bps);
    }
    let fee_wide: u128 = (amount as u128) * (state.fee_bps as u128) / 10_000u128;
    let fee: u64 = fee_wide as u64;
    let transfer_amount: u64 = amount - fee;
    sender_usdc_account.balance = sender_usdc_account.balance - transfer_amount;
    receiver_usdc_account.balance = receiver_usdc_account.balance + transfer_amount;
    sender_usdc_account.balance = sender_usdc_account.balance - fee;
    dao_usdc_account.balance = dao_usdc_account.balance + fee;
    sender_user_account.exp_points = sender_user_account.exp_points + TRANSACTION_EXP_REWARD;
    receiver_user_account.exp_points = receiver_user_account.exp_points + TRANSACTION_EXP_REWARD;
    Ok(())
}

/// Any amount below the minimum is refused as `TransactionAmountTooLow`,
/// for every otherwise well-formed call — and by the engine's contract a
/// refused call changes no balance and no EXP.
pub proof fn lemma_low_amount_refused(
    signer: u64,
    sender: u64,
    state: ProgramState,
    sender_token: TokenAccount,
    receiver_token: TokenAccount,
    amount: u64,
)
    requires
        amount < MIN_TRANSACTION_AMOUNT,
        signer == sender,
        sender_token.mint == state.usdc_mint,
        receiver_token.mint == state.usdc_mint,
    ensures
        transaction_decision(signer, sender, state, sender_token, receiver_token, amount)
            == Err::<(), ErrorCode>(ErrorCode::TransactionAmountTooLow),
{
}

/// Any admissible amount the sender cannot cover is refused as
/// `InsufficientFunds`, for every otherwise well-formed call — and by the
/// engine's contract a refused call changes no balance and no EXP.
pub proof fn lemma_insufficient_funds_refused(
    signer: u64,
    sender: u64,
    state: ProgramState,
    sender_token: TokenAccount,
    receiver_token: TokenAccount,
    amount: u64,
)
    requires
        amount >= MIN_TRANSACTION_AMOUNT,
        sender_token.balance < amount,
        signer == sender,
        sender_token.mint == state.usdc_mint,
        receiver_token.mint == state.usdc_mint,
    ensures
        transaction_decision(signer, sender, state, sender_token, receiver_token, amount)
            == Err::<(), ErrorCode>(ErrorCode::InsufficientFunds),
{
}

/// The balances of a group of sender, receiver and fee account, as the
/// mathematical triple a settlement acts on.
pub open spec fn settle_balances(b: (int, int, int), amount: u64, fee_bps: u16) -> (int, int, int) {
    (b.0 - amount, b.1 + transfer_amount_of(amount, fee_bps), b.2 + fee_of(amount, fee_bps))
}

/// The balance triple after settling a whole sequence of amounts in order.
pub open spec fn settle_balances_seq(
    b: (int, int, int),
    amounts: Seq<u64>,
    fee_bps: u16,
) -> (int, int, int)
    decreases amounts.len(),
{
    if amounts.len() == 0 {
        b
    } else {
        settle_balances_seq(
            settle_balances(b, amounts[0], fee_bps),
            amounts.subrange(1, amounts.len() as int),
            fee_bps,
        )
    }
}

/// The total a balance triple holds.
pub open spec fn total_of(b: (int, int, int)) -> int {
    b.0 + b.1 + b.2
}

/// A settlement of the three accounts acts on their balances exactly as
/// [`settle_balances`] says, so a chain of settled calls walks
/// [`settle_balances_seq`] step by step.
pub proof fn lemma_settled_steps_balances(
    sender_pre: TokenAccount,
    receiver_pre: TokenAccount,
    dao_pre: TokenAccount,
    sender_post: TokenAccount,
    receiver_post: TokenAccount,
    dao_post: TokenAccount,
    amount: u64,
    fee_bps: u16,
)
    requires
        settled(
            sender_pre,
            receiver_pre,
            dao_pre,
            sender_post,
            receiver_post,
            dao_post,
            amount,
            fee_bps,
        ),
    ensures
        (sender_post.balance as int, receiver_post.balance as int, dao_post.balance as int)
            == settle_balances(
            (sender_pre.balance as int, receiver_pre.balance as int, dao_pre.balance as int),
            amount,
            fee_bps,
        ),
{
}

/// Conservation: across any sequence of settled transactions, the total
/// token balance over sender, receiver and fee account is invariant — no
/// value is created or destroyed, whatever the amounts and the fee rate.
pub proof fn lemma_conservation_over_sequence(b: (int, int, int), amounts: Seq<u64>, fee_bps: u16)
    ensures
        total_of(settle_balances_seq(b, amounts, fee_bps)) == total_of(b),
    decreases amounts.len(),
{
    if amounts.len() == 0 {
    } else {
        lemma_conservation_over_sequence(
            settle_balances(b, amounts[0], fee_bps),
            amounts.subrange(1, amounts.len() as int),
            fee_bps,
        );
    }
}

} // verus!
