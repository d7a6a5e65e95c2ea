//! What holds of the ledger whatever is done with it.

use vstd::prelude::*;
use crate::error::{CheckAccountSignatureError, Error};
use crate::model::StateView;
use crate::params::{DepositParams, PermitMessage, UnstakeParams};
use crate::permit::permits_reach;
use crate::records::{
    lemma_principal_within_total, lemma_total_principal_insert, lemma_total_principal_remove,
    UnbondingInfo,
};
use crate::types::{AccountAddress, Address, CallContext};
use crate::unbonding::{is_matured, lemma_split_push, matured, payout_of, still_pending};

verus! {

/// A new ledger has nothing staked, and its total says so.
pub proof fn lemma_initial_totals_agree(params: crate::params::InitContractParams)
    ensures
        StateView::initial(params).inv(),
{
}

/// After an accepted deposit the total staked is still the sum of the
/// principals.
pub proof fn lemma_deposit_keeps_totals(s: StateView, ctx: CallContext, params: DepositParams)
    requires
        s.totals_agree(),
        s.deposit_error(ctx, params) is None,
    ensures
        s.after_deposit(params.from->Account_0, params.amount, ctx.now()).totals_agree(),
{
    let account = params.from->Account_0;
    let record = s.deposited_record(account, params.amount, ctx.now());
    lemma_total_principal_insert(s.stakes, account, record);
    if s.stakes.contains_key(account) {
        lemma_principal_within_total(s.stakes, account);
    }
}

/// After an accepted request to unstake the total staked is still the sum of
/// the principals.
pub proof fn lemma_request_unstake_keeps_totals(
    s: StateView,
    ctx: CallContext,
    params: UnstakeParams,
)
    requires
        s.totals_agree(),
        s.request_unstake_error(ctx, params) is None,
    ensures
        s.after_request_unstake(ctx.sender->Account_0, params.amount, ctx.now()).totals_agree(),
{
    let account = ctx.sender->Account_0;
    let after = s.after_request_unstake(account, params.amount, ctx.now());
    lemma_total_principal_insert(s.stakes, account, after.stakes[account]);
    lemma_principal_within_total(s.stakes, account);
}

/// After an accepted unstake with immediate payout the total staked is still
/// the sum of the principals.
pub proof fn lemma_immediate_unstake_keeps_totals(
    s: StateView,
    account: AccountAddress,
    amount: u64,
    now: u64,
)
    requires
        s.totals_agree(),
        s.immediate_unstake_error(account, amount, now) is None,
    ensures
        s.after_immediate_unstake(account, amount).totals_agree(),
{
    let after = s.after_immediate_unstake(account, amount);
    lemma_total_principal_remove(s.stakes, account);
    if amount != s.stakes[account].amount {
        lemma_total_principal_insert(s.stakes, account, after.stakes[account]);
    }
}

/// Settlements, claims and slashes leave every principal and the total staked
/// as they were.
pub proof fn lemma_other_operations_keep_totals(s: StateView, account: AccountAddress, now: u64)
    requires
        s.totals_agree(),
        s.stakes.contains_key(account),
    ensures
        s.after_settle(account, now).totals_agree(),
        s.after_claim(account, now).totals_agree(),
        s.after_slash(account).totals_agree(),
{
    lemma_total_principal_insert(s.stakes, account, s.after_settle(account, now).stakes[account]);
    lemma_total_principal_insert(s.stakes, account, s.after_claim(account, now).stakes[account]);
    lemma_total_principal_insert(s.stakes, account, s.after_slash(account).stakes[account]);
}

/// A permit that carries another nonce than the signer's next is refused,
/// whatever else it holds.
pub proof fn lemma_permit_needs_next_nonce(
    s: StateView,
    ctx: CallContext,
    signer: AccountAddress,
    message: PermitMessage,
    signature_check: Result<bool, CheckAccountSignatureError>,
    unstake_amount: Option<u64>,
)
    requires
        message.nonce != s.nonce_of(signer),
    ensures
        s.permit_error(ctx, signer, message, signature_check, unstake_amount) is Some,
        !s.paused ==> s.permit_error(ctx, signer, message, signature_check, unstake_amount)
            == Some(Error::NonceMismatch),
{
}

/// An accepted permit raises the signer's next nonce by exactly one and
/// leaves the nonces of all other accounts as they were.
pub proof fn lemma_permit_uses_one_nonce(
    s: StateView,
    ctx: CallContext,
    signer: AccountAddress,
    message: PermitMessage,
    unstake_amount: Option<u64>,
    other: AccountAddress,
)
    requires
        s.nonce_of(signer) < u64::MAX,
    ensures
        s.after_permit(ctx, signer, message, unstake_amount).nonce_of(signer) == s.nonce_of(signer)
            + 1,
        other != signer ==> s.after_permit(ctx, signer, message, unstake_amount).nonce_of(other)
            == s.nonce_of(other),
{
}

/// No operation but a permit touches a nonce.
pub proof fn lemma_only_permits_touch_nonces(
    s: StateView,
    account: AccountAddress,
    amount: u64,
    now: u64,
)
    ensures
        s.after_deposit(account, amount, now).nonces == s.nonces,
        s.after_request_unstake(account, amount, now).nonces == s.nonces,
        s.after_immediate_unstake(account, amount).nonces == s.nonces,
        s.after_settle(account, now).nonces == s.nonces,
        s.after_claim(account, now).nonces == s.nonces,
        s.after_fund(amount).nonces == s.nonces,
        s.after_slash(account).nonces == s.nonces,
{
}

/// A settlement for an account none of whose requests has matured is
/// refused: there is nothing to pay out.
pub proof fn lemma_nothing_matured_nothing_settled(s: StateView, ctx: CallContext)
    requires
        ctx.sender is Account,
        s.stakes.contains_key(ctx.sender->Account_0),
        !s.stakes[ctx.sender->Account_0].slashed,
        matured(s.stakes[ctx.sender->Account_0].unbonding, ctx.now()).len() == 0,
    ensures
        s.settle_error(ctx) == Some(Error::UnbondingPeriodNotMet),
{
}

/// Once slashed, an account can neither unstake, in either way, nor settle,
/// nor claim: each is refused as already slashed (where the ledger is not
/// paused).
pub proof fn lemma_slash_blocks_the_account(
    s: StateView,
    admin_ctx: CallContext,
    staker: AccountAddress,
    ctx: CallContext,
    params: UnstakeParams,
)
    requires
        s.slash_error(admin_ctx, staker) is None,
        ctx.sender == Address::Account(staker),
        !s.paused,
    ensures
        s.after_slash(staker).request_unstake_error(ctx, params) == Some(Error::AlreadySlashed),
        s.after_slash(staker).immediate_unstake_error(staker, params.amount, ctx.now()) == Some(
            Error::AlreadySlashed,
        ),
        s.after_slash(staker).settle_error(ctx) == Some(Error::AlreadySlashed),
        s.after_slash(staker).claim_error(staker, ctx.now()) == Some(Error::AlreadySlashed),
        s.after_slash(staker).slash_error(admin_ctx, staker) == Some(Error::AlreadySlashed),
{
}

/// What slashing deducts: at a rate of 500 basis points, a matured total
/// of `total` pays `total - floor(total * 500 / 10000)`; an account that is
/// not slashed is paid the whole.
pub proof fn lemma_slashed_payout(total: u64)
    ensures
        payout_of(total, true, 500) == total - (total * 500) / 10000,
        payout_of(total, false, 500) == total,
        0 <= payout_of(total, true, 500) <= total,
{
}

/// A claim that the pool cannot cover is refused.
pub proof fn lemma_claim_needs_covering_pool(s: StateView, account: AccountAddress, now: u64)
    requires
        !s.paused,
        s.stakes.contains_key(account),
        !s.stakes[account].slashed,
        s.claimable(account, now) > s.rewards_pool,
    ensures
        s.claim_error(account, now) == Some(Error::InsufficientRewardsPool),
{
}

/// A permit for an entrypoint that permits do not reach is refused, however
/// valid it is otherwise.
pub proof fn lemma_permit_needs_known_entrypoint(
    s: StateView,
    ctx: CallContext,
    signer: AccountAddress,
    message: PermitMessage,
    unstake_amount: Option<u64>,
)
    requires
        !permits_reach(message.entry_point@),
    ensures
        s.permit_error(
            ctx,
            signer,
            message,
            Ok::<bool, CheckAccountSignatureError>(true),
            unstake_amount,
        ) is Some,
        !s.paused && message.nonce == s.nonce_of(signer) && message.contract_address
            == ctx.self_address && message.timestamp > ctx.block_time_millis ==> s.permit_error(
            ctx,
            signer,
            message,
            Ok::<bool, CheckAccountSignatureError>(true),
            unstake_amount,
        ) == Some(Error::WrongEntryPoint),
{
}

/// A principal changes only by a deposit or an unstake: settlements, claims,
/// slashes and the funding of the pool leave the principal of every account
/// as it was.
pub proof fn lemma_principal_changes_only_by_deposit_and_unstake(
    s: StateView,
    account: AccountAddress,
    now: u64,
    amount: u64,
    other: AccountAddress,
)
    requires
        s.stakes.contains_key(account),
        s.stakes.contains_key(other),
    ensures
        s.after_settle(account, now).stakes[other].amount == s.stakes[other].amount,
        s.after_claim(account, now).stakes[other].amount == s.stakes[other].amount,
        s.after_slash(account).stakes[other].amount == s.stakes[other].amount,
        s.after_fund(amount).stakes == s.stakes,
{
}

/// Pending rewards only grow by a deposit's checkpoint and only shrink, to
/// zero, by a claim; nothing else changes them.
pub proof fn lemma_pending_rewards_grow_or_are_claimed(
    s: StateView,
    account: AccountAddress,
    amount: u64,
    now: u64,
)
    requires
        s.stakes.contains_key(account),
    ensures
        s.after_deposit(account, amount, now).stakes[account].pending_rewards
            >= s.stakes[account].pending_rewards,
        s.after_claim(account, now).stakes[account].pending_rewards == 0,
        s.after_request_unstake(account, amount, now).stakes[account].pending_rewards
            == s.stakes[account].pending_rewards,
        s.after_settle(account, now).stakes[account].pending_rewards
            == s.stakes[account].pending_rewards,
        s.after_slash(account).stakes[account].pending_rewards == s.stakes[account].pending_rewards,
        amount != s.stakes[account].amount ==> s.after_immediate_unstake(
            account,
            amount,
        ).stakes[account].pending_rewards == s.stakes[account].pending_rewards,
{
}

/// A request joins the end of the queue and nothing else in it changes; a
/// settlement only takes matured requests out, and what stays keeps its
/// order: the queue after it is the queue before it without them.
pub proof fn lemma_queue_only_grows_at_its_end(
    s: StateView,
    account: AccountAddress,
    amount: u64,
    now: u64,
)
    requires
        s.stakes.contains_key(account),
    ensures
        s.after_request_unstake(account, amount, now).stakes[account].unbonding
            == s.stakes[account].unbonding.push(
            UnbondingInfo { amount, unlock_time: (now + s.unbonding_period) as u64 },
        ),
        s.after_settle(account, now).stakes[account].unbonding == still_pending(
            s.stakes[account].unbonding,
            now,
        ),
        matured(s.after_settle(account, now).stakes[account].unbonding, now).len() == 0,
{
    let queue = s.stakes[account].unbonding;
    lemma_pending_has_nothing_matured(queue, now);
}

/// Among the requests that stay behind at `now`, none has matured at `now`.
pub proof fn lemma_pending_has_nothing_matured(queue: Seq<UnbondingInfo>, now: u64)
    ensures
        matured(still_pending(queue, now), now).len() == 0,
    decreases queue.len(),
{
    reveal(Seq::filter);
    if queue.len() > 0 {
        let front = queue.drop_last();
        lemma_pending_has_nothing_matured(front, now);
        assert(front.push(queue.last()) =~= queue);
        lemma_split_push(front, queue.last(), now);
        if !is_matured(queue.last(), now) {
            lemma_split_push(still_pending(front, now), queue.last(), now);
        }
    }
}

} // verus!
