//! The operations on stakes: deposit, the two ways to unstake, settlement,
//! claims and slashing.

use vstd::prelude::*;
use crate::error::Error;
use crate::events::{
    ClaimEvent, ClaimOutcome, StakeEvent, TransferRequest, UnstakeEvent, UnstakeOutcome,
};
use crate::params::{DepositParams, UnstakeParams};
use crate::records::{
    lemma_principal_within_total, lemma_total_principal_insert, lemma_total_principal_remove,
    StakeInfo, UnbondingInfo,
};
use crate::reward::calculate_reward;
use crate::state::State;
use crate::types::{AccountAddress, Address, CallContext, Receiver};
use crate::unbonding::{settlement_payout, split_matured};

verus! {

/// The account behind a caller, where the caller is one.
pub fn only_account(sender: &Address) -> (r: Result<AccountAddress, Error>)
    ensures
        r == match *sender {
            Address::Contract(_) => Err::<AccountAddress, Error>(Error::OnlyAccount),
            Address::Account(account) => Ok(account),
        },
{
    match sender {
        Address::Contract(_) => Err(Error::OnlyAccount),
        Address::Account(account) => Ok(*account),
    }
}

impl State {
    /// Takes a deposit that the token contract announces: creates the
    /// depositor's record or adds to its principal, and adds to the total
    /// staked. A refused deposit changes nothing.
    pub fn deposit(&mut self, ctx: &CallContext, params: &DepositParams) -> (r: Result<
        StakeEvent,
        Error,
    >)
        requires
            old(self).wf(),
        ensures
            final(self).wf(),
            match r {
                Ok(event) => {
                    &&& old(self)@.deposit_error(*ctx, *params) is None
                    &&& final(self)@ == old(self)@.after_deposit(
                        params.from->Account_0,
                        params.amount,
                        ctx.now(),
                    )
                    &&& event == (StakeEvent {
                        user: params.from->Account_0,
                        stake_amount: params.amount,
                        staked_timestamp: ctx.now(),
                    })
                },
                Err(e) => old(self)@.deposit_error(*ctx, *params) == Some(e) && final(self)@
                    == old(self)@,
            },
    {
        if !ctx.sender.matches_contract(&self.token_address) {
            return Err(Error::NotTokenContract);
        }
        if params.token_id.len() != 0 {
            return Err(Error::InvalidResponse);
        }
        let account: AccountAddress = match only_account(&params.from) {
            Ok(account) => account,
            Err(e) => {
                return Err(e);
            },
        };
        let now: u64 = ctx.get_current_timestamp();
        let amount: u64 = params.amount;
        if self.paused {
            return Err(Error::ContractPaused);
        }
        if amount == 0 {
            return Err(Error::InvalidStakeAmount);
        }
        let new_total: u64 = match self.total_staked.checked_add(amount) {
            Some(total) => total,
            None => {
                return Err(Error::InvalidStakeAmount);
            },
        };
        let ghost before = self@;
        let taken = self.take_record(&account);
        let is_new_staker = taken.is_none();
        let info = match taken {
            Some(held) => {
                proof {
                    lemma_principal_within_total(before.stakes, account);
                }
                let pending: u64 = if held.amount > 0 {
                    let earned: u64 = calculate_reward(held.amount, held.timestamp, now, self.apr);
                    held.pending_rewards.saturating_add(earned)
                } else {
                    held.pending_rewards
                };
                StakeInfo {
                    amount: held.amount + amount,
                    timestamp: now,
                    unbonding: held.unbonding,
                    slashed: held.slashed,
                    pending_rewards: pending,
                }
            },
            None => StakeInfo {
                amount,
                timestamp: now,
                unbonding: Vec::new(),
                slashed: false,
                pending_rewards: 0,
            },
        };
        self.put_record(account, info);
        self.total_staked = new_total;
        if is_new_staker {
            proof {
                self.stakes.lemma_len_bounded();
                assert(self@.stakes.dom() =~= self.stakes@.dom());
                assert(before.stakes.remove(account) =~= before.stakes);
            }
            self.total_participants = self.total_participants.saturating_add(1);
        }
        proof {
            let after = before.after_deposit(account, amount, now);
            assert(before.stakes.remove(account).insert(account, info@) =~= before.stakes.insert(
                account,
                info@,
            ));
            assert(self@ =~= after);
            lemma_total_principal_insert(before.stakes, account, info@);
        }
        Ok(StakeEvent { user: account, stake_amount: amount, staked_timestamp: now })
    }

    /// Queues a withdrawal for the calling account: the amount leaves the
    /// principal at once and can be paid out one unbonding period later. No
    /// tokens move and no reward is computed. A refused request changes
    /// nothing.
    pub fn request_unstake(&mut self, ctx: &CallContext, params: &UnstakeParams) -> (r: Result<
        UnstakeEvent,
        Error,
    >)
        requires
            old(self).wf(),
            ctx.now() + old(self)@.unbonding_period <= u64::MAX,
        ensures
            final(self).wf(),
            match r {
                Ok(event) => {
                    &&& old(self)@.request_unstake_error(*ctx, *params) is None
                    &&& final(self)@ == old(self)@.after_request_unstake(
                        ctx.sender->Account_0,
                        params.amount,
                        ctx.now(),
                    )
                    &&& event == (UnstakeEvent {
                        user: ctx.sender->Account_0,
                        unstaked_amount: params.amount,
                        unix_timestamp: ctx.now(),
                        rewards_earned: 0,
                    })
                },
                Err(e) => old(self)@.request_unstake_error(*ctx, *params) == Some(e)
                    && final(self)@ == old(self)@,
            },
    {
        let account: AccountAddress = match only_account(&ctx.sender) {
            Ok(account) => account,
            Err(e) => {
                return Err(e);
            },
        };
        if self.paused {
            return Err(Error::ContractPaused);
        }
        match self.record(&account) {
            None => {
                return Err(Error::NoStakeFound);
            },
            Some(held) => {
                if held.slashed {
                    return Err(Error::AlreadySlashed);
                }
                if held.amount < params.amount {
                    return Err(Error::InvalidUnstakeAmount);
                }
            },
        }
        let amount: u64 = params.amount;
        let now: u64 = ctx.get_current_timestamp();
        let unlock_time: u64 = now + self.unbonding_period;
        let ghost before = self@;
        proof {
            lemma_principal_within_total(before.stakes, account);
        }
        let mut info: StakeInfo = match self.take_record(&account) {
            Some(held) => held,
            None => {
                return Err(Error::NoStakeFound);
            },
        };
        info.unbonding.push(UnbondingInfo { amount, unlock_time });
        info.amount = info.amount - amount;
        self.put_record(account, info);
        self.total_staked = self.total_staked - amount;
        proof {
            assert(before.stakes.remove(account).insert(account, info@) =~= before.stakes.insert(
                account,
                info@,
            ));
            assert(self@ =~= before.after_request_unstake(account, amount, now));
            lemma_total_principal_insert(before.stakes, account, info@);
            assert(self@.stakes.dom() =~= before.stakes.dom());
        }
        Ok(
            UnstakeEvent {
                user: account,
                unstaked_amount: amount,
                unix_timestamp: now,
                rewards_earned: 0,
            },
        )
    }

    /// Unstakes with immediate payout, for `account`: the amount leaves the
    /// principal and is to be transferred at once, together with the reward
    /// that it has earned since the record's checkpoint. A record whose whole
    /// principal leaves is deleted. A refused unstake changes nothing.
    pub fn immediate_unstake_and_settle(
        &mut self,
        ctx: &CallContext,
        account: AccountAddress,
        amount: u64,
    ) -> (r: Result<UnstakeOutcome, Error>)
        requires
            old(self).wf(),
        ensures
            final(self).wf(),
            match r {
                Ok(outcome) => {
                    &&& old(self)@.immediate_unstake_error(account, amount, ctx.now()) is None
                    &&& final(self)@ == old(self)@.after_immediate_unstake(account, amount)
                    &&& outcome.transfer == (TransferRequest {
                        from: Address::Contract(ctx.self_address),
                        to: Receiver::Account(account),
                        amount: (amount + old(self)@.unstake_reward(
                            account,
                            amount,
                            ctx.now(),
                        )) as u64,
                        check_balance: true,
                    })
                    &&& outcome.event == (UnstakeEvent {
                        user: account,
                        unstaked_amount: amount,
                        unix_timestamp: ctx.now(),
                        rewards_earned: old(self)@.unstake_reward(account, amount, ctx.now()),
                    })
                },
                Err(e) => old(self)@.immediate_unstake_error(account, amount, ctx.now()) == Some(
                    e,
                ) && final(self)@ == old(self)@,
            },
    {
        let now: u64 = ctx.get_current_timestamp();
        if self.paused {
            return Err(Error::ContractPaused);
        }
        let (staked_amount, checkpoint): (u64, u64) = match self.record(&account) {
            None => {
                return Err(Error::NoStakeFound);
            },
            Some(held) => {
                if held.slashed {
                    return Err(Error::AlreadySlashed);
                }
                (held.amount, held.timestamp)
            },
        };
        if staked_amount < amount {
            return Err(Error::InvalidUnstakeAmount);
        }
        let earned: u64 = calculate_reward(amount, checkpoint, now, self.apr);
        let payout: u64 = match amount.checked_add(earned) {
            Some(payout) => payout,
            None => {
                return Err(Error::InsufficientFunds);
            },
        };
        let ghost before = self@;
        proof {
            lemma_principal_within_total(before.stakes, account);
            lemma_total_principal_remove(before.stakes, account);
        }
        let mut info: StakeInfo = match self.take_record(&account) {
            Some(held) => held,
            None => {
                return Err(Error::NoStakeFound);
            },
        };
        if amount == staked_amount {
            self.total_participants = self.total_participants - 1;
        } else {
            info.amount = staked_amount - amount;
            self.put_record(account, info);
            proof {
                assert(before.stakes.remove(account).insert(account, info@)
                    =~= before.stakes.insert(account, info@));
                lemma_total_principal_insert(before.stakes, account, info@);
                assert(self@.stakes.dom() =~= before.stakes.dom());
            }
        }
        self.total_staked = self.total_staked - amount;
        proof {
            assert(self@ =~= before.after_immediate_unstake(account, amount));
        }
        Ok(
            UnstakeOutcome {
                transfer: TransferRequest {
                    from: Address::Contract(ctx.self_address),
                    to: Receiver::Account(account),
                    amount: payout,
                    check_balance: true,
                },
                event: UnstakeEvent {
                    user: account,
                    unstaked_amount: amount,
                    unix_timestamp: now,
                    rewards_earned: earned,
                },
            },
        )
    }

    /// Pays out the matured withdrawal requests of the calling account: they
    /// leave its queue, the others stay in their order, and the sum of what
    /// left is to be transferred. A refused settlement changes nothing.
    pub fn settle_matured(&mut self, ctx: &CallContext) -> (r: Result<TransferRequest, Error>)
        requires
            old(self).wf(),
        ensures
            final(self).wf(),
            match r {
                Ok(transfer) => {
                    &&& old(self)@.settle_error(*ctx) is None
                    &&& final(self)@ == old(self)@.after_settle(ctx.sender->Account_0, ctx.now())
                    &&& transfer == (TransferRequest {
                        from: Address::Contract(ctx.self_address),
                        to: Receiver::Account(ctx.sender->Account_0),
                        amount: old(self)@.settle_payout(ctx.sender->Account_0, ctx.now()) as u64,
                        check_balance: true,
                    })
                },
                Err(e) => old(self)@.settle_error(*ctx) == Some(e) && final(self)@ == old(self)@,
            },
    {
        let account: AccountAddress = match only_account(&ctx.sender) {
            Ok(account) => account,
            Err(e) => {
                return Err(e);
            },
        };
        let now: u64 = ctx.get_current_timestamp();
        let (settlement, slashed) = match self.record(&account) {
            None => {
                return Err(Error::NoStakeFound);
            },
            Some(held) => {
                if held.slashed {
                    return Err(Error::AlreadySlashed);
                }
                (split_matured(&held.unbonding, now), held.slashed)
            },
        };
        if settlement.matured_count == 0 {
            return Err(Error::UnbondingPeriodNotMet);
        }
        if settlement.matured_total > u64::MAX as u128 {
            return Err(Error::InsufficientFunds);
        }
        let total: u64 = settlement.matured_total as u64;
        let payout: u64 = settlement_payout(total, slashed, self.slashing_rate);
        let ghost before = self@;
        let mut info: StakeInfo = match self.take_record(&account) {
            Some(held) => held,
            None => {
                return Err(Error::NoStakeFound);
            },
        };
        info.unbonding = settlement.remaining;
        self.put_record(account, info);
        proof {
            assert(before.stakes.remove(account).insert(account, info@) =~= before.stakes.insert(
                account,
                info@,
            ));
            assert(self@ =~= before.after_settle(account, now));
            lemma_total_principal_insert(before.stakes, account, info@);
            lemma_total_principal_remove(before.stakes, account);
            assert(self@.stakes.dom() =~= before.stakes.dom());
        }
        Ok(
            TransferRequest {
                from: Address::Contract(ctx.self_address),
                to: Receiver::Account(account),
                amount: payout,
                check_balance: true,
            },
        )
    }

    /// Claims the rewards of `account`: what is pending and what the
    /// principal has earned since the checkpoint. The claim leaves the
    /// rewards pool and is to be transferred; the checkpoint moves to now. A
    /// refused claim changes nothing.
    pub fn claim_rewards_for(&mut self, ctx: &CallContext, account: AccountAddress) -> (r:
        Result<ClaimOutcome, Error>)
        requires
            old(self).wf(),
        ensures
            final(self).wf(),
            match r {
                Ok(outcome) => {
                    &&& old(self)@.claim_error(account, ctx.now()) is None
                    &&& final(self)@ == old(self)@.after_claim(account, ctx.now())
                    &&& outcome.transfer == (TransferRequest {
                        from: Address::Contract(ctx.self_address),
                        to: Receiver::Account(account),
                        amount: old(self)@.claimable(account, ctx.now()),
                        check_balance: true,
                    })
                    &&& outcome.event == (ClaimEvent {
                        user: account,
                        rewards_claimed: old(self)@.claimable(account, ctx.now()),
                        claim_timestamp: ctx.now(),
                    })
                },
                Err(e) => old(self)@.claim_error(account, ctx.now()) == Some(e) && final(self)@
                    == old(self)@,
            },
    {
        if self.paused {
            return Err(Error::ContractPaused);
        }
        let now: u64 = ctx.get_current_timestamp();
        let total_rewards: u64 = match self.record(&account) {
            None => {
                return Err(Error::NoStakeFound);
            },
            Some(held) => {
                if held.slashed {
                    return Err(Error::AlreadySlashed);
                }
                let earned: u64 = calculate_reward(held.amount, held.timestamp, now, self.apr);
                held.pending_rewards.saturating_add(earned)
            },
        };
        if total_rewards == 0 {
            return Err(Error::NoRewardsAvailable);
        }
        if self.rewards_pool < total_rewards {
            return Err(Error::InsufficientRewardsPool);
        }
        let ghost before = self@;
        let mut info: StakeInfo = match self.take_record(&account) {
            Some(held) => held,
            None => {
                return Err(Error::NoStakeFound);
            },
        };
        info.pending_rewards = 0;
        info.timestamp = now;
        self.put_record(account, info);
        self.rewards_pool = self.rewards_pool - total_rewards;
        self.total_rewards_paid = self.total_rewards_paid.saturating_add(total_rewards);
        proof {
            assert(before.stakes.remove(account).insert(account, info@) =~= before.stakes.insert(
                account,
                info@,
            ));
            assert(self@ =~= before.after_claim(account, now));
            lemma_total_principal_insert(before.stakes, account, info@);
            lemma_total_principal_remove(before.stakes, account);
            assert(self@.stakes.dom() =~= before.stakes.dom());
        }
        Ok(
            ClaimOutcome {
                transfer: TransferRequest {
                    from: Address::Contract(ctx.self_address),
                    to: Receiver::Account(account),
                    amount: total_rewards,
                    check_balance: true,
                },
                event: ClaimEvent {
                    user: account,
                    rewards_claimed: total_rewards,
                    claim_timestamp: now,
                },
            },
        )
    }

    /// Claims the rewards of the calling account.
    pub fn claim_rewards(&mut self, ctx: &CallContext) -> (r: Result<ClaimOutcome, Error>)
        requires
            old(self).wf(),
        ensures
            final(self).wf(),
            ctx.sender is Contract ==> r == Err::<ClaimOutcome, Error>(Error::OnlyAccount)
                && final(self)@ == old(self)@,
            ctx.sender is Account ==> match r {
                Ok(outcome) => {
                    &&& old(self)@.claim_error(ctx.sender->Account_0, ctx.now()) is None
                    &&& final(self)@ == old(self)@.after_claim(ctx.sender->Account_0, ctx.now())
                    &&& outcome.transfer == (TransferRequest {
                        from: Address::Contract(ctx.self_address),
                        to: Receiver::Account(ctx.sender->Account_0),
                        amount: old(self)@.claimable(ctx.sender->Account_0, ctx.now()),
                        check_balance: true,
                    })
                    &&& outcome.event == (ClaimEvent {
                        user: ctx.sender->Account_0,
                        rewards_claimed: old(self)@.claimable(ctx.sender->Account_0, ctx.now()),
                        claim_timestamp: ctx.now(),
                    })
                },
                Err(e) => old(self)@.claim_error(ctx.sender->Account_0, ctx.now()) == Some(e)
                    && final(self)@ == old(self)@,
            },
    {
        let account: AccountAddress = match only_account(&ctx.sender) {
            Ok(account) => account,
            Err(e) => {
                return Err(e);
            },
        };
        self.claim_rewards_for(ctx, account)
    }

    /// Funds the rewards pool, for the admin: the amount is to be pulled
    /// from the admin into the contract, and the pool grows by it. A refused
    /// funding changes nothing.
    pub fn fund_rewards_pool(&mut self, ctx: &CallContext, amount: u64) -> (r: Result<
        TransferRequest,
        Error,
    >)
        requires
            old(self).wf(),
            old(self)@.rewards_pool + amount <= u64::MAX,
        ensures
            final(self).wf(),
            match r {
                Ok(transfer) => {
                    &&& old(self)@.fund_error(*ctx) is None
                    &&& final(self)@ == old(self)@.after_fund(amount)
                    &&& transfer == (TransferRequest {
                        from: Address::Account(old(self)@.admin),
                        to: Receiver::Contract(ctx.self_address),
                        amount,
                        check_balance: true,
                    })
                },
                Err(e) => old(self)@.fund_error(*ctx) == Some(e) && final(self)@ == old(self)@,
            },
    {
        let admin: AccountAddress = self.admin;
        if !ctx.sender.matches_account(&admin) {
            return Err(Error::OnlyAdmin);
        }
        self.rewards_pool = self.rewards_pool + amount;
        proof {
            assert(self@ =~= old(self)@.after_fund(amount));
        }
        Ok(
            TransferRequest {
                from: Address::Account(admin),
                to: Receiver::Contract(ctx.self_address),
                amount,
                check_balance: true,
            },
        )
    }

    /// Flags an account as slashed, for the admin. No tokens move. A refused
    /// slash changes nothing.
    pub fn slash(&mut self, ctx: &CallContext, staker: AccountAddress) -> (r: Result<(), Error>)
        requires
            old(self).wf(),
        ensures
            final(self).wf(),
            match r {
                Ok(_) => old(self)@.slash_error(*ctx, staker) is None && final(self)@ == old(self)@.after_slash(staker),
                Err(e) => old(self)@.slash_error(*ctx, staker) == Some(e) && final(self)@ == old(self)@,
            },
    {
        if !ctx.sender.matches_account(&self.admin) {
            return Err(Error::OnlyAdmin);
        }
        match self.record(&staker) {
            None => {
                return Err(Error::NoStakeFound);
            },
            Some(held) => {
                if held.slashed {
                    return Err(Error::AlreadySlashed);
                }
            },
        }
        let ghost before = self@;
        let mut info: StakeInfo = match self.take_record(&staker) {
            Some(held) => held,
            None => {
                return Err(Error::NoStakeFound);
            },
        };
        info.slashed = true;
        self.put_record(staker, info);
        proof {
            assert(before.stakes.remove(staker).insert(staker, info@) =~= before.stakes.insert(
                staker,
                info@,
            ));
            assert(self@ =~= before.after_slash(staker));
            lemma_total_principal_insert(before.stakes, staker, info@);
            lemma_total_principal_remove(before.stakes, staker);
            assert(self@.stakes.dom() =~= before.stakes.dom());
        }
        Ok(())
    }
}

} // verus!
