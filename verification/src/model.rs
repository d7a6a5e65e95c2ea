//! The ledger as a mathematical value, and what each operation makes of it.

use vstd::prelude::*;
use crate::error::Error;
use crate::params::{DepositParams, InitContractParams, UnstakeParams};
use crate::records::{total_principal, StakeInfoView, UnbondingInfo};
use crate::reward::reward;
use crate::types::{AccountAddress, Address, CallContext, ContractAddress};
use crate::unbonding::{matured, payout_of, still_pending, total_amount};

verus! {

/// The sum of two amounts, clamped to what 64 bits hold.
pub open spec fn saturating_sum(a: u64, b: u64) -> u64 {
    if a + b > u64::MAX {
        u64::MAX
    } else {
        (a + b) as u64
    }
}

/// The ledger as a mathematical value.
#[verifier::ext_equal]
pub struct StateView {
    /// While set, deposits, unstakes, claims and permits are refused.
    pub paused: bool,
    /// The admin: who may fund the rewards pool, slash and upgrade.
    pub admin: AccountAddress,
    /// The sum of all principals.
    pub total_staked: u64,
    /// The annual rate of the rewards, in basis points.
    pub apr: u64,
    /// The stake record of each account that has one.
    pub stakes: Map<AccountAddress, StakeInfoView>,
    /// The token contract whose tokens are staked.
    pub token_address: ContractAddress,
    /// How many accounts have a stake record.
    pub total_participants: u64,
    /// The next nonce of each account that has used a permit.
    pub nonces: Map<AccountAddress, u64>,
    /// The delay between a withdrawal request and its payout, in seconds.
    pub unbonding_period: u64,
    /// The share deducted from the payouts of a slashed account, in basis
    /// points.
    pub slashing_rate: u64,
    /// What is available to pay rewards from.
    pub rewards_pool: u64,
    /// What was paid in rewards so far.
    pub total_rewards_paid: u64,
}

impl StateView {
    /// What holds of the ledger at all times: the total staked is the sum of
    /// the principals of all records, and the participants are counted.
    pub open spec fn inv(self) -> bool {
        &&& self.totals_agree()
        &&& self.total_participants == self.stakes.dom().len()
    }

    /// The total staked is the sum of the principals of all records.
    pub open spec fn totals_agree(self) -> bool {
        &&& self.stakes.dom().finite()
        &&& self.total_staked == total_principal(self.stakes)
    }

    /// The nonce that the next permit of `account` must carry: 0 until the
    /// account has used one.
    pub open spec fn nonce_of(self, account: AccountAddress) -> u64 {
        if self.nonces.contains_key(account) {
            self.nonces[account]
        } else {
            0
        }
    }

    /// The ledger right after it was set up.
    pub open spec fn initial(params: InitContractParams) -> StateView {
        StateView {
            paused: false,
            admin: params.admin,
            total_staked: 0,
            apr: 139,
            stakes: Map::empty(),
            token_address: params.token_address,
            total_participants: 0,
            nonces: Map::empty(),
            unbonding_period: params.unbonding_period,
            slashing_rate: params.slashing_rate,
            rewards_pool: 0,
            total_rewards_paid: 0,
        }
    }

    /// The record of `account` as a reader sees it at `now`.
    pub open spec fn stake_info_at(self, account: AccountAddress, now: u64) -> StakeInfoView {
        if self.stakes.contains_key(account) {
            StakeInfoView {
                pending_rewards: self.claimable(account, now),
                ..self.stakes[account]
            }
        } else {
            StakeInfoView {
                amount: 0,
                timestamp: now,
                unbonding: Seq::empty(),
                slashed: false,
                pending_rewards: 0,
            }
        }
    }

    /// What the principal of `account` has earned since its checkpoint; zero
    /// for a slashed account and for one without a record.
    pub open spec fn earned_rewards(self, account: AccountAddress, now: u64) -> u64 {
        if self.stakes.contains_key(account) && !self.stakes[account].slashed {
            reward(self.stakes[account].amount, self.stakes[account].timestamp, now, self.apr)
        } else {
            0
        }
    }

    // ---- deposit ----
    /// Why a deposit is refused, if it is. The checks come in this order: the
    /// caller is the token contract; the token is the staked one; the tokens
    /// come from an account; the ledger is not paused; the amount is positive
    /// and the total staked can take it.
    pub open spec fn deposit_error(self, ctx: CallContext, params: DepositParams) -> Option<Error> {
        if ctx.sender != Address::Contract(self.token_address) {
            Some(Error::NotTokenContract)
        } else if params.token_id@.len() != 0 {
            Some(Error::InvalidResponse)
        } else if params.from is Contract {
            Some(Error::OnlyAccount)
        } else if self.paused {
            Some(Error::ContractPaused)
        } else if params.amount == 0 || self.total_staked + params.amount > u64::MAX {
            Some(Error::InvalidStakeAmount)
        } else {
            None
        }
    }

    /// The record of `account` after a deposit of `amount` at `now`. A first
    /// deposit creates the record. A later one first rolls the reward earned
    /// on a positive principal since the checkpoint into the pending rewards,
    /// then adds to the principal and moves the checkpoint to `now`.
    pub open spec fn deposited_record(
        self,
        account: AccountAddress,
        amount: u64,
        now: u64,
    ) -> StakeInfoView {
        if self.stakes.contains_key(account) {
            let held = self.stakes[account];
            StakeInfoView {
                amount: (held.amount + amount) as u64,
                timestamp: now,
                unbonding: held.unbonding,
                slashed: held.slashed,
                pending_rewards: if held.amount > 0 {
                    saturating_sum(
                        held.pending_rewards,
                        reward(held.amount, held.timestamp, now, self.apr),
                    )
                } else {
                    held.pending_rewards
                },
            }
        } else {
            StakeInfoView {
                amount,
                timestamp: now,
                unbonding: Seq::empty(),
                slashed: false,
                pending_rewards: 0,
            }
        }
    }

    /// The ledger after an accepted deposit.
    pub open spec fn after_deposit(self, account: AccountAddress, amount: u64, now: u64) -> StateView {
        StateView {
            stakes: self.stakes.insert(account, self.deposited_record(account, amount, now)),
            total_staked: (self.total_staked + amount) as u64,
            total_participants: if self.stakes.contains_key(account) {
                self.total_participants
            } else {
                saturating_sum(self.total_participants, 1)
            },
            ..self
        }
    }

    // ---- queued unstake ----
    /// Why a request to unstake is refused, if it is: the caller is no
    /// account; the ledger is paused; the account has no record; it is
    /// slashed; the amount exceeds the principal.
    pub open spec fn request_unstake_error(self, ctx: CallContext, params: UnstakeParams) -> Option<
        Error,
    > {
        if ctx.sender is Contract {
            Some(Error::OnlyAccount)
        } else if self.paused {
            Some(Error::ContractPaused)
        } else if !self.stakes.contains_key(ctx.sender->Account_0) {
            Some(Error::NoStakeFound)
        } else if self.stakes[ctx.sender->Account_0].slashed {
            Some(Error::AlreadySlashed)
        } else if self.stakes[ctx.sender->Account_0].amount < params.amount {
            Some(Error::InvalidUnstakeAmount)
        } else {
            None
        }
    }

    /// The ledger after an accepted request to unstake: the amount leaves the
    /// principal and the total staked, and joins the end of the account's
    /// queue, to unlock one unbonding period after `now`.
    pub open spec fn after_request_unstake(
        self,
        account: AccountAddress,
        amount: u64,
        now: u64,
    ) -> StateView {
        let held = self.stakes[account];
        StateView {
            stakes: self.stakes.insert(
                account,
                StakeInfoView {
                    amount: (held.amount - amount) as u64,
                    unbonding: held.unbonding.push(
                        UnbondingInfo {
                            amount,
                            unlock_time: (now + self.unbonding_period) as u64,
                        },
                    ),
                    ..held
                },
            ),
            total_staked: (self.total_staked - amount) as u64,
            ..self
        }
    }

    // ---- unstake with immediate payout ----
    /// The reward that an immediate unstake of `amount` pays on top: what
    /// `amount` has earned since the record's checkpoint.
    pub open spec fn unstake_reward(self, account: AccountAddress, amount: u64, now: u64) -> u64 {
        reward(amount, self.stakes[account].timestamp, now, self.apr)
    }

    /// Why an unstake with immediate payout is refused, if it is: the ledger
    /// is paused; the account has no record; it is slashed; the amount
    /// exceeds the principal; amount and reward together are more than any
    /// account can hold.
    pub open spec fn immediate_unstake_error(
        self,
        account: AccountAddress,
        amount: u64,
        now: u64,
    ) -> Option<Error> {
        if self.paused {
            Some(Error::ContractPaused)
        } else if !self.stakes.contains_key(account) {
            Some(Error::NoStakeFound)
        } else if self.stakes[account].slashed {
            Some(Error::AlreadySlashed)
        } else if self.stakes[account].amount < amount {
            Some(Error::InvalidUnstakeAmount)
        } else if amount + self.unstake_reward(account, amount, now) > u64::MAX {
            Some(Error::InsufficientFunds)
        } else {
            None
        }
    }

    /// The ledger after an unstake with immediate payout: a record whose whole
    /// principal leaves is deleted; any other keeps all but its principal.
    pub open spec fn after_immediate_unstake(self, account: AccountAddress, amount: u64) -> StateView {
        let held = self.stakes[account];
        if amount == held.amount {
            StateView {
                stakes: self.stakes.remove(account),
                total_staked: (self.total_staked - amount) as u64,
                total_participants: (self.total_participants - 1) as u64,
                ..self
            }
        } else {
            StateView {
                stakes: self.stakes.insert(
                    account,
                    StakeInfoView { amount: (held.amount - amount) as u64, ..held },
                ),
                total_staked: (self.total_staked - amount) as u64,
                ..self
            }
        }
    }

    // ---- settlement of matured requests ----
    /// Why a settlement is refused, if it is: the caller is no account; the
    /// account has no record; it is slashed; none of its requests has
    /// matured; what has matured is more than any account can hold.
    pub open spec fn settle_error(self, ctx: CallContext) -> Option<Error> {
        if ctx.sender is Contract {
            Some(Error::OnlyAccount)
        } else if !self.stakes.contains_key(ctx.sender->Account_0) {
            Some(Error::NoStakeFound)
        } else if self.stakes[ctx.sender->Account_0].slashed {
            Some(Error::AlreadySlashed)
        } else if matured(self.stakes[ctx.sender->Account_0].unbonding, ctx.now()).len() == 0 {
            Some(Error::UnbondingPeriodNotMet)
        } else if total_amount(matured(self.stakes[ctx.sender->Account_0].unbonding, ctx.now()))
            > u64::MAX {
            Some(Error::InsufficientFunds)
        } else {
            None
        }
    }

    /// What an accepted settlement pays out.
    pub open spec fn settle_payout(self, account: AccountAddress, now: u64) -> int {
        payout_of(
            total_amount(matured(self.stakes[account].unbonding, now)) as u64,
            self.stakes[account].slashed,
            self.slashing_rate,
        )
    }

    /// The ledger after an accepted settlement: the matured requests have
    /// left the account's queue.
    pub open spec fn after_settle(self, account: AccountAddress, now: u64) -> StateView {
        let held = self.stakes[account];
        StateView {
            stakes: self.stakes.insert(
                account,
                StakeInfoView { unbonding: still_pending(held.unbonding, now), ..held },
            ),
            ..self
        }
    }

    // ---- claim of rewards ----
    /// What `account` can claim at `now`: its pending rewards and what its
    /// principal has earned since the checkpoint.
    pub open spec fn claimable(self, account: AccountAddress, now: u64) -> u64 {
        let held = self.stakes[account];
        saturating_sum(held.pending_rewards, reward(held.amount, held.timestamp, now, self.apr))
    }

    /// Why a claim is refused, if it is: the ledger is paused; the account has
    /// no record; it is slashed; there is nothing to claim; the pool holds
    /// less than the claim.
    pub open spec fn claim_error(self, account: AccountAddress, now: u64) -> Option<Error> {
        if self.paused {
            Some(Error::ContractPaused)
        } else if !self.stakes.contains_key(account) {
            Some(Error::NoStakeFound)
        } else if self.stakes[account].slashed {
            Some(Error::AlreadySlashed)
        } else if self.claimable(account, now) == 0 {
            Some(Error::NoRewardsAvailable)
        } else if self.rewards_pool < self.claimable(account, now) {
            Some(Error::InsufficientRewardsPool)
        } else {
            None
        }
    }

    /// The ledger after an accepted claim: the pending rewards are zero, the
    /// checkpoint is `now`, and the claim has moved from the pool to the
    /// rewards paid.
    pub open spec fn after_claim(self, account: AccountAddress, now: u64) -> StateView {
        let held = self.stakes[account];
        let claim = self.claimable(account, now);
        StateView {
            stakes: self.stakes.insert(
                account,
                StakeInfoView { pending_rewards: 0, timestamp: now, ..held },
            ),
            rewards_pool: (self.rewards_pool - claim) as u64,
            total_rewards_paid: saturating_sum(self.total_rewards_paid, claim),
            ..self
        }
    }

    // ---- the rewards pool ----
    /// Why funding the rewards pool is refused, if it is: the caller is not
    /// the admin.
    pub open spec fn fund_error(self, ctx: CallContext) -> Option<Error> {
        if ctx.sender != Address::Account(self.admin) {
            Some(Error::OnlyAdmin)
        } else {
            None
        }
    }

    /// The ledger after the rewards pool was funded.
    pub open spec fn after_fund(self, amount: u64) -> StateView {
        StateView { rewards_pool: (self.rewards_pool + amount) as u64, ..self }
    }

    // ---- what the owner may do ----
    /// Why an operation of the contract's owner is refused, if it is: the
    /// caller is not the owner.
    pub open spec fn owner_error(ctx: CallContext) -> Option<Error> {
        if ctx.sender != Address::Account(ctx.owner) {
            Some(Error::UnAuthorized)
        } else {
            None
        }
    }

    // ---- slashing ----
    /// Why a slash is refused, if it is: the caller is not the admin; the
    /// account has no record; it is slashed already.
    pub open spec fn slash_error(self, ctx: CallContext, staker: AccountAddress) -> Option<Error> {
        if ctx.sender != Address::Account(self.admin) {
            Some(Error::OnlyAdmin)
        } else if !self.stakes.contains_key(staker) {
            Some(Error::NoStakeFound)
        } else if self.stakes[staker].slashed {
            Some(Error::AlreadySlashed)
        } else {
            None
        }
    }

    /// The ledger after an accepted slash: the record is flagged, and nothing
    /// else has changed.
    pub open spec fn after_slash(self, staker: AccountAddress) -> StateView {
        StateView {
            stakes: self.stakes.insert(
                staker,
                StakeInfoView { slashed: true, ..self.stakes[staker] },
            ),
            ..self
        }
    }
}

} // verus!
