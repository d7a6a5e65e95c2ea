//! The ledger itself: its records, its nonces, and its global values.

use vstd::prelude::*;
use crate::account_map::AccountMap;
use crate::model::StateView;
use crate::params::{InitContractParams, ViewResult, INITIAL_APR};
use crate::records::{StakeInfo, StakeInfoView, UnbondingInfo};
use crate::reward::calculate_reward;
use crate::types::{AccountAddress, ContractAddress};

verus! {

/// The ledger. It owns the stake records and the nonces; nothing else holds
/// or changes them.
pub struct State {
    pub(crate) paused: bool,
    pub(crate) admin: AccountAddress,
    pub(crate) total_staked: u64,
    pub(crate) apr: u64,
    pub(crate) stakes: AccountMap<StakeInfo>,
    pub(crate) token_address: ContractAddress,
    pub(crate) total_participants: u64,
    pub(crate) nonces_registry: AccountMap<u64>,
    pub(crate) unbonding_period: u64,
    pub(crate) slashing_rate: u64,
    pub(crate) rewards_pool: u64,
    pub(crate) total_rewards_paid: u64,
}

/// The records of a store as mathematical values.
pub open spec fn record_views(stakes: Map<AccountAddress, StakeInfo>) -> Map<
    AccountAddress,
    StakeInfoView,
> {
    Map::new(|account: AccountAddress| stakes.contains_key(account), |account: AccountAddress|
        stakes[account]@)
}

impl View for State {
    type V = StateView;

    open(crate) spec fn view(&self) -> StateView {
        StateView {
            paused: self.paused,
            admin: self.admin,
            total_staked: self.total_staked,
            apr: self.apr,
            stakes: record_views(self.stakes@),
            token_address: self.token_address,
            total_participants: self.total_participants,
            nonces: self.nonces_registry@,
            unbonding_period: self.unbonding_period,
            slashing_rate: self.slashing_rate,
            rewards_pool: self.rewards_pool,
            total_rewards_paid: self.total_rewards_paid,
        }
    }
}

/// Copies a queue of withdrawal requests.
pub fn copy_queue(queue: &Vec<UnbondingInfo>) -> (copy: Vec<UnbondingInfo>)
    ensures
        copy@ == queue@,
{
    let mut copy: Vec<UnbondingInfo> = Vec::new();
    let mut i: usize = 0;
    while i < queue.len()
        invariant
            i <= queue@.len(),
            copy@ == queue@.take(i as int),
        decreases queue@.len() - i,
    {
        copy.push(queue[i]);
        assert(queue@.take(i + 1) =~= queue@.take(i as int).push(queue@[i as int]));
        i += 1;
    }
    assert(queue@.take(i as int) =~= queue@);
    copy
}

impl State {
    /// Both stores are in order: no account occurs twice in either.
    pub open(crate) spec fn stores_wf(&self) -> bool {
        self.stakes.wf() && self.nonces_registry.wf()
    }

    /// The ledger is well formed: its stores are in order and its invariant
    /// holds. Every operation asks for a well-formed ledger and leaves one.
    pub open spec fn wf(&self) -> bool {
        self.stores_wf() && self@.inv()
    }

    /// Sets up a ledger: not paused, nothing staked, the initial rate.
    pub fn new(params: &InitContractParams) -> (state: State)
        ensures
            state.wf(),
            state@ == StateView::initial(*params),
    {
        let state = State {
            paused: false,
            admin: params.admin,
            total_staked: 0,
            apr: INITIAL_APR,
            stakes: AccountMap::new(),
            token_address: params.token_address,
            total_participants: 0,
            nonces_registry: AccountMap::new(),
            unbonding_period: params.unbonding_period,
            slashing_rate: params.slashing_rate,
            rewards_pool: 0,
            total_rewards_paid: 0,
        };
        assert(state@.stakes =~= Map::<AccountAddress, StakeInfoView>::empty());
        assert(state@ =~= StateView::initial(*params));
        state
    }

    /// The record of an account, if it has one.
    pub(crate) fn record(&self, account: &AccountAddress) -> (r: Option<&StakeInfo>)
        requires
            self.stores_wf(),
        ensures
            match r {
                Some(info) => self@.stakes.contains_key(*account) && info@
                    == self@.stakes[*account],
                None => !self@.stakes.contains_key(*account),
            },
    {
        self.stakes.get(account)
    }

    /// Stores a record for an account, in place of the one it had.
    pub(crate) fn put_record(&mut self, account: AccountAddress, info: StakeInfo)
        requires
            old(self).stores_wf(),
        ensures
            final(self).stores_wf(),
            final(self)@ == (StateView {
                stakes: old(self)@.stakes.insert(account, info@),
                ..old(self)@
            }),
            final(self)@.stakes.dom().finite(),
    {
        proof {
            self.stakes.lemma_finite();
        }
        self.stakes.insert(account, info);
        proof {
            assert(self@.stakes =~= old(self)@.stakes.insert(account, info@));
            assert(self@.stakes.dom() =~= old(self).stakes@.dom().insert(account));
        }
    }

    /// Takes the record of an account out of the ledger.
    pub(crate) fn take_record(&mut self, account: &AccountAddress) -> (r: Option<StakeInfo>)
        requires
            old(self).stores_wf(),
        ensures
            final(self).stores_wf(),
            final(self)@ == (StateView {
                stakes: old(self)@.stakes.remove(*account),
                ..old(self)@
            }),
            final(self)@.stakes.dom().finite(),
            old(self)@.stakes.dom().finite(),
            match r {
                Some(info) => old(self)@.stakes.contains_key(*account) && info@
                    == old(self)@.stakes[*account],
                None => !old(self)@.stakes.contains_key(*account),
            },
    {
        proof {
            self.stakes.lemma_finite();
            assert(self@.stakes.dom() =~= self.stakes@.dom());
        }
        let taken = self.stakes.remove(account);
        proof {
            assert(self@.stakes =~= old(self)@.stakes.remove(*account));
            assert(self@.stakes.dom() =~= old(self).stakes@.dom().remove(*account));
        }
        taken
    }

    /// The principal and the checkpoint of an account; zeros where it has no
    /// record.
    pub fn get_user_stake(&self, user: &AccountAddress) -> (r: (u64, u64))
        requires
            self.wf(),
        ensures
            r == if self@.stakes.contains_key(*user) {
                (self@.stakes[*user].amount, self@.stakes[*user].timestamp)
            } else {
                (0u64, 0u64)
            },
    {
        match self.record(user) {
            Some(info) => (info.amount, info.timestamp),
            None => (0, 0),
        }
    }

    /// The nonce that the next permit of an account must carry.
    pub fn get_user_nonce(&self, user: &AccountAddress) -> (nonce: u64)
        requires
            self.wf(),
        ensures
            nonce == self@.nonce_of(*user),
    {
        match self.nonces_registry.get(user) {
            Some(n) => *n,
            None => 0,
        }
    }

    /// A snapshot of the global values.
    pub fn view_result(&self) -> (r: ViewResult)
        ensures
            r == (ViewResult {
                paused: self@.paused,
                admin: self@.admin,
                total_staked: self@.total_staked,
                apr: self@.apr,
                token_address: self@.token_address,
                total_participants: self@.total_participants,
                total_rewards_paid: self@.total_rewards_paid,
                rewards_pool: self@.rewards_pool,
            }),
    {
        ViewResult {
            paused: self.paused,
            admin: self.admin,
            total_staked: self.total_staked,
            apr: self.apr,
            token_address: self.token_address,
            total_participants: self.total_participants,
            total_rewards_paid: self.total_rewards_paid,
            rewards_pool: self.rewards_pool,
        }
    }

    /// The delay between a withdrawal request and its payout, in seconds.
    pub fn unbonding_period(&self) -> (r: u64)
        ensures
            r == self@.unbonding_period,
    {
        self.unbonding_period
    }

    /// The share deducted from the payouts of a slashed account, in basis
    /// points.
    pub fn slashing_rate(&self) -> (r: u64)
        ensures
            r == self@.slashing_rate,
    {
        self.slashing_rate
    }

    /// The record of an account as a reader sees it at `now`: as stored, but
    /// with the reward earned since the checkpoint added to the pending
    /// rewards. For an account without a record: an empty record with the
    /// checkpoint `now`. Nothing is stored.
    pub fn get_stake_info(&self, now: u64, user: &AccountAddress) -> (info: StakeInfo)
        requires
            self.wf(),
        ensures
            info@ == self@.stake_info_at(*user, now),
    {
        match self.record(user) {
            Some(held) => {
                let additional: u64 = calculate_reward(held.amount, held.timestamp, now, self.apr);
                StakeInfo {
                    amount: held.amount,
                    timestamp: held.timestamp,
                    unbonding: copy_queue(&held.unbonding),
                    slashed: held.slashed,
                    pending_rewards: held.pending_rewards.saturating_add(additional),
                }
            },
            None => StakeInfo {
                amount: 0,
                timestamp: now,
                unbonding: Vec::new(),
                slashed: false,
                pending_rewards: 0,
            },
        }
    }

    /// What the principal of an account has earned since its checkpoint; zero
    /// for a slashed account and for one without a record.
    pub fn get_earned_rewards(&self, now: u64, user: &AccountAddress) -> (earned: u64)
        requires
            self.wf(),
        ensures
            earned == self@.earned_rewards(*user, now),
    {
        match self.record(user) {
            Some(held) => {
                if held.slashed {
                    0
                } else {
                    calculate_reward(held.amount, held.timestamp, now, self.apr)
                }
            },
            None => 0,
        }
    }
}

} // verus!
