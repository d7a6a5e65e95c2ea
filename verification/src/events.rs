//! What an operation hands back to be logged and to be transferred.

use vstd::prelude::*;
use crate::types::{AccountAddress, Address, Receiver};

verus! {

/// Tokens were staked.
#[derive(Debug, Clone, Copy, PartialEq, Eq)]
pub struct StakeEvent {
    pub user: AccountAddress,
    pub stake_amount: u64,
    pub staked_timestamp: u64,
}

/// Tokens were unstaked.
#[derive(Debug, Clone, Copy, PartialEq, Eq)]
pub struct UnstakeEvent {
    pub user: AccountAddress,
    pub unstaked_amount: u64,
    pub unix_timestamp: u64,
    pub rewards_earned: u64,
}

/// Rewards were claimed.
#[derive(Debug, Clone, Copy, PartialEq, Eq)]
pub struct ClaimEvent {
    pub user: AccountAddress,
    pub rewards_claimed: u64,
    pub claim_timestamp: u64,
}

/// The annual rate was changed.
#[derive(Debug, Clone, Copy, PartialEq, Eq, Structural)]
pub struct UpdateAprEvent {
    pub new_apr: u64,
    pub update_timestamp: u64,
}

/// A permit used up a nonce.
#[derive(Debug, Clone, Copy, PartialEq, Eq)]
pub struct NonceEvent {
    pub nonce: u64,
    pub account: AccountAddress,
}

/// A record to append to the event log.
#[derive(Debug, Clone, Copy, PartialEq, Eq)]
pub enum Event {
    Staked(StakeEvent),
    Unstaked(UnstakeEvent),
    Claimed(ClaimEvent),
    AprUpdated(UpdateAprEvent),
    Nonce(NonceEvent),
}

/// A transfer of staked tokens that the caller is to make through the token
/// contract.
#[derive(Debug, Clone, Copy, PartialEq, Eq)]
pub struct TransferRequest {
    /// Whose tokens move.
    pub from: Address,
    /// Who receives them.
    pub to: Receiver,
    /// How many.
    pub amount: u64,
    /// Whether `from` must be seen to hold more than `amount` first.
    pub check_balance: bool,
}

/// What an unstake with immediate payout leaves to be done.
#[derive(Debug, Clone, Copy, PartialEq, Eq)]
pub struct UnstakeOutcome {
    pub transfer: TransferRequest,
    pub event: UnstakeEvent,
}

/// What a claim of rewards leaves to be done.
#[derive(Debug, Clone, Copy, PartialEq, Eq)]
pub struct ClaimOutcome {
    pub transfer: TransferRequest,
    pub event: ClaimEvent,
}

/// What an accepted permit leaves to be done, in this order: the transfer,
/// the record of the operation, the record of the nonce.
#[derive(Debug, Clone, Copy, PartialEq, Eq)]
pub struct PermitOutcome {
    pub transfer: TransferRequest,
    pub event: Event,
    pub nonce_event: NonceEvent,
}

} // verus!
