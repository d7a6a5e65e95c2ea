//! What the owner of the contract and the admin of the ledger may do.

use vstd::prelude::*;
use crate::error::Error;
use crate::events::{TransferRequest, UpdateAprEvent};
use crate::model::StateView;
use crate::params::{SetPausedParams, UpdateAprParams, WithdrawEuroEParams};
use crate::state::State;
use crate::types::{Address, CallContext, Receiver};

verus! {

/// Lets only the owner of the contract through.
pub fn only_owner(ctx: &CallContext) -> (r: Result<(), Error>)
    ensures
        r == match StateView::owner_error(*ctx) {
            Some(e) => Err::<(), Error>(e),
            None => Ok(()),
        },
{
    if !ctx.sender.matches_account(&ctx.owner) {
        return Err(Error::UnAuthorized);
    }
    Ok(())
}

impl State {
    /// Withdraws tokens that the contract holds, for the owner: the amount
    /// is to be transferred to the address named. The ledger does not change.
    pub fn withdraw_token(&self, ctx: &CallContext, params: &WithdrawEuroEParams) -> (r: Result<
        TransferRequest,
        Error,
    >)
        ensures
            r == match StateView::owner_error(*ctx) {
                Some(e) => Err::<TransferRequest, Error>(e),
                None => Ok(
                    TransferRequest {
                        from: Address::Contract(ctx.self_address),
                        to: Receiver::Account(params.withdraw_address),
                        amount: params.amount,
                        check_balance: true,
                    },
                ),
            },
    {
        if !ctx.sender.matches_account(&ctx.owner) {
            return Err(Error::UnAuthorized);
        }
        Ok(
            TransferRequest {
                from: Address::Contract(ctx.self_address),
                to: Receiver::Account(params.withdraw_address),
                amount: params.amount,
                check_balance: true,
            },
        )
    }

    /// Pauses the ledger or lets it run again, for the owner.
    pub fn set_paused(&mut self, ctx: &CallContext, params: &SetPausedParams) -> (r: Result<
        (),
        Error,
    >)
        requires
            old(self).wf(),
        ensures
            final(self).wf(),
            match r {
                Ok(_) => StateView::owner_error(*ctx) is None && final(self)@ == (StateView {
                    paused: params.paused,
                    ..old(self)@
                }),
                Err(e) => StateView::owner_error(*ctx) == Some(e) && final(self)@ == old(self)@,
            },
    {
        if !ctx.sender.matches_account(&ctx.owner) {
            return Err(Error::UnAuthorized);
        }
        self.paused = params.paused;
        proof {
            assert(self@ =~= (StateView { paused: params.paused, ..old(self)@ }));
        }
        Ok(())
    }

    /// Sets the annual rate, for the owner. Rewards that were not rolled into
    /// a record yet are from now on computed at the new rate.
    pub fn update_apr(&mut self, ctx: &CallContext, params: &UpdateAprParams) -> (r: Result<
        UpdateAprEvent,
        Error,
    >)
        requires
            old(self).wf(),
        ensures
            final(self).wf(),
            match r {
                Ok(event) => {
                    &&& StateView::owner_error(*ctx) is None
                    &&& final(self)@ == (StateView { apr: params.new_apr, ..old(self)@ })
                    &&& event == (UpdateAprEvent {
                        new_apr: params.new_apr,
                        update_timestamp: ctx.now(),
                    })
                },
                Err(e) => StateView::owner_error(*ctx) == Some(e) && final(self)@ == old(self)@,
            },
    {
        let update_timestamp: u64 = ctx.get_current_timestamp();
        if !ctx.sender.matches_account(&ctx.owner) {
            return Err(Error::UnAuthorized);
        }
        self.apr = params.new_apr;
        proof {
            assert(self@ =~= (StateView { apr: params.new_apr, ..old(self)@ }));
        }
        Ok(UpdateAprEvent { new_apr: params.new_apr, update_timestamp })
    }

    /// Lets only the admin through: who funds the rewards pool, slashes, and
    /// replaces the contract's code.
    pub fn only_admin(&self, ctx: &CallContext) -> (r: Result<(), Error>)
        ensures
            r == if ctx.sender == Address::Account(self@.admin) {
                Ok::<(), Error>(())
            } else {
                Err::<(), Error>(Error::OnlyAdmin)
            },
    {
        if !ctx.sender.matches_account(&self.admin) {
            return Err(Error::OnlyAdmin);
        }
        Ok(())
    }

    /// Lets only the token contract through: who announces deposits.
    pub fn only_token_contract(&self, ctx: &CallContext) -> (r: Result<(), Error>)
        ensures
            r == if ctx.sender == Address::Contract(self@.token_address) {
                Ok::<(), Error>(())
            } else {
                Err::<(), Error>(Error::NotTokenContract)
            },
    {
        if !ctx.sender.matches_contract(&self.token_address) {
            return Err(Error::NotTokenContract);
        }
        Ok(())
    }

    /// Lets calls through while the ledger is not paused.
    pub fn ensure_not_paused(&self) -> (r: Result<(), Error>)
        ensures
            r == if self@.paused {
                Err::<(), Error>(Error::ContractPaused)
            } else {
                Ok::<(), Error>(())
            },
    {
        if self.paused {
            return Err(Error::ContractPaused);
        }
        Ok(())
    }
}

} // verus!
