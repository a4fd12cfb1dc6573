//! What the exchange asks of its surroundings, and what it offers to those who only want a
//! price.

use vstd::prelude::*;
use crate::types::{
    refusal_of, AccountId, Answered, AssetId, Balance, Error, Record, Request, Transfer,
};

verus! {

/// The runtime around the exchange: the ledger of fungible assets that holds every balance.
///
/// The exchange keeps no balances of its own. It asks the ledger to move, mint and burn, and
/// the ledger may refuse each request. Nothing is assumed of what a ledger does with a
/// request.
///
/// One thing is asked of every ledger, and the contracts of the exchange rest on it: a ledger
/// keeps a record of what it was asked and of what it answered, and each of its four
/// operations adds one entry to the record, with the request as it was made and the refusal
/// as it is returned. The record is part of the ledger's value. An implementation outside
/// verified code gives `record` a body that is never run, and nobody checks that it keeps the
/// record: a ledger whose value does not tell its past does not meet this contract.
///
/// Each operation of the exchange stands or falls as a whole. Where one returns an error after
/// the ledger has carried out part of its requests, the runtime must drop what the ledger did
/// for that operation.
pub trait Config {
    /// What the ledger has been asked and what it answered, oldest first.
    spec fn record(&self) -> Record;

    /// Creates the asset `id` with `admin` as its owner.
    fn create(
        &mut self,
        id: AssetId,
        admin: AccountId,
        is_sufficient: bool,
        min_balance: Balance,
    ) -> (answer: Result<(), sp_runtime::DispatchError>)
        ensures
            final(self).record() == old(self).record().push(
                Answered {
                    request: Request::Create { id, admin, is_sufficient, min_balance },
                    refusal: refusal_of(answer),
                },
            ),
    ;

    /// Mints `amount` of `asset` into the account `who`.
    fn mint_into(&mut self, asset: AssetId, who: AccountId, amount: Balance) -> (answer: Result<
        Balance,
        sp_runtime::DispatchError,
    >)
        ensures
            final(self).record() == old(self).record().push(
                Answered {
                    request: Request::MintInto { asset, who, amount },
                    refusal: refusal_of(answer),
                },
            ),
    ;

    /// Burns `amount` of `asset` from the account `who`.
    fn burn_from(&mut self, asset: AssetId, who: AccountId, amount: Balance) -> (answer: Result<
        Balance,
        sp_runtime::DispatchError,
    >)
        ensures
            final(self).record() == old(self).record().push(
                Answered {
                    request: Request::BurnFrom { asset, who, amount },
                    refusal: refusal_of(answer),
                },
            ),
    ;

    /// Moves `amount` of `asset` from `source` to `dest`. With `keep_alive` the ledger refuses
    /// a transfer that would close the source account.
    fn transfer(
        &mut self,
        asset: AssetId,
        source: AccountId,
        dest: AccountId,
        amount: Balance,
        keep_alive: bool,
    ) -> (answer: Result<Balance, sp_runtime::DispatchError>)
        ensures
            final(self).record() == old(self).record().push(
                Answered {
                    request: Request::Transfer(
                        Transfer { asset, source, dest, amount, keep_alive },
                    ),
                    refusal: refusal_of(answer),
                },
            ),
    ;
}

/// For querying results of swaps without modifying storage. Doubles as a price oracle.
pub trait SimulateSwap {
    type AmmId;

    type AssetType;

    type Balance;

    /// Compute the amount of the opposite asset one would get if sending `amount` of `asset_type`
    /// to the AMM corresponding to `amm_id`.
    ///
    /// Takes slippage and fees into account, yielding the net amount of asset that would be
    /// returned by the swap operation.
    fn simulate_swap(
        &self,
        amm_id: Self::AmmId,
        asset_type: Self::AssetType,
        amount: Self::Balance,
    ) -> Result<Self::Balance, Error>;

    /// Compute the amount of input asset one would need to get `amount` of `asset_type` back.
    ///
    /// Takes slippage and fees into account. Price may be an underestimate due to rounding errors
    /// in integer division.
    fn output_price(
        &self,
        amm_id: Self::AmmId,
        asset_type: Self::AssetType,
        amount: Self::Balance,
    ) -> Result<Self::Balance, Error>;
}

} // verus!
