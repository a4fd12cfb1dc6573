//! The exchange itself: the registry of pools and the four operations on it.

use vstd::prelude::*;
use vstd::bytes::spec_u64_to_le_bytes;
use sp_runtime::traits::AccountIdConversion;
use crate::helpers::{ArithmeticError, TryAdd};
use crate::traits::{Config, SimulateSwap};
use crate::types::{
    ensure_root, ensure_signed, error_of, signer, AccountId, Amm, AmmId, AssetId, AssetType,
    Balance, Error, Event, Origin, Record, Request, FULL_BPS,
};

verus! {

/// The bytes of the account that holds the reserves of the pool `amm_id` of the exchange
/// `pallet_id`: the tag `modl`, the eight bytes of the identifier, the number of the pool with
/// its lowest byte first, and zeros up to the width of an account.
pub open spec fn sub_account(pallet_id: Seq<u8>, amm_id: AmmId) -> Seq<u8> {
    seq![0x6du8, 0x6fu8, 0x64u8, 0x6cu8] + pallet_id + spec_u64_to_le_bytes(amm_id) + Seq::new(
        12,
        |i: int| 0u8,
    )
}

/// Calls `into_sub_account_truncating` of `sp_runtime::traits::AccountIdConversion` on a
/// `frame_support::PalletId`, with the pool's number as the sub-account seed.
///
/// The call encodes the type tag of the identifier, the identifier and the seed one after the
/// other, and reads an account of 32 bytes from these 20 bytes and the zeros that follow
/// them. No byte of the seed is cut off, and the reading cannot fail.
#[verifier::external_body]
fn derive_sub_account(pallet_id: [u8; 8], amm_id: AmmId) -> (account: AccountId)
    ensures
        account@ == sub_account(pallet_id@, amm_id),
{
    frame_support::PalletId(pallet_id).into_sub_account_truncating(amm_id)
}

/// What the exchange makes of the ledger's answer to a transfer or a mint: a refusal is handed
/// on as it is.
pub fn moved(outcome: Result<Balance, sp_runtime::DispatchError>) -> (r: Result<(), Error>)
    ensures
        r == (match outcome {
            Ok(_) => Ok::<(), Error>(()),
            Err(e) => Err(Error::Assets(e)),
        }),
{
    match outcome {
        Ok(_) => Ok(()),
        Err(e) => Err(Error::Assets(e)),
    }
}

/// What the exchange makes of the ledger's answer to the creation of a share asset: whatever
/// the ledger's reason, the share asset is not valid.
pub fn share_asset_created(outcome: Result<(), sp_runtime::DispatchError>) -> (r: Result<(), Error>)
    ensures
        outcome is Ok ==> r == Ok::<(), Error>(()),
        outcome is Err ==> r == Err::<(), Error>(Error::InvalidShareAsset),
{
    match outcome {
        Ok(()) => Ok(()),
        Err(_) => Err(Error::InvalidShareAsset),
    }
}

/// What the exchange makes of the ledger's answer to the burning of shares: whatever the
/// ledger's reason, the caller does not hold that many shares.
pub fn shares_burnt(outcome: Result<Balance, sp_runtime::DispatchError>) -> (r: Result<(), Error>)
    ensures
        outcome is Ok ==> r == Ok::<(), Error>(()),
        outcome is Err ==> r == Err::<(), Error>(Error::InvalidShareAmount),
{
    match outcome {
        Ok(_) => Ok(()),
        Err(_) => Err(Error::InvalidShareAmount),
    }
}

/// What a withdrawal returns once the ledger has answered the burning of the shares: nothing
/// where the ledger refused, and else what the shares are worth, if that can be computed.
pub fn burnt_shares_return(
    amm_state: &Amm,
    amount: Balance,
    burnt: Result<Balance, sp_runtime::DispatchError>,
) -> (r: Result<(Balance, Balance, Amm), Error>)
    ensures
        burnt is Err ==> r == Err::<(Balance, Balance, Amm), Error>(Error::InvalidShareAmount),
        burnt is Ok ==> r == (match amm_state.without_liquidity(amount) {
            Ok(returned) => Ok::<(Balance, Balance, Amm), Error>(returned),
            Err(a) => Err::<(Balance, Balance, Amm), Error>(Error::Arithmetic(a)),
        }),
{
    shares_burnt(burnt)?;
    match amm_state.withdraw(amount) {
        Ok(returned) => Ok(returned),
        Err(e) => Err(Error::Arithmetic(e)),
    }
}

/// Whether the record `after` is the record `before` with entries added at its end.
pub open spec fn extends(before: Record, after: Record) -> bool {
    &&& before.len() <= after.len()
    &&& forall|i: int| 0 <= i < before.len() ==> #[trigger] after[i] == before[i]
}

/// The entries that the record `after` has beyond the record `before`.
pub open spec fn answers_since(before: Record, after: Record) -> Record {
    after.skip(before.len() as int)
}

/// Whether `added` is what a ledger records when it is asked for `requests` one after the
/// other up to the first that it refuses: the requests as they stand, each granted but
/// perhaps the last, and none left out unless the last was refused.
pub open spec fn asked_in_order(requests: Seq<Request>, added: Record) -> bool {
    &&& added.len() <= requests.len()
    &&& forall|i: int| 0 <= i < added.len() ==> (#[trigger] added[i]).request == requests[i]
    &&& forall|i: int| 0 <= i < added.len() - 1 ==> (#[trigger] added[i]).refusal is None
    &&& added.len() < requests.len() ==> added.len() > 0 && added.last().refusal is Some
}

/// The error that the exchange returns for what the ledger refused last, if it refused.
pub open spec fn refused(added: Record) -> Option<Error> {
    if added.len() > 0 && added.last().refusal is Some {
        Some(error_of(added.last().request, added.last().refusal->0))
    } else {
        None
    }
}

/// What an exchange holds, as plain values: its settings, its pools in the order of their
/// numbers, and the events it has reported.
pub struct PalletView {
    pub pallet_id: Seq<u8>,
    pub default_decimals: u8,
    pub amm_states: Seq<Amm>,
    pub events: Seq<Event>,
}

impl PalletView {
    /// Every pool's fee is a share of the whole.
    pub open spec fn wf(self) -> bool {
        forall|i: int|
            0 <= i < self.amm_states.len() ==> (#[trigger] self.amm_states[i]).fee_in_range()
    }

    /// The number that the next pool gets.
    pub open spec fn amm_count(self) -> nat {
        self.amm_states.len()
    }

    /// The pool with the number `amm_id`.
    pub open spec fn amm_state(self, amm_id: AmmId) -> Result<Amm, Error> {
        if amm_id < self.amm_states.len() {
            Ok(self.amm_states[amm_id as int])
        } else {
            Err(Error::InvalidAmmId)
        }
    }

    /// The exchange with one more pool, reported as created.
    pub open spec fn with_new_amm(self, amm_state: Amm) -> PalletView {
        PalletView {
            amm_states: self.amm_states.push(amm_state),
            events: self.events.push(Event::AmmCreated(self.amm_states.len() as AmmId)),
            ..self
        }
    }

    /// The exchange with the pool `amm_id` replaced and one more event reported.
    pub open spec fn with_amm_state(self, amm_id: AmmId, amm_state: Amm, event: Event) -> PalletView {
        PalletView {
            amm_states: self.amm_states.update(amm_id as int, amm_state),
            events: self.events.push(event),
            ..self
        }
    }

    /// The account that holds the reserves of the pool `amm_id`: the account with the bytes of
    /// [`sub_account`].
    pub open spec fn amm_account(self, amm_id: AmmId) -> AccountId {
        choose|account: AccountId| account@ == sub_account(self.pallet_id, amm_id)
    }

    /// What the ledger is asked for when the pool `amm_id` is created: the share asset, owned
    /// by the pool's custody account, sufficient to keep an account open, in amounts of one
    /// unit and more.
    pub open spec fn creation_requests(self, amm_id: AmmId, share_asset: AssetId) -> Seq<Request> {
        seq![
            Request::Create {
                id: share_asset,
                admin: self.amm_account(amm_id),
                is_sufficient: true,
                min_balance: 1,
            },
        ]
    }

    /// What the ledger is asked for in a deposit: the two amounts from the provider into
    /// custody, then the shares minted to the provider.
    pub open spec fn deposit_requests(
        self,
        amm_id: AmmId,
        user: AccountId,
        base_amount: Balance,
        quote_amount: Balance,
        shares: Balance,
    ) -> Seq<Request> {
        let amm_state = self.amm_state(amm_id)->Ok_0;
        let movements = amm_state.liquidity_movements(
            user,
            self.amm_account(amm_id),
            base_amount,
            quote_amount,
        );
        seq![
            Request::Transfer(movements.0),
            Request::Transfer(movements.1),
            Request::MintInto { asset: amm_state.share_asset, who: user, amount: shares },
        ]
    }

    /// What the ledger is asked for first in a withdrawal: to burn the shares of the caller.
    pub open spec fn burn_requests(self, amm_id: AmmId, user: AccountId, amount: Balance) -> Seq<
        Request,
    > {
        seq![
            Request::BurnFrom {
                asset: self.amm_state(amm_id)->Ok_0.share_asset,
                who: user,
                amount,
            },
        ]
    }

    /// What the ledger is asked for in a withdrawal once the shares are burnt: the two amounts
    /// from custody to the caller.
    pub open spec fn withdrawal_requests(
        self,
        amm_id: AmmId,
        user: AccountId,
        base_amount: Balance,
        quote_amount: Balance,
    ) -> Seq<Request> {
        let movements = self.amm_state(amm_id)->Ok_0.liquidity_movements(
            self.amm_account(amm_id),
            user,
            base_amount,
            quote_amount,
        );
        seq![Request::Transfer(movements.0), Request::Transfer(movements.1)]
    }

    /// What the ledger is asked for in a swap: the input from the trader into custody, then
    /// the output from custody to the trader.
    pub open spec fn swap_requests(
        self,
        amm_id: AmmId,
        user: AccountId,
        asset_type: AssetType,
        input_amount: Balance,
        output_amount: Balance,
    ) -> Seq<Request> {
        let movements = self.amm_state(amm_id)->Ok_0.swap_movements(
            asset_type,
            user,
            self.amm_account(amm_id),
            input_amount,
            output_amount,
        );
        seq![Request::Transfer(movements.0), Request::Transfer(movements.1)]
    }

    /// Whether a pool may be created, and under which number: by the administrator alone, at a
    /// fee that is no more than the whole, and as long as there is a number left.
    pub open spec fn creation(self, origin: Origin, fees_bps: Balance) -> Result<AmmId, Error> {
        if origin != Origin::Root {
            Err(Error::BadOrigin)
        } else if fees_bps > FULL_BPS {
            Err(Error::InvalidFee)
        } else if self.amm_states.len() >= u64::MAX {
            Err(Error::Arithmetic(ArithmeticError::Overflow))
        } else {
            Ok(self.amm_states.len() as AmmId)
        }
    }

    /// Who provides or withdraws liquidity, and the pool concerned.
    pub open spec fn liquidity_request(self, origin: Origin, amm_id: AmmId) -> Result<
        (AccountId, Amm),
        Error,
    > {
        match signer(origin) {
            Err(e) => Err(e),
            Ok(who) => match self.amm_state(amm_id) {
                Err(e) => Err(e),
                Ok(amm_state) => Ok((who, amm_state)),
            },
        }
    }

    /// A deposit as the exchange decides it before it turns to the ledger: who deposits, the
    /// shares earned and the pool afterwards.
    pub open spec fn deposit(
        self,
        origin: Origin,
        amm_id: AmmId,
        base_amount: Balance,
        quote_amount: Balance,
    ) -> Result<(AccountId, Balance, Amm), Error> {
        match self.liquidity_request(origin, amm_id) {
            Err(e) => Err(e),
            Ok((who, amm_state)) => match amm_state.with_liquidity(
                base_amount,
                quote_amount,
                self.default_decimals,
            ) {
                Err(e) => Err(e),
                Ok((shares, next)) => Ok((who, shares, next)),
            },
        }
    }

    /// A swap as the exchange decides it before it turns to the ledger: who swaps, the amount
    /// paid out and the pool afterwards.
    pub open spec fn exchange(
        self,
        origin: Origin,
        amm_id: AmmId,
        asset_type: AssetType,
        input_amount: Balance,
        output_min: Balance,
    ) -> Result<(AccountId, Balance, Amm), Error> {
        match signer(origin) {
            Err(e) => Err(e),
            Ok(who) => {
                if input_amount == 0 {
                    Err(Error::ZeroAmount)
                } else {
                    match self.amm_state(amm_id) {
                        Err(e) => Err(e),
                        Ok(amm_state) => match amm_state.swapped(
                            asset_type,
                            input_amount,
                            output_min,
                        ) {
                            Err(e) => Err(e),
                            Ok((output, next)) => Ok((who, output, next)),
                        },
                    }
                }
            },
        }
    }

    /// What a swap of `amount` of the asset `asset_type` against the pool `amm_id` would pay.
    pub open spec fn simulated(self, amm_id: AmmId, asset_type: AssetType, amount: Balance) -> Result<
        Balance,
        Error,
    > {
        if amount == 0 {
            Err(Error::ZeroAmount)
        } else {
            match self.amm_state(amm_id) {
                Err(e) => Err(e),
                Ok(amm_state) => amm_state.payout(asset_type, amount),
            }
        }
    }

    /// The input that the pool `amm_id` asks for `amount` of the asset `asset_type`.
    pub open spec fn priced(self, amm_id: AmmId, asset_type: AssetType, amount: Balance) -> Result<
        Balance,
        Error,
    > {
        match self.amm_state(amm_id) {
            Err(e) => Err(e),
            Ok(amm_state) => amm_state.required_input(asset_type, amount),
        }
    }
}

/// An exchange on top of the asset ledger `T`.
pub struct Pallet<T: Config> {
    assets: T,
    pallet_id: [u8; 8],
    default_decimals: u8,
    amm_states: Vec<Amm>,
    events: Vec<Event>,
}

impl<T: Config> View for Pallet<T> {
    type V = PalletView;

    closed spec fn view(&self) -> PalletView {
        PalletView {
            pallet_id: self.pallet_id@,
            default_decimals: self.default_decimals,
            amm_states: self.amm_states@,
            events: self.events@,
        }
    }
}

impl<T: Config> Pallet<T> {
    /// An exchange without pools. Shares of its pools have `default_decimals` decimal places;
    /// `pallet_id` is the identifier that custody accounts are derived from.
    pub fn new(assets: T, pallet_id: [u8; 8], default_decimals: u8) -> (pallet: Self)
        ensures
            pallet@ == (PalletView {
                pallet_id: pallet_id@,
                default_decimals,
                amm_states: Seq::empty(),
                events: Seq::empty(),
            }),
            pallet@.wf(),
            pallet.ledger() == assets,
    {
        Pallet {
            assets,
            pallet_id,
            default_decimals,
            amm_states: Vec::new(),
            events: Vec::new(),
        }
    }

    /// An exchange that takes up where an earlier one left off: with the pools `amm_states`,
    /// numbered from zero, and no events reported yet.
    pub fn restore(assets: T, pallet_id: [u8; 8], default_decimals: u8, amm_states: Vec<Amm>) -> (pallet:
        Self)
        ensures
            pallet@ == (PalletView {
                pallet_id: pallet_id@,
                default_decimals,
                amm_states: amm_states@,
                events: Seq::empty(),
            }),
            pallet.ledger() == assets,
    {
        Pallet {
            assets,
            pallet_id,
            default_decimals,
            amm_states,
            events: Vec::new(),
        }
    }

    /// The asset ledger as it stands. The operations say what is added to its record, and
    /// nothing else of it: what a ledger does with a request is its own business.
    pub closed spec fn ledger(&self) -> T {
        self.assets
    }

    /// The asset ledger.
    pub fn assets(&self) -> (assets: &T)
        ensures
            *assets == self.ledger(),
    {
        &self.assets
    }

    /// The number of pools created so far, which is the number of the next one.
    pub fn amm_count(&self) -> (count: AmmId)
        ensures
            count == self@.amm_count(),
    {
        self.amm_states.len() as AmmId
    }

    /// The pool with the number `amm_id`, if there is one.
    pub fn amm_state(&self, amm_id: AmmId) -> (amm_state: Option<Amm>)
        ensures
            amm_state == self@.amm_state(amm_id).ok(),
    {
        if amm_id < self.amm_states.len() as AmmId {
            Some(self.amm_states[amm_id as usize])
        } else {
            None
        }
    }

    /// The events reported so far, oldest first.
    pub fn events(&self) -> (events: &Vec<Event>)
        ensures
            events@ == self@.events,
    {
        &self.events
    }

    /// Hands out the events reported so far, oldest first, and starts over with none.
    pub fn take_events(&mut self) -> (events: Vec<Event>)
        ensures
            events@ == old(self)@.events,
            final(self)@ == (PalletView { events: Seq::empty(), ..old(self)@ }),
            final(self).ledger() == old(self).ledger(),
    {
        let mut events = Vec::new();
        core::mem::swap(&mut self.events, &mut events);
        events
    }

    fn try_get_amm_state(&self, amm_id: AmmId) -> (r: Result<Amm, Error>)
        ensures
            r == self@.amm_state(amm_id),
    {
        match self.amm_state(amm_id) {
            Some(amm_state) => Ok(amm_state),
            None => Err(Error::InvalidAmmId),
        }
    }

    /// The account that holds the reserves of the pool `amm_id`.
    pub fn amm_account(&self, amm_id: AmmId) -> (account: AccountId)
        ensures
            account@ == sub_account(self@.pallet_id, amm_id),
            account == self@.amm_account(amm_id),
    {
        let account = derive_sub_account(self.pallet_id, amm_id);
        assert(account =~= self@.amm_account(amm_id));
        account
    }

    /// Asks the ledger for one thing and makes of its answer what the exchange makes of it.
    fn ask(&mut self, request: Request) -> (r: Result<(), Error>)
        ensures
            final(self)@ == old(self)@,
            final(self).ledger().record().len() == old(self).ledger().record().len() + 1,
            final(self).ledger().record() == old(self).ledger().record().push(
                final(self).ledger().record().last(),
            ),
            final(self).ledger().record().last().request == request,
            r == (match final(self).ledger().record().last().refusal {
                None => Ok::<(), Error>(()),
                Some(e) => Err(error_of(request, e)),
            }),
    {
        match request {
            Request::Create { id, admin, is_sufficient, min_balance } => share_asset_created(
                self.assets.create(id, admin, is_sufficient, min_balance),
            ),
            Request::MintInto { asset, who, amount } => moved(
                self.assets.mint_into(asset, who, amount),
            ),
            Request::BurnFrom { asset, who, amount } => shares_burnt(
                self.assets.burn_from(asset, who, amount),
            ),
            Request::Transfer(transfer) => moved(
                self.assets.transfer(
                    transfer.asset,
                    transfer.source,
                    transfer.dest,
                    transfer.amount,
                    transfer.keep_alive,
                ),
            ),
        }
    }

    /// Asks the ledger for `requests` one after the other, up to the first that it refuses.
    fn ask_all(&mut self, requests: &Vec<Request>) -> (r: Result<(), Error>)
        ensures
            final(self)@ == old(self)@,
            extends(old(self).ledger().record(), final(self).ledger().record()),
            asked_in_order(
                requests@,
                answers_since(old(self).ledger().record(), final(self).ledger().record()),
            ),
            r == (match refused(
                answers_since(old(self).ledger().record(), final(self).ledger().record()),
            ) {
                None => Ok::<(), Error>(()),
                Some(e) => Err(e),
            }),
    {
        let ghost before = self.ledger().record();
        let mut i: usize = 0;
        while i < requests.len()
            invariant
                i <= requests.len(),
                self@ == old(self)@,
                before == old(self).ledger().record(),
                self.ledger().record().len() == before.len() + i,
                extends(before, self.ledger().record()),
                forall|j: int|
                    0 <= j < i ==> {
                        &&& (#[trigger] self.ledger().record()[before.len() + j]).request
                            == requests@[j]
                        &&& self.ledger().record()[before.len() + j].refusal is None
                    },
            decreases requests.len() - i,
        {
            let ghost so_far = self.ledger().record();
            let outcome = self.ask(requests[i]);
            proof {
                let now = self.ledger().record();
                let added = answers_since(before, now);
                assert forall|j: int| 0 <= j < now.len() - 1 implies now[j] == so_far[j] by {}
                assert forall|j: int| 0 <= j < added.len() implies added[j] == now[before.len()
                    + j] by {}
                assert(added.last() == now.last());
            }
            if let Err(e) = outcome {
                return Err(e);
            }
            i = i + 1;
        }
        proof {
            let now = self.ledger().record();
            let added = answers_since(before, now);
            assert forall|j: int| 0 <= j < added.len() implies added[j] == now[before.len() + j] by {}
        }
        Ok(())
    }

    /// Puts the new state of the pool `amm_id` in place and reports `event`.
    fn commit(&mut self, amm_id: AmmId, amm_state: Amm, event: Event)
        requires
            amm_id < old(self)@.amm_states.len(),
        ensures
            final(self)@ == old(self)@.with_amm_state(amm_id, amm_state, event),
            final(self).ledger() == old(self).ledger(),
    {
        assert(amm_id < self.amm_states.len());
        self.amm_states.set(amm_id as usize, amm_state);
        self.events.push(event);
    }

    /// Create a new AMM.
    ///
    /// The caller has to specify:
    /// - `base_asset`: the asset id of the first one in the pool pair
    /// - `quote_asset`: the asset id of the second one in the pool pair
    /// - `share_asset`: the asset id of the liquidity provider token to be created and managed
    ///   by this AMM
    /// - `fees_bps`: the share of input asset to be subtracted as fees for liquidity providers
    ///   in `swap`, in basis points.
    ///
    /// Only the administrator may create a pool, and a fee above the whole is refused. The
    /// ledger is asked to create the share asset, owned by the pool's custody account; the
    /// pool is created if and only if the ledger grants that. The new pool gets the next
    /// number, holds nothing and has issued no shares. Nothing is asked of the ledger where
    /// the exchange refuses on its own grounds.
    pub fn create_amm(
        &mut self,
        origin: Origin,
        base_asset: AssetId,
        quote_asset: AssetId,
        share_asset: AssetId,
        fees_bps: Balance,
    ) -> (r: Result<AmmId, Error>)
        ensures
            old(self)@.wf() ==> final(self)@.wf(),
            extends(old(self).ledger().record(), final(self).ledger().record()),
            ({
                let added = answers_since(
                    old(self).ledger().record(),
                    final(self).ledger().record(),
                );
                match old(self)@.creation(origin, fees_bps) {
                    Err(e) => {
                        &&& r == Err::<AmmId, Error>(e)
                        &&& final(self)@ == old(self)@
                        &&& final(self).ledger() == old(self).ledger()
                    },
                    Ok(amm_id) => {
                        &&& asked_in_order(old(self)@.creation_requests(amm_id, share_asset), added)
                        &&& match refused(added) {
                            Some(e) => r == Err::<AmmId, Error>(e) && final(self)@ == old(self)@,
                            None => r == Ok::<AmmId, Error>(amm_id) && final(self)@ == old(
                                self,
                            )@.with_new_amm(
                                Amm {
                                    base_asset,
                                    base_reserves: 0,
                                    quote_asset,
                                    quote_reserves: 0,
                                    share_asset,
                                    total_shares: 0,
                                    fees_bps,
                                },
                            ),
                        }
                    },
                }
            }),
    {
        let ghost before = self.ledger().record();
        ensure_root(origin)?;
        if fees_bps > FULL_BPS {
            return Err(Error::InvalidFee);
        }
        let amm_id = self.amm_count();
        if let Err(e) = amm_id.try_add(&1) {
            return Err(Error::Arithmetic(e));
        }
        let amm_state = Amm::new(base_asset, quote_asset, share_asset, fees_bps);

        let amm_account = self.amm_account(amm_id);
        // Any share amount is fair game
        let requests = vec![
            Request::Create { id: share_asset, admin: amm_account, is_sufficient: true, min_balance: 1 },
        ];
        assert(requests@ =~= old(self)@.creation_requests(amm_id, share_asset));
        self.ask_all(&requests)?;

        self.amm_states.push(amm_state);
        self.events.push(Event::AmmCreated(amm_id));
        Ok(amm_id)
    }

    /// Provide liquidity to an AMM pool.
    ///
    /// The caller must specify the following parameters
    /// - `amm_id`: the id of the AMM to add assets to
    /// - `base_amount`: the amount of base asset to add
    /// - `quote_amount`: the amount of quote asset to add
    ///
    /// The caller has to make sure that the ratio of `base_amount` to `quote_amount` matches
    /// exactly the proportion of these assets in the pool, if it already has liquidity. If the
    /// caller is the first to provide liquidity, it sets the ratio of these assets and the
    /// implied invariant.
    ///
    /// The exchange mints LP 'shares' in the asset that was created during the call to
    /// `create_amm`, and returns their number. The deposit is decided first, and nothing is
    /// asked of the ledger where it is refused. Once it is decided, it goes through if and only
    /// if the ledger grants the two movements and the minting.
    pub fn provide_liquidity(
        &mut self,
        origin: Origin,
        amm_id: AmmId,
        base_amount: Balance,
        quote_amount: Balance,
    ) -> (r: Result<Balance, Error>)
        ensures
            old(self)@.wf() ==> final(self)@.wf(),
            extends(old(self).ledger().record(), final(self).ledger().record()),
            ({
                let added = answers_since(
                    old(self).ledger().record(),
                    final(self).ledger().record(),
                );
                match old(self)@.deposit(origin, amm_id, base_amount, quote_amount) {
                    Err(e) => {
                        &&& r == Err::<Balance, Error>(e)
                        &&& final(self)@ == old(self)@
                        &&& final(self).ledger() == old(self).ledger()
                    },
                    Ok((user, shares, next)) => {
                        &&& asked_in_order(
                            old(self)@.deposit_requests(
                                amm_id,
                                user,
                                base_amount,
                                quote_amount,
                                shares,
                            ),
                            added,
                        )
                        &&& match refused(added) {
                            Some(e) => r == Err::<Balance, Error>(e) && final(self)@ == old(self)@,
                            None => r == Ok::<Balance, Error>(shares) && final(self)@ == old(
                                self,
                            )@.with_amm_state(
                                amm_id,
                                next,
                                Event::LiquidityAdded { amm_id, user, shares },
                            ),
                        }
                    },
                }
            }),
    {
        let caller = ensure_signed(origin)?;

        let state = self.try_get_amm_state(amm_id)?;
        let (shares, next) = state.provide_liquidity(
            base_amount,
            quote_amount,
            self.default_decimals,
        )?;

        let amm_account = self.amm_account(amm_id);
        let (base_transfer, quote_transfer) = state.liquidity_transfers(
            caller,
            amm_account,
            base_amount,
            quote_amount,
        );
        let requests = vec![
            Request::Transfer(base_transfer),
            Request::Transfer(quote_transfer),
            Request::MintInto { asset: state.share_asset, who: caller, amount: shares },
        ];
        assert(requests@ =~= old(self)@.deposit_requests(
            amm_id,
            caller,
            base_amount,
            quote_amount,
            shares,
        ));
        self.ask_all(&requests)?;

        self.commit(amm_id, next, Event::LiquidityAdded { amm_id, user: caller, shares });
        Ok(shares)
    }

    /// Withdraw liquidity from an AMM's pool.
    ///
    /// The caller must specify the following arguments
    /// - `amm_id`: the id of the AMM
    /// - `amount`: quantity of LP shares to burn from the caller's account in order to return
    ///   its corresponding share of the pool's liquidity.
    ///
    /// The shares are burnt first: if the ledger refuses that, the caller does not hold them.
    /// Then the amounts are computed, and the ledger is asked to move them to the caller. The
    /// withdrawal goes through if and only if the ledger grants the burning, the amounts can
    /// be computed and the ledger grants the two movements. The result is the base amount and
    /// the quote amount returned. Nothing is asked of the ledger for a caller who did not sign
    /// or for a pool that does not exist.
    pub fn withdraw(&mut self, origin: Origin, amm_id: AmmId, amount: Balance) -> (r: Result<
        (Balance, Balance),
        Error,
    >)
        ensures
            old(self)@.wf() ==> final(self)@.wf(),
            extends(old(self).ledger().record(), final(self).ledger().record()),
            ({
                let added = answers_since(
                    old(self).ledger().record(),
                    final(self).ledger().record(),
                );
                match old(self)@.liquidity_request(origin, amm_id) {
                    Err(e) => {
                        &&& r == Err::<(Balance, Balance), Error>(e)
                        &&& final(self)@ == old(self)@
                        &&& final(self).ledger() == old(self).ledger()
                    },
                    Ok((user, amm_state)) => {
                        &&& added.len() >= 1
                        &&& seq![added[0].request] == old(self)@.burn_requests(amm_id, user, amount)
                        &&& match (added[0].refusal, amm_state.without_liquidity(amount)) {
                            (Some(_), _) => {
                                &&& added.len() == 1
                                &&& r == Err::<(Balance, Balance), Error>(Error::InvalidShareAmount)
                                &&& final(self)@ == old(self)@
                            },
                            (None, Err(a)) => {
                                &&& added.len() == 1
                                &&& r == Err::<(Balance, Balance), Error>(Error::Arithmetic(a))
                                &&& final(self)@ == old(self)@
                            },
                            (None, Ok((base_amount, quote_amount, next))) => {
                                &&& asked_in_order(
                                    old(self)@.withdrawal_requests(
                                        amm_id,
                                        user,
                                        base_amount,
                                        quote_amount,
                                    ),
                                    added.skip(1),
                                )
                                &&& match refused(added.skip(1)) {
                                    Some(e) => {
                                        &&& r == Err::<(Balance, Balance), Error>(e)
                                        &&& final(self)@ == old(self)@
                                    },
                                    None => {
                                        &&& r == Ok::<(Balance, Balance), Error>(
                                            (base_amount, quote_amount),
                                        )
                                        &&& final(self)@ == old(self)@.with_amm_state(
                                            amm_id,
                                            next,
                                            Event::LiquidityRemoved { amm_id, user, shares: amount },
                                        )
                                    },
                                }
                            },
                        }
                    },
                }
            }),
    {
        let ghost before = self.ledger().record();
        let caller = ensure_signed(origin)?;

        let amm_state = self.try_get_amm_state(amm_id)?;

        let burnt = self.assets.burn_from(amm_state.share_asset, caller, amount);
        let ghost burnt_record = self.ledger().record();
        proof {
            let added = answers_since(before, burnt_record);
            assert(added =~= seq![burnt_record.last()]);
            assert(seq![added[0].request] =~= old(self)@.burn_requests(amm_id, caller, amount));
        }
        let (base_amount, quote_amount, next) = burnt_shares_return(&amm_state, amount, burnt)?;

        let amm_account = self.amm_account(amm_id);
        let (base_transfer, quote_transfer) = amm_state.liquidity_transfers(
            amm_account,
            caller,
            base_amount,
            quote_amount,
        );
        let requests = vec![Request::Transfer(base_transfer), Request::Transfer(quote_transfer)];
        assert(requests@ =~= old(self)@.withdrawal_requests(
            amm_id,
            caller,
            base_amount,
            quote_amount,
        ));
        let moved = self.ask_all(&requests);
        proof {
            let after = self.ledger().record();
            let added = answers_since(before, after);
            assert(after[before.len() as int] == burnt_record[before.len() as int]);
            assert(added[0] == burnt_record.last());
            assert(added.skip(1) =~= answers_since(burnt_record, after));
            assert(seq![added[0].request] =~= old(self)@.burn_requests(amm_id, caller, amount));
        }
        moved?;

        self.commit(amm_id, next, Event::LiquidityRemoved { amm_id, user: caller, shares: amount });
        Ok((base_amount, quote_amount))
    }

    /// Swap either token through the AMM.
    ///
    /// The caller must specify the following arguments
    /// - `amm_id`: the id of the AMM to swap against
    /// - `asset_type`: which of the two asset types in the pool to use as input
    /// - `input_amount`: amount of input asset to add to the AMM
    /// - `output_min`: the minimum amount of the opposite asset to get in return. Prevents
    ///   against slippage.
    ///
    /// The result is the amount of the opposite asset paid out. The swap is decided first,
    /// and nothing is asked of the ledger where it is refused. Then the ledger is asked to move
    /// the input from the caller into custody and the output from custody to the caller. Once
    /// the swap is decided, it goes through if and only if the ledger grants both movements.
    pub fn swap(
        &mut self,
        origin: Origin,
        amm_id: AmmId,
        asset_type: AssetType,
        input_amount: Balance,
        output_min: Balance,
    ) -> (r: Result<Balance, Error>)
        ensures
            old(self)@.wf() ==> final(self)@.wf(),
            extends(old(self).ledger().record(), final(self).ledger().record()),
            ({
                let added = answers_since(
                    old(self).ledger().record(),
                    final(self).ledger().record(),
                );
                match old(self)@.exchange(origin, amm_id, asset_type, input_amount, output_min) {
                    Err(e) => {
                        &&& r == Err::<Balance, Error>(e)
                        &&& final(self)@ == old(self)@
                        &&& final(self).ledger() == old(self).ledger()
                    },
                    Ok((user, output_amount, next)) => {
                        &&& asked_in_order(
                            old(self)@.swap_requests(
                                amm_id,
                                user,
                                asset_type,
                                input_amount,
                                output_amount,
                            ),
                            added,
                        )
                        &&& match refused(added) {
                            Some(e) => r == Err::<Balance, Error>(e) && final(self)@ == old(self)@,
                            None => r == Ok::<Balance, Error>(output_amount) && final(self)@ == old(
                                self,
                            )@.with_amm_state(
                                amm_id,
                                next,
                                Event::Swapped {
                                    user,
                                    amm_id,
                                    asset_type,
                                    input_amount,
                                    output_amount,
                                },
                            ),
                        }
                    },
                }
            }),
    {
        let caller = ensure_signed(origin)?;

        if input_amount == 0 {
            return Err(Error::ZeroAmount);
        }
        let amm_state = self.try_get_amm_state(amm_id)?;
        let (output_amount, next) = amm_state.swap(asset_type, input_amount, output_min)?;

        let amm_account = self.amm_account(amm_id);
        let (input_transfer, output_transfer) = amm_state.swap_transfers(
            asset_type,
            caller,
            amm_account,
            input_amount,
            output_amount,
        );
        let requests = vec![Request::Transfer(input_transfer), Request::Transfer(output_transfer)];
        assert(requests@ =~= old(self)@.swap_requests(
            amm_id,
            caller,
            asset_type,
            input_amount,
            output_amount,
        ));
        self.ask_all(&requests)?;

        self.commit(
            amm_id,
            next,
            Event::Swapped { user: caller, amm_id, asset_type, input_amount, output_amount },
        );
        Ok(output_amount)
    }
}

impl<T: Config> SimulateSwap for Pallet<T> {
    type AmmId = AmmId;

    type AssetType = AssetType;

    type Balance = Balance;

    fn simulate_swap(&self, amm_id: AmmId, asset_type: AssetType, amount: Balance) -> (r: Result<
        Balance,
        Error,
    >)
        ensures
            r == self@.simulated(amm_id, asset_type, amount),
    {
        if amount == 0 {
            return Err(Error::ZeroAmount);
        }
        let amm_state = self.try_get_amm_state(amm_id)?;
        amm_state.simulate_swap(asset_type, amount)
    }

    fn output_price(&self, amm_id: AmmId, asset_type: AssetType, amount: Balance) -> (r: Result<
        Balance,
        Error,
    >)
        ensures
            r == self@.priced(amm_id, asset_type, amount),
    {
        let amm_state = self.try_get_amm_state(amm_id)?;
        amm_state.output_price(asset_type, amount)
    }
}

} // verus!
