//! The plain data of the exchange: identifiers, the record of one pool, callers, events and
//! errors.

use vstd::prelude::*;
use crate::helpers::{ArithmeticError, TryMul};

verus! {

/// An account on the asset ledger: 32 bytes, wide enough for a custody account to hold the
/// identifier of the exchange and the number of the pool side by side.
pub type AccountId = [u8; 32];

/// The number of a pool; pools are numbered from zero in the order of their creation.
pub type AmmId = u64;

/// An asset on the ledger.
pub type AssetId = u32;

/// An amount of an asset, in its smallest unit.
pub type Balance = u64;

/// The whole of an amount in basis points.
pub const FULL_BPS: Balance = 10_000;

/// The number of whole shares that the first provider of a pool receives.
pub const INITIAL_SHARE_UNITS: Balance = 100;

/// The state of a particular AMM.
#[derive(Clone, Copy, Debug, PartialEq, Eq, Structural)]
pub struct Amm {
    pub base_asset: AssetId,
    pub base_reserves: Balance,
    pub quote_asset: AssetId,
    pub quote_reserves: Balance,
    pub share_asset: AssetId,
    pub total_shares: Balance,
    pub fees_bps: Balance,
}

impl Amm {
    /// The invariant of the pool: the `K` in `x * y = K`, as a mathematical integer.
    pub open spec fn k(self) -> int {
        self.base_reserves * self.quote_reserves
    }

    /// A pool is either empty on every count or holds something on every count.
    pub open spec fn balanced(self) -> bool {
        &&& (self.base_reserves == 0 <==> self.quote_reserves == 0)
        &&& (self.quote_reserves == 0 <==> self.total_shares == 0)
    }

    /// The fee is a share of the whole.
    pub open spec fn fee_in_range(self) -> bool {
        self.fees_bps <= FULL_BPS
    }

    /// A pool as it is right after its creation: no reserves and no shares.
    pub fn new(
        base_asset: AssetId,
        quote_asset: AssetId,
        share_asset: AssetId,
        fees_bps: Balance,
    ) -> (amm: Amm)
        ensures
            amm == (Amm {
                base_asset,
                base_reserves: 0,
                quote_asset,
                quote_reserves: 0,
                share_asset,
                total_shares: 0,
                fees_bps,
            }),
    {
        Amm {
            base_asset,
            base_reserves: 0,
            quote_asset,
            quote_reserves: 0,
            share_asset,
            total_shares: 0,
            fees_bps,
        }
    }

    /// Compute the invariant for this AMM, i.e., the `K` in `x * y = K`.
    pub fn get_k(&self) -> (r: Result<Balance, ArithmeticError>)
        ensures
            self.k() <= u64::MAX ==> r == Ok::<Balance, ArithmeticError>(self.k() as Balance),
            self.k() > u64::MAX ==> r == Err::<Balance, ArithmeticError>(ArithmeticError::Overflow),
    {
        self.base_reserves.try_mul(&self.quote_reserves)
    }

    /// Whether both reserves hold something, so that the pool can price a swap.
    pub fn is_initialized(&self) -> (r: Result<bool, ArithmeticError>)
        ensures
            self.k() <= u64::MAX ==> r == Ok::<bool, ArithmeticError>(self.k() != 0),
            self.k() > u64::MAX ==> r == Err::<bool, ArithmeticError>(ArithmeticError::Overflow),
    {
        match self.get_k() {
            Ok(k) => Ok(k != 0),
            Err(e) => Err(e),
        }
    }
}

/// For indicating the input to swaps
#[derive(Clone, Copy, Debug, PartialEq, Eq, Structural)]
pub enum AssetType {
    Base,
    Quote,
}

impl AssetType {
    /// The other asset of the pair.
    pub open spec fn other(self) -> AssetType {
        match self {
            AssetType::Base => AssetType::Quote,
            AssetType::Quote => AssetType::Base,
        }
    }

    /// The other asset of the pair: what a swap pays out for this one.
    pub fn opposite(self) -> (r: AssetType)
        ensures
            r == self.other(),
    {
        match self {
            AssetType::Base => AssetType::Quote,
            AssetType::Quote => AssetType::Base,
        }
    }
}

/// Who asks for an operation.
#[derive(Clone, Copy, Debug, PartialEq, Eq)]
pub enum Origin {
    /// The administrator of the chain.
    Root,
    /// The holder of an account.
    Signed(AccountId),
    /// Nobody: a call that no account signed.
    Unsigned,
}

impl Origin {
    /// The administrator.
    pub fn root() -> (origin: Origin)
        ensures
            origin == Origin::Root,
    {
        Origin::Root
    }

    /// The holder of the account `who`.
    pub fn signed(who: AccountId) -> (origin: Origin)
        ensures
            origin == Origin::Signed(who),
    {
        Origin::Signed(who)
    }

    /// Nobody.
    pub fn unsigned() -> (origin: Origin)
        ensures
            origin == Origin::Unsigned,
    {
        Origin::Unsigned
    }
}

/// A movement of an asset between two accounts, as the exchange asks it of the ledger. With
/// `keep_alive` the ledger is to refuse a movement that would close the source account.
#[derive(Clone, Copy, Debug, PartialEq, Eq)]
pub struct Transfer {
    pub asset: AssetId,
    pub source: AccountId,
    pub dest: AccountId,
    pub amount: Balance,
    pub keep_alive: bool,
}

/// What the exchange asks of the ledger.
#[derive(Clone, Copy, Debug, PartialEq, Eq)]
pub enum Request {
    /// Create the asset `id` with `admin` as its owner.
    Create { id: AssetId, admin: AccountId, is_sufficient: bool, min_balance: Balance },
    /// Mint `amount` of `asset` into the account `who`.
    MintInto { asset: AssetId, who: AccountId, amount: Balance },
    /// Burn `amount` of `asset` from the account `who`.
    BurnFrom { asset: AssetId, who: AccountId, amount: Balance },
    /// Move an asset from one account to another.
    Transfer(Transfer),
}

/// What the exchange reports of an operation that went through.
#[derive(Clone, Copy, Debug, PartialEq, Eq)]
pub enum Event {
    /// Emitted when a new Amm is created.
    AmmCreated(AmmId),
    /// Emitted when a user adds liquidity to an AMM.
    LiquidityAdded { amm_id: AmmId, user: AccountId, shares: Balance },
    /// Emitted when a user withdraws liquidity from an AMM.
    LiquidityRemoved { amm_id: AmmId, user: AccountId, shares: Balance },
    /// Emitted when a user swaps against an AMM.
    Swapped {
        user: AccountId,
        amm_id: AmmId,
        asset_type: AssetType,
        input_amount: Balance,
        output_amount: Balance,
    },
}

/// Why an operation was refused.
#[derive(Debug, PartialEq, Eq)]
pub enum Error {
    /// Raised when the caller may not ask for the operation.
    BadOrigin,
    /// Raised when an operation targets a nonexistent AMM.
    InvalidAmmId,
    /// Raised when trying to withdraw more LP shares than a user has in their account.
    InvalidShareAmount,
    /// Raised when failing to create a new asset type for LP shares.
    InvalidShareAsset,
    /// Raised when trying to provide liquidity with non-equivalent values of the two assets in
    /// the pool.
    NonEquivalentValue,
    /// Raised when swap output is below the minimum required by a user.
    SlippageExceeded,
    /// Raised when trying to swap a zero amount of asset.
    ZeroAmount,
    /// Raised when interacting with an uninitialized AMM while the operation requires
    /// otherwise.
    ZeroLiquidity,
    /// Raised when a pool is to be created with a fee above the whole.
    InvalidFee,
    /// Raised when a computation on balances has no result.
    Arithmetic(ArithmeticError),
    /// Raised when the asset ledger refuses a transfer; it holds the ledger's own reason.
    Assets(sp_runtime::DispatchError),
}

/// The ledger's error type. The exchange hands such a value on and never looks inside.
#[verifier::external_type_specification]
#[verifier::external_body]
pub struct ExDispatchError(sp_runtime::DispatchError);

/// One entry of a ledger's record: what it was asked for and, where it refused, its reason.
#[derive(Debug, PartialEq, Eq)]
pub struct Answered {
    pub request: Request,
    pub refusal: Option<sp_runtime::DispatchError>,
}

/// A ledger's record of what it was asked and what it answered, oldest first.
pub type Record = Seq<Answered>;

/// The reason of a refusal, if the answer is one.
pub open spec fn refusal_of<T>(answer: Result<T, sp_runtime::DispatchError>) -> Option<
    sp_runtime::DispatchError,
> {
    match answer {
        Ok(_) => None,
        Err(e) => Some(e),
    }
}

/// What the exchange makes of a refusal: a share asset that cannot be created is not valid,
/// shares that cannot be burnt are not held, and any other refusal is handed on as it is.
pub open spec fn error_of(request: Request, refusal: sp_runtime::DispatchError) -> Error {
    match request {
        Request::Create { .. } => Error::InvalidShareAsset,
        Request::BurnFrom { .. } => Error::InvalidShareAmount,
        _ => Error::Assets(refusal),
    }
}

/// The account that an origin signs for.
pub open spec fn signer(origin: Origin) -> Result<AccountId, Error> {
    match origin {
        Origin::Signed(who) => Ok(who),
        _ => Err(Error::BadOrigin),
    }
}

/// Accepts the administrator and nobody else.
pub fn ensure_root(origin: Origin) -> (r: Result<(), Error>)
    ensures
        origin == Origin::Root ==> r == Ok::<(), Error>(()),
        origin != Origin::Root ==> r == Err::<(), Error>(Error::BadOrigin),
{
    match origin {
        Origin::Root => Ok(()),
        _ => Err(Error::BadOrigin),
    }
}

/// Accepts the holder of an account and says which account it is.
pub fn ensure_signed(origin: Origin) -> (r: Result<AccountId, Error>)
    ensures
        r == signer(origin),
{
    match origin {
        Origin::Signed(who) => Ok(who),
        _ => Err(Error::BadOrigin),
    }
}

} // verus!
