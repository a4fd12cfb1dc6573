//! Liquidity accounting: the shares a deposit earns and the assets a withdrawal returns.

use vstd::prelude::*;
use vstd::arithmetic::div_mod::{lemma_div_is_ordered, lemma_div_multiples_vanish};
use vstd::arithmetic::mul::{lemma_mul_inequality, lemma_mul_is_commutative};
use crate::helpers::{
    scale_by_decimals, scaled_by_decimals, ArithmeticError, TryAdd, TryDiv, TryMul, TrySub,
};
use crate::types::{AccountId, Amm, Balance, Error, Transfer, INITIAL_SHARE_UNITS};

verus! {

/// A part of a whole, taken of an amount and rounded down, is at most the amount.
pub proof fn lemma_part_at_most_whole(part: int, whole: int, amount: int)
    requires
        0 <= part <= whole,
        0 < whole,
        0 <= amount,
    ensures
        0 <= (part * amount) / whole <= amount,
{
    lemma_mul_inequality(part, whole, amount);
    assert(0 <= part * amount) by (nonlinear_arith)
        requires
            0 <= part,
            0 <= amount,
    ;
    lemma_div_is_ordered(part * amount, whole * amount, whole);
    lemma_div_is_ordered(0, part * amount, whole);
    lemma_mul_is_commutative(whole, amount);
    lemma_div_multiples_vanish(amount, whole);
}

impl Amm {
    /// The shares that a deposit of `base_amount` and `quote_amount` earns.
    ///
    /// The first deposit into a pool earns a fixed number of whole shares, whatever it holds.
    /// A later one earns shares in the proportion of the deposit to the reserves, and the two
    /// assets must give the same number.
    pub open spec fn issued_shares(
        self,
        base_amount: Balance,
        quote_amount: Balance,
        default_decimals: u8,
    ) -> Result<Balance, Error> {
        if self.total_shares == 0 {
            match scaled_by_decimals(INITIAL_SHARE_UNITS, default_decimals) {
                Ok(shares) => Ok(shares),
                Err(e) => Err(Error::Arithmetic(e)),
            }
        } else if self.total_shares * base_amount > u64::MAX {
            Err(Error::Arithmetic(ArithmeticError::Overflow))
        } else if self.base_reserves == 0 {
            Err(Error::Arithmetic(ArithmeticError::DivisionByZero))
        } else if self.total_shares * quote_amount > u64::MAX {
            Err(Error::Arithmetic(ArithmeticError::Overflow))
        } else if self.quote_reserves == 0 {
            Err(Error::Arithmetic(ArithmeticError::DivisionByZero))
        } else if (self.total_shares * base_amount) / (self.base_reserves as int) != (
        self.total_shares * quote_amount) / (self.quote_reserves as int) {
            Err(Error::NonEquivalentValue)
        } else {
            Ok(((self.total_shares * base_amount) / (self.base_reserves as int)) as Balance)
        }
    }

    /// A deposit as the pool decides it: the shares earned and the pool afterwards.
    pub open spec fn with_liquidity(
        self,
        base_amount: Balance,
        quote_amount: Balance,
        default_decimals: u8,
    ) -> Result<(Balance, Amm), Error> {
        match self.issued_shares(base_amount, quote_amount, default_decimals) {
            Err(e) => Err(e),
            Ok(shares) => {
                if self.base_reserves + base_amount > u64::MAX || self.quote_reserves
                    + quote_amount > u64::MAX || self.total_shares + shares > u64::MAX {
                    Err(Error::Arithmetic(ArithmeticError::Overflow))
                } else {
                    Ok(
                        (
                            shares,
                            Amm {
                                base_reserves: (self.base_reserves + base_amount) as Balance,
                                quote_reserves: (self.quote_reserves + quote_amount) as Balance,
                                total_shares: (self.total_shares + shares) as Balance,
                                ..self
                            },
                        ),
                    )
                }
            },
        }
    }

    /// A withdrawal as the pool decides it: the base and quote amounts returned for `shares`,
    /// each rounded down, and the pool afterwards.
    pub open spec fn without_liquidity(self, shares: Balance) -> Result<
        (Balance, Balance, Amm),
        ArithmeticError,
    > {
        if shares * self.base_reserves > u64::MAX {
            Err(ArithmeticError::Overflow)
        } else if self.total_shares == 0 {
            Err(ArithmeticError::DivisionByZero)
        } else if shares * self.quote_reserves > u64::MAX {
            Err(ArithmeticError::Overflow)
        } else if shares > self.total_shares {
            Err(ArithmeticError::Underflow)
        } else {
            let base_amount = ((shares * self.base_reserves) / (self.total_shares as int)) as Balance;
            let quote_amount = ((shares * self.quote_reserves) / (self.total_shares as int)) as Balance;
            Ok(
                (
                    base_amount,
                    quote_amount,
                    Amm {
                        base_reserves: (self.base_reserves - base_amount) as Balance,
                        quote_reserves: (self.quote_reserves - quote_amount) as Balance,
                        total_shares: (self.total_shares - shares) as Balance,
                        ..self
                    },
                ),
            )
        }
    }

    /// The two movements of a deposit or of a withdrawal, in the order in which the ledger is
    /// asked for them: `base_amount` of the base asset, then `quote_amount` of the quote asset,
    /// both from `source` to `dest`. A deposit goes from the provider into custody, a
    /// withdrawal from custody to the provider. Either may close the account it leaves.
    pub open spec fn liquidity_movements(
        self,
        source: AccountId,
        dest: AccountId,
        base_amount: Balance,
        quote_amount: Balance,
    ) -> (Transfer, Transfer) {
        (
            Transfer { asset: self.base_asset, source, dest, amount: base_amount, keep_alive: false },
            Transfer {
                asset: self.quote_asset,
                source,
                dest,
                amount: quote_amount,
                keep_alive: false,
            },
        )
    }

    /// Works out the two movements of a deposit or of a withdrawal.
    pub fn liquidity_transfers(
        &self,
        source: AccountId,
        dest: AccountId,
        base_amount: Balance,
        quote_amount: Balance,
    ) -> (transfers: (Transfer, Transfer))
        ensures
            transfers == self.liquidity_movements(source, dest, base_amount, quote_amount),
    {
        (
            Transfer { asset: self.base_asset, source, dest, amount: base_amount, keep_alive: false },
            Transfer {
                asset: self.quote_asset,
                source,
                dest,
                amount: quote_amount,
                keep_alive: false,
            },
        )
    }

    /// Computes the shares that a deposit earns.
    pub fn shares_for(&self, base_amount: Balance, quote_amount: Balance, default_decimals: u8) -> (r:
        Result<Balance, Error>)
        ensures
            r == self.issued_shares(base_amount, quote_amount, default_decimals),
    {
        if self.total_shares == 0 {
            match scale_by_decimals(INITIAL_SHARE_UNITS, default_decimals) {
                Ok(shares) => Ok(shares),
                Err(e) => Err(Error::Arithmetic(e)),
            }
        } else {
            let share1 = match self.total_shares.try_mul(&base_amount) {
                Ok(product) => match product.try_div(&self.base_reserves) {
                    Ok(share) => share,
                    Err(e) => {
                        return Err(Error::Arithmetic(e));
                    },
                },
                Err(e) => {
                    return Err(Error::Arithmetic(e));
                },
            };
            let share2 = match self.total_shares.try_mul(&quote_amount) {
                Ok(product) => match product.try_div(&self.quote_reserves) {
                    Ok(share) => share,
                    Err(e) => {
                        return Err(Error::Arithmetic(e));
                    },
                },
                Err(e) => {
                    return Err(Error::Arithmetic(e));
                },
            };

            // The two amounts must be worth the same at the pool's present ratio.
            if share1 != share2 {
                return Err(Error::NonEquivalentValue);
            }
            Ok(share1)
        }
    }

    /// Decides a deposit: computes the shares it earns and the pool afterwards. Nothing is
    /// changed; the caller moves the assets, mints the shares and keeps the new state.
    pub fn provide_liquidity(
        &self,
        base_amount: Balance,
        quote_amount: Balance,
        default_decimals: u8,
    ) -> (r: Result<(Balance, Amm), Error>)
        ensures
            r == self.with_liquidity(base_amount, quote_amount, default_decimals),
    {
        let shares = self.shares_for(base_amount, quote_amount, default_decimals)?;
        let mut next = *self;
        next.base_reserves = match next.base_reserves.try_add(&base_amount) {
            Ok(reserves) => reserves,
            Err(e) => {
                return Err(Error::Arithmetic(e));
            },
        };
        next.quote_reserves = match next.quote_reserves.try_add(&quote_amount) {
            Ok(reserves) => reserves,
            Err(e) => {
                return Err(Error::Arithmetic(e));
            },
        };
        next.total_shares = match next.total_shares.try_add(&shares) {
            Ok(total) => total,
            Err(e) => {
                return Err(Error::Arithmetic(e));
            },
        };
        Ok((shares, next))
    }

    /// Decides a withdrawal: computes what `shares` are worth and the pool afterwards. Nothing
    /// is changed; the caller burns the shares, moves the assets and keeps the new state.
    pub fn withdraw(&self, shares: Balance) -> (r: Result<(Balance, Balance, Amm), ArithmeticError>)
        ensures
            r == self.without_liquidity(shares),
    {
        let base_amount = shares.try_mul(&self.base_reserves)?.try_div(&self.total_shares)?;
        let quote_amount = shares.try_mul(&self.quote_reserves)?.try_div(&self.total_shares)?;

        let mut next = *self;
        next.total_shares = next.total_shares.try_sub(&shares)?;
        proof {
            lemma_part_at_most_whole(
                shares as int,
                self.total_shares as int,
                self.base_reserves as int,
            );
            lemma_part_at_most_whole(
                shares as int,
                self.total_shares as int,
                self.quote_reserves as int,
            );
        }
        next.base_reserves = next.base_reserves.try_sub(&base_amount)?;
        next.quote_reserves = next.quote_reserves.try_sub(&quote_amount)?;
        Ok((base_amount, quote_amount, next))
    }
}

} // verus!
