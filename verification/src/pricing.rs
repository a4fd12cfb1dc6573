//! Constant-product pricing: what a pool gives for an input, what input it asks for an
//! output, and the state of the pool after a swap.

use vstd::prelude::*;
use vstd::arithmetic::div_mod::{lemma_div_is_ordered, lemma_div_multiples_vanish};
use vstd::arithmetic::mul::{lemma_mul_inequality, lemma_mul_is_commutative};
use crate::helpers::{ArithmeticError, TryAdd, TryDiv, TryMul, TrySub};
use crate::types::{AccountId, Amm, AssetId, AssetType, Balance, Error, Transfer, FULL_BPS};

verus! {

/// What is left of an input once the pool's fee is taken off it, rounded down.
pub open spec fn net_of_fee(fees_bps: Balance, amount: Balance) -> Result<Balance, ArithmeticError> {
    if fees_bps > FULL_BPS {
        Err(ArithmeticError::Underflow)
    } else if (FULL_BPS - fees_bps) * amount > u64::MAX {
        Err(ArithmeticError::Overflow)
    } else {
        Ok((((FULL_BPS - fees_bps) * amount) / (FULL_BPS as int)) as Balance)
    }
}

/// What a pool with the given reserves pays out for `amount` of its input asset.
///
/// The product of the reserves is held against the input reserve raised by the net input; what
/// the output reserve holds above the quotient is paid out. Where the quotient is zero, one unit
/// stays behind, so that a swap never empties a reserve.
pub open spec fn swap_output(
    in_reserve: Balance,
    out_reserve: Balance,
    fees_bps: Balance,
    amount: Balance,
) -> Result<Balance, ArithmeticError> {
    match net_of_fee(fees_bps, amount) {
        Err(e) => Err(e),
        Ok(net) => {
            if in_reserve + net > u64::MAX || in_reserve * out_reserve > u64::MAX {
                Err(ArithmeticError::Overflow)
            } else if in_reserve + net == 0 {
                Err(ArithmeticError::DivisionByZero)
            } else {
                let out_reserve_after = (in_reserve * out_reserve) / (in_reserve + net);
                if out_reserve_after > 0 {
                    Ok((out_reserve - out_reserve_after) as Balance)
                } else if out_reserve == 0 {
                    Err(ArithmeticError::Underflow)
                } else {
                    Ok((out_reserve - 1) as Balance)
                }
            }
        },
    }
}

/// The input that a pool with the given reserves asks for `amount` of its output asset: the
/// pricing formula solved for the input, each division rounded down.
pub open spec fn swap_input(
    in_reserve: Balance,
    out_reserve: Balance,
    fees_bps: Balance,
    amount: Balance,
) -> Result<Balance, ArithmeticError> {
    if amount > out_reserve {
        Err(ArithmeticError::Underflow)
    } else if in_reserve * out_reserve > u64::MAX {
        Err(ArithmeticError::Overflow)
    } else if amount == out_reserve {
        Err(ArithmeticError::DivisionByZero)
    } else {
        let net = (in_reserve * out_reserve) / (out_reserve - amount) - in_reserve;
        if fees_bps > FULL_BPS {
            Err(ArithmeticError::Underflow)
        } else if net * FULL_BPS > u64::MAX {
            Err(ArithmeticError::Overflow)
        } else if fees_bps == FULL_BPS {
            Err(ArithmeticError::DivisionByZero)
        } else {
            Ok(((net * FULL_BPS) / (FULL_BPS - fees_bps)) as Balance)
        }
    }
}

/// A product divided by a factor raised by something is at most the other factor.
pub proof fn lemma_quotient_at_most_out_reserve(x: int, y: int, n: int)
    requires
        0 <= x,
        0 <= y,
        0 <= n,
        0 < x + n,
    ensures
        0 <= (x * y) / (x + n) <= y,
{
    lemma_mul_inequality(x, x + n, y);
    lemma_mul_is_commutative(x, y);
    lemma_mul_is_commutative(x + n, y);
    assert(0 <= x * y) by (nonlinear_arith)
        requires
            0 <= x,
            0 <= y,
    ;
    lemma_div_is_ordered(x * y, y * (x + n), x + n);
    lemma_div_is_ordered(0, x * y, x + n);
    lemma_div_multiples_vanish(y, x + n);
    lemma_mul_is_commutative(y, x + n);
}

/// A product divided by less than one factor is at least the other factor.
pub proof fn lemma_quotient_at_least_in_reserve(x: int, y: int, d: int)
    requires
        0 <= x,
        0 <= d < y,
    ensures
        x <= (x * y) / (y - d),
{
    lemma_mul_inequality(y - d, y, x);
    lemma_mul_is_commutative(x, y);
    lemma_mul_is_commutative(x, y - d);
    lemma_div_is_ordered(x * (y - d), x * y, y - d);
    lemma_div_multiples_vanish(x, y - d);
    lemma_mul_is_commutative(x, y - d);
}

/// Prices a swap of `amount` of the input asset against the given reserves.
pub fn estimate_output(
    in_reserve: Balance,
    out_reserve: Balance,
    fees_bps: Balance,
    amount: Balance,
) -> (r: Result<Balance, ArithmeticError>)
    ensures
        r == swap_output(in_reserve, out_reserve, fees_bps, amount),
{
    let full_bps: Balance = FULL_BPS;
    let net_amount = full_bps.try_sub(&fees_bps)?.try_mul(&amount)?.try_div(&full_bps)?;

    let in_reserve_after = in_reserve.try_add(&net_amount)?;
    let k = in_reserve.try_mul(&out_reserve)?;
    let out_reserve_after = k.try_div(&in_reserve_after)?;
    proof {
        lemma_quotient_at_most_out_reserve(in_reserve as int, out_reserve as int, net_amount as int);
    }

    // Ensure reserves are not depleted
    let mut output = out_reserve.try_sub(&out_reserve_after)?;
    if out_reserve_after == 0 {
        output = output.try_sub(&1)?;
    }
    Ok(output)
}

/// Estimates the input that buys `amount` of the output asset from the given reserves.
pub fn estimate_input(
    in_reserve: Balance,
    out_reserve: Balance,
    fees_bps: Balance,
    amount: Balance,
) -> (r: Result<Balance, ArithmeticError>)
    ensures
        r == swap_input(in_reserve, out_reserve, fees_bps, amount),
{
    let full_bps: Balance = FULL_BPS;
    let out_reserve_after = out_reserve.try_sub(&amount)?;
    let k = in_reserve.try_mul(&out_reserve)?;
    let in_reserve_after = k.try_div(&out_reserve_after)?;
    proof {
        lemma_quotient_at_least_in_reserve(in_reserve as int, out_reserve as int, amount as int);
    }
    let net_amount = in_reserve_after.try_sub(&in_reserve)?;
    let kept_bps = full_bps.try_sub(&fees_bps)?;
    net_amount.try_mul(&full_bps)?.try_div(&kept_bps)
}

impl Amm {
    /// The reserve of the asset that a trader hands in.
    pub open spec fn in_reserve(self, asset_type: AssetType) -> Balance {
        match asset_type {
            AssetType::Base => self.base_reserves,
            AssetType::Quote => self.quote_reserves,
        }
    }

    /// The reserve of the asset that a trader takes out.
    pub open spec fn out_reserve(self, asset_type: AssetType) -> Balance {
        match asset_type {
            AssetType::Base => self.quote_reserves,
            AssetType::Quote => self.base_reserves,
        }
    }

    /// The pool with `input` more of the asset handed in and `output` less of the other.
    pub open spec fn with_swap(self, asset_type: AssetType, input: Balance, output: Balance) -> Amm {
        match asset_type {
            AssetType::Base => Amm {
                base_reserves: (self.base_reserves + input) as Balance,
                quote_reserves: (self.quote_reserves - output) as Balance,
                ..self
            },
            AssetType::Quote => Amm {
                base_reserves: (self.base_reserves - output) as Balance,
                quote_reserves: (self.quote_reserves + input) as Balance,
                ..self
            },
        }
    }

    /// What a swap of `amount` of the asset `asset_type` would pay out of the other asset.
    pub open spec fn payout(self, asset_type: AssetType, amount: Balance) -> Result<Balance, Error> {
        if amount == 0 {
            Err(Error::ZeroAmount)
        } else if self.k() > u64::MAX {
            Err(Error::Arithmetic(ArithmeticError::Overflow))
        } else if self.k() == 0 {
            Err(Error::ZeroLiquidity)
        } else {
            match swap_output(
                self.in_reserve(asset_type),
                self.out_reserve(asset_type),
                self.fees_bps,
                amount,
            ) {
                Ok(output) => Ok(output),
                Err(e) => Err(Error::Arithmetic(e)),
            }
        }
    }

    /// The input of the other asset that buys `amount` of the asset `asset_type`.
    pub open spec fn required_input(self, asset_type: AssetType, amount: Balance) -> Result<Balance, Error> {
        if self.k() > u64::MAX {
            Err(Error::Arithmetic(ArithmeticError::Overflow))
        } else if self.k() == 0 {
            Err(Error::ZeroLiquidity)
        } else {
            match swap_input(
                self.out_reserve(asset_type),
                self.in_reserve(asset_type),
                self.fees_bps,
                amount,
            ) {
                Ok(input) => Ok(input),
                Err(e) => Err(Error::Arithmetic(e)),
            }
        }
    }

    /// A swap as the pool decides it: the amount paid out and the pool afterwards.
    ///
    /// The whole input joins the reserve, fee included; the output must be above `output_min`.
    pub open spec fn swapped(
        self,
        asset_type: AssetType,
        input_amount: Balance,
        output_min: Balance,
    ) -> Result<(Balance, Amm), Error> {
        match self.payout(asset_type, input_amount) {
            Err(e) => Err(e),
            Ok(output) => {
                if output <= output_min {
                    Err(Error::SlippageExceeded)
                } else if self.in_reserve(asset_type) + input_amount > u64::MAX {
                    Err(Error::Arithmetic(ArithmeticError::Overflow))
                } else {
                    Ok((output, self.with_swap(asset_type, input_amount, output)))
                }
            },
        }
    }

    /// The asset of the pool that a trader hands in.
    pub open spec fn in_asset(self, asset_type: AssetType) -> AssetId {
        match asset_type {
            AssetType::Base => self.base_asset,
            AssetType::Quote => self.quote_asset,
        }
    }

    /// The asset of the pool that a trader takes out.
    pub open spec fn out_asset(self, asset_type: AssetType) -> AssetId {
        match asset_type {
            AssetType::Base => self.quote_asset,
            AssetType::Quote => self.base_asset,
        }
    }

    /// The two movements of a swap, in the order in which the ledger is asked for them: the
    /// input from the trader into custody, then the output from custody to the trader. Either
    /// may close the account it leaves.
    pub open spec fn swap_movements(
        self,
        asset_type: AssetType,
        user: AccountId,
        amm_account: AccountId,
        input_amount: Balance,
        output_amount: Balance,
    ) -> (Transfer, Transfer) {
        (
            Transfer {
                asset: self.in_asset(asset_type),
                source: user,
                dest: amm_account,
                amount: input_amount,
                keep_alive: false,
            },
            Transfer {
                asset: self.out_asset(asset_type),
                source: amm_account,
                dest: user,
                amount: output_amount,
                keep_alive: false,
            },
        )
    }

    /// Works out the two movements of a swap.
    pub fn swap_transfers(
        &self,
        asset_type: AssetType,
        user: AccountId,
        amm_account: AccountId,
        input_amount: Balance,
        output_amount: Balance,
    ) -> (transfers: (Transfer, Transfer))
        ensures
            transfers == self.swap_movements(
                asset_type,
                user,
                amm_account,
                input_amount,
                output_amount,
            ),
    {
        let (in_asset, out_asset) = match asset_type {
            AssetType::Base => (self.base_asset, self.quote_asset),
            AssetType::Quote => (self.quote_asset, self.base_asset),
        };
        (
            Transfer {
                asset: in_asset,
                source: user,
                dest: amm_account,
                amount: input_amount,
                keep_alive: false,
            },
            Transfer {
                asset: out_asset,
                source: amm_account,
                dest: user,
                amount: output_amount,
                keep_alive: false,
            },
        )
    }

    /// Estimates the base asset paid out for `amount` of the quote asset.
    pub fn get_base_estimate_given_quote_amount(&self, amount: Balance) -> (r: Result<
        Balance,
        ArithmeticError,
    >)
        ensures
            r == swap_output(self.quote_reserves, self.base_reserves, self.fees_bps, amount),
    {
        estimate_output(self.quote_reserves, self.base_reserves, self.fees_bps, amount)
    }

    /// Estimates the quote asset paid out for `amount` of the base asset.
    pub fn get_quote_estimate_given_base_amount(&self, amount: Balance) -> (r: Result<
        Balance,
        ArithmeticError,
    >)
        ensures
            r == swap_output(self.base_reserves, self.quote_reserves, self.fees_bps, amount),
    {
        estimate_output(self.base_reserves, self.quote_reserves, self.fees_bps, amount)
    }

    /// Prices a swap of `amount` of the asset `asset_type` without changing anything.
    pub fn simulate_swap(&self, asset_type: AssetType, amount: Balance) -> (r: Result<
        Balance,
        Error,
    >)
        ensures
            r == self.payout(asset_type, amount),
    {
        if amount == 0 {
            return Err(Error::ZeroAmount);
        }
        match self.is_initialized() {
            Err(e) => {
                return Err(Error::Arithmetic(e));
            },
            Ok(initialized) => {
                if !initialized {
                    return Err(Error::ZeroLiquidity);
                }
            },
        }
        let estimate = match asset_type {
            AssetType::Base => self.get_quote_estimate_given_base_amount(amount),
            AssetType::Quote => self.get_base_estimate_given_quote_amount(amount),
        };
        match estimate {
            Ok(output) => Ok(output),
            Err(e) => Err(Error::Arithmetic(e)),
        }
    }

    /// Estimates the input of the other asset that buys `amount` of the asset `asset_type`.
    pub fn output_price(&self, asset_type: AssetType, amount: Balance) -> (r: Result<
        Balance,
        Error,
    >)
        ensures
            r == self.required_input(asset_type, amount),
    {
        match self.is_initialized() {
            Err(e) => {
                return Err(Error::Arithmetic(e));
            },
            Ok(initialized) => {
                if !initialized {
                    return Err(Error::ZeroLiquidity);
                }
            },
        }
        let estimate = match asset_type {
            AssetType::Base => estimate_input(
                self.quote_reserves,
                self.base_reserves,
                self.fees_bps,
                amount,
            ),
            AssetType::Quote => estimate_input(
                self.base_reserves,
                self.quote_reserves,
                self.fees_bps,
                amount,
            ),
        };
        match estimate {
            Ok(input) => Ok(input),
            Err(e) => Err(Error::Arithmetic(e)),
        }
    }

    /// Decides a swap: prices it, holds the output against `output_min` and works out the
    /// reserves afterwards. Nothing is changed; the caller moves the assets and keeps the new
    /// state.
    pub fn swap(&self, asset_type: AssetType, input_amount: Balance, output_min: Balance) -> (r:
        Result<(Balance, Amm), Error>)
        ensures
            r == self.swapped(asset_type, input_amount, output_min),
    {
        let output_amount = self.simulate_swap(asset_type, input_amount)?;
        if !(output_amount > output_min) {
            return Err(Error::SlippageExceeded);
        }
        proof {
            let net = net_of_fee(self.fees_bps, input_amount)->Ok_0;
            lemma_quotient_at_most_out_reserve(
                self.in_reserve(asset_type) as int,
                self.out_reserve(asset_type) as int,
                net as int,
            );
        }
        let mut next = *self;
        match asset_type {
            AssetType::Base => {
                next.base_reserves = match next.base_reserves.try_add(&input_amount) {
                    Ok(reserves) => reserves,
                    Err(e) => {
                        return Err(Error::Arithmetic(e));
                    },
                };
                next.quote_reserves = match next.quote_reserves.try_sub(&output_amount) {
                    Ok(reserves) => reserves,
                    Err(e) => {
                        return Err(Error::Arithmetic(e));
                    },
                };
            },
            AssetType::Quote => {
                next.quote_reserves = match next.quote_reserves.try_add(&input_amount) {
                    Ok(reserves) => reserves,
                    Err(e) => {
                        return Err(Error::Arithmetic(e));
                    },
                };
                next.base_reserves = match next.base_reserves.try_sub(&output_amount) {
                    Ok(reserves) => reserves,
                    Err(e) => {
                        return Err(Error::Arithmetic(e));
                    },
                };
            },
        }
        Ok((output_amount, next))
    }
}

} // verus!
