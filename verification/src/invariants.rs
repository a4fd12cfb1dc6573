//! What holds of every pool and every exchange, proved from the definitions of the
//! operations.

use vstd::prelude::*;
use vstd::arithmetic::div_mod::{
    lemma_div_is_ordered, lemma_div_is_ordered_by_denominator, lemma_div_multiples_vanish,
    lemma_fundamental_div_mod, lemma_mod_pos_bound, lemma_multiply_divide_lt,
};
use vstd::arithmetic::mul::lemma_mul_is_commutative;
use vstd::arithmetic::power::{lemma_pow_positive, pow};
use crate::helpers::ArithmeticError;
use crate::liquidity::lemma_part_at_most_whole;
use vstd::bytes::{lemma_auto_spec_u64_to_from_le_bytes, spec_u64_to_le_bytes};
use crate::pallet::{sub_account, PalletView};
use crate::pricing::{
    lemma_quotient_at_least_in_reserve, lemma_quotient_at_most_out_reserve, net_of_fee, swap_input,
    swap_output,
};
use crate::types::{
    AccountId, Amm, AmmId, AssetType, Balance, Error, Event, Origin, FULL_BPS,
    INITIAL_SHARE_UNITS,
};

verus! {

impl Amm {
    /// The same pair of assets, the same share asset and the same fee.
    pub open spec fn same_terms(self, other: Amm) -> bool {
        &&& self.base_asset == other.base_asset
        &&& self.quote_asset == other.quote_asset
        &&& self.share_asset == other.share_asset
        &&& self.fees_bps == other.fees_bps
    }

    /// The input reserve as a swap prices against it: raised by the input net of the fee.
    pub open spec fn priced_in_reserve(self, asset_type: AssetType, input_amount: Balance) -> int {
        self.in_reserve(asset_type) + net_of_fee(self.fees_bps, input_amount)->Ok_0
    }

    /// The part of an input that the fee keeps out of the pricing.
    pub open spec fn fee_kept(self, input_amount: Balance) -> int {
        input_amount - net_of_fee(self.fees_bps, input_amount)->Ok_0
    }

    /// Whether the fee kept by a swap makes up for what the pricing loses in rounding down:
    /// the fee kept, times the output reserve left, against the remainder of the division.
    /// A swap that would have emptied the output reserve leaves one unit there, and that
    /// always makes up for it.
    pub open spec fn fee_covers_rounding(self, asset_type: AssetType, input_amount: Balance) -> bool {
        let left = self.k() / self.priced_in_reserve(asset_type, input_amount);
        let lost = self.k() % self.priced_in_reserve(asset_type, input_amount);
        left == 0 || self.fee_kept(input_amount) * left >= lost
    }
}

/// The fee takes something from every input: with a fee above zero, the net input is smaller
/// than the input.
pub proof fn fee_takes_from_every_input(fees_bps: Balance, amount: Balance)
    requires
        0 < fees_bps <= FULL_BPS,
        0 < amount,
        net_of_fee(fees_bps, amount) is Ok,
    ensures
        net_of_fee(fees_bps, amount)->Ok_0 < amount,
{
    let kept = (FULL_BPS - fees_bps) as int;
    assert(kept * amount < 10_000 * amount) by (nonlinear_arith)
        requires
            0 <= kept < 10_000,
            0 < amount,
    ;
    lemma_multiply_divide_lt(kept * amount, 10_000, amount as int);
}

/// No operation changes the assets or the fee of a pool: they are fixed at its creation.
pub proof fn terms_are_fixed(
    amm: Amm,
    asset_type: AssetType,
    amount: Balance,
    other_amount: Balance,
    default_decimals: u8,
)
    ensures
        amm.swapped(asset_type, amount, other_amount) matches Ok(swap) ==> swap.1.same_terms(amm),
        amm.with_liquidity(amount, other_amount, default_decimals) matches Ok(deposit)
            ==> deposit.1.same_terms(amm),
        amm.without_liquidity(amount) matches Ok(withdrawal) ==> withdrawal.2.same_terms(amm),
{
}

/// A swap never empties a reserve. Where the pricing would leave nothing of the output asset,
/// the output is one unit less, and one unit stays. The shares are not touched.
pub proof fn swap_leaves_both_reserves(
    amm: Amm,
    asset_type: AssetType,
    input_amount: Balance,
    output_min: Balance,
)
    requires
        amm.swapped(asset_type, input_amount, output_min) is Ok,
    ensures
        ({
            let (output, next) = amm.swapped(asset_type, input_amount, output_min)->Ok_0;
            let left = amm.k() / amm.priced_in_reserve(asset_type, input_amount);
            &&& output_min < output < amm.out_reserve(asset_type)
            &&& left > 0 ==> next.out_reserve(asset_type) == left
            &&& left == 0 ==> next.out_reserve(asset_type) == 1 && output == amm.out_reserve(
                asset_type,
            ) - 1
            &&& next.in_reserve(asset_type) == amm.in_reserve(asset_type) + input_amount
            &&& next.in_reserve(asset_type) >= 1
            &&& next.out_reserve(asset_type) >= 1
            &&& next.total_shares == amm.total_shares
            &&& amm.balanced() ==> next.balanced()
        }),
{
    let x = amm.in_reserve(asset_type) as int;
    let y = amm.out_reserve(asset_type) as int;
    let net = net_of_fee(amm.fees_bps, input_amount)->Ok_0 as int;
    lemma_mul_is_commutative(x, y);
    lemma_quotient_at_most_out_reserve(x, y, net);
    assert(x != 0 && y != 0) by (nonlinear_arith)
        requires
            x * y != 0,
    ;
}

/// How a swap changes the product of the reserves: the fee kept adds to it, the rounding of
/// the pricing takes from it. So the product does not fall if and only if the fee kept covers
/// the rounding.
pub proof fn swap_changes_product(
    amm: Amm,
    asset_type: AssetType,
    input_amount: Balance,
    output_min: Balance,
)
    requires
        amm.swapped(asset_type, input_amount, output_min) is Ok,
    ensures
        ({
            let next = amm.swapped(asset_type, input_amount, output_min)->Ok_0.1;
            let left = amm.k() / amm.priced_in_reserve(asset_type, input_amount);
            let lost = amm.k() % amm.priced_in_reserve(asset_type, input_amount);
            &&& left > 0 ==> next.k() == amm.k() + amm.fee_kept(input_amount) * left - lost
            &&& left == 0 ==> next.k() == amm.in_reserve(asset_type) + input_amount && next.k()
                > amm.k()
            &&& next.k() >= amm.k() <==> amm.fee_covers_rounding(asset_type, input_amount)
        }),
{
    let next = amm.swapped(asset_type, input_amount, output_min)->Ok_0.1;
    let x = amm.in_reserve(asset_type) as int;
    let y = amm.out_reserve(asset_type) as int;
    let a = input_amount as int;
    let net = net_of_fee(amm.fees_bps, input_amount)->Ok_0 as int;
    let k = x * y;
    let left = k / (x + net);
    let lost = k % (x + net);
    swap_leaves_both_reserves(amm, asset_type, input_amount, output_min);
    lemma_mul_is_commutative(x, y);
    assert(amm.k() == k);
    assert(net <= a) by {
        assert((FULL_BPS - amm.fees_bps) * a <= 10_000 * a) by (nonlinear_arith)
            requires
                0 <= FULL_BPS - amm.fees_bps <= 10_000,
                0 <= a,
        ;
        lemma_div_is_ordered((FULL_BPS - amm.fees_bps) * a, 10_000 * a, 10_000);
        lemma_div_multiples_vanish(a, 10_000);
    }
    assert(0 <= k) by (nonlinear_arith)
        requires
            k == x * y,
            0 <= x,
            0 <= y,
    ;
    lemma_fundamental_div_mod(k, x + net);
    lemma_mod_pos_bound(k, x + net);
    let next_in = next.in_reserve(asset_type) as int;
    let next_out = next.out_reserve(asset_type) as int;
    lemma_mul_is_commutative(next_in, next_out);
    assert(next.k() == next_in * next_out);
    if left > 0 {
        assert((x + a) * left == k + (a - net) * left - lost) by (nonlinear_arith)
            requires
                k == (x + net) * left + lost,
        ;
    } else {
        assert((x + a) * 1 == x + a);
        assert((x + net) * left == 0) by (nonlinear_arith)
            requires
                left == 0,
        ;
    }
}

/// The pool that a run of swaps leaves, if every one of them is accepted. A swap is an asset
/// type, an input amount and the output that it must exceed.
pub open spec fn after_swaps(amm: Amm, swaps: Seq<(AssetType, Balance, Balance)>) -> Result<
    Amm,
    Error,
>
    decreases swaps.len(),
{
    if swaps.len() == 0 {
        Ok(amm)
    } else {
        match amm.swapped(swaps[0].0, swaps[0].1, swaps[0].2) {
            Err(e) => Err(e),
            Ok((_, next)) => after_swaps(next, swaps.drop_first()),
        }
    }
}

/// Whether in each swap of a run the fee kept covers the rounding of its pricing.
pub open spec fn fees_cover_rounding(amm: Amm, swaps: Seq<(AssetType, Balance, Balance)>) -> bool
    decreases swaps.len(),
{
    if swaps.len() == 0 {
        true
    } else {
        match amm.swapped(swaps[0].0, swaps[0].1, swaps[0].2) {
            Err(_) => true,
            Ok((_, next)) => amm.fee_covers_rounding(swaps[0].0, swaps[0].1) && fees_cover_rounding(
                next,
                swaps.drop_first(),
            ),
        }
    }
}

/// Across a run of swaps, with no deposit or withdrawal in between, the product of the
/// reserves does not fall, as long as the fee kept covers the rounding in each of them.
pub proof fn product_does_not_fall_across_swaps(
    amm: Amm,
    swaps: Seq<(AssetType, Balance, Balance)>,
)
    requires
        after_swaps(amm, swaps) is Ok,
        fees_cover_rounding(amm, swaps),
    ensures
        after_swaps(amm, swaps)->Ok_0.k() >= amm.k(),
        after_swaps(amm, swaps)->Ok_0.same_terms(amm),
        after_swaps(amm, swaps)->Ok_0.total_shares == amm.total_shares,
    decreases swaps.len(),
{
    if swaps.len() > 0 {
        let next = amm.swapped(swaps[0].0, swaps[0].1, swaps[0].2)->Ok_0.1;
        swap_changes_product(amm, swaps[0].0, swaps[0].1, swaps[0].2);
        swap_leaves_both_reserves(amm, swaps[0].0, swaps[0].1, swaps[0].2);
        product_does_not_fall_across_swaps(next, swaps.drop_first());
    }
}

/// A deposit into a pool that has issued shares earns the share of the total that the base
/// amount is of the base reserve, rounded down, and the quote amount must give the same
/// number. Where the two numbers differ, the deposit is refused as not equivalent.
pub proof fn deposit_earns_proportional_shares(
    amm: Amm,
    base_amount: Balance,
    quote_amount: Balance,
    default_decimals: u8,
)
    requires
        amm.total_shares > 0,
    ensures
        amm.with_liquidity(base_amount, quote_amount, default_decimals) matches Ok(deposit) ==> {
            &&& deposit.0 == (amm.total_shares * base_amount) / (amm.base_reserves as int)
            &&& deposit.0 == (amm.total_shares * quote_amount) / (amm.quote_reserves as int)
            &&& deposit.1.base_reserves == amm.base_reserves + base_amount
            &&& deposit.1.quote_reserves == amm.quote_reserves + quote_amount
            &&& deposit.1.total_shares == amm.total_shares + deposit.0
        },
        amm.total_shares * base_amount <= u64::MAX && amm.total_shares * quote_amount <= u64::MAX
            && amm.base_reserves > 0 && amm.quote_reserves > 0 && (amm.total_shares * base_amount)
            / (amm.base_reserves as int) != (amm.total_shares * quote_amount) / (
        amm.quote_reserves as int) ==> amm.with_liquidity(
            base_amount,
            quote_amount,
            default_decimals,
        ) == Err::<(Balance, Amm), Error>(Error::NonEquivalentValue),
{
}

/// A deposit keeps a pool balanced, unless it is the first one and brings nothing of one of
/// the two assets.
pub proof fn deposit_keeps_balance(
    amm: Amm,
    base_amount: Balance,
    quote_amount: Balance,
    default_decimals: u8,
)
    requires
        amm.balanced(),
        amm.total_shares == 0 ==> base_amount > 0 && quote_amount > 0,
        amm.with_liquidity(base_amount, quote_amount, default_decimals) is Ok,
    ensures
        amm.with_liquidity(base_amount, quote_amount, default_decimals)->Ok_0.1.balanced(),
{
    if amm.total_shares == 0 {
        let unit = pow(10, default_decimals as nat);
        lemma_pow_positive(10, default_decimals as nat);
        assert(INITIAL_SHARE_UNITS * unit > 0) by (nonlinear_arith)
            requires
                INITIAL_SHARE_UNITS == 100,
                unit > 0,
        ;
    }
}

/// A withdrawal returns no more than the reserves hold and keeps a pool balanced: what is
/// left is all zero or all above zero.
pub proof fn withdrawal_keeps_balance(amm: Amm, shares: Balance)
    requires
        amm.balanced(),
        amm.without_liquidity(shares) is Ok,
    ensures
        ({
            let (base_amount, quote_amount, next) = amm.without_liquidity(shares)->Ok_0;
            &&& base_amount <= amm.base_reserves
            &&& quote_amount <= amm.quote_reserves
            &&& next.base_reserves == amm.base_reserves - base_amount
            &&& next.quote_reserves == amm.quote_reserves - quote_amount
            &&& next.total_shares == amm.total_shares - shares
            &&& next.balanced()
        }),
{
    let total = amm.total_shares as int;
    lemma_part_at_most_whole(shares as int, total, amm.base_reserves as int);
    lemma_part_at_most_whole(shares as int, total, amm.quote_reserves as int);
    if shares < amm.total_shares {
        lemma_part_below_whole(shares as int, total, amm.base_reserves as int);
        lemma_part_below_whole(shares as int, total, amm.quote_reserves as int);
    } else {
        lemma_div_multiples_vanish(amm.base_reserves as int, total);
        lemma_div_multiples_vanish(amm.quote_reserves as int, total);
    }
}

/// A proper part of a whole, taken of an amount above zero and rounded down, is less than the
/// amount.
proof fn lemma_part_below_whole(part: int, whole: int, amount: int)
    requires
        0 <= part < whole,
        0 < amount,
    ensures
        (part * amount) / whole < amount,
{
    assert(part * amount < whole * amount) by (nonlinear_arith)
        requires
            0 <= part < whole,
            0 < amount,
    ;
    lemma_multiply_divide_lt(part * amount, whole, amount);
}

/// Withdrawing all the shares of a pool returns all its reserves and leaves it empty, as it
/// was after its creation.
pub proof fn full_withdrawal_empties_pool(amm: Amm)
    requires
        amm.total_shares > 0,
    ensures
        amm.without_liquidity(amm.total_shares) matches Ok(withdrawal) ==> {
            &&& withdrawal.0 == amm.base_reserves
            &&& withdrawal.1 == amm.quote_reserves
            &&& withdrawal.2.base_reserves == 0
            &&& withdrawal.2.quote_reserves == 0
            &&& withdrawal.2.total_shares == 0
        },
        amm.without_liquidity(amm.total_shares) is Ok <==> amm.total_shares * amm.base_reserves
            <= u64::MAX && amm.total_shares * amm.quote_reserves <= u64::MAX,
{
    lemma_div_multiples_vanish(amm.base_reserves as int, amm.total_shares as int);
    lemma_div_multiples_vanish(amm.quote_reserves as int, amm.total_shares as int);
}

/// The price oracle and the swap agree: a swap that the exchange decides to carry out pays
/// exactly what a simulation of it on the same state returns. And a simulation that returns an
/// amount above the minimum is a swap that the exchange decides to carry out, unless the input
/// reserve cannot take the input.
pub proof fn simulation_matches_swap(
    pallet: PalletView,
    user: AccountId,
    amm_id: AmmId,
    asset_type: AssetType,
    input_amount: Balance,
    output_min: Balance,
)
    ensures
        pallet.exchange(Origin::Signed(user), amm_id, asset_type, input_amount, output_min)
            matches Ok(swap) ==> pallet.simulated(amm_id, asset_type, input_amount) == Ok::<
            Balance,
            Error,
        >(swap.1),
        pallet.simulated(amm_id, asset_type, input_amount) matches Ok(output) ==> (
        pallet.exchange(Origin::Signed(user), amm_id, asset_type, input_amount, output_min)
            is Ok <==> output > output_min && pallet.amm_state(amm_id)->Ok_0.in_reserve(asset_type)
            + input_amount <= u64::MAX),
        pallet.simulated(amm_id, asset_type, input_amount) matches Err(e) ==> pallet.exchange(
            Origin::Signed(user),
            amm_id,
            asset_type,
            input_amount,
            output_min,
        ) == Err::<(AccountId, Balance, Amm), Error>(e),
{
}

/// Pricing never pays out a whole reserve: the output is less than the output reserve. And a
/// pool that holds both assets, at a fee within range, can price every input unless a number
/// does not fit.
pub proof fn pricing_spares_reserve(
    in_reserve: Balance,
    out_reserve: Balance,
    fees_bps: Balance,
    amount: Balance,
)
    ensures
        swap_output(in_reserve, out_reserve, fees_bps, amount) matches Ok(output) ==> output
            < out_reserve,
        in_reserve > 0 && out_reserve > 0 && fees_bps <= FULL_BPS ==> (swap_output(
            in_reserve,
            out_reserve,
            fees_bps,
            amount,
        ) matches Err(e) ==> e == ArithmeticError::Overflow),
{
    if let Ok(net) = net_of_fee(fees_bps, amount) {
        if in_reserve + net > 0 {
            lemma_quotient_at_most_out_reserve(in_reserve as int, out_reserve as int, net as int);
        }
    }
}

/// The price oracle errs on one side only. The input that it estimates for a desired output
/// buys that output or less, never more: every division rounds towards the pool.
pub proof fn estimated_input_buys_no_more(
    in_reserve: Balance,
    out_reserve: Balance,
    fees_bps: Balance,
    amount: Balance,
)
    requires
        swap_input(in_reserve, out_reserve, fees_bps, amount) is Ok,
        swap_output(
            in_reserve,
            out_reserve,
            fees_bps,
            swap_input(in_reserve, out_reserve, fees_bps, amount)->Ok_0,
        ) is Ok,
    ensures
        swap_output(
            in_reserve,
            out_reserve,
            fees_bps,
            swap_input(in_reserve, out_reserve, fees_bps, amount)->Ok_0,
        )->Ok_0 <= amount,
{
    let x = in_reserve as int;
    let y = out_reserve as int;
    let kept = FULL_BPS - fees_bps;
    let k = x * y;
    let rest = y - amount;
    let priced = k / rest;
    let net = priced - x;
    let input = swap_input(in_reserve, out_reserve, fees_bps, amount)->Ok_0 as int;
    let net_again = net_of_fee(fees_bps, input as Balance)->Ok_0 as int;
    assert(0 <= k) by (nonlinear_arith)
        requires
            k == x * y,
            0 <= x,
            0 <= y,
    ;
    lemma_quotient_at_least_in_reserve(x, y, amount as int);
    assert(0 <= net * 10_000) by (nonlinear_arith)
        requires
            0 <= net,
    ;
    // The input, net of the fee, is no more than the net input that the price was made for.
    assert(net_again <= net) by {
        lemma_fundamental_div_mod(net * 10_000, kept);
        lemma_mod_pos_bound(net * 10_000, kept);
        assert(kept * input <= net * 10_000);
        lemma_div_is_ordered(kept * input, net * 10_000, 10_000);
        lemma_mul_is_commutative(net, 10_000);
        lemma_div_multiples_vanish(net, 10_000);
    }
    // So the output reserve is left with at least what the price was made for.
    let left = k / (x + net_again);
    assert(rest <= left) by {
        lemma_div_is_ordered_by_denominator(k, x + net_again, priced);
        lemma_fundamental_div_mod(k, rest);
        lemma_mod_pos_bound(k, rest);
        assert(rest * priced <= k);
        lemma_mul_is_commutative(rest, priced);
        lemma_div_is_ordered(priced * rest, k, priced);
        lemma_div_multiples_vanish(rest, priced);
    }
    lemma_quotient_at_most_out_reserve(x, y, net_again);
}

/// The same of a pool: where the oracle prices an amount of one asset and a swap of the
/// estimated input is simulated, the swap pays that amount or less.
pub proof fn priced_input_buys_no_more(amm: Amm, asset_type: AssetType, amount: Balance)
    requires
        amm.required_input(asset_type, amount) is Ok,
        amm.payout(asset_type.other(), amm.required_input(asset_type, amount)->Ok_0) is Ok,
    ensures
        amm.payout(asset_type.other(), amm.required_input(asset_type, amount)->Ok_0)->Ok_0 <= amount,
{
    estimated_input_buys_no_more(
        amm.out_reserve(asset_type),
        amm.in_reserve(asset_type),
        amm.fees_bps,
        amount,
    );
}

/// The registry only grows. A pool keeps its number for good: creating a pool changes none of
/// the pools before it and gives the new one the next number, and the other operations replace
/// one pool and leave the numbers as they are. So a number is given once and never again.
pub proof fn numbers_are_given_once(
    pallet: PalletView,
    amm_id: AmmId,
    amm_state: Amm,
    event: Event,
)
    requires
        amm_id < pallet.amm_count(),
    ensures
        pallet.with_new_amm(amm_state).amm_count() == pallet.amm_count() + 1,
        pallet.with_new_amm(amm_state).amm_state(amm_id) == pallet.amm_state(amm_id),
        pallet.amm_count() <= u64::MAX ==> pallet.with_new_amm(amm_state).amm_state(
            pallet.amm_count() as AmmId,
        ) == Ok::<Amm, Error>(amm_state),
        pallet.with_amm_state(amm_id, amm_state, event).amm_count() == pallet.amm_count(),
        pallet.with_amm_state(amm_id, amm_state, event).amm_state(amm_id) == Ok::<Amm, Error>(
            amm_state,
        ),
        forall|other: AmmId|
            other != amm_id ==> #[trigger] pallet.with_amm_state(amm_id, amm_state, event).amm_state(
                other,
            ) == pallet.amm_state(other),
{
}

/// The reserves follow the movements. What a swap, a deposit or a withdrawal asks the ledger
/// to move into custody is what the reserve of that asset rises by, and what it asks to move
/// out of custody is what the reserve falls by; the shares minted or burnt are what the total
/// of shares changes by. So the reserves are what the ledger holds in custody for the pool, as
/// long as the ledger does what it is asked.
pub proof fn reserves_follow_movements(
    amm: Amm,
    user: AccountId,
    amm_account: AccountId,
    asset_type: AssetType,
    amount: Balance,
    other_amount: Balance,
    default_decimals: u8,
)
    ensures
        amm.swapped(asset_type, amount, other_amount) matches Ok(swap) ==> {
            let movements = amm.swap_movements(asset_type, user, amm_account, amount, swap.0);
            &&& movements.0.dest == amm_account && movements.0.asset == amm.in_asset(asset_type)
            &&& movements.0.amount == swap.1.in_reserve(asset_type) - amm.in_reserve(asset_type)
            &&& movements.1.source == amm_account && movements.1.asset == amm.out_asset(asset_type)
            &&& movements.1.amount == amm.out_reserve(asset_type) - swap.1.out_reserve(asset_type)
        },
        amm.with_liquidity(amount, other_amount, default_decimals) matches Ok(deposit) ==> {
            let movements = amm.liquidity_movements(user, amm_account, amount, other_amount);
            &&& movements.0.dest == amm_account && movements.0.asset == amm.base_asset
            &&& movements.0.amount == deposit.1.base_reserves - amm.base_reserves
            &&& movements.1.dest == amm_account && movements.1.asset == amm.quote_asset
            &&& movements.1.amount == deposit.1.quote_reserves - amm.quote_reserves
            &&& deposit.0 == deposit.1.total_shares - amm.total_shares
        },
        amm.without_liquidity(amount) matches Ok(withdrawal) ==> {
            let movements = amm.liquidity_movements(
                amm_account,
                user,
                withdrawal.0,
                withdrawal.1,
            );
            &&& movements.0.source == amm_account && movements.0.asset == amm.base_asset
            &&& movements.0.amount == amm.base_reserves - withdrawal.2.base_reserves
            &&& movements.1.source == amm_account && movements.1.asset == amm.quote_asset
            &&& movements.1.amount == amm.quote_reserves - withdrawal.2.quote_reserves
            &&& amount == amm.total_shares - withdrawal.2.total_shares
        },
{
    if amm.swapped(asset_type, amount, other_amount) is Ok {
        swap_leaves_both_reserves(amm, asset_type, amount, other_amount);
    }
    if amm.without_liquidity(amount) is Ok {
        lemma_part_at_most_whole(amount as int, amm.total_shares as int, amm.base_reserves as int);
        lemma_part_at_most_whole(amount as int, amm.total_shares as int, amm.quote_reserves as int);
    }
}

/// Every pool has a custody account of its own: the accounts of two pools of one exchange
/// differ, since each holds the number of its pool.
pub proof fn custody_accounts_differ(pallet_id: Seq<u8>, amm_id: AmmId, other: AmmId)
    requires
        pallet_id.len() == 8,
        amm_id != other,
    ensures
        sub_account(pallet_id, amm_id).len() == 32,
        sub_account(pallet_id, amm_id) != sub_account(pallet_id, other),
{
    lemma_auto_spec_u64_to_from_le_bytes();
    let mine = sub_account(pallet_id, amm_id);
    let theirs = sub_account(pallet_id, other);
    assert(mine.subrange(12, 20) =~= spec_u64_to_le_bytes(amm_id));
    assert(theirs.subrange(12, 20) =~= spec_u64_to_le_bytes(other));
}

} // verus!
