use pallet_dex::helpers::ArithmeticError;
use pallet_dex::types::{Amm, Balance, Error, Transfer};

const UNIT: Balance = 1_000_000;

fn account(n: u8) -> [u8; 32] {
    let mut bytes = [0u8; 32];
    bytes[0] = n;
    bytes
}

fn pool(base_reserves: Balance, quote_reserves: Balance, total_shares: Balance) -> Amm {
    Amm {
        base_asset: 0,
        base_reserves,
        quote_asset: 1,
        quote_reserves,
        share_asset: 100,
        total_shares,
        fees_bps: 30,
    }
}

#[test]
fn first_deposit_earns_a_hundred_whole_shares() {
    let empty = pool(0, 0, 0);
    assert_eq!(empty.shares_for(UNIT, 100 * UNIT, 6), Ok(100 * UNIT));
    assert_eq!(empty.shares_for(1, 1, 6), Ok(100 * UNIT));
    assert_eq!(empty.shares_for(UNIT, 100 * UNIT, 0), Ok(100));
    assert_eq!(
        empty.provide_liquidity(UNIT, 100 * UNIT, 6),
        Ok((100 * UNIT, pool(UNIT, 100 * UNIT, 100 * UNIT)))
    );
}

#[test]
fn first_deposit_fails_where_the_shares_do_not_fit() {
    let empty = pool(0, 0, 0);
    assert_eq!(empty.shares_for(UNIT, UNIT, 17), Ok(10_000_000_000_000_000_000));
    assert_eq!(empty.shares_for(UNIT, UNIT, 18), Err(Error::Arithmetic(ArithmeticError::Overflow)));
    assert_eq!(
        empty.provide_liquidity(UNIT, UNIT, 18),
        Err(Error::Arithmetic(ArithmeticError::Overflow))
    );
}

#[test]
fn later_deposit_earns_shares_in_proportion() {
    let amm = pool(UNIT, 100 * UNIT, 100 * UNIT);
    assert_eq!(amm.shares_for(UNIT / 2, 50 * UNIT, 6), Ok(50 * UNIT));
    assert_eq!(
        amm.provide_liquidity(UNIT / 2, 50 * UNIT, 6),
        Ok((50 * UNIT, pool(UNIT + UNIT / 2, 150 * UNIT, 150 * UNIT)))
    );
    // Rounded down on both sides: 7 * 3 / 10 = 2 = 7 * 6 / 20.
    assert_eq!(pool(10, 20, 7).provide_liquidity(3, 6, 6), Ok((2, pool(13, 26, 9))));
    // A deposit too small to earn a share still joins the reserves.
    assert_eq!(pool(1_000, 1_000, 10).provide_liquidity(1, 1, 6), Ok((0, pool(1_001, 1_001, 10))));
}

#[test]
fn later_deposit_must_match_the_ratio() {
    let amm = pool(UNIT, 100 * UNIT, 100 * UNIT);
    assert_eq!(amm.shares_for(UNIT / 2, 51 * UNIT, 6), Err(Error::NonEquivalentValue));
    assert_eq!(amm.provide_liquidity(UNIT / 2, 49 * UNIT, 6), Err(Error::NonEquivalentValue));
    assert_eq!(amm.provide_liquidity(0, UNIT, 6), Err(Error::NonEquivalentValue));
}

fn overflow<T>() -> Result<T, Error> {
    Err(Error::Arithmetic(ArithmeticError::Overflow))
}

fn by_zero<T>() -> Result<T, Error> {
    Err(Error::Arithmetic(ArithmeticError::DivisionByZero))
}

#[test]
fn deposit_reports_what_cannot_be_computed() {
    assert_eq!(pool(UNIT, UNIT, u64::MAX).shares_for(2, 2, 6), overflow());
    assert_eq!(pool(0, UNIT, UNIT).shares_for(1, 1, 6), by_zero());
    assert_eq!(pool(UNIT, 0, UNIT).shares_for(1, 1, 6), by_zero());
    assert_eq!(pool(1, 1, 1 << 32).shares_for(1, 1 << 32, 6), overflow());
    // The shares can be computed, but a reserve or the total cannot take them.
    assert_eq!(pool(u64::MAX, u64::MAX, 1).provide_liquidity(1, 1, 6), overflow());
    assert_eq!(pool(1, u64::MAX, 1).provide_liquidity(1, u64::MAX, 6), overflow());
    assert_eq!(pool(1, 1, u64::MAX / 2 + 1).provide_liquidity(1, 1, 6), overflow());
    assert_eq!(pool(u64::MAX, 0, 0).provide_liquidity(1, 1, 6), overflow());
}

#[test]
fn withdrawal_returns_the_share_of_each_reserve() {
    let amm = pool(UNIT + UNIT / 2, 150 * UNIT, 150 * UNIT);
    assert_eq!(
        amm.withdraw(100 * UNIT),
        Ok((UNIT, 100 * UNIT, pool(UNIT / 2, 50 * UNIT, 50 * UNIT)))
    );
    // Rounded down: 3 * 10 / 7 = 4 and 3 * 20 / 7 = 8.
    assert_eq!(pool(10, 20, 7).withdraw(3), Ok((4, 8, pool(6, 12, 4))));
    assert_eq!(pool(10, 20, 7).withdraw(0), Ok((0, 0, pool(10, 20, 7))));
}

#[test]
fn withdrawal_of_all_shares_empties_the_pool() {
    assert_eq!(pool(10, 20, 7).withdraw(7), Ok((10, 20, pool(0, 0, 0))));
    assert_eq!(
        pool(1_500_000, 150_056_163, 150 * UNIT).withdraw(150 * UNIT),
        Ok((1_500_000, 150_056_163, pool(0, 0, 0)))
    );
}

#[test]
fn withdrawal_reports_what_cannot_be_computed() {
    assert_eq!(pool(u64::MAX, 1, 2).withdraw(2), Err(ArithmeticError::Overflow));
    assert_eq!(pool(1, u64::MAX, 2).withdraw(2), Err(ArithmeticError::Overflow));
    assert_eq!(pool(0, 0, 0).withdraw(0), Err(ArithmeticError::DivisionByZero));
    assert_eq!(pool(0, 0, 0).withdraw(5), Err(ArithmeticError::DivisionByZero));
    assert_eq!(pool(10, 20, 7).withdraw(8), Err(ArithmeticError::Underflow));
}

#[test]
fn liquidity_moves_the_base_and_then_the_quote() {
    let amm = pool(UNIT, 100 * UNIT, 100 * UNIT);
    assert_eq!(
        amm.liquidity_transfers(account(1), account(77), UNIT / 2, 50 * UNIT),
        (
            Transfer { asset: 0, source: account(1), dest: account(77), amount: UNIT / 2, keep_alive: false },
            Transfer { asset: 1, source: account(1), dest: account(77), amount: 50 * UNIT, keep_alive: false },
        )
    );
}
