//! Curve-engine behavior on concrete values: bootstrap and proportional
//! deposits, swap pricing with and without a fee, slippage rejection, the
//! reserve-product growth, and the deposit/withdraw round trip.

use pinocchio_amm::curve::{deposit_amounts, swap, withdraw_amounts, SwapResult};
use pinocchio_amm::error::CustomError;

#[test]
fn test_bootstrap_deposit_takes_maximums() {
    // Empty pool: the caller's maximums are used verbatim, whatever the
    // requested share amount.
    assert_eq!(deposit_amounts(0, 0, 0, 7, 1234, 5678), Ok((1234, 5678)));
    assert_eq!(deposit_amounts(0, 0, 0, 0, 55, 66), Ok((55, 66)));
    assert_eq!(
        deposit_amounts(0, 0, 0, u64::MAX, 9, 11),
        Ok((9, 11))
    );
}

#[test]
fn test_proportional_deposit_exact_values() {
    // 7 shares of a 100-share pool: 7% of each reserve, rounded up.
    assert_eq!(deposit_amounts(1000, 2000, 100, 7, 0, 0), Ok((70, 140)));
    // Rounding up: 1 share of a 3-share pool over 100/200 reserves.
    assert_eq!(deposit_amounts(100, 200, 3, 1, 0, 0), Ok((34, 67)));
}

#[test]
fn test_deposit_rejects_inconsistent_pool() {
    // Shares exist but a reserve is empty, or reserves exist with no shares.
    assert_eq!(
        deposit_amounts(0, 2000, 100, 7, 0, 0),
        Err(CustomError::InvalidDeposit)
    );
    assert_eq!(
        deposit_amounts(1000, 2000, 0, 7, 0, 0),
        Err(CustomError::InvalidDeposit)
    );
}

#[test]
fn test_deposit_rejects_overflow() {
    // One share of a one-share pool is the whole reserve; requesting two
    // overflows a 64-bit balance.
    assert_eq!(
        deposit_amounts(u64::MAX, 1, 1, 2, 0, 0),
        Err(CustomError::InvalidDeposit)
    );
}

#[test]
fn test_swap_fixture_values() {
    // The repository fixture: 5% fee, square pool of 100_000_000, sell 100.
    // The fee keeps 5, the curve prices 95, the output is 94.
    let r = swap(true, 100_000_000, 100_000_000, 500, 100, 90);
    assert_eq!(
        r,
        Ok(SwapResult { deposit: 100, withdraw: 94 })
    );
    assert!(r.unwrap().withdraw >= 90 && r.unwrap().withdraw < 100);
}

#[test]
fn test_swap_slippage_rejected() {
    // Same fixture with min = 100: the true output is 94, so the swap
    // fails with the swap error.
    assert_eq!(
        swap(true, 100_000_000, 100_000_000, 500, 100, 100),
        Err(CustomError::InvalidSwap)
    );
}

#[test]
fn test_swap_zero_fee() {
    // With no fee the full input is priced; only the ceiling rounding
    // holds back part of the output.
    assert_eq!(
        swap(true, 100_000_000, 100_000_000, 0, 100, 0),
        Ok(SwapResult { deposit: 100, withdraw: 99 })
    );
}

#[test]
fn test_swap_sides() {
    // Selling Y against an asymmetric pool uses the reserves mirrored.
    let r_y = swap(false, 50_000_000, 100_000_000, 0, 1000, 0).unwrap();
    let r_x = swap(true, 100_000_000, 50_000_000, 0, 1000, 0).unwrap();
    assert_eq!(r_y.withdraw, r_x.withdraw);
    assert_eq!(r_y.deposit, 1000);
}

#[test]
fn test_swap_reserve_product_grows() {
    // The constant-product invariant on the fixture values: the product of
    // the post-swap reserves covers the product before.
    let (rx, ry) = (100_000_000u64, 100_000_000u64);
    let r = swap(true, rx, ry, 500, 100, 0).unwrap();
    let before = rx as u128 * ry as u128;
    let after = (rx as u128 + r.deposit as u128) * (ry as u128 - r.withdraw as u128);
    assert!(after > before);
    // With a zero fee and an inexact division the product still never
    // shrinks.
    let r0 = swap(true, rx, ry, 0, 100, 0).unwrap();
    let after0 = (rx as u128 + r0.deposit as u128) * (ry as u128 - r0.withdraw as u128);
    assert!(after0 >= before);
}

#[test]
fn test_swap_rejects_infeasible() {
    // Fee above 100%, empty reserves, or a grown reserve that overflows.
    assert_eq!(
        swap(true, 1000, 1000, 10_001, 100, 0),
        Err(CustomError::InvalidSwap)
    );
    assert_eq!(swap(true, 0, 1000, 0, 100, 0), Err(CustomError::InvalidSwap));
    assert_eq!(
        swap(true, u64::MAX, 1000, 0, 1, 0),
        Err(CustomError::InvalidSwap)
    );
}

#[test]
fn test_withdraw_exact_values() {
    // 7 shares of a 100-share pool pay out 7% of each reserve, rounded
    // down.
    assert_eq!(withdraw_amounts(1000, 2000, 100, 7, 100, 200), Ok((70, 140)));
    assert_eq!(withdraw_amounts(100, 200, 3, 1, 100, 200), Ok((33, 66)));
}

#[test]
fn test_withdraw_respects_bounds() {
    // A payout over either caller bound fails with the withdrawal error.
    assert_eq!(
        withdraw_amounts(1000, 2000, 100, 7, 69, 200),
        Err(CustomError::InvalidWithdrawal)
    );
    assert_eq!(
        withdraw_amounts(1000, 2000, 100, 7, 70, 139),
        Err(CustomError::InvalidWithdrawal)
    );
    assert_eq!(
        withdraw_amounts(1000, 2000, 0, 7, 100, 200),
        Err(CustomError::InvalidWithdrawal)
    );
}

#[test]
fn test_deposit_withdraw_round_trip_concrete() {
    // Deposit 10 shares, then burn the same 10: the payout never exceeds
    // what was deposited.
    let (rx, ry, s, l) = (1000u64, 2000u64, 100u64, 10u64);
    let (x, y) = deposit_amounts(rx, ry, s, l, 0, 0).unwrap();
    let (back_x, back_y) =
        withdraw_amounts(rx + x, ry + y, s + l, l, u64::MAX, u64::MAX).unwrap();
    assert!(back_x <= x);
    assert!(back_y <= y);
    assert_eq!((x, y), (100, 200));
    assert_eq!((back_x, back_y), (100, 200));
}
