//! Curve engine: pure constant-product math for deposits, swaps and
//! withdrawals. All amounts are unsigned 64-bit integers; intermediate
//! products are computed in 128 bits, so no step overflows. Rounding always
//! favors the pool: deposits round the charged amounts up, withdrawals round
//! the paid amounts down, and a swap rounds the reserve it must retain up.

use vstd::prelude::*;
use vstd::arithmetic::div_mod::{
    lemma_div_is_ordered, lemma_div_multiples_vanish, lemma_div_multiples_vanish_fancy,
    lemma_fundamental_div_mod, lemma_mod_division_less_than_divisor,
};
use vstd::arithmetic::mul::{lemma_mul_inequality, lemma_mul_nonnegative, lemma_mul_upper_bound};

use crate::error::CustomError;

verus! {

/// Fee rates are in basis points: parts per ten thousand of the swap input.
pub const FEE_DENOMINATOR: u64 = 10_000;

/// Quotient of `a` by `b`, rounded toward positive infinity.
pub open spec fn ceil_div(a: int, b: int) -> int
    recommends
        a >= 0,
        b >= 1,
{
    (a + b - 1) / b
}

/// The fee retained by the pool on a swap input, rounded down.
pub open spec fn fee_amount(amount: int, fee_bps: int) -> int {
    amount * fee_bps / (FEE_DENOMINATOR as int)
}

/// The part of a swap input that is priced by the curve: the input net of
/// the fee.
pub open spec fn net_input(amount: int, fee_bps: int) -> int {
    amount - fee_amount(amount, fee_bps)
}

/// The reserve of the bought asset the pool must retain after a swap: the
/// constant product divided by the grown reserve of the sold asset, rounded
/// up in the pool's favor.
pub open spec fn new_out_reserve(r_in: int, r_out: int, fee_bps: int, amount: int) -> int {
    ceil_div(r_in * r_out, r_in + net_input(amount, fee_bps))
}

/// The amount of the bought asset a swap pays out.
pub open spec fn swap_output(r_in: int, r_out: int, fee_bps: int, amount: int) -> int {
    r_out - new_out_reserve(r_in, r_out, fee_bps, amount)
}

/// When a swap is feasible: the fee keeps at most the whole input, both reserves are
/// funded, the grown reserve still fits a balance, and the output clears
/// the caller's minimum.
pub open spec fn swap_ok(r_in: int, r_out: int, fee_bps: int, amount: int, min: int) -> bool {
    &&& fee_bps <= FEE_DENOMINATOR
    &&& r_in >= 1
    &&& r_out >= 1
    &&& r_in + amount <= u64::MAX
    &&& swap_output(r_in, r_out, fee_bps, amount) >= min
}

/// A pool in the bootstrap state: nothing deposited, no shares minted.
pub open spec fn bootstrap(reserve_x: int, reserve_y: int, total_shares: int) -> bool {
    reserve_x == 0 && reserve_y == 0 && total_shares == 0
}

/// The amount of one asset a deposit of `requested` shares must supply:
/// the share of the reserve those shares represent, rounded up.
pub open spec fn proportional_ceil(reserve: int, total_shares: int, requested: int) -> int {
    ceil_div(requested * reserve, total_shares)
}

/// The amount of one asset burning `burn` shares pays out: the share of the
/// reserve those shares represent, rounded down.
pub open spec fn proportional_floor(reserve: int, total_shares: int, burn: int) -> int {
    burn * reserve / total_shares
}

/// When a proportional (non-bootstrap) deposit is feasible.
pub open spec fn deposit_ok(
    reserve_x: int,
    reserve_y: int,
    total_shares: int,
    requested: int,
) -> bool {
    &&& total_shares >= 1
    &&& reserve_x >= 1
    &&& reserve_y >= 1
    &&& proportional_ceil(reserve_x, total_shares, requested) <= u64::MAX
    &&& proportional_ceil(reserve_y, total_shares, requested) <= u64::MAX
}

/// When a withdrawal is feasible: shares exist and both paid amounts stay
/// within the caller's slippage bounds.
pub open spec fn withdraw_ok(
    reserve_x: int,
    reserve_y: int,
    total_shares: int,
    burn: int,
    max_x: int,
    max_y: int,
) -> bool {
    &&& total_shares >= 1
    &&& proportional_floor(reserve_x, total_shares, burn) <= max_x
    &&& proportional_floor(reserve_y, total_shares, burn) <= max_y
}

/// What a swap moves: the trader pays `deposit` of the sold asset into the
/// pool and receives `withdraw` of the bought asset.
#[derive(Clone, Copy, Debug, PartialEq, Eq, Structural)]
pub struct SwapResult {
    pub deposit: u64,
    pub withdraw: u64,
}

/// The rounded-up quotient `ceil_div(a, b)`, computed exactly.
fn ceil_div_u128(a: u128, b: u128) -> (r: u128)
    requires
        b >= 1,
    ensures
        r == ceil_div(a as int, b as int),
{
    let q = a / b;
    let rem = a % b;
    proof {
        lemma_fundamental_div_mod(a as int, b as int);
        lemma_mod_division_less_than_divisor(a as int, b as int);
        if rem == 0 {
            lemma_div_multiples_vanish_fancy(q as int, b as int - 1, b as int);
        } else {
            lemma_div_multiples_vanish_fancy(q as int + 1, rem as int - 1, b as int);
            assert((b as int) * (q as int + 1) == (b as int) * (q as int) + b) by {
                vstd::arithmetic::mul::lemma_mul_is_distributive_add(b as int, q as int, 1);
            }
            assert(q <= (q as int) * (b as int)) by {
                lemma_mul_inequality(1, b as int, q as int);
                vstd::arithmetic::mul::lemma_mul_is_commutative(b as int, q as int);
            }
        }
    }
    if rem != 0 {
        q + 1
    } else {
        q
    }
}

/// Bounds of the rounded-up quotient: it covers `a` and overshoots by less
/// than one multiple of `b`.
pub proof fn lemma_ceil_div_bounds(a: int, b: int)
    requires
        a >= 0,
        b >= 1,
    ensures
        ceil_div(a, b) * b >= a,
        ceil_div(a, b) * b < a + b,
        ceil_div(a, b) >= 0,
        a >= 1 ==> ceil_div(a, b) >= 1,
{
    let q = ceil_div(a, b);
    lemma_fundamental_div_mod(a + b - 1, b);
    lemma_mod_division_less_than_divisor(a + b - 1, b);
    assert(q * b == b * q);
    if a >= 1 && q < 1 {
        assert(q * b <= 0) by {
            lemma_mul_inequality(q, 0, b);
        }
    }
}

/// The deposit amounts for minting `requested` pool shares. In the
/// bootstrap state the caller-supplied maximums are taken verbatim — the
/// first depositor sets the initial price. Otherwise both amounts are the
/// requested share of the current reserves, rounded up; the request is
/// rejected as an invalid deposit when the pool state is inconsistent or an
/// amount overflows a balance.
pub fn deposit_amounts(
    reserve_x: u64,
    reserve_y: u64,
    total_shares: u64,
    requested: u64,
    max_x: u64,
    max_y: u64,
) -> (r: Result<(u64, u64), CustomError>)
    ensures
        bootstrap(reserve_x as int, reserve_y as int, total_shares as int) ==> r == Ok::<(u64, u64),
            CustomError>((max_x, max_y)),
        !bootstrap(reserve_x as int, reserve_y as int, total_shares as int) ==> {
            &&& r is Ok <==> deposit_ok(
                reserve_x as int,
                reserve_y as int,
                total_shares as int,
                requested as int,
            )
            &&& r is Ok ==> r.unwrap().0 == proportional_ceil(
                reserve_x as int,
                total_shares as int,
                requested as int,
            ) && r.unwrap().1 == proportional_ceil(
                reserve_y as int,
                total_shares as int,
                requested as int,
            )
            &&& r is Err ==> r == Err::<(u64, u64), CustomError>(CustomError::InvalidDeposit)
        },
{
    if total_shares == 0 && reserve_x == 0 && reserve_y == 0 {
        return Ok((max_x, max_y));
    }
    if total_shares == 0 || reserve_x == 0 || reserve_y == 0 {
        return Err(CustomError::InvalidDeposit);
    }
    proof {
        lemma_mul_upper_bound(requested as int, u64::MAX as int, reserve_x as int, u64::MAX as int);
        lemma_mul_upper_bound(requested as int, u64::MAX as int, reserve_y as int, u64::MAX as int);
    }
    let x = ceil_div_u128((requested as u128) * (reserve_x as u128), total_shares as u128);
    let y = ceil_div_u128((requested as u128) * (reserve_y as u128), total_shares as u128);
    if x > u64::MAX as u128 || y > u64::MAX as u128 {
        return Err(CustomError::InvalidDeposit);
    }
    Ok((x as u64, y as u64))
}

/// The swap result for selling `amount` of one asset against reserves
/// `(r_in, r_out)` under a basis-point fee. The full input is charged; the
/// input net of the fee prices the curve, so the fee stays in the pool. The
/// request is rejected as an invalid swap when the pool state or fee rate is
/// infeasible, the grown reserve would overflow, or the output falls short
/// of `min`.
pub fn swap(
    is_x: bool,
    reserve_x: u64,
    reserve_y: u64,
    fee_bps: u16,
    amount: u64,
    min: u64,
) -> (r: Result<SwapResult, CustomError>)
    ensures
        ({
            let r_in: int = if is_x {
                reserve_x as int
            } else {
                reserve_y as int
            };
            let r_out: int = if is_x {
                reserve_y as int
            } else {
                reserve_x as int
            };
            &&& (r is Ok <==> swap_ok(r_in, r_out, fee_bps as int, amount as int, min as int))
            &&& r is Ok ==> r.unwrap().deposit == amount && r.unwrap().withdraw == swap_output(
                r_in,
                r_out,
                fee_bps as int,
                amount as int,
            )
            &&& r is Err ==> r == Err::<SwapResult, CustomError>(CustomError::InvalidSwap)
        }),
{
    let (r_in, r_out) = if is_x {
        (reserve_x, reserve_y)
    } else {
        (reserve_y, reserve_x)
    };
    if fee_bps as u64 > FEE_DENOMINATOR {
        return Err(CustomError::InvalidSwap);
    }
    if r_in == 0 || r_out == 0 {
        return Err(CustomError::InvalidSwap);
    }
    if (r_in as u128) + (amount as u128) > u64::MAX as u128 {
        return Err(CustomError::InvalidSwap);
    }
    proof {
        lemma_mul_upper_bound(amount as int, u64::MAX as int, fee_bps as int, u16::MAX as int);
    }
    let fee = (amount as u128) * (fee_bps as u128) / (FEE_DENOMINATOR as u128);
    proof {
        lemma_fee_le_amount(amount as int, fee_bps as int);
    }
    let net = (amount as u128) - fee;
    proof {
        lemma_mul_upper_bound(r_in as int, u64::MAX as int, r_out as int, u64::MAX as int);
    }
    let k = (r_in as u128) * (r_out as u128);
    let d = (r_in as u128) + net;
    let new_out = ceil_div_u128(k, d);
    proof {
        lemma_new_out_le_r_out(r_in as int, r_out as int, net as int);
    }
    let withdraw = r_out - (new_out as u64);
    if withdraw < min {
        return Err(CustomError::InvalidSwap);
    }
    Ok(SwapResult { deposit: amount, withdraw })
}

/// The fee never exceeds the input it is taken from.
proof fn lemma_fee_le_amount(amount: int, fee_bps: int)
    requires
        amount >= 0,
        0 <= fee_bps <= FEE_DENOMINATOR,
    ensures
        0 <= fee_amount(amount, fee_bps) <= amount,
{
    let den = FEE_DENOMINATOR as int;
    lemma_mul_inequality(fee_bps, den, amount);
    assert(fee_bps * amount == amount * fee_bps) by {
        vstd::arithmetic::mul::lemma_mul_is_commutative(fee_bps, amount);
    }
    assert(den * amount == amount * den) by {
        vstd::arithmetic::mul::lemma_mul_is_commutative(den, amount);
    }
    lemma_div_is_ordered(amount * fee_bps, amount * den, den);
    assert(den * amount / den == amount) by {
        lemma_div_multiples_vanish(amount, den);
    }
    assert(amount * fee_bps >= 0) by {
        lemma_mul_upper_bound(0, amount, 0, fee_bps);
    }
    lemma_div_is_ordered(0, amount * fee_bps, den);
}

/// The retained reserve never exceeds the reserve the pool holds.
proof fn lemma_new_out_le_r_out(r_in: int, r_out: int, net: int)
    requires
        r_in >= 1,
        r_out >= 1,
        net >= 0,
    ensures
        1 <= ceil_div(r_in * r_out, r_in + net) <= r_out,
{
    let k = r_in * r_out;
    let d = r_in + net;
    assert(k >= 1) by {
        lemma_mul_inequality(1, r_in, r_out);
    }
    assert(k <= d * r_out) by {
        lemma_mul_inequality(r_in, d, r_out);
    }
    lemma_div_is_ordered(k + d - 1, d * r_out + d - 1, d);
    lemma_div_multiples_vanish_fancy(r_out, d - 1, d);
    lemma_ceil_div_bounds(k, d);
}

/// Law: a proportional deposit never leaves the pool under-collateralized.
/// The amount charged for one asset covers the minted share of its reserve,
/// `x * s >= requested * reserve`, and overshoots it by less than one part
/// in `s` — the rounding favors the pool and costs the depositor less than
/// one indivisible reserve unit per share base.
pub proof fn lemma_proportional_deposit_collateral(reserve: int, total_shares: int, requested: int)
    requires
        reserve >= 0,
        total_shares >= 1,
        requested >= 0,
    ensures
        proportional_ceil(reserve, total_shares, requested) * total_shares >= requested * reserve,
        proportional_ceil(reserve, total_shares, requested) * total_shares < requested * reserve
            + total_shares,
        proportional_ceil(reserve, total_shares, requested) >= 0,
{
    lemma_mul_nonnegative(requested, reserve);
    lemma_ceil_div_bounds(requested * reserve, total_shares);
}

/// Law: a withdrawal never over-pays the pool's reserves. The amount paid
/// for one asset stays within the burned share of its reserve,
/// `x * s <= burn * reserve` — the rounding favors the pool.
pub proof fn lemma_proportional_withdraw_bound(reserve: int, total_shares: int, burn: int)
    requires
        reserve >= 0,
        total_shares >= 1,
        burn >= 0,
    ensures
        proportional_floor(reserve, total_shares, burn) * total_shares <= burn * reserve,
        proportional_floor(reserve, total_shares, burn) >= 0,
{
    let a = burn * reserve;
    lemma_mul_nonnegative(burn, reserve);
    lemma_fundamental_div_mod(a, total_shares);
    lemma_mod_division_less_than_divisor(a, total_shares);
    vstd::arithmetic::mul::lemma_mul_is_commutative(a / total_shares, total_shares);
    lemma_div_is_ordered(0, a, total_shares);
    vstd::arithmetic::div_mod::lemma_div_of0(total_shares);
}

/// Law: a swap never decreases the reserve product. After a feasible swap
/// the product of the grown sold-asset reserve and the retained bought-asset
/// reserve is at least the product before, and when the fee retains at
/// least one unit of the input the product strictly grows.
pub proof fn lemma_swap_reserve_product(r_in: int, r_out: int, fee_bps: int, amount: int)
    requires
        0 <= fee_bps <= FEE_DENOMINATOR,
        r_in >= 1,
        r_out >= 1,
        amount >= 0,
    ensures
        (r_in + amount) * (r_out - swap_output(r_in, r_out, fee_bps, amount)) >= r_in * r_out,
        fee_amount(amount, fee_bps) >= 1 ==> (r_in + amount) * (r_out - swap_output(
            r_in,
            r_out,
            fee_bps,
            amount,
        )) > r_in * r_out,
{
    let net = net_input(amount, fee_bps);
    lemma_fee_le_amount(amount, fee_bps);
    let k = r_in * r_out;
    let d = r_in + net;
    let q = new_out_reserve(r_in, r_out, fee_bps, amount);
    assert(k >= 1) by {
        lemma_mul_inequality(1, r_in, r_out);
    }
    lemma_ceil_div_bounds(k, d);
    assert(q * d == d * q) by {
        vstd::arithmetic::mul::lemma_mul_is_commutative(q, d);
    }
    assert(d * q <= (r_in + amount) * q) by {
        lemma_mul_inequality(d, r_in + amount, q);
        vstd::arithmetic::mul::lemma_mul_is_commutative(d, q);
        vstd::arithmetic::mul::lemma_mul_is_commutative(r_in + amount, q);
    }
    if fee_amount(amount, fee_bps) >= 1 {
        assert((d + 1) * q == d * q + q) by {
            vstd::arithmetic::mul::lemma_mul_is_distributive_add_other_way(q, d, 1);
        }
        assert((d + 1) * q <= (r_in + amount) * q) by {
            lemma_mul_inequality(d + 1, r_in + amount, q);
            vstd::arithmetic::mul::lemma_mul_is_commutative(d + 1, q);
            vstd::arithmetic::mul::lemma_mul_is_commutative(r_in + amount, q);
        }
    }
}

/// Law: depositing `l` shares and then immediately withdrawing the same `l`
/// shares returns at most the deposited amount of each asset — a fee-free
/// round trip is amount-neutral up to rounding, and the rounding never
/// favors the trader.
pub proof fn lemma_deposit_withdraw_round_trip(reserve: int, total_shares: int, l: int)
    requires
        reserve >= 0,
        total_shares >= 1,
        l >= 0,
    ensures
        ({
            let x = proportional_ceil(reserve, total_shares, l);
            proportional_floor(reserve + x, total_shares + l, l) <= x
        }),
{
    let s = total_shares;
    let x = proportional_ceil(reserve, s, l);
    lemma_mul_nonnegative(l, reserve);
    lemma_ceil_div_bounds(l * reserve, s);
    let a = l * (reserve + x);
    let b = s + l;
    assert(l * (reserve + x) == l * reserve + l * x) by {
        vstd::arithmetic::mul::lemma_mul_is_distributive_add(l, reserve, x);
    }
    assert(x * (s + l) == x * s + x * l) by {
        vstd::arithmetic::mul::lemma_mul_is_distributive_add(x, s, l);
    }
    assert(l * x == x * l) by {
        vstd::arithmetic::mul::lemma_mul_is_commutative(l, x);
    }
    assert(x * s == x * s);
    lemma_div_is_ordered(a, x * b, b);
    lemma_div_multiples_vanish(x, b);
    vstd::arithmetic::mul::lemma_mul_is_commutative(b, x);
}

/// Law: a swap that demands more than the curve's true output is not
/// feasible, so the swap function rejects it with the swap error and the
/// handler issues no transfer.
pub proof fn lemma_swap_slippage_rejected(r_in: int, r_out: int, fee_bps: int, amount: int, min: int)
    requires
        min > swap_output(r_in, r_out, fee_bps, amount),
    ensures
        !swap_ok(r_in, r_out, fee_bps, amount, min),
{
}

/// The amounts a withdrawal of `burn` pool shares pays out: the burned share
/// of each reserve, rounded down. The request is rejected as an invalid
/// withdrawal when no shares exist or an amount exceeds the caller's bound.
pub fn withdraw_amounts(
    reserve_x: u64,
    reserve_y: u64,
    total_shares: u64,
    burn: u64,
    max_x: u64,
    max_y: u64,
) -> (r: Result<(u64, u64), CustomError>)
    ensures
        r is Ok <==> withdraw_ok(
            reserve_x as int,
            reserve_y as int,
            total_shares as int,
            burn as int,
            max_x as int,
            max_y as int,
        ),
        r is Ok ==> r.unwrap().0 == proportional_floor(
            reserve_x as int,
            total_shares as int,
            burn as int,
        ) && r.unwrap().1 == proportional_floor(reserve_y as int, total_shares as int, burn as int),
        r is Err ==> r == Err::<(u64, u64), CustomError>(CustomError::InvalidWithdrawal),
{
    if total_shares == 0 {
        return Err(CustomError::InvalidWithdrawal);
    }
    proof {
        lemma_mul_upper_bound(burn as int, u64::MAX as int, reserve_x as int, u64::MAX as int);
        lemma_mul_upper_bound(burn as int, u64::MAX as int, reserve_y as int, u64::MAX as int);
        lemma_div_is_ordered(0, (burn as int) * (reserve_x as int), total_shares as int);
        lemma_div_is_ordered(0, (burn as int) * (reserve_y as int), total_shares as int);
    }
    let x = (burn as u128) * (reserve_x as u128) / (total_shares as u128);
    let y = (burn as u128) * (reserve_y as u128) / (total_shares as u128);
    if x > max_x as u128 || y > max_y as u128 {
        return Err(CustomError::InvalidWithdrawal);
    }
    Ok((x as u64, y as u64))
}

} // verus!
