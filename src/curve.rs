//! The constant-product curve: bootstrap of an empty pool, pro-rata sizing of
//! deposits and withdrawals, and fee-adjusted swap quotes.
use vstd::prelude::*;
use crate::error::AmmError;
use crate::math::{lemma_u64_product_fits, mul_div, mul_div_floor, mul_div_result};

verus! {

/// The fee denominator: fees are counted in basis points.
pub const BPS_DENOMINATOR: u64 = 10000;

/// A pair of amounts, one of each asset of the pool.
#[derive(Clone, Copy, Debug, PartialEq, Eq, Structural)]
pub struct XYAmounts {
    pub x: u64,
    pub y: u64,
}

/// The amounts a depositor pays in, and the shares minted in return.
#[derive(Clone, Copy, Debug, PartialEq, Eq, Structural)]
pub struct DepositAmounts {
    pub x: u64,
    pub y: u64,
    pub shares: u64,
}

/// A swap quote: the input left after the fee, and the output paid out.
#[derive(Clone, Copy, Debug, PartialEq, Eq, Structural)]
pub struct SwapQuote {
    pub amount_in_net: u64,
    pub amount_out: u64,
}

/// The pro-rata part of `reserve` owned by `liquidity` shares out of
/// `supply`, rounded down.
pub open spec fn pro_rata(liquidity: int, reserve: int, supply: int) -> int {
    mul_div_floor(liquidity, reserve, supply)
}

/// What remains of `amount` after a fee of `fee_bps` basis points, rounded down.
pub open spec fn net_of_fee(amount: int, fee_bps: int) -> int {
    amount * (BPS_DENOMINATOR - fee_bps) / (BPS_DENOMINATOR as int)
}

/// The constant-product output for `net` added to `reserve_in`: the output
/// reserve less the product of the reserves divided, rounded down, by the new
/// input reserve.
pub open spec fn curve_output(reserve_in: int, reserve_out: int, net: int) -> int {
    reserve_out - (reserve_in * reserve_out) / (reserve_in + net)
}

/// The curve's output with the new output reserve rounded up instead, which
/// never lowers the product of the reserves.
pub open spec fn rounded_down_output(reserve_in: int, reserve_out: int, net: int) -> int {
    reserve_out * net / (reserve_in + net)
}

/// Whether paying `out` for `amount_in`, fee included, keeps the product of
/// the reserves from falling.
pub open spec fn keeps_product(reserve_in: int, reserve_out: int, amount_in: int, out: int) -> bool {
    (reserve_in + amount_in) * (reserve_out - out) >= reserve_in * reserve_out
}

/// The output of a swap of `amount_in` whose part after the fee is `net`:
/// the constant-product output `curve_output`, wherever paying it keeps the
/// product of the reserves. On the few small inputs where that rounding would
/// lower the product, the new output reserve is rounded up instead, which
/// pays one unit less.
pub open spec fn swap_output(reserve_in: int, reserve_out: int, amount_in: int, net: int) -> int {
    if keeps_product(reserve_in, reserve_out, amount_in, curve_output(reserve_in, reserve_out, net)) {
        curve_output(reserve_in, reserve_out, net)
    } else {
        rounded_down_output(reserve_in, reserve_out, net)
    }
}

/// The pro-rata pair for `liquidity` shares, or the first error met.
pub open spec fn pro_rata_pair(reserve_x: u64, reserve_y: u64, supply: u64, liquidity: u64) -> Result<
    XYAmounts,
    AmmError,
> {
    match mul_div_result(liquidity, reserve_x, supply) {
        Err(e) => Err(e),
        Ok(x) => match mul_div_result(liquidity, reserve_y, supply) {
            Err(e) => Err(e),
            Ok(y) => Ok(XYAmounts { x, y }),
        },
    }
}

/// The outcome of a bootstrap deposit of `x` and `y` for `shares` shares.
pub open spec fn bootstrap_result(x: u64, y: u64, shares: u64) -> Result<DepositAmounts, AmmError> {
    if x == 0 || y == 0 || shares == 0 {
        Err(AmmError::InvalidAmount)
    } else {
        Ok(DepositAmounts { x, y, shares })
    }
}

/// The outcome of a swap of `amount_in` against the given reserves.
pub open spec fn swap_quote_result(reserve_in: u64, reserve_out: u64, amount_in: u64, fee_bps: u16)
    -> Result<SwapQuote, AmmError> {
    let net = net_of_fee(amount_in as int, fee_bps as int);
    if amount_in == 0 {
        Err(AmmError::InvalidAmount)
    } else if reserve_in as int + net == 0 {
        Err(AmmError::DivisionByZero)
    } else if swap_output(reserve_in as int, reserve_out as int, amount_in as int, net) == 0 {
        Err(AmmError::InsufficientOutput)
    } else {
        Ok(
            SwapQuote {
                amount_in_net: net as u64,
                amount_out: swap_output(reserve_in as int, reserve_out as int, amount_in as int, net) as u64,
            },
        )
    }
}

/// Seeds an empty pool: the caller's pair sets the initial price and the
/// caller chooses the shares minted. Every amount must be non-zero.
pub fn bootstrap(x: u64, y: u64, shares: u64) -> (r: Result<DepositAmounts, AmmError>)
    ensures
        r == bootstrap_result(x, y, shares),
{
    if x == 0 || y == 0 || shares == 0 {
        Err(AmmError::InvalidAmount)
    } else {
        Ok(DepositAmounts { x, y, shares })
    }
}

fn pro_rata_amounts(reserve_x: u64, reserve_y: u64, supply: u64, liquidity: u64) -> (r: Result<
    XYAmounts,
    AmmError,
>)
    ensures
        r == pro_rata_pair(reserve_x, reserve_y, supply, liquidity),
{
    let x = match mul_div(liquidity, reserve_x, supply) {
        Ok(v) => v,
        Err(e) => return Err(e),
    };
    let y = match mul_div(liquidity, reserve_y, supply) {
        Ok(v) => v,
        Err(e) => return Err(e),
    };
    Ok(XYAmounts { x, y })
}

/// The pair a depositor must pay to receive `liquidity` shares of a pool
/// with the given reserves and `supply` shares: `liquidity * reserve / supply`
/// of each asset, rounded down.
pub fn quote_deposit(reserve_x: u64, reserve_y: u64, supply: u64, liquidity: u64) -> (r: Result<
    XYAmounts,
    AmmError,
>)
    ensures
        r == pro_rata_pair(reserve_x, reserve_y, supply, liquidity),
        supply == 0 ==> r == Err::<XYAmounts, AmmError>(AmmError::DivisionByZero),
        supply != 0 && liquidity <= supply ==> r is Ok,
{
    proof {
        lemma_pro_rata_within_reserve(liquidity, reserve_x, supply);
        lemma_pro_rata_within_reserve(liquidity, reserve_y, supply);
    }
    pro_rata_amounts(reserve_x, reserve_y, supply, liquidity)
}

/// The pair paid out for burning `liquidity` shares of a pool with the given
/// reserves and `supply` shares: `liquidity * reserve / supply` of each asset,
/// rounded down.
pub fn quote_withdraw(reserve_x: u64, reserve_y: u64, supply: u64, liquidity: u64) -> (r: Result<
    XYAmounts,
    AmmError,
>)
    ensures
        r == pro_rata_pair(reserve_x, reserve_y, supply, liquidity),
        supply == 0 ==> r == Err::<XYAmounts, AmmError>(AmmError::DivisionByZero),
        supply != 0 && liquidity <= supply ==> r is Ok,
{
    proof {
        lemma_pro_rata_within_reserve(liquidity, reserve_x, supply);
        lemma_pro_rata_within_reserve(liquidity, reserve_y, supply);
    }
    pro_rata_amounts(reserve_x, reserve_y, supply, liquidity)
}

/// Quotes a swap of `amount_in` into the side holding `reserve_in`. The fee
/// is taken from the input; the output is `swap_output`: the constant-product
/// output, paid one unit lower only where it would lower the product of the
/// reserves.
pub fn quote_swap(reserve_in: u64, reserve_out: u64, amount_in: u64, fee_bps: u16) -> (r: Result<
    SwapQuote,
    AmmError,
>)
    requires
        fee_bps <= BPS_DENOMINATOR,
    ensures
        r == swap_quote_result(reserve_in, reserve_out, amount_in, fee_bps),
        r matches Ok(q) ==> q.amount_in_net <= amount_in && 0 < q.amount_out <= reserve_out,
{
    if amount_in == 0 {
        return Err(AmmError::InvalidAmount);
    }
    let keep: u64 = BPS_DENOMINATOR - fee_bps as u64;
    proof {
        lemma_net_of_fee_bounds(amount_in as int, fee_bps as int);
        lemma_u64_product_fits(amount_in, keep);
    }
    let net: u64 = ((amount_in as u128) * (keep as u128) / (BPS_DENOMINATOR as u128)) as u64;
    let denominator: u128 = reserve_in as u128 + net as u128;
    if denominator == 0 {
        return Err(AmmError::DivisionByZero);
    }
    proof {
        lemma_u64_product_fits(reserve_in, reserve_out);
        lemma_u64_product_fits(reserve_out, net);
        lemma_swap_output_bounds(reserve_in as int, reserve_out as int, net as int);
        lemma_curve_output_bounds(reserve_in as int, reserve_out as int, net as int);
    }
    let product: u128 = (reserve_in as u128) * (reserve_out as u128);
    let new_out_reserve: u128 = product / denominator;
    let new_in_reserve: u128 = reserve_in as u128 + amount_in as u128;
    assert(product + reserve_in + amount_in <= u128::MAX) by (nonlinear_arith)
        requires
            product == (reserve_in as int) * (reserve_out as int),
            reserve_in <= u64::MAX,
            reserve_out <= u64::MAX,
            amount_in <= u64::MAX,
    ;
    let least_out_reserve: u128 = (product + (new_in_reserve - 1)) / new_in_reserve;
    proof {
        lemma_ceil_div_is_least(product as int, new_in_reserve as int, new_out_reserve as int);
    }
    let out: u128 = if new_out_reserve >= least_out_reserve {
        reserve_out as u128 - new_out_reserve
    } else {
        (reserve_out as u128) * (net as u128) / denominator
    };
    if out == 0 {
        return Err(AmmError::InsufficientOutput);
    }
    Ok(SwapQuote { amount_in_net: net, amount_out: out as u64 })
}

proof fn lemma_net_of_fee_bounds(amount: int, fee_bps: int)
    requires
        0 <= amount,
        0 <= fee_bps <= BPS_DENOMINATOR,
    ensures
        0 <= net_of_fee(amount, fee_bps) <= amount,
{
    let keep = BPS_DENOMINATOR - fee_bps;
    assert(0 <= amount * keep <= amount * 10000) by (nonlinear_arith)
        requires
            0 <= amount,
            0 <= keep <= 10000,
    ;
    assert(amount * 10000 / 10000 == amount) by (nonlinear_arith);
    vstd::arithmetic::div_mod::lemma_div_is_ordered(amount * keep, amount * 10000, 10000);
    vstd::arithmetic::div_mod::lemma_div_pos_is_pos(amount * keep, 10000);
}

proof fn lemma_swap_output_bounds(reserve_in: int, reserve_out: int, net: int)
    requires
        0 <= reserve_in,
        0 <= reserve_out,
        0 <= net,
        reserve_in + net > 0,
    ensures
        0 <= rounded_down_output(reserve_in, reserve_out, net) <= reserve_out,
        rounded_down_output(reserve_in, reserve_out, net) * (reserve_in + net) <= reserve_out * net,
{
    let d = reserve_in + net;
    assert(0 <= reserve_out * net <= reserve_out * d) by (nonlinear_arith)
        requires
            0 <= reserve_out,
            0 <= net <= d,
    ;
    vstd::arithmetic::div_mod::lemma_div_is_ordered(reserve_out * net, reserve_out * d, d);
    vstd::arithmetic::div_mod::lemma_div_by_multiple(reserve_out, d);
    vstd::arithmetic::div_mod::lemma_div_pos_is_pos(reserve_out * net, d);
    vstd::arithmetic::div_mod::lemma_fundamental_div_mod(reserve_out * net, d);
    assert(rounded_down_output(reserve_in, reserve_out, net) * d <= reserve_out * net) by (nonlinear_arith)
        requires
            reserve_out * net == d * ((reserve_out * net) / d) + (reserve_out * net) % d,
            (reserve_out * net) % d >= 0,
            rounded_down_output(reserve_in, reserve_out, net) == (reserve_out * net) / d,
    ;
}

proof fn lemma_curve_output_bounds(reserve_in: int, reserve_out: int, net: int)
    requires
        0 <= reserve_in,
        0 <= reserve_out,
        0 <= net,
        reserve_in + net > 0,
    ensures
        0 <= (reserve_in * reserve_out) / (reserve_in + net) <= reserve_out,
{
    let d = reserve_in + net;
    assert(0 <= reserve_in * reserve_out <= d * reserve_out) by (nonlinear_arith)
        requires
            0 <= reserve_out,
            0 <= reserve_in <= d,
    ;
    vstd::arithmetic::div_mod::lemma_div_is_ordered(reserve_in * reserve_out, d * reserve_out, d);
    assert(d * reserve_out == reserve_out * d) by (nonlinear_arith);
    vstd::arithmetic::div_mod::lemma_div_by_multiple(reserve_out, d);
    vstd::arithmetic::div_mod::lemma_div_pos_is_pos(reserve_in * reserve_out, d);
}

/// `q` is at least the rounded-up quotient of `k` by `m` exactly when
/// `m * q` reaches `k`.
proof fn lemma_ceil_div_is_least(k: int, m: int, q: int)
    requires
        0 <= k,
        0 < m,
        0 <= q,
    ensures
        (q >= (k + (m - 1)) / m) == (m * q >= k),
{
    let c = (k + (m - 1)) / m;
    vstd::arithmetic::div_mod::lemma_fundamental_div_mod(k + (m - 1), m);
    vstd::arithmetic::div_mod::lemma_mod_bound(k + (m - 1), m);
    let rem = (k + (m - 1)) % m;
    assert(k + (m - 1) == m * c + rem);
    if q >= c {
        assert(m * q >= k) by (nonlinear_arith)
            requires
                q >= c,
                0 < m,
                k + (m - 1) == m * c + rem,
                rem < m,
        ;
    } else {
        assert(m * q < k) by (nonlinear_arith)
            requires
                q < c,
                0 < m,
                k + (m - 1) == m * c + rem,
                0 <= rem,
        ;
    }
}

/// The pro-rata part never exceeds the exact share, and is more than one unit
/// below it never: `q * supply <= liquidity * reserve < (q + 1) * supply`.
pub proof fn lemma_pro_rata_bounds(liquidity: int, reserve: int, supply: int)
    requires
        0 <= liquidity,
        0 <= reserve,
        0 < supply,
    ensures
        pro_rata(liquidity, reserve, supply) * supply <= liquidity * reserve,
        liquidity * reserve < (pro_rata(liquidity, reserve, supply) + 1) * supply,
        0 <= pro_rata(liquidity, reserve, supply),
{
    let p = liquidity * reserve;
    let q = pro_rata(liquidity, reserve, supply);
    vstd::arithmetic::div_mod::lemma_fundamental_div_mod(p, supply);
    vstd::arithmetic::div_mod::lemma_mod_bound(p, supply);
    assert(0 <= p) by (nonlinear_arith)
        requires
            0 <= liquidity,
            0 <= reserve,
            p == liquidity * reserve,
    ;
    vstd::arithmetic::div_mod::lemma_div_pos_is_pos(p, supply);
    assert(q * supply <= p && p < (q + 1) * supply) by (nonlinear_arith)
        requires
            p == supply * q + p % supply,
            0 <= p % supply < supply,
    ;
}

/// A holder of at most the whole supply owns at most the whole reserve.
pub proof fn lemma_pro_rata_within_reserve(liquidity: u64, reserve: u64, supply: u64)
    ensures
        supply != 0 && liquidity <= supply ==> pro_rata(liquidity as int, reserve as int, supply as int)
            <= reserve,
{
    if supply != 0 && liquidity <= supply {
        let l = liquidity as int;
        let r = reserve as int;
        let s = supply as int;
        assert(0 <= l * r <= s * r) by (nonlinear_arith)
            requires
                0 <= l <= s,
                0 <= r,
        ;
        vstd::arithmetic::div_mod::lemma_div_is_ordered(l * r, s * r, s);
        vstd::arithmetic::div_mod::lemma_div_by_multiple(r, s);
        assert(s * r == r * s) by (nonlinear_arith);
    }
}

/// A deposit quote keeps the depositor's ratio: for each asset,
/// `required / reserve` equals `liquidity / supply` up to the rounding of one
/// unit, that is `required * supply <= liquidity * reserve < (required + 1) * supply`.
pub proof fn lemma_deposit_quote_is_proportional(
    reserve_x: u64,
    reserve_y: u64,
    supply: u64,
    liquidity: u64,
)
    requires
        pro_rata_pair(reserve_x, reserve_y, supply, liquidity) is Ok,
    ensures
        ({
            let q = pro_rata_pair(reserve_x, reserve_y, supply, liquidity)->Ok_0;
            &&& q.x * supply <= liquidity * reserve_x < (q.x + 1) * supply
            &&& q.y * supply <= liquidity * reserve_y < (q.y + 1) * supply
        }),
{
    lemma_pro_rata_bounds(liquidity as int, reserve_x as int, supply as int);
    lemma_pro_rata_bounds(liquidity as int, reserve_y as int, supply as int);
}

/// A withdrawal never pays out more than the exact pro-rata share:
/// `payout * supply <= liquidity * reserve` for each asset.
pub proof fn lemma_withdraw_quote_rounds_down(
    reserve_x: u64,
    reserve_y: u64,
    supply: u64,
    liquidity: u64,
)
    requires
        pro_rata_pair(reserve_x, reserve_y, supply, liquidity) is Ok,
    ensures
        ({
            let q = pro_rata_pair(reserve_x, reserve_y, supply, liquidity)->Ok_0;
            &&& q.x * supply <= liquidity * reserve_x
            &&& q.y * supply <= liquidity * reserve_y
        }),
{
    lemma_pro_rata_bounds(liquidity as int, reserve_x as int, supply as int);
    lemma_pro_rata_bounds(liquidity as int, reserve_y as int, supply as int);
}

/// A quoted swap never lowers the product of the reserves: the input reserve
/// gains the whole input, fee included, and the output reserve loses the output.
pub proof fn lemma_swap_keeps_product(reserve_in: u64, reserve_out: u64, amount_in: u64, fee_bps: u16)
    requires
        fee_bps <= BPS_DENOMINATOR,
        swap_quote_result(reserve_in, reserve_out, amount_in, fee_bps) is Ok,
    ensures
        ({
            let q = swap_quote_result(reserve_in, reserve_out, amount_in, fee_bps)->Ok_0;
            (reserve_in + amount_in) * (reserve_out - q.amount_out) >= reserve_in * reserve_out
        }),
{
    let net = net_of_fee(amount_in as int, fee_bps as int);
    lemma_net_of_fee_bounds(amount_in as int, fee_bps as int);
    lemma_swap_output_bounds(reserve_in as int, reserve_out as int, net);
    let ri = reserve_in as int;
    let ro = reserve_out as int;
    let a = amount_in as int;
    if keeps_product(ri, ro, a, curve_output(ri, ro, net)) {
        lemma_curve_output_bounds(ri, ro, net);
        return;
    }
    let out = rounded_down_output(ri, ro, net);
    assert((ri + a) * (ro - out) >= ri * ro) by (nonlinear_arith)
        requires
            out * (ri + net) <= ro * net,
            0 <= out <= ro,
            0 <= net <= a,
            0 <= ri,
    ;
}

} // verus!
