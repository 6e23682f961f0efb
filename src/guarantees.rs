//! What the pool operations guarantee across calls and for all inputs.
use vstd::prelude::*;
use crate::curve::{
    lemma_deposit_quote_is_proportional, lemma_pro_rata_bounds, lemma_swap_keeps_product,
    lemma_withdraw_quote_rounds_down, pro_rata,
};
use crate::error::AmmError;
use crate::instructions::{
    deposit_result, swap_result, swap_sides, with_lock, withdraw_result, Deposit, Swap, Withdraw,
};
use crate::state::{Config, Reserves};

verus! {

/// A deposit into a funded pool pays, of each asset, the depositor's share
/// `amount / supply` of the reserve, less than one unit short of it:
/// `x * supply <= amount * reserve_x < (x + 1) * supply`, and the same for Y.
pub proof fn lemma_deposit_is_proportional(ctx: Deposit, amount: u64, max_x: u64, max_y: u64)
    requires
        !ctx.reserves.is_empty(),
        deposit_result(ctx, amount, max_x, max_y) is Ok,
    ensures
        ({
            let p = deposit_result(ctx, amount, max_x, max_y)->Ok_0;
            let r = ctx.reserves;
            &&& p.shares == amount
            &&& p.x * r.supply <= amount * r.x < (p.x + 1) * r.supply
            &&& p.y * r.supply <= amount * r.y < (p.y + 1) * r.supply
        }),
{
    let r = ctx.reserves;
    lemma_deposit_quote_is_proportional(r.x, r.y, r.supply, amount);
}

/// A withdrawal never pays out more than the exact pro-rata share:
/// `x * supply <= amount * reserve_x`, and the same for Y.
pub proof fn lemma_withdraw_rounds_down(ctx: Withdraw, amount: u64, min_x: u64, min_y: u64)
    requires
        withdraw_result(ctx, amount, min_x, min_y) is Ok,
    ensures
        ({
            let p = withdraw_result(ctx, amount, min_x, min_y)->Ok_0;
            let r = ctx.reserves;
            &&& p.x * r.supply <= amount * r.x
            &&& p.y * r.supply <= amount * r.y
        }),
{
    let r = ctx.reserves;
    lemma_withdraw_quote_rounds_down(r.x, r.y, r.supply, amount);
}

/// A swap never lowers the product of the reserves.
pub proof fn lemma_swap_never_lowers_product(ctx: Swap, is_x: bool, amount: u64, min: u64)
    requires
        ctx.config.wf(),
        swap_result(ctx, is_x, amount, min) is Ok,
    ensures
        ({
            let p = swap_result(ctx, is_x, amount, min)->Ok_0;
            let (reserve_in, reserve_out) = swap_sides(ctx.reserves, is_x);
            (reserve_in + p.amount_in) * (reserve_out - p.amount_out) >= reserve_in * reserve_out
        }),
{
    let (reserve_in, reserve_out) = swap_sides(ctx.reserves, is_x);
    lemma_swap_keeps_product(reserve_in, reserve_out, amount, ctx.config.fee);
}

/// The balances after a deposit whose movements are `x`, `y` and `shares`.
pub open spec fn reserves_after_deposit(r: Reserves, x: u64, y: u64, shares: u64) -> Reserves {
    Reserves { x: (r.x + x) as u64, y: (r.y + y) as u64, supply: (r.supply + shares) as u64 }
}

proof fn lemma_round_trip_side(x: int, s: int, l: int, d: int, w: int)
    requires
        0 <= x,
        0 < s,
        0 < l,
        d * s <= l * x < (d + 1) * s,
        w * (s + l) <= l * (x + d) < (w + 1) * (s + l),
    ensures
        w <= d <= w + 1,
{
    assert(l * (x + d) < (d + 1) * (s + l)) by (nonlinear_arith)
        requires
            l * x < (d + 1) * s,
            0 < l,
    ;
    assert((d - 1) * (s + l) <= l * (x + d)) by (nonlinear_arith)
        requires
            d * s <= l * x,
            0 < l,
            0 < s,
    ;
    assert(w < d + 1) by (nonlinear_arith)
        requires
            w * (s + l) < (d + 1) * (s + l),
            0 < s + l,
    ;
    assert(d - 1 < w + 1) by (nonlinear_arith)
        requires
            (d - 1) * (s + l) < (w + 1) * (s + l),
            0 < s + l,
    ;
}

/// Depositing `amount` shares and at once withdrawing them gives back what
/// was paid in, or one unit less of each asset: the supply returns to what it
/// was, and each reserve keeps at most one unit more than before.
pub proof fn lemma_deposit_then_withdraw(
    config: Config,
    reserves: Reserves,
    amount: u64,
    max_x: u64,
    max_y: u64,
)
    requires
        deposit_result((Deposit { config, reserves }), amount, max_x, max_y) is Ok,
    ensures
        ({
            let p = deposit_result((Deposit { config, reserves }), amount, max_x, max_y)->Ok_0;
            let after = reserves_after_deposit(reserves, p.x, p.y, p.shares);
            let w = withdraw_result((Withdraw { config, reserves: after }), amount, 0, 0);
            &&& w is Ok
            &&& w->Ok_0.shares == amount
            &&& w->Ok_0.x <= p.x <= w->Ok_0.x + 1
            &&& w->Ok_0.y <= p.y <= w->Ok_0.y + 1
            &&& after.supply - w->Ok_0.shares == reserves.supply
            &&& reserves.x <= after.x - w->Ok_0.x <= reserves.x + 1
            &&& reserves.y <= after.y - w->Ok_0.y <= reserves.y + 1
        }),
{
    let p = deposit_result((Deposit { config, reserves }), amount, max_x, max_y)->Ok_0;
    let after = reserves_after_deposit(reserves, p.x, p.y, p.shares);
    let s = reserves.supply as int;
    let l = amount as int;
    assert(after.x == reserves.x + p.x && after.y == reserves.y + p.y && after.supply == s + l);
    lemma_pro_rata_bounds(l, after.x as int, s + l);
    lemma_pro_rata_bounds(l, after.y as int, s + l);
    let wx = pro_rata(l, after.x as int, s + l);
    let wy = pro_rata(l, after.y as int, s + l);
    if reserves.is_empty() {
        assert(wx * l <= l * p.x < (wx + 1) * l);
        assert(wx == p.x) by (nonlinear_arith)
            requires
                wx * l <= l * p.x < (wx + 1) * l,
                0 < l,
        ;
        assert(wy == p.y) by (nonlinear_arith)
            requires
                wy * l <= l * p.y < (wy + 1) * l,
                0 < l,
        ;
    } else {
        lemma_deposit_quote_is_proportional(reserves.x, reserves.y, reserves.supply, amount);
        lemma_round_trip_side(reserves.x as int, s, l, p.x as int, wx);
        lemma_round_trip_side(reserves.y as int, s, l, p.y as int, wy);
    }
}

/// While a pool is locked, every deposit, withdrawal and swap fails with
/// `PoolLocked`; once it is unlocked, none fails for that reason.
pub proof fn lemma_lock_gates_trading(
    config: Config,
    reserves: Reserves,
    amount: u64,
    bound_x: u64,
    bound_y: u64,
    is_x: bool,
)
    ensures
        deposit_result((Deposit { config: with_lock(config, true), reserves }), amount, bound_x, bound_y)
            == Err::<crate::curve::DepositAmounts, AmmError>(AmmError::PoolLocked),
        withdraw_result((Withdraw { config: with_lock(config, true), reserves }), amount, bound_x, bound_y)
            == Err::<crate::instructions::WithdrawPlan, AmmError>(AmmError::PoolLocked),
        swap_result((Swap { config: with_lock(config, true), reserves }), is_x, amount, bound_x)
            == Err::<crate::instructions::SwapPlan, AmmError>(AmmError::PoolLocked),
        deposit_result((Deposit { config: with_lock(config, false), reserves }), amount, bound_x, bound_y)
            != Err::<crate::curve::DepositAmounts, AmmError>(AmmError::PoolLocked),
        withdraw_result((Withdraw { config: with_lock(config, false), reserves }), amount, bound_x, bound_y)
            != Err::<crate::instructions::WithdrawPlan, AmmError>(AmmError::PoolLocked),
        swap_result((Swap { config: with_lock(config, false), reserves }), is_x, amount, bound_x)
            != Err::<crate::instructions::SwapPlan, AmmError>(AmmError::PoolLocked),
{
}

/// On an unlocked pool, a deposit, withdrawal or swap of zero fails with
/// `InvalidAmount`, whatever the balances and bounds.
pub proof fn lemma_zero_amount_refused(
    config: Config,
    reserves: Reserves,
    bound_x: u64,
    bound_y: u64,
    is_x: bool,
)
    requires
        !config.locked,
    ensures
        deposit_result((Deposit { config, reserves }), 0, bound_x, bound_y) == Err::<
            crate::curve::DepositAmounts,
            AmmError,
        >(AmmError::InvalidAmount),
        withdraw_result((Withdraw { config, reserves }), 0, bound_x, bound_y) == Err::<
            crate::instructions::WithdrawPlan,
            AmmError,
        >(AmmError::InvalidAmount),
        swap_result((Swap { config, reserves }), is_x, 0, bound_x) == Err::<
            crate::instructions::SwapPlan,
            AmmError,
        >(AmmError::InvalidAmount),
{
}

} // verus!
