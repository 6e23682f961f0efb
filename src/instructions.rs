//! The pool operations. Each one validates the pool and its input, quotes the
//! amounts from a snapshot of the reserves, checks them against the caller's
//! bounds, and returns the asset movements for the ledger to perform.
use vstd::prelude::*;
use crate::curve::{
    bootstrap, bootstrap_result, lemma_pro_rata_within_reserve, pro_rata_pair, quote_deposit,
    quote_swap, quote_withdraw, swap_quote_result, DepositAmounts,
};
use crate::error::AmmError;
use crate::state::{check_authority, is_authority, Config, Pubkey, Reserves};

verus! {

/// What a deposit sees: the pool record and the ledger's balances.
#[derive(Clone, Copy, Debug)]
pub struct Deposit {
    pub config: Config,
    pub reserves: Reserves,
}

/// What a withdrawal sees: the pool record and the ledger's balances.
#[derive(Clone, Copy, Debug)]
pub struct Withdraw {
    pub config: Config,
    pub reserves: Reserves,
}

/// What a swap sees: the pool record and the ledger's balances.
#[derive(Clone, Copy, Debug)]
pub struct Swap {
    pub config: Config,
    pub reserves: Reserves,
}

/// What lock and unlock see: the caller's identity and the pool record.
#[derive(Clone, Copy, Debug)]
pub struct Lock {
    pub signer: Pubkey,
    pub config: Config,
}

/// The movements of a withdrawal: `x` and `y` go from the vaults to the
/// caller, and `shares` of the caller's liquidity shares are burned.
#[derive(Clone, Copy, Debug, PartialEq, Eq, Structural)]
pub struct WithdrawPlan {
    pub x: u64,
    pub y: u64,
    pub shares: u64,
}

/// The movements of a swap: `amount_in` goes from the caller to the vault of
/// the sold asset (X when `is_x`), `amount_out` from the other vault to the
/// caller.
#[derive(Clone, Copy, Debug, PartialEq, Eq, Structural)]
pub struct SwapPlan {
    pub is_x: bool,
    pub amount_in: u64,
    pub amount_out: u64,
}

/// The outcome of a deposit asking for `amount` shares and paying at most
/// `max_x` and `max_y`. An empty pool is bootstrapped with exactly `max_x`
/// and `max_y`; otherwise the pro-rata pair is owed, and the new balances
/// must fit in 64 bits.
pub open spec fn deposit_result(ctx: Deposit, amount: u64, max_x: u64, max_y: u64) -> Result<
    DepositAmounts,
    AmmError,
> {
    let r = ctx.reserves;
    if ctx.config.locked {
        Err(AmmError::PoolLocked)
    } else if amount == 0 {
        Err(AmmError::InvalidAmount)
    } else if r.is_empty() {
        bootstrap_result(max_x, max_y, amount)
    } else {
        match pro_rata_pair(r.x, r.y, r.supply, amount) {
            Err(e) => Err(e),
            Ok(q) => if q.x > max_x || q.y > max_y {
                Err(AmmError::SlippageExceeded)
            } else if r.x + q.x > u64::MAX || r.y + q.y > u64::MAX || r.supply + amount
                > u64::MAX {
                Err(AmmError::Overflow)
            } else {
                Ok(DepositAmounts { x: q.x, y: q.y, shares: amount })
            },
        }
    }
}

/// The outcome of a withdrawal burning `amount` shares and asking for at
/// least `min_x` and `min_y`. A quote that stands and meets the floors is
/// still refused when it burns more than the whole supply.
pub open spec fn withdraw_result(ctx: Withdraw, amount: u64, min_x: u64, min_y: u64) -> Result<
    WithdrawPlan,
    AmmError,
> {
    let r = ctx.reserves;
    if ctx.config.locked {
        Err(AmmError::PoolLocked)
    } else if amount == 0 {
        Err(AmmError::InvalidAmount)
    } else {
        match pro_rata_pair(r.x, r.y, r.supply, amount) {
            Err(e) => Err(e),
            Ok(q) => if q.x < min_x || q.y < min_y {
                Err(AmmError::SlippageExceeded)
            } else if amount > r.supply {
                Err(AmmError::InvalidAmount)
            } else {
                Ok(WithdrawPlan { x: q.x, y: q.y, shares: amount })
            },
        }
    }
}

/// The reserve that receives the input of a swap, and the one that pays out.
pub open spec fn swap_sides(r: Reserves, is_x: bool) -> (u64, u64) {
    if is_x {
        (r.x, r.y)
    } else {
        (r.y, r.x)
    }
}

/// The outcome of a swap selling `amount` of X (when `is_x`) or of Y, asking
/// for at least `min` of the other asset.
pub open spec fn swap_result(ctx: Swap, is_x: bool, amount: u64, min: u64) -> Result<
    SwapPlan,
    AmmError,
> {
    let (reserve_in, reserve_out) = swap_sides(ctx.reserves, is_x);
    if ctx.config.locked {
        Err(AmmError::PoolLocked)
    } else {
        match swap_quote_result(reserve_in, reserve_out, amount, ctx.config.fee) {
            Err(e) => Err(e),
            Ok(q) => if q.amount_out < min {
                Err(AmmError::SlippageExceeded)
            } else if reserve_in + amount > u64::MAX {
                Err(AmmError::Overflow)
            } else {
                Ok(SwapPlan { is_x, amount_in: amount, amount_out: q.amount_out })
            },
        }
    }
}

/// The record `c` with its lock flag set to `locked`.
pub open spec fn with_lock(c: Config, locked: bool) -> Config {
    Config { locked, ..c }
}

/// Creates the record of a new, unlocked pool.
pub fn initialize(
    seed: u64,
    fee: u16,
    authority: Option<Pubkey>,
    mint_x: Pubkey,
    mint_y: Pubkey,
    config_bump: u8,
    liquidity_pool_bump: u8,
) -> (r: Result<Config, AmmError>)
    ensures
        fee > 10000 ==> r == Err::<Config, AmmError>(AmmError::InvalidFee),
        fee <= 10000 && mint_x.bytes@ == mint_y.bytes@ ==> r == Err::<Config, AmmError>(
            AmmError::IdenticalMints,
        ),
        fee <= 10000 && mint_x.bytes@ != mint_y.bytes@ ==> r == Ok::<Config, AmmError>(
            (Config {
                seed,
                authority,
                mint_x,
                mint_y,
                fee,
                locked: false,
                config_bump,
                liquidity_pool_bump,
            }),
        ),
        r matches Ok(c) ==> c.wf(),
{
    if fee > 10000 {
        return Err(AmmError::InvalidFee);
    }
    if mint_x.same_as(&mint_y) {
        return Err(AmmError::IdenticalMints);
    }
    Ok(
        Config {
            seed,
            authority,
            mint_x,
            mint_y,
            fee,
            locked: false,
            config_bump,
            liquidity_pool_bump,
        },
    )
}

/// Sizes a deposit of `amount` shares, paying at most `max_x` and `max_y`.
pub fn deposit(ctx: &Deposit, amount: u64, max_x: u64, max_y: u64) -> (r: Result<
    DepositAmounts,
    AmmError,
>)
    ensures
        r == deposit_result(*ctx, amount, max_x, max_y),
{
    if ctx.config.locked {
        return Err(AmmError::PoolLocked);
    }
    if amount == 0 {
        return Err(AmmError::InvalidAmount);
    }
    let res = ctx.reserves;
    if res.supply == 0 && res.x == 0 && res.y == 0 {
        return bootstrap(max_x, max_y, amount);
    }
    let q = match quote_deposit(res.x, res.y, res.supply, amount) {
        Ok(q) => q,
        Err(e) => return Err(e),
    };
    if q.x > max_x || q.y > max_y {
        return Err(AmmError::SlippageExceeded);
    }
    if res.x > u64::MAX - q.x || res.y > u64::MAX - q.y || res.supply > u64::MAX - amount {
        return Err(AmmError::Overflow);
    }
    Ok(DepositAmounts { x: q.x, y: q.y, shares: amount })
}

/// Sizes a withdrawal of `amount` shares, receiving at least `min_x` and `min_y`.
pub fn withdraw(ctx: &Withdraw, amount: u64, min_x: u64, min_y: u64) -> (r: Result<
    WithdrawPlan,
    AmmError,
>)
    ensures
        r == withdraw_result(*ctx, amount, min_x, min_y),
        r matches Ok(p) ==> p.x <= ctx.reserves.x && p.y <= ctx.reserves.y,
{
    if ctx.config.locked {
        return Err(AmmError::PoolLocked);
    }
    let res = ctx.reserves;
    if amount == 0 {
        return Err(AmmError::InvalidAmount);
    }
    let q = match quote_withdraw(res.x, res.y, res.supply, amount) {
        Ok(q) => q,
        Err(e) => return Err(e),
    };
    proof {
        lemma_pro_rata_within_reserve(amount, res.x, res.supply);
        lemma_pro_rata_within_reserve(amount, res.y, res.supply);
    }
    if q.x < min_x || q.y < min_y {
        return Err(AmmError::SlippageExceeded);
    }
    if amount > res.supply {
        return Err(AmmError::InvalidAmount);
    }
    Ok(WithdrawPlan { x: q.x, y: q.y, shares: amount })
}

/// Sizes a swap selling `amount` of X (when `is_x`) or of Y, for at least
/// `min` of the other asset.
pub fn swap(ctx: &Swap, is_x: bool, amount: u64, min: u64) -> (r: Result<SwapPlan, AmmError>)
    requires
        ctx.config.wf(),
    ensures
        r == swap_result(*ctx, is_x, amount, min),
        r matches Ok(p) ==> 0 < p.amount_out <= swap_sides(ctx.reserves, is_x).1,
{
    if ctx.config.locked {
        return Err(AmmError::PoolLocked);
    }
    let (reserve_in, reserve_out) = if is_x {
        (ctx.reserves.x, ctx.reserves.y)
    } else {
        (ctx.reserves.y, ctx.reserves.x)
    };
    let q = match quote_swap(reserve_in, reserve_out, amount, ctx.config.fee) {
        Ok(q) => q,
        Err(e) => return Err(e),
    };
    if q.amount_out < min {
        return Err(AmmError::SlippageExceeded);
    }
    if reserve_in > u64::MAX - amount {
        return Err(AmmError::Overflow);
    }
    Ok(SwapPlan { is_x, amount_in: amount, amount_out: q.amount_out })
}

/// Locks the pool, if the caller is its authority.
pub fn lock(ctx: &mut Lock) -> (r: Result<(), AmmError>)
    ensures
        final(ctx).signer == old(ctx).signer,
        is_authority(old(ctx).config.authority, old(ctx).signer) ==> r is Ok && final(ctx).config
            == with_lock(old(ctx).config, true),
        !is_authority(old(ctx).config.authority, old(ctx).signer) ==> r == Err::<(), AmmError>(
            AmmError::Unauthorized,
        ) && final(ctx).config == old(ctx).config,
{
    if !check_authority(&ctx.config.authority, &ctx.signer) {
        return Err(AmmError::Unauthorized);
    }
    ctx.config.locked = true;
    Ok(())
}

/// Unlocks the pool, if the caller is its authority.
pub fn unlock(ctx: &mut Lock) -> (r: Result<(), AmmError>)
    ensures
        final(ctx).signer == old(ctx).signer,
        is_authority(old(ctx).config.authority, old(ctx).signer) ==> r is Ok && final(ctx).config
            == with_lock(old(ctx).config, false),
        !is_authority(old(ctx).config.authority, old(ctx).signer) ==> r == Err::<(), AmmError>(
            AmmError::Unauthorized,
        ) && final(ctx).config == old(ctx).config,
{
    if !check_authority(&ctx.config.authority, &ctx.signer) {
        return Err(AmmError::Unauthorized);
    }
    ctx.config.locked = false;
    Ok(())
}

} // verus!
