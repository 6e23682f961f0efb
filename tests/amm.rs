use amm::{
    bootstrap, check_authority, deposit, initialize, lock, mul_div, quote_deposit, quote_swap,
    quote_withdraw, swap, unlock, withdraw, AmmError, Config, Deposit, DepositAmounts, Lock,
    Pubkey, Reserves, Swap, SwapPlan, SwapQuote, Withdraw, WithdrawPlan, XYAmounts,
};

fn key(b: u8) -> Pubkey {
    Pubkey::new([b; 32])
}

fn pool(fee: u16) -> Config {
    initialize(7, fee, Some(key(9)), key(1), key(2), 254, 253).unwrap()
}

fn reserves(x: u64, y: u64, supply: u64) -> Reserves {
    Reserves { x, y, supply }
}

#[test]
fn mul_div_widens_before_dividing() {
    assert_eq!(mul_div(u64::MAX, u64::MAX, u64::MAX), Ok(u64::MAX));
    assert_eq!(mul_div(10, 3, 4), Ok(7));
    assert_eq!(mul_div(1, 2, 0), Err(AmmError::DivisionByZero));
    assert_eq!(mul_div(u64::MAX, 2, 1), Err(AmmError::Overflow));
}

#[test]
fn quote_deposit_is_pro_rata_and_rounds_down() {
    assert_eq!(quote_deposit(1000, 2000, 1000, 500), Ok(XYAmounts { x: 500, y: 1000 }));
    assert_eq!(quote_deposit(10, 20, 3, 1), Ok(XYAmounts { x: 3, y: 6 }));
    assert_eq!(quote_deposit(10, 20, 0, 1), Err(AmmError::DivisionByZero));
    assert_eq!(quote_deposit(u64::MAX, 1, 1, 2), Err(AmmError::Overflow));
}

#[test]
fn quote_withdraw_never_favours_the_withdrawer() {
    let q = quote_withdraw(1001, 2003, 1000, 333).unwrap();
    assert_eq!(q, XYAmounts { x: 333, y: 666 });
    assert!(q.x as u128 * 1000 <= 333 * 1001);
    assert!(q.y as u128 * 1000 <= 333 * 2003);
    assert_eq!(quote_withdraw(5, 5, 0, 1), Err(AmmError::DivisionByZero));
}

#[test]
fn quote_swap_takes_fee_from_input() {
    assert_eq!(
        quote_swap(1_000_000, 2_000_000, 1000, 30),
        Ok(SwapQuote { amount_in_net: 997, amount_out: 1993 })
    );
    assert_eq!(
        quote_swap(1_000_000, 2_000_000, 1000, 0),
        Ok(SwapQuote { amount_in_net: 1000, amount_out: 1998 })
    );
    assert_eq!(quote_swap(1_000_000, 2_000_000, 0, 30), Err(AmmError::InvalidAmount));
    assert_eq!(quote_swap(0, 5, 1, 10000), Err(AmmError::DivisionByZero));
    assert_eq!(quote_swap(1_000_000, 2, 10, 0), Err(AmmError::InsufficientOutput));
}

#[test]
fn quote_swap_rounds_in_the_pools_favour_only_where_needed() {
    // The curve's 1999 would lower the product of the reserves; 1998 keeps it.
    let q = quote_swap(1_000_000, 2_000_000, 1000, 0).unwrap();
    assert_eq!(q.amount_out, 1998);
    assert!(1_001_000u128 * (2_000_000 - 1999) < 1_000_000u128 * 2_000_000);
    // Paying the curve's 1 here would take the product from 4 to 3.
    assert_eq!(quote_swap(2, 2, 1, 0), Err(AmmError::InsufficientOutput));
    assert_eq!(quote_swap(10, 1, 2, 30), Err(AmmError::InsufficientOutput));
}

#[test]
fn quote_swap_keeps_the_product() {
    let cases = [(3u64, 20u64, 1u64, 0u16), (1_000_000, 2_000_000, 1000, 30), (7, 13, 5, 100)];
    for (rin, rout, a, fee) in cases {
        let q = quote_swap(rin, rout, a, fee).unwrap();
        let before = rin as u128 * rout as u128;
        let after = (rin + a) as u128 * (rout - q.amount_out) as u128;
        assert!(after >= before);
    }
}

#[test]
fn bootstrap_needs_non_zero_amounts() {
    assert_eq!(bootstrap(1000, 2000, 1000), Ok(DepositAmounts { x: 1000, y: 2000, shares: 1000 }));
    assert_eq!(bootstrap(0, 2000, 1000), Err(AmmError::InvalidAmount));
    assert_eq!(bootstrap(1000, 0, 1000), Err(AmmError::InvalidAmount));
}

#[test]
fn initialize_checks_fee_and_assets() {
    let c = pool(30);
    assert_eq!(c.seed, 7);
    assert_eq!(c.fee, 30);
    assert!(!c.locked);
    assert_eq!(c.config_bump, 254);
    assert_eq!(c.liquidity_pool_bump, 253);
    assert_eq!(
        initialize(7, 10001, None, key(1), key(2), 0, 0).unwrap_err(),
        AmmError::InvalidFee
    );
    assert_eq!(
        initialize(7, 30, None, key(1), key(1), 0, 0).unwrap_err(),
        AmmError::IdenticalMints
    );
    assert!(initialize(7, 10000, None, key(1), key(2), 0, 0).is_ok());
}

#[test]
fn bootstrap_then_proportional_deposit() {
    let c = pool(30);
    let first = deposit(&Deposit { config: c, reserves: reserves(0, 0, 0) }, 1000, 1000, 2000);
    assert_eq!(first, Ok(DepositAmounts { x: 1000, y: 2000, shares: 1000 }));
    let next = deposit(&Deposit { config: c, reserves: reserves(1000, 2000, 1000) }, 500, 500, 1000);
    assert_eq!(next, Ok(DepositAmounts { x: 500, y: 1000, shares: 500 }));
}

#[test]
fn deposit_errors() {
    let c = pool(30);
    let ctx = Deposit { config: c, reserves: reserves(1000, 2000, 1000) };
    assert_eq!(deposit(&ctx, 500, 499, 1000), Err(AmmError::SlippageExceeded));
    assert_eq!(deposit(&ctx, 500, 500, 999), Err(AmmError::SlippageExceeded));
    assert_eq!(deposit(&ctx, 0, 500, 1000), Err(AmmError::InvalidAmount));
    let empty = Deposit { config: c, reserves: reserves(0, 0, 0) };
    assert_eq!(deposit(&empty, 10, 0, 5), Err(AmmError::InvalidAmount));
    let unbacked = Deposit { config: c, reserves: reserves(5, 5, 0) };
    assert_eq!(deposit(&unbacked, 10, 50, 50), Err(AmmError::DivisionByZero));
    let full = Deposit { config: c, reserves: reserves(u64::MAX - 1, 2, 1) };
    assert_eq!(deposit(&full, 1, u64::MAX, u64::MAX), Err(AmmError::Overflow));
}

#[test]
fn withdraw_pays_pro_rata() {
    let c = pool(30);
    let ctx = Withdraw { config: c, reserves: reserves(1500, 3000, 1500) };
    assert_eq!(withdraw(&ctx, 500, 500, 1000), Ok(WithdrawPlan { x: 500, y: 1000, shares: 500 }));
    assert_eq!(withdraw(&ctx, 500, 501, 0), Err(AmmError::SlippageExceeded));
    assert_eq!(withdraw(&ctx, 500, 0, 1001), Err(AmmError::SlippageExceeded));
    assert_eq!(withdraw(&ctx, 0, 0, 0), Err(AmmError::InvalidAmount));
    assert_eq!(withdraw(&ctx, 1501, 0, 0), Err(AmmError::InvalidAmount));
}

#[test]
fn withdraw_quote_errors_come_first() {
    let c = pool(30);
    let unbacked = Withdraw { config: c, reserves: reserves(10, 10, 0) };
    assert_eq!(withdraw(&unbacked, 1, 0, 0), Err(AmmError::DivisionByZero));
    let small = Withdraw { config: c, reserves: reserves(10, 10, 1) };
    assert_eq!(withdraw(&small, 2, 100, 0), Err(AmmError::SlippageExceeded));
    assert_eq!(withdraw(&small, 2, 0, 0), Err(AmmError::InvalidAmount));
    let huge = Withdraw { config: c, reserves: reserves(u64::MAX, 1, 1) };
    assert_eq!(withdraw(&huge, 2, 0, 0), Err(AmmError::Overflow));
}

#[test]
fn swap_concrete_scenario() {
    let c = pool(30);
    let ctx = Swap { config: c, reserves: reserves(1_000_000, 2_000_000, 1000) };
    let plan = swap(&ctx, true, 1000, 1993).unwrap();
    assert_eq!(plan, SwapPlan { is_x: true, amount_in: 1000, amount_out: 1993 });
    assert!(plan.amount_out < 1998);
    assert_eq!(swap(&ctx, true, 1000, 1994), Err(AmmError::SlippageExceeded));
    let back = swap(&ctx, false, 2000, 0).unwrap();
    assert_eq!(back, SwapPlan { is_x: false, amount_in: 2000, amount_out: 997 });
    let tiny = Swap { config: c, reserves: reserves(1_000_000, 2, 1) };
    assert_eq!(swap(&tiny, true, 10, 0), Err(AmmError::InsufficientOutput));
    let full = Swap { config: c, reserves: reserves(u64::MAX, u64::MAX, 1) };
    assert_eq!(swap(&full, true, 1_000_000, 0), Err(AmmError::Overflow));
}

#[test]
fn deposit_then_withdraw_round_trip() {
    let c = pool(30);
    let start = reserves(1001, 2003, 997);
    let paid = deposit(&Deposit { config: c, reserves: start }, 250, u64::MAX, u64::MAX).unwrap();
    let after = reserves(start.x + paid.x, start.y + paid.y, start.supply + paid.shares);
    let back = withdraw(&Withdraw { config: c, reserves: after }, 250, 0, 0).unwrap();
    assert!(back.x <= paid.x && paid.x <= back.x + 1);
    assert!(back.y <= paid.y && paid.y <= back.y + 1);
    assert_eq!(after.supply - back.shares, start.supply);
}

#[test]
fn lock_gates_trading_until_unlocked() {
    let mut ctx = Lock { signer: key(9), config: pool(30) };
    assert_eq!(lock(&mut ctx), Ok(()));
    assert!(ctx.config.locked);
    let r = reserves(1000, 2000, 1000);
    let c = ctx.config;
    assert_eq!(deposit(&Deposit { config: c, reserves: r }, 10, 100, 100), Err(AmmError::PoolLocked));
    assert_eq!(withdraw(&Withdraw { config: c, reserves: r }, 10, 0, 0), Err(AmmError::PoolLocked));
    assert_eq!(swap(&Swap { config: c, reserves: r }, true, 10, 0), Err(AmmError::PoolLocked));
    assert_eq!(unlock(&mut ctx), Ok(()));
    assert!(!ctx.config.locked);
    let c = ctx.config;
    assert!(deposit(&Deposit { config: c, reserves: r }, 10, 100, 100).is_ok());
}

#[test]
fn lock_refuses_other_callers() {
    let mut ctx = Lock { signer: key(8), config: pool(30) };
    assert_eq!(lock(&mut ctx), Err(AmmError::Unauthorized));
    assert!(!ctx.config.locked);
    let mut nobody = Lock {
        signer: key(9),
        config: initialize(1, 0, None, key(1), key(2), 0, 0).unwrap(),
    };
    assert_eq!(lock(&mut nobody), Err(AmmError::Unauthorized));
    assert_eq!(unlock(&mut nobody), Err(AmmError::Unauthorized));
    let mut near = [9u8; 32];
    near[31] = 8;
    assert!(!check_authority(&Some(key(9)), &Pubkey::new(near)));
    assert!(check_authority(&Some(key(9)), &key(9)));
}

#[test]
fn zero_amounts_are_refused() {
    let c = pool(30);
    for r in [reserves(0, 0, 0), reserves(1000, 2000, 1000)] {
        assert_eq!(deposit(&Deposit { config: c, reserves: r }, 0, 5, 5), Err(AmmError::InvalidAmount));
        assert_eq!(withdraw(&Withdraw { config: c, reserves: r }, 0, 0, 0), Err(AmmError::InvalidAmount));
        assert_eq!(swap(&Swap { config: c, reserves: r }, false, 0, 0), Err(AmmError::InvalidAmount));
    }
}

#[test]
fn error_messages_are_distinct() {
    assert_ne!(AmmError::PoolLocked.message(), AmmError::Unauthorized.message());
    assert_eq!(AmmError::Overflow.message(), "arithmetic overflow");
}
