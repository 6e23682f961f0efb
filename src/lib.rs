//! A constant-product automated market maker: the pool record, the curve
//! arithmetic that sizes deposits, withdrawals and swaps, and the decisions
//! of each pool operation, all verified.
//!
//! Reserves and liquidity-share supply belong to the host ledger. Each
//! operation takes a snapshot of them and returns the movements of assets
//! that the ledger must perform, or the error that aborts the operation.
pub mod error;
pub mod math;
pub mod curve;
pub mod state;
pub mod instructions;
pub mod guarantees;

pub use curve::{
    bootstrap, quote_deposit, quote_swap, quote_withdraw, DepositAmounts, SwapQuote, XYAmounts,
};
pub use error::AmmError;
pub use instructions::{
    deposit, initialize, lock, swap, unlock, withdraw, Deposit, Lock, Swap, SwapPlan, Withdraw,
    WithdrawPlan,
};
pub use math::mul_div;
pub use state::{check_authority, Config, Pubkey, Reserves};
