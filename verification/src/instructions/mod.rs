//! The four instructions of the pool program and the validators they share.

pub mod add_liquidity;
pub mod helper;
pub mod initialize_pool;
pub mod remove_liquidity;
pub mod swap;

pub use add_liquidity::{
    AddLiquidity, AddLiquidityAccounts, AddLiquidityAddresses, AddLiquidityData,
};
pub use helper::{
    AccountCheck, AssociatedTokenAccount, AssociatedTokenAccountCheck, AssociatedTokenAccountInit,
    MintInterface, ProgramAccount, ProgramAccountInit, SignerAccount, TokenAccount,
};
pub use initialize_pool::{
    InitializePool, InitializePoolAccounts, InitializePoolAddresses, InitializePoolData,
};
pub use remove_liquidity::{
    RemoveLiquidity, RemoveLiquidityAccounts, RemoveLiquidityAddresses, RemoveLiquidityData,
};
pub use swap::{Swap, SwapAccounts, SwapAddresses, SwapData};
