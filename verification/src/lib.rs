//! Accounting core of a two-asset liquidity pool: pool creation under a
//! canonical ordering invariant, and the genesis / steady-state deposit
//! formulas with exact integer arithmetic.

pub mod add_liquidity;
pub mod errors;
pub mod initialize_pool;
pub mod math;
pub mod pool;

pub use crate::add_liquidity::add_liquidity;
pub use crate::add_liquidity::DepositPlan;
pub use crate::errors::AMMError;
pub use crate::initialize_pool::initialize_pool;
pub use crate::pool::AssetId;
pub use crate::pool::PoolAccount;
