//! Accounting of two vaults.
//!
//! The staking vault takes deposits of a base asset against shares. Rewards
//! are paid in by approved sources and become usable linearly over a vesting
//! window. Unstaking burns shares at once and releases the assets through a
//! per-user queue once a cooldown has passed.
//!
//! - `math`: conversion between assets and shares
//! - `vesting`: the locked part of a reward
//! - `state`: the books of a staking vault
//! - `cooldown`: the queue of pending unstakes of one user
//! - `operations`: stake, unstake, reward and configuration
//! - `roles`, `keys`: administrator, reward sources and blacklist
//! - `single_cooldown`: a cooldown with one slot per user in place of a queue
//!
//! The mint vault, in `mint`, mints its token against deposits of collateral
//! at rates set per asset.
//!
//! Nothing here holds balances of tokens or reads a clock: the share supply
//! and the current time are arguments of the operations, and the amounts to
//! transfer, mint or burn are their results.

pub mod cooldown;
pub mod errors;
pub mod keys;
pub mod math;
pub mod mint;
pub mod operations;
pub mod roles;
pub mod single_cooldown;
pub mod state;
pub mod vesting;
