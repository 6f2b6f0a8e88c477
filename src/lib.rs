//! Quoting and instruction-building adapter for a constant-product style
//! liquidity pool: decodes the pool account, keeps a consistent snapshot of
//! reserves, curve parameters and the epoch, prices swaps in exact integer
//! arithmetic, and lists the accounts that the pool program's swap takes.

pub mod address;
pub mod bytes;
pub mod curve;
pub mod error;
pub mod transfer_fee;
pub mod pool;
pub mod accounts;
pub mod adapter;
pub mod quote;
pub mod instruction;
