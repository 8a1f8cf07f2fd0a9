//! Wallet balance snapshots across a native asset, its wrapped token and a
//! stablecoin, and the profit between two snapshots in native smallest units.

pub mod accounts;
pub mod profit;
pub mod snapshot;
