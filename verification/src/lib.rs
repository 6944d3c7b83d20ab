//! Core logic of a compound proxy: it turns a basket of reward assets into a
//! single balanced liquidity-pool deposit, executed as an ordered chain of
//! self-addressed follow-up steps inside one atomic transaction.
//!
//! The library is pure: every entry point maps the contract's stored
//! configuration plus a fresh snapshot of ledger state to a list of
//! [`Instruction`](msgs::Instruction) values. The host ledger performs the
//! instructions, guarantees their FIFO order, and rolls everything back if any
//! step fails.

pub mod asset;
pub mod contract;
pub mod error;
pub mod laws;
pub mod msgs;
pub mod registry;
pub mod solver;
pub mod state;

pub use asset::{Asset, AssetInfo};
pub use error::ContractError;
