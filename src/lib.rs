//! A two-asset constant-product liquidity pool.
//!
//! The pool keeps one wallet per asset, split into the owner's deposit and
//! the liquidity committed to swaps. Every entry point is a verified function
//! from the pool's state and the caller's inputs to the next state and the
//! action that the host has to carry out (an outgoing transfer, a refund, a
//! wallet registration). Nothing is committed to the pool's wallets before the
//! host reports that the outgoing transfer of a swap succeeded.

mod contract;
mod error;
pub mod laws;
mod liquidity;
mod provision;
mod swap;
mod transfer;
mod wallet;
mod wide;

pub use contract::{Contract, PoolView, ProvisionRequest, RunningState, ONE_NEAR};
pub use error::PoolError;
pub use swap::{compute_swap_amount, PendingSwap};
pub use transfer::{TransferCommand, TransferReply, TransferType};
pub use wallet::{AssetMetadata, TokenWallet};
pub use wide::{compute_tokens_ratio, Wide};
