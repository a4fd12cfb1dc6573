//! A constant-product exchange: pools of two assets, liquidity shares and swaps.
//!
//! An exchange is a [`Pallet`]: a registry of pools ([`types::Amm`]) on top of a ledger of
//! fungible assets, which the runtime supplies as a [`Config`]. A pool holds reserves of a base
//! and a quote asset. Whoever deposits both in the pool's ratio receives shares, and gets the
//! matching part of the reserves back for them. Whoever swaps hands in one asset and receives
//! the other at the price that keeps the product of the reserves; a fee on the input stays in
//! the pool.
//!
//! All arithmetic is exact and checked ([`helpers`]). The decisions are functions of a pool
//! alone ([`pricing`], [`liquidity`]); the operations of the exchange add the caller, the
//! ledger and the events ([`pallet`]). What holds of every pool is proved in [`invariants`].
//!
//! Nothing is assumed of what the ledger does with a request, but a ledger must keep a record
//! of what it was asked and what it answered ([`Config`]). Over that record the contract of
//! each operation says what the ledger is asked for and in which order, that the operation
//! succeeds exactly when the ledger grants all of it, and which error comes out when the
//! ledger refuses. An operation that the exchange refuses on its own grounds asks the ledger
//! for nothing.
//!
//! Three things are taken on trust: that a ledger keeps its record, which nobody checks of an
//! implementation outside verified code; the bytes of the custody account that the runtime's
//! crates derive for a pool; and the type of the ledger's errors, which are handed on unread.

pub mod helpers;
pub mod invariants;
pub mod liquidity;
pub mod ownership;
pub mod pallet;
pub mod pricing;
pub mod traits;
pub mod types;

pub use crate::pallet::Pallet;
pub use crate::traits::Config;
pub use crate::types::{Error, Event};
