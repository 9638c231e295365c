//! Wallet logic of a Lightning/Bitcoin CFD trading client and of its maker.
//!
//! The library holds the computations of the wallet: balances, the
//! transaction history that the user is shown, the amounts of channels and
//! contracts, the funding wait of a channel opening and the offer that the
//! maker quotes. Talking to the chain, to the Lightning node, to the disk or
//! over HTTP is left to the caller.

pub mod txid;
mod text;
pub mod history;
pub mod wallet;
pub mod payments;
pub mod channel;
pub mod decimal;
pub mod routes;
pub mod api;
pub mod invoice;
