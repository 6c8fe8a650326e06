//! A verified fixed-price marketplace for unique, non-fungible assets.
//!
//! The marketplace takes custody of a listed asset in an escrow account and
//! settles a purchase by splitting the payment between the seller and a
//! marketplace fee collector. The asset-transfer primitive itself (the
//! ledger) is an external collaborator: every operation that needs a
//! transfer is split into a *plan* step, which validates the request and
//! describes the transfer legs without touching any state, and a *finish*
//! step, which takes the ledger's reported outcome and either commits the
//! state change or leaves the marketplace exactly as it was.

pub mod account;
pub mod errors;
pub mod settlement;
pub mod listing;
pub mod transfer;
pub mod registry;
pub mod store;
pub mod market;
