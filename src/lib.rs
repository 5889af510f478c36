//! A single-use escrow: a depositor locks an amount of a token for a set of
//! claimants, one of whom may withdraw it once a presented level reaches the
//! target; an administrator may forfeit the balance or request a code upgrade.
//!
//! The library decides every transition of the escrow. Authorization checks,
//! token transfers and persistence are performed by the caller, which hands
//! their outcomes to the library as plain values.

pub mod escrow;
pub mod laws;
pub mod principal;

pub use escrow::{
    ClaimableBalance, ClaimableBalanceContract, DataKey, Effect, EscrowError, Flow, Pending,
    Transfer,
};
pub use principal::{Principal, TokenId};
