//! Settl: payments in escrow for merchants.
//!
//! Customers pay tokens into a merchant's escrow. A backend authority releases
//! the escrow: the platform's fee goes to the treasury, the rest to the merchant.
//! The same authority registers merchants and creates their escrows. A merchant's
//! registered wallet can be changed only behind a delay of a day.
//!
//! [`processor`] holds the instructions as a whole; [`config`], [`merchant`] and
//! [`escrow`] their handlers; [`constraints`] what is asked of the accounts, and
//! [`laws`] what holds of the program as a whole. Moving tokens, creating accounts
//! and reading the clock are up to the caller.
pub mod accounts;
pub mod address;
pub mod config;
pub mod constraints;
pub mod error;
pub mod escrow;
pub mod events;
pub mod laws;
pub mod merchant;
pub mod processor;
pub mod pubkey;
pub mod state;
pub mod transfer;
