//! What holds of the program as a whole.
pub mod access;
pub mod calls;
pub mod decisions;
pub mod fees;
pub mod funds;
pub mod instructions;
pub mod outcomes;
pub mod records;
pub mod registry;
pub mod storage;
pub mod wallets;
