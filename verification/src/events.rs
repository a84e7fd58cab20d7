//! What the program reports of each accepted instruction.
use vstd::prelude::*;

use crate::pubkey::Pubkey;

verus! {

#[derive(Clone, Debug, PartialEq, Eq)]
pub struct ConfigInitialized {
    pub authority: Pubkey,
    pub treasury_wallet: Pubkey,
    pub fee_basis_points: u16,
}

#[derive(Clone, Debug, PartialEq, Eq)]
pub struct FeeUpdated {
    pub old_fee: u16,
    pub new_fee: u16,
}

#[derive(Clone, Debug, PartialEq, Eq)]
pub struct TreasuryUpdated {
    pub new_treasury: Pubkey,
}

#[derive(Clone, Debug, PartialEq, Eq)]
pub struct MerchantRegistered {
    pub merchant_id: String,
    pub wallet_address: Pubkey,
    pub registered_at: i64,
}

#[derive(Clone, Debug, PartialEq, Eq)]
pub struct WalletUpdateRequested {
    pub merchant_id: String,
    pub new_wallet: Pubkey,
    pub unlocks_at: i64,
}

#[derive(Clone, Debug, PartialEq, Eq)]
pub struct WalletUpdated {
    pub merchant_id: String,
    pub old_wallet: Pubkey,
    pub new_wallet: Pubkey,
}

#[derive(Clone, Debug, PartialEq, Eq)]
pub struct MerchantDeactivated {
    pub merchant_id: String,
}

#[derive(Clone, Debug, PartialEq, Eq)]
pub struct EscrowInitialized {
    pub merchant_id: String,
    pub merchant_wallet: Pubkey,
}

#[derive(Clone, Debug, PartialEq, Eq)]
pub struct PaymentReceived {
    pub merchant_id: String,
    pub customer_wallet: Pubkey,
    pub amount: u64,
    pub pending_balance: u64,
    pub timestamp: i64,
}

#[derive(Clone, Debug, PartialEq, Eq)]
pub struct FundsReleased {
    pub merchant_id: String,
    pub merchant_wallet: Pubkey,
    pub gross: u64,
    pub fee: u64,
    pub net: u64,
    pub released_at: i64,
}

} // verus!
