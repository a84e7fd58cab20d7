//! What the program stores.
use vstd::prelude::*;
#[allow(unused_imports)]
use vstd::utf8::*;

use crate::pubkey::Pubkey;

verus! {

/// The highest fee rate that can be set: 10%.
pub const MAX_FEE_BASIS_POINTS: u16 = 1_000;

/// One whole, in basis points.
pub const BASIS_POINTS: u64 = 10_000;

/// The longest merchant identifier, in bytes.
pub const MAX_MERCHANT_ID_LEN: usize = 64;

/// How long a requested wallet change has to wait, in seconds: 24 hours.
pub const WALLET_UPDATE_DELAY: i64 = 86_400;

/// The global configuration.
#[derive(Clone, Debug, PartialEq, Eq)]
pub struct SettlConfig {
    /// Who may change the configuration.
    pub authority: Pubkey,
    /// The wallet that platform fees go to.
    pub treasury_wallet: Pubkey,
    /// The fee rate of a release.
    pub fee_basis_points: u16,
    /// All fees ever taken.
    pub total_fees_collected: u64,
    /// The bump of the configuration's own address.
    pub bump: u8,
}

impl SettlConfig {
    /// The bytes that the account takes on chain: discriminator, the fields in
    /// their order, padding.
    pub const SPACE: usize = 8 + 32 + 32 + 2 + 8 + 1 + 32;
}

/// A merchant's entry in the registry.
#[derive(Clone, Debug, PartialEq, Eq)]
pub struct MerchantAccount {
    pub merchant_id: String,
    /// The wallet in force. The escrow takes it over when it is brought up to
    /// date.
    pub wallet: Pubkey,
    /// Whether the merchant's escrow accepts deposits.
    pub is_active: bool,
    pub registered_at: i64,
    /// All that was ever paid out to the merchant.
    pub total_released: u64,
    /// All fees ever taken from the merchant's payments.
    pub total_fees_paid: u64,
    /// Who may manage the merchant.
    pub authority: Pubkey,
    /// The wallet that a requested change will bring.
    pub pending_wallet: Option<Pubkey>,
    /// When the requested change may be confirmed.
    pub wallet_update_at: Option<i64>,
    /// The bump of the account's own address.
    pub bump: u8,
}

impl MerchantAccount {
    /// The bytes that the account takes on chain: discriminator, the fields in
    /// their order, padding.
    pub const SPACE: usize = 8 + (4 + 64) + 32 + 1 + 8 + 8 + 8 + 32 + (1 + 32) + (1 + 8) + 1 + 64;
}

/// A merchant's escrow.
#[derive(Clone, Debug, PartialEq, Eq)]
pub struct EscrowAccount {
    pub merchant_id: String,
    /// The wallet that releases are paid to.
    pub merchant_wallet: Pubkey,
    /// What was deposited since the last release.
    pub pending_balance: u64,
    /// How many deposits were ever made.
    pub total_payments: u64,
    pub last_released_at: i64,
    /// Who may release the escrow.
    pub authority: Pubkey,
    /// The bump of the account's own address.
    pub bump: u8,
    /// The bump of the address of the escrow's token vault.
    pub vault_bump: u8,
}

impl EscrowAccount {
    /// The bytes that the account takes on chain: discriminator, the fields in
    /// their order, padding.
    pub const SPACE: usize = 8 + (4 + 64) + 32 + 8 + 8 + 8 + 32 + 1 + 1 + 64;
}

/// The configuration as a mathematical value.
pub struct ConfigView {
    pub authority: Pubkey,
    pub treasury_wallet: Pubkey,
    pub fee_basis_points: nat,
    pub total_fees_collected: nat,
    pub bump: u8,
}

impl View for SettlConfig {
    type V = ConfigView;

    open spec fn view(&self) -> ConfigView {
        ConfigView {
            authority: self.authority,
            treasury_wallet: self.treasury_wallet,
            fee_basis_points: self.fee_basis_points as nat,
            total_fees_collected: self.total_fees_collected as nat,
            bump: self.bump,
        }
    }
}

impl ConfigView {
    /// The fee rate is within its cap.
    pub open spec fn wf(self) -> bool {
        self.fee_basis_points <= MAX_FEE_BASIS_POINTS
    }

    /// The bytes of the stored fields.
    pub open spec fn stored_len(self) -> nat {
        32 + 32 + 2 + 8 + 1
    }
}

/// A merchant's entry as a mathematical value.
pub struct MerchantView {
    pub merchant_id: Seq<char>,
    pub wallet: Pubkey,
    pub is_active: bool,
    pub registered_at: int,
    pub total_released: nat,
    pub total_fees_paid: nat,
    pub authority: Pubkey,
    pub pending_wallet: Option<Pubkey>,
    pub wallet_update_at: Option<int>,
    pub bump: u8,
}

impl View for MerchantAccount {
    type V = MerchantView;

    open spec fn view(&self) -> MerchantView {
        MerchantView {
            merchant_id: self.merchant_id@,
            wallet: self.wallet,
            is_active: self.is_active,
            registered_at: self.registered_at as int,
            total_released: self.total_released as nat,
            total_fees_paid: self.total_fees_paid as nat,
            authority: self.authority,
            pending_wallet: self.pending_wallet,
            wallet_update_at: match self.wallet_update_at {
                Some(at) => Some(at as int),
                None => None,
            },
            bump: self.bump,
        }
    }
}

impl MerchantView {
    /// The identifier is within its limit, and a wallet is pending exactly when
    /// there is a time from which it may be confirmed.
    pub open spec fn wf(self) -> bool {
        &&& encode_utf8(self.merchant_id).len() <= MAX_MERCHANT_ID_LEN
        &&& self.pending_wallet is Some <==> self.wallet_update_at is Some
    }

    /// The bytes of the stored fields: a string takes four bytes for its length
    /// and then its own, an option one byte and then what it holds.
    pub open spec fn stored_len(self) -> nat {
        let pending_wallet: nat = if self.pending_wallet is Some { 1 + 32 } else { 1 };
        let wallet_update_at: nat = if self.wallet_update_at is Some { 1 + 8 } else { 1 };
        (4 + encode_utf8(self.merchant_id).len()) + 32 + 1 + 8 + 8 + 8 + 32 + pending_wallet
            + wallet_update_at + 1
    }
}

/// An escrow as a mathematical value.
pub struct EscrowView {
    pub merchant_id: Seq<char>,
    pub merchant_wallet: Pubkey,
    pub pending_balance: nat,
    pub total_payments: nat,
    pub last_released_at: int,
    pub authority: Pubkey,
    pub bump: u8,
    pub vault_bump: u8,
}

impl View for EscrowAccount {
    type V = EscrowView;

    open spec fn view(&self) -> EscrowView {
        EscrowView {
            merchant_id: self.merchant_id@,
            merchant_wallet: self.merchant_wallet,
            pending_balance: self.pending_balance as nat,
            total_payments: self.total_payments as nat,
            last_released_at: self.last_released_at as int,
            authority: self.authority,
            bump: self.bump,
            vault_bump: self.vault_bump,
        }
    }
}

impl EscrowView {
    /// The identifier is within its limit.
    pub open spec fn wf(self) -> bool {
        encode_utf8(self.merchant_id).len() <= MAX_MERCHANT_ID_LEN
    }

    /// The bytes of the stored fields: a string takes four bytes for its length
    /// and then its own.
    pub open spec fn stored_len(self) -> nat {
        (4 + encode_utf8(self.merchant_id).len()) + 32 + 8 + 8 + 8 + 32 + 1 + 1
    }
}

/// Whether an identifier is within its limit.
pub fn is_valid_merchant_id(merchant_id: &String) -> (valid: bool)
    ensures
        valid == (encode_utf8(merchant_id@).len() <= MAX_MERCHANT_ID_LEN),
{
    merchant_id.as_str().as_bytes().len() <= MAX_MERCHANT_ID_LEN
}

} // verus!
