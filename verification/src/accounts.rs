//! The accounts of each instruction.
use vstd::prelude::*;

use crate::pubkey::Pubkey;
#[allow(unused_imports)]
use crate::state::{
    ConfigView, EscrowAccount, EscrowView, MerchantAccount, MerchantView, SettlConfig,
};

verus! {

/// An account of the program: its address, and what it stores.
#[derive(Clone, Debug, PartialEq, Eq)]
pub struct Account<T> {
    pub key: Pubkey,
    pub data: T,
}

/// An account as a mathematical value.
pub struct AccountView<V> {
    pub key: Pubkey,
    pub data: V,
}

impl<T: View> View for Account<T> {
    type V = AccountView<T::V>;

    open spec fn view(&self) -> AccountView<T::V> {
        AccountView { key: self.key, data: self.data@ }
    }
}

impl<V> AccountView<V> {
    /// The same account with other contents.
    pub open spec fn with(self, data: V) -> AccountView<V> {
        AccountView { key: self.key, data }
    }
}

/// A token account: its address, the wallet or account that owns it, and its
/// balance.
#[derive(Clone, Copy, Debug, PartialEq, Eq)]
pub struct TokenAccount {
    pub key: Pubkey,
    pub owner: Pubkey,
    pub amount: u64,
}

/// The bumps that creating the configuration settles.
#[derive(Clone, Copy, Debug, PartialEq, Eq)]
pub struct InitializeConfigBumps {
    pub config: u8,
}

/// The bumps that registering a merchant settles.
#[derive(Clone, Copy, Debug, PartialEq, Eq)]
pub struct RegisterMerchantBumps {
    pub merchant: u8,
}

/// The bumps that creating an escrow settles.
#[derive(Clone, Copy, Debug, PartialEq, Eq)]
pub struct InitializeEscrowBumps {
    pub escrow: u8,
    pub vault: u8,
}

/// Creating the configuration. `config` is the new account; `authority` signs and
/// pays.
#[derive(Clone, Debug, PartialEq, Eq)]
pub struct InitializeConfig {
    pub config: Account<SettlConfig>,
    pub treasury_wallet: Pubkey,
    pub authority: Pubkey,
}

/// Changing the configuration. `authority` signs.
#[derive(Clone, Debug, PartialEq, Eq)]
pub struct ManageConfig {
    pub config: Account<SettlConfig>,
    pub new_treasury: Pubkey,
    pub authority: Pubkey,
}

/// Registering a merchant. `merchant` is the new account; `authority` signs and
/// pays.
#[derive(Clone, Debug, PartialEq, Eq)]
pub struct RegisterMerchant {
    pub config: Account<SettlConfig>,
    pub merchant: Account<MerchantAccount>,
    pub authority: Pubkey,
}

/// Managing a merchant. `authority` signs.
#[derive(Clone, Debug, PartialEq, Eq)]
pub struct ManageMerchant {
    pub merchant: Account<MerchantAccount>,
    pub authority: Pubkey,
}

/// Creating an escrow. `escrow` and `vault` are the new accounts; `authority`
/// signs and pays.
#[derive(Clone, Debug, PartialEq, Eq)]
pub struct InitializeEscrow {
    pub merchant: Account<MerchantAccount>,
    pub escrow: Account<EscrowAccount>,
    pub vault: TokenAccount,
    pub authority: Pubkey,
}

/// Paying into an escrow. Only `customer` signs.
#[derive(Clone, Debug, PartialEq, Eq)]
pub struct Deposit {
    pub merchant: Account<MerchantAccount>,
    pub escrow: Account<EscrowAccount>,
    pub vault: TokenAccount,
    pub customer_ata: TokenAccount,
    pub customer: Pubkey,
}

/// Paying an escrow out. `authority` signs. `merchant_ata` and `treasury_ata` are
/// the token accounts to be paid.
#[derive(Clone, Debug, PartialEq, Eq)]
pub struct Release {
    pub config: Account<SettlConfig>,
    pub merchant: Account<MerchantAccount>,
    pub escrow: Account<EscrowAccount>,
    pub vault: TokenAccount,
    pub merchant_ata: TokenAccount,
    pub treasury_ata: TokenAccount,
    pub authority: Pubkey,
}

/// Bringing an escrow's wallet up to date. `authority` signs.
#[derive(Clone, Debug, PartialEq, Eq)]
pub struct UpdateEscrowWallet {
    pub merchant: Account<MerchantAccount>,
    pub escrow: Account<EscrowAccount>,
    pub authority: Pubkey,
}

/// [`InitializeConfig`] as a mathematical value.
pub struct InitializeConfigView {
    pub config: AccountView<ConfigView>,
    pub treasury_wallet: Pubkey,
    pub authority: Pubkey,
}

impl View for InitializeConfig {
    type V = InitializeConfigView;

    open spec fn view(&self) -> InitializeConfigView {
        InitializeConfigView {
            config: self.config@,
            treasury_wallet: self.treasury_wallet,
            authority: self.authority,
        }
    }
}

/// [`ManageConfig`] as a mathematical value.
pub struct ManageConfigView {
    pub config: AccountView<ConfigView>,
    pub new_treasury: Pubkey,
    pub authority: Pubkey,
}

impl View for ManageConfig {
    type V = ManageConfigView;

    open spec fn view(&self) -> ManageConfigView {
        ManageConfigView {
            config: self.config@,
            new_treasury: self.new_treasury,
            authority: self.authority,
        }
    }
}

/// [`RegisterMerchant`] as a mathematical value.
pub struct RegisterMerchantView {
    pub config: AccountView<ConfigView>,
    pub merchant: AccountView<MerchantView>,
    pub authority: Pubkey,
}

impl View for RegisterMerchant {
    type V = RegisterMerchantView;

    open spec fn view(&self) -> RegisterMerchantView {
        RegisterMerchantView {
            config: self.config@,
            merchant: self.merchant@,
            authority: self.authority,
        }
    }
}

/// [`ManageMerchant`] as a mathematical value.
pub struct ManageMerchantView {
    pub merchant: AccountView<MerchantView>,
    pub authority: Pubkey,
}

impl View for ManageMerchant {
    type V = ManageMerchantView;

    open spec fn view(&self) -> ManageMerchantView {
        ManageMerchantView { merchant: self.merchant@, authority: self.authority }
    }
}

/// [`InitializeEscrow`] as a mathematical value.
pub struct InitializeEscrowView {
    pub merchant: AccountView<MerchantView>,
    pub escrow: AccountView<EscrowView>,
    pub vault: TokenAccount,
    pub authority: Pubkey,
}

impl View for InitializeEscrow {
    type V = InitializeEscrowView;

    open spec fn view(&self) -> InitializeEscrowView {
        InitializeEscrowView {
            merchant: self.merchant@,
            escrow: self.escrow@,
            vault: self.vault,
            authority: self.authority,
        }
    }
}

/// [`Deposit`] as a mathematical value.
pub struct DepositView {
    pub merchant: AccountView<MerchantView>,
    pub escrow: AccountView<EscrowView>,
    pub vault: TokenAccount,
    pub customer_ata: TokenAccount,
    pub customer: Pubkey,
}

impl View for Deposit {
    type V = DepositView;

    open spec fn view(&self) -> DepositView {
        DepositView {
            merchant: self.merchant@,
            escrow: self.escrow@,
            vault: self.vault,
            customer_ata: self.customer_ata,
            customer: self.customer,
        }
    }
}

/// [`Release`] as a mathematical value.
pub struct ReleaseView {
    pub config: AccountView<ConfigView>,
    pub merchant: AccountView<MerchantView>,
    pub escrow: AccountView<EscrowView>,
    pub vault: TokenAccount,
    pub merchant_ata: TokenAccount,
    pub treasury_ata: TokenAccount,
    pub authority: Pubkey,
}

impl View for Release {
    type V = ReleaseView;

    open spec fn view(&self) -> ReleaseView {
        ReleaseView {
            config: self.config@,
            merchant: self.merchant@,
            escrow: self.escrow@,
            vault: self.vault,
            merchant_ata: self.merchant_ata,
            treasury_ata: self.treasury_ata,
            authority: self.authority,
        }
    }
}

/// [`UpdateEscrowWallet`] as a mathematical value.
pub struct UpdateEscrowWalletView {
    pub merchant: AccountView<MerchantView>,
    pub escrow: AccountView<EscrowView>,
    pub authority: Pubkey,
}

impl View for UpdateEscrowWallet {
    type V = UpdateEscrowWalletView;

    open spec fn view(&self) -> UpdateEscrowWalletView {
        UpdateEscrowWalletView {
            merchant: self.merchant@,
            escrow: self.escrow@,
            authority: self.authority,
        }
    }
}

} // verus!
