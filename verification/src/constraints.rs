//! The constraints that the accounts of an instruction have to meet.
//!
//! A constraint asks that a new account is created at its canonical address, that
//! an existing one stands at the address which its seeds and its recorded bump
//! derive, that the signer is the authority which an account records, or that a
//! token account belongs to the wallet which is to be paid. The constraints of an
//! instruction have a fixed order, and the first that is not met is the one
//! reported. The derived addresses are arguments here; deriving them is up to the
//! caller.
use vstd::prelude::*;

#[allow(unused_imports)]
use crate::accounts::{
    Deposit, DepositView, InitializeConfig, InitializeConfigBumps, InitializeConfigView,
    InitializeEscrow, InitializeEscrowBumps, InitializeEscrowView, ManageConfig, ManageConfigView,
    ManageMerchant, ManageMerchantView, RegisterMerchant, RegisterMerchantBumps,
    RegisterMerchantView, Release, ReleaseView, UpdateEscrowWallet, UpdateEscrowWalletView,
};
#[allow(unused_imports)]
use crate::address;
use crate::address::ProgramAddress;
use crate::error::{AccountName, InstructionError, SettlError};
#[allow(unused_imports)]
use crate::pubkey;
use crate::pubkey::Pubkey;

verus! {

/// What is wrong with a new account, given the canonical address of its seeds.
pub open spec fn creation_refusal(
    name: AccountName,
    key: Pubkey,
    found: Option<(Seq<u8>, u8)>,
) -> Option<InstructionError> {
    match found {
        None => Some(InstructionError::NoProgramAddress(name)),
        Some((canonical, _)) => if canonical == key@ {
            None
        } else {
            Some(InstructionError::ConstraintSeeds(name))
        },
    }
}

/// What is wrong with an existing account, given the address that its seeds and
/// bump derive.
pub open spec fn seeds_refusal(
    name: AccountName,
    key: Pubkey,
    derived: Option<Seq<u8>>,
) -> Option<InstructionError> {
    if derived == Some(key@) {
        None
    } else {
        Some(InstructionError::ConstraintSeeds(name))
    }
}

/// What is wrong with the signer of an instruction on an account.
pub open spec fn authority_refusal(
    name: AccountName,
    recorded: Pubkey,
    signer: Pubkey,
) -> Option<InstructionError> {
    if recorded == signer {
        None
    } else {
        Some(InstructionError::Account(name, SettlError::Unauthorized))
    }
}

/// What is wrong with a token account that is to belong to a wallet.
pub open spec fn owner_refusal(
    name: AccountName,
    owner: Pubkey,
    wallet: Pubkey,
) -> Option<InstructionError> {
    if owner == wallet {
        None
    } else {
        Some(InstructionError::ConstraintTokenOwner(name))
    }
}

/// The first of two refusals.
pub open spec fn first(
    refusal: Option<InstructionError>,
    otherwise: Option<InstructionError>,
) -> Option<InstructionError> {
    if refusal is Some {
        refusal
    } else {
        otherwise
    }
}

/// Checks a new account against the canonical address of its seeds, and returns
/// its bump.
fn check_creation(name: AccountName, key: Pubkey, found: Option<ProgramAddress>) -> (res: Result<
    u8,
    InstructionError,
>)
    ensures
        match res {
            Ok(bump) => {
                &&& creation_refusal(name, key, address::opt_address_view(found)) is None
                &&& found == Some(ProgramAddress { key, bump })
            },
            Err(error) => creation_refusal(name, key, address::opt_address_view(found)) == Some(
                error,
            ),
        },
{
    match found {
        None => Err(InstructionError::NoProgramAddress(name)),
        Some(canonical) => {
            proof {
                pubkey::lemma_pubkey_view_injective(canonical.key, key);
            }
            if canonical.key == key {
                Ok(canonical.bump)
            } else {
                Err(InstructionError::ConstraintSeeds(name))
            }
        },
    }
}

/// Checks an existing account against its derived address.
fn check_seeds(name: AccountName, key: Pubkey, derived: Option<Pubkey>) -> (res: Result<
    (),
    InstructionError,
>)
    ensures
        match res {
            Ok(_) => seeds_refusal(name, key, address::opt_key_view(derived)) is None,
            Err(error) => seeds_refusal(name, key, address::opt_key_view(derived)) == Some(error),
        },
{
    match derived {
        None => Err(InstructionError::ConstraintSeeds(name)),
        Some(address) => {
            proof {
                pubkey::lemma_pubkey_view_injective(address, key);
            }
            if address == key {
                Ok(())
            } else {
                Err(InstructionError::ConstraintSeeds(name))
            }
        },
    }
}

/// Checks the signer against the authority that an account records.
fn check_authority(name: AccountName, recorded: Pubkey, signer: Pubkey) -> (res: Result<
    (),
    InstructionError,
>)
    ensures
        match res {
            Ok(_) => authority_refusal(name, recorded, signer) is None,
            Err(error) => authority_refusal(name, recorded, signer) == Some(error),
        },
{
    if recorded == signer {
        Ok(())
    } else {
        Err(InstructionError::Account(name, SettlError::Unauthorized))
    }
}

/// Checks the owner of a token account against the wallet that it is to belong to.
fn check_owner(name: AccountName, owner: Pubkey, wallet: Pubkey) -> (res: Result<
    (),
    InstructionError,
>)
    ensures
        match res {
            Ok(_) => owner_refusal(name, owner, wallet) is None,
            Err(error) => owner_refusal(name, owner, wallet) == Some(error),
        },
{
    if owner == wallet {
        Ok(())
    } else {
        Err(InstructionError::ConstraintTokenOwner(name))
    }
}

impl InitializeConfigView {
    /// The first constraint not met, given the canonical address of the
    /// configuration.
    pub open spec fn refusal(self, config: Option<(Seq<u8>, u8)>) -> Option<InstructionError> {
        creation_refusal(AccountName::Config, self.config.key, config)
    }
}

impl InitializeConfig {
    /// Checks the accounts, given the canonical address of the configuration.
    pub fn check(&self, config: Option<ProgramAddress>) -> (res: Result<
        InitializeConfigBumps,
        InstructionError,
    >)
        ensures
            match res {
                Ok(bumps) => {
                    &&& self@.refusal(address::opt_address_view(config)) is None
                    &&& config matches Some(found) && bumps.config == found.bump
                },
                Err(error) => self@.refusal(address::opt_address_view(config)) == Some(error),
            },
    {
        match check_creation(AccountName::Config, self.config.key, config) {
            Ok(bump) => Ok(InitializeConfigBumps { config: bump }),
            Err(error) => Err(error),
        }
    }
}

impl ManageConfigView {
    /// The first constraint not met, given the derived address of the
    /// configuration.
    pub open spec fn refusal(self, config: Option<Seq<u8>>) -> Option<InstructionError> {
        first(
            seeds_refusal(AccountName::Config, self.config.key, config),
            authority_refusal(AccountName::Config, self.config.data.authority, self.authority),
        )
    }
}

impl ManageConfig {
    /// Checks the accounts, given the derived address of the configuration.
    pub fn check(&self, config: Option<Pubkey>) -> (res: Result<(), InstructionError>)
        ensures
            match res {
                Ok(_) => self@.refusal(address::opt_key_view(config)) is None,
                Err(error) => self@.refusal(address::opt_key_view(config)) == Some(error),
            },
    {
        match check_seeds(AccountName::Config, self.config.key, config) {
            Ok(_) => check_authority(
                AccountName::Config,
                self.config.data.authority,
                self.authority,
            ),
            Err(error) => Err(error),
        }
    }
}

impl RegisterMerchantView {
    /// The first constraint not met, given the canonical address of the merchant
    /// and the derived address of the configuration. Only the configuration's
    /// authority registers merchants.
    pub open spec fn refusal(
        self,
        merchant: Option<(Seq<u8>, u8)>,
        config: Option<Seq<u8>>,
    ) -> Option<InstructionError> {
        first(
            creation_refusal(AccountName::Merchant, self.merchant.key, merchant),
            first(
                seeds_refusal(AccountName::Config, self.config.key, config),
                authority_refusal(
                    AccountName::Config,
                    self.config.data.authority,
                    self.authority,
                ),
            ),
        )
    }
}

impl RegisterMerchant {
    /// Checks the accounts, given the canonical address of the merchant and the
    /// derived address of the configuration.
    pub fn check(&self, merchant: Option<ProgramAddress>, config: Option<Pubkey>) -> (res: Result<
        RegisterMerchantBumps,
        InstructionError,
    >)
        ensures
            match res {
                Ok(bumps) => {
                    &&& self@.refusal(
                        address::opt_address_view(merchant),
                        address::opt_key_view(config),
                    ) is None
                    &&& merchant matches Some(found) && bumps.merchant == found.bump
                },
                Err(error) => self@.refusal(
                    address::opt_address_view(merchant),
                    address::opt_key_view(config),
                ) == Some(error),
            },
    {
        let bump: u8 = match check_creation(AccountName::Merchant, self.merchant.key, merchant) {
            Ok(bump) => bump,
            Err(error) => return Err(error),
        };
        match check_seeds(AccountName::Config, self.config.key, config) {
            Ok(_) => {},
            Err(error) => return Err(error),
        }
        match check_authority(AccountName::Config, self.config.data.authority, self.authority) {
            Ok(_) => Ok(RegisterMerchantBumps { merchant: bump }),
            Err(error) => Err(error),
        }
    }
}

impl ManageMerchantView {
    /// The first constraint not met.
    pub open spec fn refusal(self) -> Option<InstructionError> {
        authority_refusal(AccountName::Merchant, self.merchant.data.authority, self.authority)
    }
}

impl ManageMerchant {
    /// Checks the accounts.
    pub fn check(&self) -> (res: Result<(), InstructionError>)
        ensures
            match res {
                Ok(_) => self@.refusal() is None,
                Err(error) => self@.refusal() == Some(error),
            },
    {
        check_authority(AccountName::Merchant, self.merchant.data.authority, self.authority)
    }
}

impl InitializeEscrowView {
    /// The first constraint not met, given the canonical addresses of the escrow
    /// and the vault, and the derived address of the merchant. New accounts come
    /// before existing ones. Only the merchant's authority creates its escrow.
    pub open spec fn refusal(
        self,
        escrow: Option<(Seq<u8>, u8)>,
        vault: Option<(Seq<u8>, u8)>,
        merchant: Option<Seq<u8>>,
    ) -> Option<InstructionError> {
        first(
            creation_refusal(AccountName::Escrow, self.escrow.key, escrow),
            first(
                creation_refusal(AccountName::Vault, self.vault.key, vault),
                first(
                    seeds_refusal(AccountName::Merchant, self.merchant.key, merchant),
                    authority_refusal(
                        AccountName::Merchant,
                        self.merchant.data.authority,
                        self.authority,
                    ),
                ),
            ),
        )
    }
}

impl InitializeEscrow {
    /// Checks the accounts, given the canonical addresses of the escrow and the
    /// vault, and the derived address of the merchant.
    pub fn check(
        &self,
        escrow: Option<ProgramAddress>,
        vault: Option<ProgramAddress>,
        merchant: Option<Pubkey>,
    ) -> (res: Result<InitializeEscrowBumps, InstructionError>)
        ensures
            match res {
                Ok(bumps) => {
                    &&& self@.refusal(
                        address::opt_address_view(escrow),
                        address::opt_address_view(vault),
                        address::opt_key_view(merchant),
                    ) is None
                    &&& escrow matches Some(found) && bumps.escrow == found.bump
                    &&& vault matches Some(found) && bumps.vault == found.bump
                },
                Err(error) => self@.refusal(
                    address::opt_address_view(escrow),
                    address::opt_address_view(vault),
                    address::opt_key_view(merchant),
                ) == Some(error),
            },
    {
        let escrow_bump: u8 = match check_creation(AccountName::Escrow, self.escrow.key, escrow) {
            Ok(bump) => bump,
            Err(error) => return Err(error),
        };
        let vault_bump: u8 = match check_creation(AccountName::Vault, self.vault.key, vault) {
            Ok(bump) => bump,
            Err(error) => return Err(error),
        };
        match check_seeds(AccountName::Merchant, self.merchant.key, merchant) {
            Ok(_) => {},
            Err(error) => return Err(error),
        }
        match check_authority(
            AccountName::Merchant,
            self.merchant.data.authority,
            self.authority,
        ) {
            Ok(_) => Ok(InitializeEscrowBumps { escrow: escrow_bump, vault: vault_bump }),
            Err(error) => Err(error),
        }
    }
}

impl DepositView {
    /// The first constraint not met, given the derived addresses of the merchant,
    /// the escrow and the vault.
    pub open spec fn refusal(
        self,
        merchant: Option<Seq<u8>>,
        escrow: Option<Seq<u8>>,
        vault: Option<Seq<u8>>,
    ) -> Option<InstructionError> {
        first(
            seeds_refusal(AccountName::Merchant, self.merchant.key, merchant),
            first(
                seeds_refusal(AccountName::Escrow, self.escrow.key, escrow),
                seeds_refusal(AccountName::Vault, self.vault.key, vault),
            ),
        )
    }
}

impl Deposit {
    /// Checks the accounts, given the derived addresses of the merchant, the
    /// escrow and the vault.
    pub fn check(&self, merchant: Option<Pubkey>, escrow: Option<Pubkey>, vault: Option<Pubkey>)
        -> (res: Result<(), InstructionError>)
        ensures
            match res {
                Ok(_) => self@.refusal(
                    address::opt_key_view(merchant),
                    address::opt_key_view(escrow),
                    address::opt_key_view(vault),
                ) is None,
                Err(error) => self@.refusal(
                    address::opt_key_view(merchant),
                    address::opt_key_view(escrow),
                    address::opt_key_view(vault),
                ) == Some(error),
            },
    {
        match check_seeds(AccountName::Merchant, self.merchant.key, merchant) {
            Ok(_) => {},
            Err(error) => return Err(error),
        }
        match check_seeds(AccountName::Escrow, self.escrow.key, escrow) {
            Ok(_) => {},
            Err(error) => return Err(error),
        }
        check_seeds(AccountName::Vault, self.vault.key, vault)
    }
}

impl ReleaseView {
    /// The first constraint not met, given the derived addresses of the
    /// configuration, the merchant, the escrow and the vault. The two token
    /// accounts to be paid belong to the escrow's merchant wallet and to the
    /// treasury wallet.
    pub open spec fn refusal(
        self,
        config: Option<Seq<u8>>,
        merchant: Option<Seq<u8>>,
        escrow: Option<Seq<u8>>,
        vault: Option<Seq<u8>>,
    ) -> Option<InstructionError> {
        first(
            seeds_refusal(AccountName::Config, self.config.key, config),
            first(
                seeds_refusal(AccountName::Merchant, self.merchant.key, merchant),
                first(
                    seeds_refusal(AccountName::Escrow, self.escrow.key, escrow),
                    first(
                        authority_refusal(
                            AccountName::Escrow,
                            self.escrow.data.authority,
                            self.authority,
                        ),
                        first(
                            seeds_refusal(AccountName::Vault, self.vault.key, vault),
                            first(
                                owner_refusal(
                                    AccountName::MerchantAta,
                                    self.merchant_ata.owner,
                                    self.escrow.data.merchant_wallet,
                                ),
                                owner_refusal(
                                    AccountName::TreasuryAta,
                                    self.treasury_ata.owner,
                                    self.config.data.treasury_wallet,
                                ),
                            ),
                        ),
                    ),
                ),
            ),
        )
    }
}

impl Release {
    /// Checks the accounts, given the derived addresses of the configuration, the
    /// merchant, the escrow and the vault.
    pub fn check(
        &self,
        config: Option<Pubkey>,
        merchant: Option<Pubkey>,
        escrow: Option<Pubkey>,
        vault: Option<Pubkey>,
    ) -> (res: Result<(), InstructionError>)
        ensures
            match res {
                Ok(_) => self@.refusal(
                    address::opt_key_view(config),
                    address::opt_key_view(merchant),
                    address::opt_key_view(escrow),
                    address::opt_key_view(vault),
                ) is None,
                Err(error) => self@.refusal(
                    address::opt_key_view(config),
                    address::opt_key_view(merchant),
                    address::opt_key_view(escrow),
                    address::opt_key_view(vault),
                ) == Some(error),
            },
    {
        match check_seeds(AccountName::Config, self.config.key, config) {
            Ok(_) => {},
            Err(error) => return Err(error),
        }
        match check_seeds(AccountName::Merchant, self.merchant.key, merchant) {
            Ok(_) => {},
            Err(error) => return Err(error),
        }
        match check_seeds(AccountName::Escrow, self.escrow.key, escrow) {
            Ok(_) => {},
            Err(error) => return Err(error),
        }
        match check_authority(AccountName::Escrow, self.escrow.data.authority, self.authority) {
            Ok(_) => {},
            Err(error) => return Err(error),
        }
        match check_seeds(AccountName::Vault, self.vault.key, vault) {
            Ok(_) => {},
            Err(error) => return Err(error),
        }
        match check_owner(
            AccountName::MerchantAta,
            self.merchant_ata.owner,
            self.escrow.data.merchant_wallet,
        ) {
            Ok(_) => {},
            Err(error) => return Err(error),
        }
        check_owner(
            AccountName::TreasuryAta,
            self.treasury_ata.owner,
            self.config.data.treasury_wallet,
        )
    }
}

impl UpdateEscrowWalletView {
    /// The first constraint not met.
    pub open spec fn refusal(self) -> Option<InstructionError> {
        first(
            authority_refusal(AccountName::Merchant, self.merchant.data.authority, self.authority),
            authority_refusal(AccountName::Escrow, self.escrow.data.authority, self.authority),
        )
    }
}

impl UpdateEscrowWallet {
    /// Checks the accounts.
    pub fn check(&self) -> (res: Result<(), InstructionError>)
        ensures
            match res {
                Ok(_) => self@.refusal() is None,
                Err(error) => self@.refusal() == Some(error),
            },
    {
        match check_authority(
            AccountName::Merchant,
            self.merchant.data.authority,
            self.authority,
        ) {
            Ok(_) => check_authority(
                AccountName::Escrow,
                self.escrow.data.authority,
                self.authority,
            ),
            Err(error) => Err(error),
        }
    }
}

} // verus!
