//! The instructions as a whole: the constraints on the accounts, then the
//! handler. A refused instruction leaves every account as it was.
use vstd::prelude::*;
#[allow(unused_imports)]
use vstd::utf8::*;

#[allow(unused_imports)]
use crate::accounts::{
    Deposit, DepositView, InitializeConfig, InitializeConfigBumps, InitializeConfigView,
    InitializeEscrow, InitializeEscrowBumps, InitializeEscrowView, ManageConfig, ManageConfigView,
    ManageMerchant, ManageMerchantView, RegisterMerchant, RegisterMerchantBumps,
    RegisterMerchantView, Release, ReleaseView, UpdateEscrowWallet, UpdateEscrowWalletView,
};
use crate::address;
use crate::config;
#[allow(unused_imports)]
use crate::error::{AccountName, InstructionError, SettlError};
use crate::escrow;
use crate::escrow::ReleasePlan;
use crate::events::{
    ConfigInitialized, EscrowInitialized, FeeUpdated, MerchantDeactivated, MerchantRegistered,
    TreasuryUpdated, WalletUpdateRequested, WalletUpdated,
};
use crate::merchant;
use crate::pubkey::Pubkey;
#[allow(unused_imports)]
use crate::state::{MAX_FEE_BASIS_POINTS, MAX_MERCHANT_ID_LEN, WALLET_UPDATE_DELAY};
use crate::transfer::TokenTransfer;

verus! {

/// Why the accounts of a configuration's creation are refused, if they are.
pub open spec fn initialize_config_refusal(
    ctx: InitializeConfigView,
    program_id: Pubkey,
) -> Option<InstructionError> {
    ctx.refusal(address::canonical_address(address::config_seeds(), program_id@))
}

/// The bumps of a configuration's creation.
pub open spec fn initialize_config_bumps(program_id: Pubkey) -> InitializeConfigBumps {
    InitializeConfigBumps {
        config: address::canonical_bump(address::config_seeds(), program_id@),
    }
}

/// Creates the configuration. From then on it stands where its seeds and its bump
/// say.
pub fn process_initialize_config(
    program_id: &Pubkey,
    ctx: &mut InitializeConfig,
    fee_basis_points: u16,
) -> (res: Result<ConfigInitialized, InstructionError>)
    ensures
        match res {
            Ok(event) => {
                &&& initialize_config_refusal(old(ctx)@, *program_id) is None
                &&& fee_basis_points <= MAX_FEE_BASIS_POINTS
                &&& final(ctx)@ == (InitializeConfigView {
                    config: old(ctx)@.config.with(
                        config::new_config(
                            old(ctx)@,
                            initialize_config_bumps(*program_id),
                            fee_basis_points as nat,
                        ),
                    ),
                    ..old(ctx)@
                })
                &&& address::is_at(
                    final(ctx)@.config.key,
                    address::config_seeds(),
                    final(ctx)@.config.data.bump,
                    *program_id,
                )
                &&& final(ctx)@.config.data.wf()
                &&& event == (ConfigInitialized {
                    authority: old(ctx).authority,
                    treasury_wallet: old(ctx).treasury_wallet,
                    fee_basis_points,
                })
            },
            Err(error) => {
                &&& *final(ctx) == *old(ctx)
                &&& initialize_config_refusal(old(ctx)@, *program_id) is Some
                    ==> initialize_config_refusal(old(ctx)@, *program_id) == Some(error)
                &&& initialize_config_refusal(old(ctx)@, *program_id) is None ==> {
                    &&& fee_basis_points > MAX_FEE_BASIS_POINTS
                    &&& error == InstructionError::Handler(SettlError::FeeTooHigh)
                }
            },
        },
{
    let found = address::find_config_address(program_id);
    let bumps = match ctx.check(found) {
        Ok(bumps) => bumps,
        Err(error) => return Err(error),
    };
    match config::initialize_config(ctx, bumps, fee_basis_points) {
        Ok(event) => Ok(event),
        Err(error) => Err(InstructionError::Handler(error)),
    }
}

/// Why the accounts of a configuration change are refused, if they are.
pub open spec fn manage_config_refusal(ctx: ManageConfigView, program_id: Pubkey) -> Option<
    InstructionError,
> {
    ctx.refusal(
        address::bumped_address(address::config_seeds(), ctx.config.data.bump, program_id@),
    )
}

/// Sets the fee rate, for the configuration's authority.
pub fn process_update_fee(
    program_id: &Pubkey,
    ctx: &mut ManageConfig,
    new_fee_basis_points: u16,
) -> (res: Result<FeeUpdated, InstructionError>)
    ensures
        match res {
            Ok(event) => {
                &&& manage_config_refusal(old(ctx)@, *program_id) is None
                &&& new_fee_basis_points <= MAX_FEE_BASIS_POINTS
                &&& final(ctx)@ == (ManageConfigView {
                    config: old(ctx)@.config.with(
                        config::with_fee(old(ctx)@.config.data, new_fee_basis_points as nat),
                    ),
                    ..old(ctx)@
                })
                &&& event == (FeeUpdated {
                    old_fee: old(ctx).config.data.fee_basis_points,
                    new_fee: new_fee_basis_points,
                })
            },
            Err(error) => {
                &&& *final(ctx) == *old(ctx)
                &&& manage_config_refusal(old(ctx)@, *program_id) is Some
                    ==> manage_config_refusal(old(ctx)@, *program_id) == Some(error)
                &&& manage_config_refusal(old(ctx)@, *program_id) is None ==> {
                    &&& new_fee_basis_points > MAX_FEE_BASIS_POINTS
                    &&& error == InstructionError::Handler(SettlError::FeeTooHigh)
                }
            },
        },
{
    let derived = address::config_address(ctx.config.data.bump, program_id);
    match ctx.check(derived) {
        Ok(_) => {},
        Err(error) => return Err(error),
    }
    match config::update_fee(ctx, new_fee_basis_points) {
        Ok(event) => Ok(event),
        Err(error) => Err(InstructionError::Handler(error)),
    }
}

/// Sets the treasury wallet, for the configuration's authority.
pub fn process_update_treasury(program_id: &Pubkey, ctx: &mut ManageConfig) -> (res: Result<
    TreasuryUpdated,
    InstructionError,
>)
    ensures
        match res {
            Ok(event) => {
                &&& manage_config_refusal(old(ctx)@, *program_id) is None
                &&& final(ctx)@ == (ManageConfigView {
                    config: old(ctx)@.config.with(
                        config::with_treasury(old(ctx)@.config.data, old(ctx)@.new_treasury),
                    ),
                    ..old(ctx)@
                })
                &&& event == (TreasuryUpdated { new_treasury: old(ctx).new_treasury })
            },
            Err(error) => {
                &&& *final(ctx) == *old(ctx)
                &&& manage_config_refusal(old(ctx)@, *program_id) == Some(error)
            },
        },
{
    let derived = address::config_address(ctx.config.data.bump, program_id);
    match ctx.check(derived) {
        Ok(_) => {},
        Err(error) => return Err(error),
    }
    match config::update_treasury(ctx) {
        Ok(event) => Ok(event),
        Err(error) => Err(InstructionError::Handler(error)),
    }
}

/// Why the accounts of a registration are refused, if they are.
pub open spec fn register_merchant_refusal(
    ctx: RegisterMerchantView,
    merchant_id: Seq<char>,
    program_id: Pubkey,
) -> Option<InstructionError> {
    ctx.refusal(
        address::canonical_address(address::merchant_seeds(merchant_id), program_id@),
        address::bumped_address(address::config_seeds(), ctx.config.data.bump, program_id@),
    )
}

/// The bumps of a registration.
pub open spec fn register_merchant_bumps(
    merchant_id: Seq<char>,
    program_id: Pubkey,
) -> RegisterMerchantBumps {
    RegisterMerchantBumps {
        merchant: address::canonical_bump(
            address::merchant_seeds(merchant_id),
            program_id@,
        ),
    }
}

/// Enters a merchant into the registry, for the configuration's authority. From
/// then on the account stands where the merchant's seeds and its bump say. An
/// identifier of more than 32 bytes has no address, so it is never entered.
pub fn process_register_merchant(
    program_id: &Pubkey,
    ctx: &mut RegisterMerchant,
    merchant_id: String,
    wallet_address: Pubkey,
    now: i64,
) -> (res: Result<MerchantRegistered, InstructionError>)
    ensures
        match res {
            Ok(event) => {
                &&& register_merchant_refusal(old(ctx)@, merchant_id@, *program_id) is None
                &&& encode_utf8(merchant_id@).len() <= MAX_MERCHANT_ID_LEN
                &&& final(ctx)@ == (RegisterMerchantView {
                    merchant: old(ctx)@.merchant.with(
                        merchant::new_merchant(
                            old(ctx)@,
                            register_merchant_bumps(merchant_id@, *program_id),
                            merchant_id@,
                            wallet_address,
                            now as int,
                        ),
                    ),
                    ..old(ctx)@
                })
                &&& address::is_at(
                    final(ctx)@.merchant.key,
                    address::merchant_seeds(merchant_id@),
                    final(ctx)@.merchant.data.bump,
                    *program_id,
                )
                &&& final(ctx)@.merchant.data.wf()
                &&& event == (MerchantRegistered {
                    merchant_id,
                    wallet_address,
                    registered_at: now,
                })
            },
            Err(error) => {
                &&& *final(ctx) == *old(ctx)
                &&& register_merchant_refusal(old(ctx)@, merchant_id@, *program_id) is Some
                    ==> register_merchant_refusal(old(ctx)@, merchant_id@, *program_id) == Some(
                    error,
                )
                &&& register_merchant_refusal(old(ctx)@, merchant_id@, *program_id) is None ==> {
                    &&& encode_utf8(merchant_id@).len() > MAX_MERCHANT_ID_LEN
                    &&& error == InstructionError::Handler(SettlError::MerchantIdTooLong)
                }
            },
        },
        encode_utf8(merchant_id@).len() > address::MAX_SEED_LEN ==> res == Err::<
            MerchantRegistered,
            InstructionError,
        >(InstructionError::NoProgramAddress(AccountName::Merchant)),
{
    let found = address::find_merchant_address(&merchant_id, program_id);
    let derived = address::config_address(ctx.config.data.bump, program_id);
    let bumps = match ctx.check(found, derived) {
        Ok(bumps) => bumps,
        Err(error) => return Err(error),
    };
    match merchant::register_merchant(ctx, bumps, merchant_id, wallet_address, now) {
        Ok(event) => Ok(event),
        Err(error) => Err(InstructionError::Handler(error)),
    }
}

/// Requests a wallet change, for the merchant's authority.
pub fn process_request_wallet_update(
    ctx: &mut ManageMerchant,
    new_wallet: Pubkey,
    now: i64,
) -> (res: Result<WalletUpdateRequested, InstructionError>)
    requires
        now + WALLET_UPDATE_DELAY <= i64::MAX,
    ensures
        match res {
            Ok(event) => {
                &&& old(ctx)@.refusal() is None
                &&& final(ctx)@ == (ManageMerchantView {
                    merchant: old(ctx)@.merchant.with(
                        merchant::with_request(old(ctx)@.merchant.data, new_wallet, now as int),
                    ),
                    ..old(ctx)@
                })
                &&& event == (WalletUpdateRequested {
                    merchant_id: old(ctx).merchant.data.merchant_id,
                    new_wallet,
                    unlocks_at: (now + WALLET_UPDATE_DELAY) as i64,
                })
            },
            Err(error) => {
                &&& *final(ctx) == *old(ctx)
                &&& old(ctx)@.refusal() == Some(error)
            },
        },
{
    match ctx.check() {
        Ok(_) => {},
        Err(error) => return Err(error),
    }
    match merchant::request_wallet_update(ctx, new_wallet, now) {
        Ok(event) => Ok(event),
        Err(error) => Err(InstructionError::Handler(error)),
    }
}

/// Confirms a wallet change, for the merchant's authority.
pub fn process_confirm_wallet_update(ctx: &mut ManageMerchant, now: i64) -> (res: Result<
    WalletUpdated,
    InstructionError,
>)
    ensures
        match res {
            Ok(event) => {
                &&& old(ctx)@.refusal() is None
                &&& merchant::confirm_error(old(ctx)@.merchant.data, now as int) is None
                &&& final(ctx)@ == (ManageMerchantView {
                    merchant: old(ctx)@.merchant.with(
                        merchant::with_confirmation(old(ctx)@.merchant.data),
                    ),
                    ..old(ctx)@
                })
                &&& event == (WalletUpdated {
                    merchant_id: old(ctx).merchant.data.merchant_id,
                    old_wallet: old(ctx).merchant.data.wallet,
                    new_wallet: old(ctx).merchant.data.pending_wallet->0,
                })
            },
            Err(error) => {
                &&& *final(ctx) == *old(ctx)
                &&& old(ctx)@.refusal() is Some ==> old(ctx)@.refusal() == Some(error)
                &&& old(ctx)@.refusal() is None ==> (merchant::confirm_error(
                    old(ctx)@.merchant.data,
                    now as int,
                ) matches Some(reason) && error == InstructionError::Handler(reason))
            },
        },
{
    match ctx.check() {
        Ok(_) => {},
        Err(error) => return Err(error),
    }
    match merchant::confirm_wallet_update(ctx, now) {
        Ok(event) => Ok(event),
        Err(error) => Err(InstructionError::Handler(error)),
    }
}

/// Closes a merchant, for the merchant's authority.
pub fn process_deactivate_merchant(ctx: &mut ManageMerchant) -> (res: Result<
    MerchantDeactivated,
    InstructionError,
>)
    ensures
        match res {
            Ok(event) => {
                &&& old(ctx)@.refusal() is None
                &&& final(ctx)@ == (ManageMerchantView {
                    merchant: old(ctx)@.merchant.with(
                        merchant::deactivated(old(ctx)@.merchant.data),
                    ),
                    ..old(ctx)@
                })
                &&& event == (MerchantDeactivated {
                    merchant_id: old(ctx).merchant.data.merchant_id,
                })
            },
            Err(error) => {
                &&& *final(ctx) == *old(ctx)
                &&& old(ctx)@.refusal() == Some(error)
            },
        },
{
    match ctx.check() {
        Ok(_) => {},
        Err(error) => return Err(error),
    }
    match merchant::deactivate_merchant(ctx) {
        Ok(event) => Ok(event),
        Err(error) => Err(InstructionError::Handler(error)),
    }
}

/// Why the accounts of an escrow's creation are refused, if they are.
pub open spec fn initialize_escrow_refusal(
    ctx: InitializeEscrowView,
    merchant_id: Seq<char>,
    program_id: Pubkey,
) -> Option<InstructionError> {
    ctx.refusal(
        address::canonical_address(address::escrow_seeds(merchant_id), program_id@),
        address::canonical_address(address::vault_seeds(merchant_id), program_id@),
        address::bumped_address(
            address::merchant_seeds(merchant_id),
            ctx.merchant.data.bump,
            program_id@,
        ),
    )
}

/// The bumps of an escrow's creation.
pub open spec fn initialize_escrow_bumps(
    merchant_id: Seq<char>,
    program_id: Pubkey,
) -> InitializeEscrowBumps {
    InitializeEscrowBumps {
        escrow: address::canonical_bump(address::escrow_seeds(merchant_id), program_id@),
        vault: address::canonical_bump(address::vault_seeds(merchant_id), program_id@),
    }
}

/// Creates a merchant's escrow, for the merchant's authority. From then on escrow
/// and vault stand where the merchant's seeds and the escrow's bumps say.
pub fn process_initialize_merchant_escrow(
    program_id: &Pubkey,
    ctx: &mut InitializeEscrow,
    merchant_id: String,
) -> (res: Result<EscrowInitialized, InstructionError>)
    ensures
        match res {
            Ok(event) => {
                &&& initialize_escrow_refusal(old(ctx)@, merchant_id@, *program_id) is None
                &&& encode_utf8(merchant_id@).len() <= MAX_MERCHANT_ID_LEN
                &&& final(ctx)@ == (InitializeEscrowView {
                    escrow: old(ctx)@.escrow.with(
                        escrow::new_escrow(
                            old(ctx)@,
                            initialize_escrow_bumps(merchant_id@, *program_id),
                            merchant_id@,
                        ),
                    ),
                    ..old(ctx)@
                })
                &&& address::is_at(
                    final(ctx)@.escrow.key,
                    address::escrow_seeds(merchant_id@),
                    final(ctx)@.escrow.data.bump,
                    *program_id,
                )
                &&& address::is_at(
                    final(ctx)@.vault.key,
                    address::vault_seeds(merchant_id@),
                    final(ctx)@.escrow.data.vault_bump,
                    *program_id,
                )
                &&& final(ctx)@.escrow.data.wf()
                &&& event == (EscrowInitialized {
                    merchant_id,
                    merchant_wallet: old(ctx).merchant.data.wallet,
                })
            },
            Err(error) => {
                &&& *final(ctx) == *old(ctx)
                &&& initialize_escrow_refusal(old(ctx)@, merchant_id@, *program_id) is Some
                    ==> initialize_escrow_refusal(old(ctx)@, merchant_id@, *program_id) == Some(
                    error,
                )
                &&& initialize_escrow_refusal(old(ctx)@, merchant_id@, *program_id) is None ==> {
                    &&& encode_utf8(merchant_id@).len() > MAX_MERCHANT_ID_LEN
                    &&& error == InstructionError::Handler(SettlError::MerchantIdTooLong)
                }
            },
        },
        encode_utf8(merchant_id@).len() > address::MAX_SEED_LEN ==> res == Err::<
            EscrowInitialized,
            InstructionError,
        >(InstructionError::NoProgramAddress(AccountName::Escrow)),
{
    let found_escrow = address::find_escrow_address(&merchant_id, program_id);
    let found_vault = address::find_vault_address(&merchant_id, program_id);
    let derived = address::merchant_address(&merchant_id, ctx.merchant.data.bump, program_id);
    let bumps = match ctx.check(found_escrow, found_vault, derived) {
        Ok(bumps) => bumps,
        Err(error) => return Err(error),
    };
    match escrow::initialize_merchant_escrow(ctx, bumps, merchant_id) {
        Ok(event) => Ok(event),
        Err(error) => Err(InstructionError::Handler(error)),
    }
}

/// Why the accounts of a deposit are refused, if they are.
pub open spec fn deposit_refusal(
    ctx: DepositView,
    merchant_id: Seq<char>,
    program_id: Pubkey,
) -> Option<InstructionError> {
    ctx.refusal(
        address::bumped_address(
            address::merchant_seeds(merchant_id),
            ctx.merchant.data.bump,
            program_id@,
        ),
        address::bumped_address(
            address::escrow_seeds(merchant_id),
            ctx.escrow.data.bump,
            program_id@,
        ),
        address::bumped_address(
            address::vault_seeds(merchant_id),
            ctx.escrow.data.vault_bump,
            program_id@,
        ),
    )
}

/// Checks a deposit, and says which transfer to order. Once it was made,
/// [`escrow::record_deposit`] books it.
pub fn process_deposit(
    program_id: &Pubkey,
    ctx: &Deposit,
    merchant_id: String,
    amount: u64,
) -> (res: Result<TokenTransfer, InstructionError>)
    ensures
        match res {
            Ok(transfer) => {
                &&& deposit_refusal(ctx@, merchant_id@, *program_id) is None
                &&& escrow::deposit_error(ctx@, merchant_id@, amount as nat) is None
                &&& transfer@ == escrow::deposit_transfer(ctx@, amount as nat)
            },
            Err(error) => {
                &&& deposit_refusal(ctx@, merchant_id@, *program_id) is Some
                    ==> deposit_refusal(ctx@, merchant_id@, *program_id) == Some(error)
                &&& deposit_refusal(ctx@, merchant_id@, *program_id) is None ==> (
                escrow::deposit_error(ctx@, merchant_id@, amount as nat) matches Some(reason)
                    && error == InstructionError::Handler(reason))
            },
        },
{
    let merchant = address::merchant_address(&merchant_id, ctx.merchant.data.bump, program_id);
    let escrow = address::escrow_address(&merchant_id, ctx.escrow.data.bump, program_id);
    let vault = address::vault_address(&merchant_id, ctx.escrow.data.vault_bump, program_id);
    match ctx.check(merchant, escrow, vault) {
        Ok(_) => {},
        Err(error) => return Err(error),
    }
    match escrow::deposit(ctx, merchant_id, amount) {
        Ok(transfer) => Ok(transfer),
        Err(error) => Err(InstructionError::Handler(error)),
    }
}

/// Why the accounts of a release are refused, if they are.
pub open spec fn release_refusal(
    ctx: ReleaseView,
    merchant_id: Seq<char>,
    program_id: Pubkey,
) -> Option<InstructionError> {
    ctx.refusal(
        address::bumped_address(address::config_seeds(), ctx.config.data.bump, program_id@),
        address::bumped_address(
            address::merchant_seeds(merchant_id),
            ctx.merchant.data.bump,
            program_id@,
        ),
        address::bumped_address(
            address::escrow_seeds(merchant_id),
            ctx.escrow.data.bump,
            program_id@,
        ),
        address::bumped_address(
            address::vault_seeds(merchant_id),
            ctx.escrow.data.vault_bump,
            program_id@,
        ),
    )
}

/// Checks a release, for the escrow's authority and to token accounts of the
/// merchant's and the treasury wallet, and says which transfers to order. Once they
/// were made, [`escrow::settle_release`] books it.
pub fn process_release(program_id: &Pubkey, ctx: &Release, merchant_id: String) -> (res: Result<
    ReleasePlan,
    InstructionError,
>)
    ensures
        match res {
            Ok(plan) => {
                &&& release_refusal(ctx@, merchant_id@, *program_id) is None
                &&& escrow::release_error(ctx@, merchant_id@) is None
                &&& plan@ == escrow::release_plan(ctx@, merchant_id@)
            },
            Err(error) => {
                &&& release_refusal(ctx@, merchant_id@, *program_id) is Some
                    ==> release_refusal(ctx@, merchant_id@, *program_id) == Some(error)
                &&& release_refusal(ctx@, merchant_id@, *program_id) is None ==> (
                escrow::release_error(ctx@, merchant_id@) matches Some(reason) && error
                    == InstructionError::Handler(reason))
            },
        },
{
    let config = address::config_address(ctx.config.data.bump, program_id);
    let merchant = address::merchant_address(&merchant_id, ctx.merchant.data.bump, program_id);
    let escrow = address::escrow_address(&merchant_id, ctx.escrow.data.bump, program_id);
    let vault = address::vault_address(&merchant_id, ctx.escrow.data.vault_bump, program_id);
    match ctx.check(config, merchant, escrow, vault) {
        Ok(_) => {},
        Err(error) => return Err(error),
    }
    match escrow::release(ctx, merchant_id) {
        Ok(plan) => Ok(plan),
        Err(error) => Err(InstructionError::Handler(error)),
    }
}

/// Brings an escrow's wallet up to date, for the authority of both accounts.
pub fn process_update_escrow_wallet(ctx: &mut UpdateEscrowWallet) -> (res: Result<
    (),
    InstructionError,
>)
    ensures
        match res {
            Ok(_) => {
                &&& old(ctx)@.refusal() is None
                &&& final(ctx)@ == (UpdateEscrowWalletView {
                    escrow: old(ctx)@.escrow.with(
                        escrow::synced(old(ctx)@.escrow.data, old(ctx)@.merchant.data),
                    ),
                    ..old(ctx)@
                })
            },
            Err(error) => {
                &&& *final(ctx) == *old(ctx)
                &&& old(ctx)@.refusal() == Some(error)
            },
        },
{
    match ctx.check() {
        Ok(_) => {},
        Err(error) => return Err(error),
    }
    match escrow::update_escrow_wallet(ctx) {
        Ok(done) => Ok(done),
        Err(error) => Err(InstructionError::Handler(error)),
    }
}

} // verus!
