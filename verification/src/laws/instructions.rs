//! What a whole instruction does, in terms of what it was given.
//!
//! The laws speak of calls of the functions of [`crate::processor`], of the checks on
//! accounts and of the address functions, and at the end of several calls, one after
//! the other.
use vstd::prelude::*;
#[allow(unused_imports)]
use vstd::utf8::*;

#[allow(unused_imports)]
use crate::accounts::{
    Deposit, InitializeConfig, InitializeConfigBumps, InitializeEscrow, InitializeEscrowBumps,
    ManageConfig, ManageMerchant, RegisterMerchant, RegisterMerchantBumps, Release,
    UpdateEscrowWallet,
};
#[allow(unused_imports)]
use crate::address;
#[allow(unused_imports)]
use crate::address::ProgramAddress;
#[allow(unused_imports)]
use crate::config;
#[allow(unused_imports)]
use crate::error::{AccountName, InstructionError, SettlError};
#[allow(unused_imports)]
use crate::escrow;
#[allow(unused_imports)]
use crate::escrow::ReleasePlan;
#[allow(unused_imports)]
use crate::events::{
    ConfigInitialized, EscrowInitialized, FeeUpdated, FundsReleased, MerchantDeactivated,
    MerchantRegistered, PaymentReceived, TreasuryUpdated, WalletUpdateRequested, WalletUpdated,
};
#[allow(unused_imports)]
use crate::laws::{calls, decisions};
#[allow(unused_imports)]
use crate::merchant;
#[allow(unused_imports)]
use crate::processor;
#[allow(unused_imports)]
use crate::pubkey;
#[allow(unused_imports)]
use crate::pubkey::Pubkey;
#[allow(unused_imports)]
use crate::transfer::TokenTransfer;

verus! {

/// `key` is the program address of a tag, an identifier where there is one, and a
/// bump.
pub open spec fn stands_at(
    key: Pubkey,
    tag: Seq<char>,
    id: Option<Seq<char>>,
    bump: u8,
    program_id: Pubkey,
) -> bool {
    decisions::address_of(tag, id, bump, program_id) == Some(key.bytes@)
}

/// `found` is the address of seeds with the greatest bump of at least one that
/// derives one, and that bump; none where no such bump does.
pub open spec fn is_greatest(
    found: Option<ProgramAddress>,
    seeds: Seq<Seq<u8>>,
    program_id: Pubkey,
) -> bool {
    match found {
        None => forall|bump: u8|
            bump >= 1 ==> (#[trigger] address::program_address(
                seeds.push(seq![bump]),
                program_id.bytes@,
            )) is None,
        Some(ProgramAddress { key, bump }) => {
            &&& bump >= 1
            &&& address::program_address(seeds.push(seq![bump]), program_id.bytes@) == Some(
                key.bytes@,
            )
            &&& forall|higher: u8|
                higher > bump ==> (#[trigger] address::program_address(
                    seeds.push(seq![higher]),
                    program_id.bytes@,
                )) is None
        },
    }
}

/// The search for the address of the configuration finds the one with the greatest bump, and
/// the address with a given bump is the program address of tag and bump.
pub proof fn law_config_addresses(
    bump: u8,
    program_id: &Pubkey,
    found: Option<ProgramAddress>,
    derived: Option<Pubkey>,
)
    requires
        call_ensures(address::find_config_address, (program_id,), found),
        call_ensures(address::config_address, (bump, program_id), derived),
    ensures
        is_greatest(found, seq![encode_utf8("config"@)], *program_id),
        derived is None <==> decisions::address_of("config"@, None, bump, *program_id) is None,
        derived matches Some(key) ==> stands_at(key, "config"@, None, bump, *program_id),
{
    let seeds = seq![encode_utf8("config"@)];
    decisions::law_canonical_address_has_greatest_bump(seeds, program_id@);
    decisions::lemma_bump_is_last("config"@, Seq::empty(), bump);
}

/// The search for the address of a merchant's account finds the one with the greatest bump, and
/// the address with a given bump is the program address of tag, identifier and bump.
pub proof fn law_merchant_addresses(
    merchant_id: &String,
    bump: u8,
    program_id: &Pubkey,
    found: Option<ProgramAddress>,
    derived: Option<Pubkey>,
)
    requires
        call_ensures(address::find_merchant_address, (merchant_id, program_id), found),
        call_ensures(address::merchant_address, (merchant_id, bump, program_id), derived),
    ensures
        is_greatest(found, seq![encode_utf8("merchant"@), encode_utf8(merchant_id@)], *program_id),
        derived is None <==> decisions::address_of(
            "merchant"@,
            Some(merchant_id@),
            bump,
            *program_id,
        ) is None,
        derived matches Some(key) ==> stands_at(
            key,
            "merchant"@,
            Some(merchant_id@),
            bump,
            *program_id,
        ),
{
    let seeds = seq![encode_utf8("merchant"@), encode_utf8(merchant_id@)];
    decisions::law_canonical_address_has_greatest_bump(seeds, program_id@);
    decisions::lemma_bump_is_last("merchant"@, merchant_id@, bump);
}

/// The search for the address of a merchant's escrow finds the one with the greatest bump, and
/// the address with a given bump is the program address of tag, identifier and bump.
pub proof fn law_escrow_addresses(
    merchant_id: &String,
    bump: u8,
    program_id: &Pubkey,
    found: Option<ProgramAddress>,
    derived: Option<Pubkey>,
)
    requires
        call_ensures(address::find_escrow_address, (merchant_id, program_id), found),
        call_ensures(address::escrow_address, (merchant_id, bump, program_id), derived),
    ensures
        is_greatest(found, seq![encode_utf8("escrow"@), encode_utf8(merchant_id@)], *program_id),
        derived is None <==> decisions::address_of(
            "escrow"@,
            Some(merchant_id@),
            bump,
            *program_id,
        ) is None,
        derived matches Some(key) ==> stands_at(
            key,
            "escrow"@,
            Some(merchant_id@),
            bump,
            *program_id,
        ),
{
    let seeds = seq![encode_utf8("escrow"@), encode_utf8(merchant_id@)];
    decisions::law_canonical_address_has_greatest_bump(seeds, program_id@);
    decisions::lemma_bump_is_last("escrow"@, merchant_id@, bump);
}

/// The search for the address of a merchant's vault finds the one with the greatest bump, and
/// the address with a given bump is the program address of tag, identifier and bump.
pub proof fn law_vault_addresses(
    merchant_id: &String,
    bump: u8,
    program_id: &Pubkey,
    found: Option<ProgramAddress>,
    derived: Option<Pubkey>,
)
    requires
        call_ensures(address::find_vault_address, (merchant_id, program_id), found),
        call_ensures(address::vault_address, (merchant_id, bump, program_id), derived),
    ensures
        is_greatest(found, seq![encode_utf8("vault"@), encode_utf8(merchant_id@)], *program_id),
        derived is None <==> decisions::address_of(
            "vault"@,
            Some(merchant_id@),
            bump,
            *program_id,
        ) is None,
        derived matches Some(key) ==> stands_at(
            key,
            "vault"@,
            Some(merchant_id@),
            bump,
            *program_id,
        ),
{
    let seeds = seq![encode_utf8("vault"@), encode_utf8(merchant_id@)];
    decisions::law_canonical_address_has_greatest_bump(seeds, program_id@);
    decisions::lemma_bump_is_last("vault"@, merchant_id@, bump);
}

/// The check of a configuration's creation compares its key with the address found.
pub proof fn law_initialize_config_check(
    ctx: &InitializeConfig,
    config: Option<ProgramAddress>,
    res: Result<InitializeConfigBumps, InstructionError>,
)
    requires
        call_ensures(InitializeConfig::check, (ctx, config,), res),
    ensures
        if config is None {
            res == Err::<InitializeConfigBumps, InstructionError>(
                InstructionError::NoProgramAddress(AccountName::Config),
            )
        } else if config->0.key != ctx.config.key {
            res == Err::<InitializeConfigBumps, InstructionError>(
                InstructionError::ConstraintSeeds(AccountName::Config),
            )
        } else {
            res matches Ok(bumps) && bumps.config == config->0.bump
        },
{
    if let Some(found) = config {
        pubkey::lemma_pubkey_view_injective(found.key, ctx.config.key);
    }
}

/// The check of a configuration change compares its key, then its authority.
pub proof fn law_manage_config_check(
    ctx: &ManageConfig,
    config: Option<Pubkey>,
    res: Result<(), InstructionError>,
)
    requires
        call_ensures(ManageConfig::check, (ctx, config,), res),
    ensures
        if config != Some(ctx.config.key) {
            res == Err::<(), InstructionError>(
                InstructionError::ConstraintSeeds(AccountName::Config),
            )
        } else if ctx.authority != ctx.config.data.authority {
            res == Err::<(), InstructionError>(
                InstructionError::Account(AccountName::Config, SettlError::Unauthorized),
            )
        } else {
            res is Ok
        },
{
    if let Some(key) = config {
        pubkey::lemma_pubkey_view_injective(key, ctx.config.key);
    }
}

/// The check of a registration compares the merchant's key, the configuration's key, then
/// the configuration's authority.
pub proof fn law_register_merchant_check(
    ctx: &RegisterMerchant,
    merchant: Option<ProgramAddress>,
    config: Option<Pubkey>,
    res: Result<RegisterMerchantBumps, InstructionError>,
)
    requires
        call_ensures(RegisterMerchant::check, (ctx, merchant, config,), res),
    ensures
        if merchant is None {
            res == Err::<RegisterMerchantBumps, InstructionError>(
                InstructionError::NoProgramAddress(AccountName::Merchant),
            )
        } else if merchant->0.key != ctx.merchant.key {
            res == Err::<RegisterMerchantBumps, InstructionError>(
                InstructionError::ConstraintSeeds(AccountName::Merchant),
            )
        } else if config != Some(ctx.config.key) {
            res == Err::<RegisterMerchantBumps, InstructionError>(
                InstructionError::ConstraintSeeds(AccountName::Config),
            )
        } else if ctx.authority != ctx.config.data.authority {
            res == Err::<RegisterMerchantBumps, InstructionError>(
                InstructionError::Account(AccountName::Config, SettlError::Unauthorized),
            )
        } else {
            res matches Ok(bumps) && bumps.merchant == merchant->0.bump
        },
{
    if let Some(found) = merchant {
        pubkey::lemma_pubkey_view_injective(found.key, ctx.merchant.key);
    }
    if let Some(key) = config {
        pubkey::lemma_pubkey_view_injective(key, ctx.config.key);
    }
}

/// The check of an instruction on a merchant compares its authority.
pub proof fn law_manage_merchant_check(
    ctx: &ManageMerchant,
    res: Result<(), InstructionError>,
)
    requires
        call_ensures(ManageMerchant::check, (ctx,), res),
    ensures
        if ctx.authority != ctx.merchant.data.authority {
            res == Err::<(), InstructionError>(
                InstructionError::Account(AccountName::Merchant, SettlError::Unauthorized),
            )
        } else {
            res is Ok
        },
{
}

/// The check of an escrow's creation compares the keys of escrow, vault and merchant,
/// then the merchant's authority.
pub proof fn law_initialize_escrow_check(
    ctx: &InitializeEscrow,
    escrow: Option<ProgramAddress>,
    vault: Option<ProgramAddress>,
    merchant: Option<Pubkey>,
    res: Result<InitializeEscrowBumps, InstructionError>,
)
    requires
        call_ensures(InitializeEscrow::check, (ctx, escrow, vault, merchant,), res),
    ensures
        if escrow is None {
            res == Err::<InitializeEscrowBumps, InstructionError>(
                InstructionError::NoProgramAddress(AccountName::Escrow),
            )
        } else if escrow->0.key != ctx.escrow.key {
            res == Err::<InitializeEscrowBumps, InstructionError>(
                InstructionError::ConstraintSeeds(AccountName::Escrow),
            )
        } else if vault is None {
            res == Err::<InitializeEscrowBumps, InstructionError>(
                InstructionError::NoProgramAddress(AccountName::Vault),
            )
        } else if vault->0.key != ctx.vault.key {
            res == Err::<InitializeEscrowBumps, InstructionError>(
                InstructionError::ConstraintSeeds(AccountName::Vault),
            )
        } else if merchant != Some(ctx.merchant.key) {
            res == Err::<InitializeEscrowBumps, InstructionError>(
                InstructionError::ConstraintSeeds(AccountName::Merchant),
            )
        } else if ctx.authority != ctx.merchant.data.authority {
            res == Err::<InitializeEscrowBumps, InstructionError>(
                InstructionError::Account(AccountName::Merchant, SettlError::Unauthorized),
            )
        } else {
            res matches Ok(bumps) && bumps.escrow == escrow->0.bump && bumps.vault == vault->0.bump
        },
{
    if let Some(found) = escrow {
        pubkey::lemma_pubkey_view_injective(found.key, ctx.escrow.key);
    }
    if let Some(found) = vault {
        pubkey::lemma_pubkey_view_injective(found.key, ctx.vault.key);
    }
    if let Some(key) = merchant {
        pubkey::lemma_pubkey_view_injective(key, ctx.merchant.key);
    }
}

/// The check of a deposit compares the keys of merchant, escrow and vault.
pub proof fn law_deposit_check(
    ctx: &Deposit,
    merchant: Option<Pubkey>,
    escrow: Option<Pubkey>,
    vault: Option<Pubkey>,
    res: Result<(), InstructionError>,
)
    requires
        call_ensures(Deposit::check, (ctx, merchant, escrow, vault,), res),
    ensures
        if merchant != Some(ctx.merchant.key) {
            res == Err::<(), InstructionError>(
                InstructionError::ConstraintSeeds(AccountName::Merchant),
            )
        } else if escrow != Some(ctx.escrow.key) {
            res == Err::<(), InstructionError>(
                InstructionError::ConstraintSeeds(AccountName::Escrow),
            )
        } else if vault != Some(ctx.vault.key) {
            res == Err::<(), InstructionError>(
                InstructionError::ConstraintSeeds(AccountName::Vault),
            )
        } else {
            res is Ok
        },
{
    if let Some(key) = merchant {
        pubkey::lemma_pubkey_view_injective(key, ctx.merchant.key);
    }
    if let Some(key) = escrow {
        pubkey::lemma_pubkey_view_injective(key, ctx.escrow.key);
    }
    if let Some(key) = vault {
        pubkey::lemma_pubkey_view_injective(key, ctx.vault.key);
    }
}

/// The check of a release compares the keys of configuration, merchant and escrow, the
/// escrow's authority, the vault's key, then the owners of the two accounts paid.
pub proof fn law_release_check(
    ctx: &Release,
    config: Option<Pubkey>,
    merchant: Option<Pubkey>,
    escrow: Option<Pubkey>,
    vault: Option<Pubkey>,
    res: Result<(), InstructionError>,
)
    requires
        call_ensures(Release::check, (ctx, config, merchant, escrow, vault,), res),
    ensures
        if config != Some(ctx.config.key) {
            res == Err::<(), InstructionError>(
                InstructionError::ConstraintSeeds(AccountName::Config),
            )
        } else if merchant != Some(ctx.merchant.key) {
            res == Err::<(), InstructionError>(
                InstructionError::ConstraintSeeds(AccountName::Merchant),
            )
        } else if escrow != Some(ctx.escrow.key) {
            res == Err::<(), InstructionError>(
                InstructionError::ConstraintSeeds(AccountName::Escrow),
            )
        } else if ctx.authority != ctx.escrow.data.authority {
            res == Err::<(), InstructionError>(
                InstructionError::Account(AccountName::Escrow, SettlError::Unauthorized),
            )
        } else if vault != Some(ctx.vault.key) {
            res == Err::<(), InstructionError>(
                InstructionError::ConstraintSeeds(AccountName::Vault),
            )
        } else if ctx.merchant_ata.owner != ctx.escrow.data.merchant_wallet {
            res == Err::<(), InstructionError>(
                InstructionError::ConstraintTokenOwner(AccountName::MerchantAta),
            )
        } else if ctx.treasury_ata.owner != ctx.config.data.treasury_wallet {
            res == Err::<(), InstructionError>(
                InstructionError::ConstraintTokenOwner(AccountName::TreasuryAta),
            )
        } else {
            res is Ok
        },
{
    if let Some(key) = config {
        pubkey::lemma_pubkey_view_injective(key, ctx.config.key);
    }
    if let Some(key) = merchant {
        pubkey::lemma_pubkey_view_injective(key, ctx.merchant.key);
    }
    if let Some(key) = escrow {
        pubkey::lemma_pubkey_view_injective(key, ctx.escrow.key);
    }
    if let Some(key) = vault {
        pubkey::lemma_pubkey_view_injective(key, ctx.vault.key);
    }
}

/// The check of a wallet update compares the authority of the merchant, then of the
/// escrow.
pub proof fn law_update_escrow_wallet_check(
    ctx: &UpdateEscrowWallet,
    res: Result<(), InstructionError>,
)
    requires
        call_ensures(UpdateEscrowWallet::check, (ctx,), res),
    ensures
        if ctx.authority != ctx.merchant.data.authority {
            res == Err::<(), InstructionError>(
                InstructionError::Account(AccountName::Merchant, SettlError::Unauthorized),
            )
        } else if ctx.authority != ctx.escrow.data.authority {
            res == Err::<(), InstructionError>(
                InstructionError::Account(AccountName::Escrow, SettlError::Unauthorized),
            )
        } else {
            res is Ok
        },
{
}

/// The creation of the configuration as a whole: refused with the accounts, or with a
/// rate of more than 10%; else the configuration holds what was given, at its address.
pub proof fn law_process_initialize_config(
    program_id: &Pubkey,
    ctx: &mut InitializeConfig,
    rate: u16,
    res: Result<ConfigInitialized, InstructionError>,
)
    requires
        call_ensures(processor::process_initialize_config, (program_id, ctx, rate), res),
    ensures
        match processor::initialize_config_refusal(old(ctx)@, *program_id) {
            Some(error) => res == Err::<ConfigInitialized, InstructionError>(error),
            None => if rate > 1_000 {
                res == Err::<ConfigInitialized, InstructionError>(
                    InstructionError::Handler(SettlError::FeeTooHigh),
                )
            } else {
                let stored = final(ctx).config.data;
                &&& stored.fee_basis_points == rate
                &&& stored.treasury_wallet == old(ctx).treasury_wallet
                &&& stored.authority == old(ctx).authority
                &&& stored.total_fees_collected == 0
                &&& final(ctx).config.key == old(ctx).config.key
                &&& stands_at(final(ctx).config.key, "config"@, None, stored.bump, *program_id)
                &&& res matches Ok(event) && event.fee_basis_points == rate
                    && event.treasury_wallet == old(ctx).treasury_wallet && event.authority == old(
                    ctx,
                ).authority
            },
        },
        res is Err ==> *final(ctx) == *old(ctx),
{
    decisions::lemma_bump_is_last("config"@, Seq::empty(), final(ctx).config.data.bump);
}

/// A change of the rate as a whole: refused with the accounts, or with a rate of more
/// than 10%; else the rate given is stored.
pub proof fn law_process_update_fee(
    program_id: &Pubkey,
    ctx: &mut ManageConfig,
    rate: u16,
    res: Result<FeeUpdated, InstructionError>,
)
    requires
        call_ensures(processor::process_update_fee, (program_id, ctx, rate), res),
    ensures
        match processor::manage_config_refusal(old(ctx)@, *program_id) {
            Some(error) => res == Err::<FeeUpdated, InstructionError>(error),
            None => if rate > 1_000 {
                res == Err::<FeeUpdated, InstructionError>(
                    InstructionError::Handler(SettlError::FeeTooHigh),
                )
            } else {
                let before = old(ctx).config.data;
                let stored = final(ctx).config.data;
                &&& stored.fee_basis_points == rate
                &&& stored.treasury_wallet == before.treasury_wallet
                &&& stored.authority == before.authority
                &&& stored.total_fees_collected == before.total_fees_collected
                &&& stored.bump == before.bump
                &&& final(ctx).config.key == old(ctx).config.key
                &&& res matches Ok(event) && event.old_fee == before.fee_basis_points
                    && event.new_fee == rate
            },
        },
        res is Err ==> *final(ctx) == *old(ctx),
{
}

/// A change of the treasury as a whole: refused with the accounts; else the wallet
/// given is stored.
pub proof fn law_process_update_treasury(
    program_id: &Pubkey,
    ctx: &mut ManageConfig,
    res: Result<TreasuryUpdated, InstructionError>,
)
    requires
        call_ensures(processor::process_update_treasury, (program_id, ctx), res),
    ensures
        match processor::manage_config_refusal(old(ctx)@, *program_id) {
            Some(error) => res == Err::<TreasuryUpdated, InstructionError>(error),
            None => {
                let before = old(ctx).config.data;
                let stored = final(ctx).config.data;
                &&& stored.treasury_wallet == old(ctx).new_treasury
                &&& stored.fee_basis_points == before.fee_basis_points
                &&& stored.authority == before.authority
                &&& stored.total_fees_collected == before.total_fees_collected
                &&& stored.bump == before.bump
                &&& final(ctx).config.key == old(ctx).config.key
                &&& res matches Ok(event) && event.new_treasury == old(ctx).new_treasury
            },
        },
        res is Err ==> *final(ctx) == *old(ctx),
{
}

/// A registration as a whole: refused with the accounts, or for an identifier of more
/// than 64 bytes; else the entry holds what was given, at its address.
pub proof fn law_process_register_merchant(
    program_id: &Pubkey,
    ctx: &mut RegisterMerchant,
    merchant_id: String,
    wallet: Pubkey,
    now: i64,
    res: Result<MerchantRegistered, InstructionError>,
)
    requires
        call_ensures(
            processor::process_register_merchant,
            (program_id, ctx, merchant_id, wallet, now),
            res,
        ),
    ensures
        match processor::register_merchant_refusal(old(ctx)@, merchant_id@, *program_id) {
            Some(error) => res == Err::<MerchantRegistered, InstructionError>(error),
            None => if encode_utf8(merchant_id@).len() > 64 {
                res == Err::<MerchantRegistered, InstructionError>(
                    InstructionError::Handler(SettlError::MerchantIdTooLong),
                )
            } else {
                let stored = final(ctx).merchant.data;
                &&& stored.merchant_id@ == merchant_id@
                &&& stored.wallet == wallet
                &&& stored.is_active
                &&& stored.registered_at == now
                &&& stored.total_released == 0
                &&& stored.total_fees_paid == 0
                &&& stored.authority == old(ctx).config.data.authority
                &&& stored.pending_wallet is None
                &&& stored.wallet_update_at is None
                &&& final(ctx).merchant.key == old(ctx).merchant.key
                &&& final(ctx)@.config == old(ctx)@.config
                &&& stands_at(
                    final(ctx).merchant.key,
                    "merchant"@,
                    Some(merchant_id@),
                    stored.bump,
                    *program_id,
                )
                &&& res matches Ok(event) && event.merchant_id@ == merchant_id@
                    && event.wallet_address == wallet && event.registered_at == now
            },
        },
        encode_utf8(merchant_id@).len() > 32 ==> res == Err::<MerchantRegistered, InstructionError>(
            InstructionError::NoProgramAddress(AccountName::Merchant),
        ),
        res is Err ==> *final(ctx) == *old(ctx),
{
    decisions::lemma_bump_is_last("merchant"@, merchant_id@, final(ctx).merchant.data.bump);
}

/// A request as a whole: refused to who is not the merchant's authority; else a
/// change to the wallet given is open, for 24 hours later.
pub proof fn law_process_request_wallet_update(
    ctx: &mut ManageMerchant,
    wallet: Pubkey,
    now: i64,
    res: Result<WalletUpdateRequested, InstructionError>,
)
    requires
        now + 24 * 60 * 60 <= i64::MAX,
        call_ensures(processor::process_request_wallet_update, (ctx, wallet, now), res),
    ensures
        if old(ctx).authority != old(ctx).merchant.data.authority {
            res == Err::<WalletUpdateRequested, InstructionError>(
                InstructionError::Account(AccountName::Merchant, SettlError::Unauthorized),
            )
        } else {
            let before = old(ctx).merchant.data;
            let stored = final(ctx).merchant.data;
            &&& stored.pending_wallet == Some(wallet)
            &&& stored.wallet_update_at matches Some(at) && at == now + 24 * 60 * 60
            &&& stored.wallet == before.wallet
            &&& stored.is_active == before.is_active
            &&& calls::same_merchant(before@, stored@)
            &&& final(ctx).merchant.key == old(ctx).merchant.key
            &&& res matches Ok(event) && event.merchant_id@ == before.merchant_id@
                && event.new_wallet == wallet && event.unlocks_at == now + 24 * 60 * 60
        },
        res is Err ==> *final(ctx) == *old(ctx),
{
}

/// A confirmation as a whole: refused to who is not the merchant's authority, without
/// an open change, and before it unlocks; else the pending wallet is in force.
pub proof fn law_process_confirm_wallet_update(
    ctx: &mut ManageMerchant,
    now: i64,
    res: Result<WalletUpdated, InstructionError>,
)
    requires
        call_ensures(processor::process_confirm_wallet_update, (ctx, now), res),
    ensures
        ({
            let before = old(ctx).merchant.data;
            let stored = final(ctx).merchant.data;
            if old(ctx).authority != before.authority {
                res == Err::<WalletUpdated, InstructionError>(
                    InstructionError::Account(AccountName::Merchant, SettlError::Unauthorized),
                )
            } else if before.wallet_update_at is None {
                res == Err::<WalletUpdated, InstructionError>(
                    InstructionError::Handler(SettlError::NoWalletUpdatePending),
                )
            } else if now < before.wallet_update_at->0 {
                res == Err::<WalletUpdated, InstructionError>(
                    InstructionError::Handler(SettlError::WalletUpdateNotReady),
                )
            } else if before.pending_wallet is None {
                res == Err::<WalletUpdated, InstructionError>(
                    InstructionError::Handler(SettlError::NoWalletUpdatePending),
                )
            } else {
                &&& Some(stored.wallet) == before.pending_wallet
                &&& stored.pending_wallet is None
                &&& stored.wallet_update_at is None
                &&& stored.is_active == before.is_active
                &&& calls::same_merchant(before@, stored@)
                &&& final(ctx).merchant.key == old(ctx).merchant.key
                &&& res matches Ok(event) && event.merchant_id@ == before.merchant_id@
                    && event.old_wallet == before.wallet && event.new_wallet == stored.wallet
            }
        }),
        res is Err ==> *final(ctx) == *old(ctx),
{
}

/// A deactivation as a whole: refused to who is not the merchant's authority; else
/// the merchant is closed, and nothing else changes.
pub proof fn law_process_deactivate_merchant(
    ctx: &mut ManageMerchant,
    res: Result<MerchantDeactivated, InstructionError>,
)
    requires
        call_ensures(processor::process_deactivate_merchant, (ctx,), res),
    ensures
        if old(ctx).authority != old(ctx).merchant.data.authority {
            res == Err::<MerchantDeactivated, InstructionError>(
                InstructionError::Account(AccountName::Merchant, SettlError::Unauthorized),
            )
        } else {
            let before = old(ctx).merchant.data;
            let stored = final(ctx).merchant.data;
            &&& !stored.is_active
            &&& stored.wallet == before.wallet
            &&& stored.pending_wallet == before.pending_wallet
            &&& stored@.wallet_update_at == before@.wallet_update_at
            &&& calls::same_merchant(before@, stored@)
            &&& final(ctx).merchant.key == old(ctx).merchant.key
            &&& res matches Ok(event) && event.merchant_id@ == before.merchant_id@
        },
        res is Err ==> *final(ctx) == *old(ctx),
{
}

/// The creation of an escrow as a whole: refused with the accounts, or for an
/// identifier of more than 64 bytes; else the escrow is for the wallet in force in
/// the merchant's entry, and escrow and vault stand at their addresses.
pub proof fn law_process_initialize_merchant_escrow(
    program_id: &Pubkey,
    ctx: &mut InitializeEscrow,
    merchant_id: String,
    res: Result<EscrowInitialized, InstructionError>,
)
    requires
        call_ensures(
            processor::process_initialize_merchant_escrow,
            (program_id, ctx, merchant_id),
            res,
        ),
    ensures
        match processor::initialize_escrow_refusal(old(ctx)@, merchant_id@, *program_id) {
            Some(error) => res == Err::<EscrowInitialized, InstructionError>(error),
            None => if encode_utf8(merchant_id@).len() > 64 {
                res == Err::<EscrowInitialized, InstructionError>(
                    InstructionError::Handler(SettlError::MerchantIdTooLong),
                )
            } else {
                let stored = final(ctx).escrow.data;
                &&& stored.merchant_id@ == merchant_id@
                &&& stored.merchant_wallet == old(ctx).merchant.data.wallet
                &&& stored.pending_balance == 0
                &&& stored.total_payments == 0
                &&& stored.last_released_at == 0
                &&& stored.authority == old(ctx).merchant.data.authority
                &&& final(ctx).escrow.key == old(ctx).escrow.key
                &&& final(ctx).vault == old(ctx).vault
                &&& final(ctx)@.merchant == old(ctx)@.merchant
                &&& stands_at(
                    final(ctx).escrow.key,
                    "escrow"@,
                    Some(merchant_id@),
                    stored.bump,
                    *program_id,
                )
                &&& stands_at(
                    final(ctx).vault.key,
                    "vault"@,
                    Some(merchant_id@),
                    stored.vault_bump,
                    *program_id,
                )
                &&& res matches Ok(event) && event.merchant_id@ == merchant_id@
                    && event.merchant_wallet == old(ctx).merchant.data.wallet
            },
        },
        encode_utf8(merchant_id@).len() > 32 ==> res == Err::<EscrowInitialized, InstructionError>(
            InstructionError::NoProgramAddress(AccountName::Escrow),
        ),
        res is Err ==> *final(ctx) == *old(ctx),
{
    decisions::lemma_bump_is_last("escrow"@, merchant_id@, final(ctx).escrow.data.bump);
    decisions::lemma_bump_is_last("vault"@, merchant_id@, final(ctx).escrow.data.vault_bump);
}

/// A deposit as a whole: refused with the accounts, with nothing to pay, for an
/// inactive merchant, and for an identifier that is not the escrow's; else the amount
/// is ordered into the vault with the customer's signature and no other.
pub proof fn law_process_deposit(
    program_id: &Pubkey,
    ctx: &Deposit,
    merchant_id: String,
    amount: u64,
    res: Result<TokenTransfer, InstructionError>,
)
    requires
        call_ensures(processor::process_deposit, (program_id, ctx, merchant_id, amount), res),
    ensures
        match processor::deposit_refusal(ctx@, merchant_id@, *program_id) {
            Some(error) => res == Err::<TokenTransfer, InstructionError>(error),
            None => if amount == 0 {
                res == Err::<TokenTransfer, InstructionError>(
                    InstructionError::Handler(SettlError::ZeroAmount),
                )
            } else if !ctx.merchant.data.is_active {
                res == Err::<TokenTransfer, InstructionError>(
                    InstructionError::Handler(SettlError::MerchantInactive),
                )
            } else if ctx.escrow.data.merchant_id@ != merchant_id@ {
                res == Err::<TokenTransfer, InstructionError>(
                    InstructionError::Handler(SettlError::MerchantMismatch),
                )
            } else {
                res matches Ok(order) && order.from == ctx.customer_ata.key && order.to
                    == ctx.vault.key && order.authority == ctx.customer && order.amount == amount
                    && order.signer_seeds@.len() == 0
            },
        },
{
    if let Ok(order) = res {
        assert(order@.signer_seeds.len() == order.signer_seeds@.len());
    }
}

/// A release as a whole: refused with the accounts, for an identifier that is not the
/// escrow's, with nothing pending, and where the split is refused; else what is
/// pending is split at the configuration's rate, the net is ordered to the merchant's
/// token account, and the fee, if there is one, to the treasury's.
pub proof fn law_process_release(
    program_id: &Pubkey,
    ctx: &Release,
    merchant_id: String,
    res: Result<ReleasePlan, InstructionError>,
)
    requires
        call_ensures(processor::process_release, (program_id, ctx, merchant_id), res),
    ensures
        ({
            let pending = ctx.escrow.data.pending_balance;
            let product = pending * ctx.config.data.fee_basis_points;
            match processor::release_refusal(ctx@, merchant_id@, *program_id) {
                Some(error) => res == Err::<ReleasePlan, InstructionError>(error),
                None => if ctx.escrow.data.merchant_id@ != merchant_id@ {
                    res == Err::<ReleasePlan, InstructionError>(
                        InstructionError::Handler(SettlError::MerchantMismatch),
                    )
                } else if pending == 0 {
                    res == Err::<ReleasePlan, InstructionError>(
                        InstructionError::Handler(SettlError::ZeroBalance),
                    )
                } else if product > 0xffff_ffff_ffff_ffff || product >= 10_000 * (pending + 1) {
                    res == Err::<ReleasePlan, InstructionError>(
                        InstructionError::Handler(SettlError::Overflow),
                    )
                } else {
                    &&& res matches Ok(plan) && {
                        &&& plan.gross == pending
                        &&& 10_000 * plan.fee <= product < 10_000 * (plan.fee + 1)
                        &&& plan.net + plan.fee == pending
                        &&& plan.payouts@.len() == if plan.fee > 0 { 2nat } else { 1nat }
                        &&& calls::is_payout(
                            ctx,
                            merchant_id@,
                            plan.payouts@[0],
                            ctx.merchant_ata.key,
                            plan.net,
                        )
                        &&& plan.fee > 0 ==> calls::is_payout(
                            ctx,
                            merchant_id@,
                            plan.payouts@[1],
                            ctx.treasury_ata.key,
                            plan.fee,
                        )
                    }
                },
            }
        }),
        res is Ok ==> {
            &&& ctx.authority == ctx.escrow.data.authority
            &&& ctx.merchant_ata.owner == ctx.escrow.data.merchant_wallet
            &&& ctx.treasury_ata.owner == ctx.config.data.treasury_wallet
        },
{
    if let Ok(plan) = res {
        calls::lemma_payouts_in_full(ctx, merchant_id@, plan);
    }
}

/// Bringing an escrow up to date as a whole: refused to who is not the authority of
/// merchant and escrow; else the escrow has the wallet in force in the entry, and
/// nothing else changes.
pub proof fn law_process_update_escrow_wallet(
    ctx: &mut UpdateEscrowWallet,
    res: Result<(), InstructionError>,
)
    requires
        call_ensures(processor::process_update_escrow_wallet, (ctx,), res),
    ensures
        if old(ctx).authority != old(ctx).merchant.data.authority {
            res == Err::<(), InstructionError>(
                InstructionError::Account(AccountName::Merchant, SettlError::Unauthorized),
            )
        } else if old(ctx).authority != old(ctx).escrow.data.authority {
            res == Err::<(), InstructionError>(
                InstructionError::Account(AccountName::Escrow, SettlError::Unauthorized),
            )
        } else {
            let before = old(ctx).escrow.data;
            let stored = final(ctx).escrow.data;
            &&& res is Ok
            &&& stored.merchant_wallet == old(ctx).merchant.data.wallet
            &&& stored.merchant_id@ == before.merchant_id@
            &&& stored.pending_balance == before.pending_balance
            &&& stored.total_payments == before.total_payments
            &&& stored.last_released_at == before.last_released_at
            &&& stored.authority == before.authority
            &&& stored.bump == before.bump
            &&& stored.vault_bump == before.vault_bump
            &&& final(ctx).escrow.key == old(ctx).escrow.key
            &&& final(ctx)@.merchant == old(ctx)@.merchant
        },
        res is Err ==> *final(ctx) == *old(ctx),
{
}

/// Only the authority that the configuration records registers merchants, and the
/// merchant is its own from then on; only the merchant's authority creates its
/// escrow, and is the one who releases it.
pub proof fn law_authority_is_handed_on(
    program_id: &Pubkey,
    registering: &mut RegisterMerchant,
    merchant_id: String,
    wallet: Pubkey,
    now: i64,
    registered: Result<MerchantRegistered, InstructionError>,
    opening: &mut InitializeEscrow,
    escrow_id: String,
    opened: Result<EscrowInitialized, InstructionError>,
    releasing: &Release,
    release_id: String,
    released: Result<ReleasePlan, InstructionError>,
)
    requires
        call_ensures(
            processor::process_register_merchant,
            (program_id, registering, merchant_id, wallet, now),
            registered,
        ),
        call_ensures(
            processor::process_initialize_merchant_escrow,
            (program_id, opening, escrow_id),
            opened,
        ),
        call_ensures(processor::process_release, (program_id, releasing, release_id), released),
        registered is Ok,
        opened is Ok,
        released is Ok,
        old(opening).merchant.data.authority == final(registering).merchant.data.authority,
        releasing.escrow.data.authority == final(opening).escrow.data.authority,
    ensures
        old(registering).authority == old(registering).config.data.authority,
        old(opening).authority == old(registering).config.data.authority,
        releasing.authority == old(registering).config.data.authority,
{
}

/// The wallet given at the registration is the one that a release pays, where nothing
/// changed it in between.
pub proof fn law_registered_wallet_is_paid(
    registering: &mut RegisterMerchant,
    merchant_bumps: RegisterMerchantBumps,
    merchant_id: String,
    wallet: Pubkey,
    now: i64,
    registered: Result<MerchantRegistered, SettlError>,
    opening: &mut InitializeEscrow,
    escrow_bumps: InitializeEscrowBumps,
    escrow_id: String,
    opened: Result<EscrowInitialized, SettlError>,
    program_id: &Pubkey,
    releasing: &Release,
    release_id: String,
    released: Result<ReleasePlan, InstructionError>,
)
    requires
        call_ensures(
            merchant::register_merchant,
            (registering, merchant_bumps, merchant_id, wallet, now),
            registered,
        ),
        call_ensures(
            escrow::initialize_merchant_escrow,
            (opening, escrow_bumps, escrow_id),
            opened,
        ),
        call_ensures(processor::process_release, (program_id, releasing, release_id), released),
        registered is Ok,
        opened is Ok,
        released is Ok,
        old(opening).merchant.data.wallet == final(registering).merchant.data.wallet,
        releasing.escrow.data.merchant_wallet == final(opening).escrow.data.merchant_wallet,
    ensures
        releasing.merchant_ata.owner == wallet,
        released matches Ok(plan) && plan.payouts@[0].to == releasing.merchant_ata.key
            && plan.payouts@[0].amount == plan.net,
{
    law_process_release(program_id, releasing, release_id, released);
}

/// A wallet that was requested is paid by releases after the confirmation and the
/// update of the escrow, and it cannot be confirmed before 24 hours have passed.
pub proof fn law_requested_wallet_is_paid_after_a_day(
    requesting: &mut ManageMerchant,
    wallet: Pubkey,
    requested_at: i64,
    requested: Result<WalletUpdateRequested, SettlError>,
    confirming: &mut ManageMerchant,
    confirmed_at: i64,
    confirmed: Result<WalletUpdated, SettlError>,
    updating: &mut UpdateEscrowWallet,
    updated: Result<(), SettlError>,
    program_id: &Pubkey,
    releasing: &Release,
    release_id: String,
    released: Result<ReleasePlan, InstructionError>,
)
    requires
        requested_at + 24 * 60 * 60 <= i64::MAX,
        call_ensures(
            merchant::request_wallet_update,
            (requesting, wallet, requested_at),
            requested,
        ),
        call_ensures(merchant::confirm_wallet_update, (confirming, confirmed_at), confirmed),
        call_ensures(escrow::update_escrow_wallet, (updating,), updated),
        call_ensures(processor::process_release, (program_id, releasing, release_id), released),
        old(confirming).merchant == final(requesting).merchant,
        old(updating).merchant.data.wallet == final(confirming).merchant.data.wallet,
        releasing.escrow.data.merchant_wallet == final(updating).escrow.data.merchant_wallet,
    ensures
        confirmed is Ok <==> confirmed_at >= requested_at + 24 * 60 * 60,
        confirmed is Ok && released is Ok ==> releasing.merchant_ata.owner == wallet,
        confirmed is Err && released is Ok ==> releasing.merchant_ata.owner == old(
            requesting,
        ).merchant.data.wallet,
{
    calls::law_request_wallet_update(requesting, wallet, requested_at, requested);
    calls::law_confirm_wallet_update(confirming, confirmed_at, confirmed);
    calls::law_update_escrow_wallet(updating, updated);
    law_process_release(program_id, releasing, release_id, released);
}

/// The rate and the treasury wallet that the configuration is created with are those
/// of the releases that follow, where nothing changed them in between.
pub proof fn law_created_rate_is_taken(
    creating: &mut InitializeConfig,
    bumps: InitializeConfigBumps,
    rate: u16,
    created: Result<ConfigInitialized, SettlError>,
    program_id: &Pubkey,
    releasing: &Release,
    release_id: String,
    released: Result<ReleasePlan, InstructionError>,
)
    requires
        call_ensures(config::initialize_config, (creating, bumps, rate), created),
        call_ensures(processor::process_release, (program_id, releasing, release_id), released),
        created is Ok,
        releasing.config.data == final(creating).config.data,
    ensures
        released matches Ok(plan) ==> {
            let pending = releasing.escrow.data.pending_balance;
            &&& 10_000 * plan.fee <= pending * rate < 10_000 * (plan.fee + 1)
            &&& 10 * plan.fee <= pending
            &&& plan.fee + plan.net == pending
            &&& releasing.treasury_ata.owner == old(creating).treasury_wallet
        },
{
    calls::law_initialize_config(creating, bumps, rate, created);
    law_process_release(program_id, releasing, release_id, released);
    let pending = releasing.escrow.data.pending_balance;
    assert(pending * rate <= pending * 1_000) by (nonlinear_arith)
        requires
            rate <= 1_000,
    ;
}

/// A rate and a treasury wallet that are set later are those of the releases that
/// follow.
pub proof fn law_updated_rate_is_taken(
    setting: &mut ManageConfig,
    rate: u16,
    set: Result<FeeUpdated, SettlError>,
    moving: &mut ManageConfig,
    moved: Result<TreasuryUpdated, SettlError>,
    program_id: &Pubkey,
    releasing: &Release,
    release_id: String,
    released: Result<ReleasePlan, InstructionError>,
)
    requires
        call_ensures(config::update_fee, (setting, rate), set),
        call_ensures(config::update_treasury, (moving,), moved),
        call_ensures(processor::process_release, (program_id, releasing, release_id), released),
        set is Ok,
        old(moving).config == final(setting).config,
        releasing.config == final(moving).config,
    ensures
        released matches Ok(plan) ==> {
            let pending = releasing.escrow.data.pending_balance;
            &&& 10_000 * plan.fee <= pending * rate < 10_000 * (plan.fee + 1)
            &&& releasing.treasury_ata.owner == old(moving).new_treasury
        },
{
    calls::law_update_fee(setting, rate, set);
    calls::law_update_treasury(moving, moved);
    law_process_release(program_id, releasing, release_id, released);
}

/// What is deposited is what the next release pays, and what its booking adds to the
/// merchant's totals and to the collected fees. A release right after it is refused.
pub proof fn law_deposits_are_released(
    first: &mut Deposit,
    first_order: &TokenTransfer,
    first_at: i64,
    first_res: Result<PaymentReceived, SettlError>,
    second: &mut Deposit,
    second_order: &TokenTransfer,
    second_at: i64,
    second_res: Result<PaymentReceived, SettlError>,
    releasing: &Release,
    id: String,
    plan: ReleasePlan,
    settling: &mut Release,
    now: i64,
    settled: Result<FundsReleased, SettlError>,
    again: &Release,
    again_res: Result<ReleasePlan, SettlError>,
)
    requires
        call_ensures(escrow::record_deposit, (first, first_order, first_at), first_res),
        call_ensures(escrow::record_deposit, (second, second_order, second_at), second_res),
        call_ensures(escrow::release, (releasing, id), Ok::<ReleasePlan, SettlError>(plan)),
        call_ensures(escrow::settle_release, (settling, &plan, now), settled),
        call_ensures(escrow::release, (again, id), again_res),
        first_res is Ok,
        second_res is Ok,
        settled is Ok,
        old(first).escrow.data.pending_balance == 0,
        old(second).escrow == final(first).escrow,
        releasing.escrow == final(second).escrow,
        *old(settling) == *releasing,
        *again == *final(settling),
    ensures
        plan.gross == first_order.amount + second_order.amount,
        final(settling).merchant.data.total_released + final(settling).merchant.data.total_fees_paid
            == old(settling).merchant.data.total_released
            + old(settling).merchant.data.total_fees_paid + first_order.amount
            + second_order.amount,
        final(settling).config.data.total_fees_collected
            - old(settling).config.data.total_fees_collected
            == final(settling).merchant.data.total_fees_paid
            - old(settling).merchant.data.total_fees_paid,
        final(settling).escrow.data.total_payments == old(first).escrow.data.total_payments + 2,
        again_res == Err::<ReleasePlan, SettlError>(SettlError::ZeroBalance),
{
    calls::law_record_deposit(first, first_order, first_at, first_res);
    calls::law_record_deposit(second, second_order, second_at, second_res);
    calls::law_release(releasing, id, Ok(plan));
    calls::law_settle_release(settling, &plan, now, settled);
    calls::law_release(again, id, again_res);
}

/// After a deactivation no deposit is accepted.
pub proof fn law_no_deposit_after_deactivation(
    closing: &mut ManageMerchant,
    closed: Result<MerchantDeactivated, SettlError>,
    paying: &Deposit,
    id: String,
    amount: u64,
    paid: Result<TokenTransfer, SettlError>,
)
    requires
        call_ensures(merchant::deactivate_merchant, (closing,), closed),
        call_ensures(escrow::deposit, (paying, id, amount), paid),
        paying.merchant == final(closing).merchant,
    ensures
        paid is Err,
        amount > 0 ==> paid == Err::<TokenTransfer, SettlError>(SettlError::MerchantInactive),
{
    calls::law_deactivate_merchant(closing, closed);
    calls::law_deposit(paying, id, amount, paid);
}

} // verus!
