//! The global configuration: creating it, and changing it.
use vstd::prelude::*;

#[allow(unused_imports)]
use crate::accounts::{
    AccountView, InitializeConfig, InitializeConfigBumps, InitializeConfigView, ManageConfig,
    ManageConfigView,
};
use crate::error::SettlError;
use crate::events::{ConfigInitialized, FeeUpdated, TreasuryUpdated};
#[allow(unused_imports)]
use crate::pubkey::Pubkey;
#[allow(unused_imports)]
use crate::state::{ConfigView, SettlConfig, MAX_FEE_BASIS_POINTS};

verus! {

/// A new configuration: the signer becomes its authority, and no fee has been
/// collected.
pub open spec fn new_config(
    ctx: InitializeConfigView,
    bumps: InitializeConfigBumps,
    fee_basis_points: nat,
) -> ConfigView {
    ConfigView {
        authority: ctx.authority,
        treasury_wallet: ctx.treasury_wallet,
        fee_basis_points,
        total_fees_collected: 0,
        bump: bumps.config,
    }
}

/// Fills the newly created configuration.
pub fn initialize_config(
    ctx: &mut InitializeConfig,
    bumps: InitializeConfigBumps,
    fee_basis_points: u16,
) -> (res: Result<ConfigInitialized, SettlError>)
    ensures
        res is Ok <==> fee_basis_points <= MAX_FEE_BASIS_POINTS,
        res matches Ok(event) ==> {
            &&& final(ctx)@ == (InitializeConfigView {
                config: old(ctx)@.config.with(
                    new_config(old(ctx)@, bumps, fee_basis_points as nat),
                ),
                ..old(ctx)@
            })
            &&& final(ctx)@.config.data.wf()
            &&& event == (ConfigInitialized {
                authority: old(ctx).authority,
                treasury_wallet: old(ctx).treasury_wallet,
                fee_basis_points,
            })
        },
        res matches Err(error) ==> error == SettlError::FeeTooHigh && *final(ctx) == *old(ctx),
{
    if fee_basis_points > MAX_FEE_BASIS_POINTS {
        return Err(SettlError::FeeTooHigh);
    }
    ctx.config.data = SettlConfig {
        authority: ctx.authority,
        treasury_wallet: ctx.treasury_wallet,
        fee_basis_points,
        total_fees_collected: 0,
        bump: bumps.config,
    };
    Ok(
        ConfigInitialized {
            authority: ctx.config.data.authority,
            treasury_wallet: ctx.config.data.treasury_wallet,
            fee_basis_points: ctx.config.data.fee_basis_points,
        },
    )
}

/// A configuration with another fee rate.
pub open spec fn with_fee(config: ConfigView, fee_basis_points: nat) -> ConfigView {
    ConfigView { fee_basis_points, ..config }
}

/// Sets the fee rate of later releases.
pub fn update_fee(ctx: &mut ManageConfig, new_fee_basis_points: u16) -> (res: Result<
    FeeUpdated,
    SettlError,
>)
    ensures
        res is Ok <==> new_fee_basis_points <= MAX_FEE_BASIS_POINTS,
        res matches Ok(event) ==> {
            &&& final(ctx)@ == (ManageConfigView {
                config: old(ctx)@.config.with(
                    with_fee(old(ctx)@.config.data, new_fee_basis_points as nat),
                ),
                ..old(ctx)@
            })
            &&& final(ctx)@.config.data.wf()
            &&& event == (FeeUpdated {
                old_fee: old(ctx).config.data.fee_basis_points,
                new_fee: new_fee_basis_points,
            })
        },
        res matches Err(error) ==> error == SettlError::FeeTooHigh && *final(ctx) == *old(ctx),
{
    if new_fee_basis_points > MAX_FEE_BASIS_POINTS {
        return Err(SettlError::FeeTooHigh);
    }
    let old_fee: u16 = ctx.config.data.fee_basis_points;
    ctx.config.data.fee_basis_points = new_fee_basis_points;
    Ok(FeeUpdated { old_fee, new_fee: new_fee_basis_points })
}

/// A configuration with another treasury wallet.
pub open spec fn with_treasury(config: ConfigView, treasury_wallet: Pubkey) -> ConfigView {
    ConfigView { treasury_wallet, ..config }
}

/// Sets the wallet that platform fees go to. Never fails.
pub fn update_treasury(ctx: &mut ManageConfig) -> (res: Result<TreasuryUpdated, SettlError>)
    ensures
        res == Ok::<TreasuryUpdated, SettlError>(
            TreasuryUpdated { new_treasury: old(ctx).new_treasury },
        ),
        final(ctx)@ == (ManageConfigView {
            config: old(ctx)@.config.with(
                with_treasury(old(ctx)@.config.data, old(ctx)@.new_treasury),
            ),
            ..old(ctx)@
        }),
        old(ctx)@.config.data.wf() ==> final(ctx)@.config.data.wf(),
{
    ctx.config.data.treasury_wallet = ctx.new_treasury;
    Ok(TreasuryUpdated { new_treasury: ctx.config.data.treasury_wallet })
}

} // verus!
