//! The merchant registry: entering a merchant, changing the wallet behind a
//! delay, and closing the merchant to payments.
use vstd::prelude::*;
#[allow(unused_imports)]
use vstd::utf8::*;

#[allow(unused_imports)]
use crate::accounts::{
    AccountView, ManageMerchant, ManageMerchantView, RegisterMerchant, RegisterMerchantBumps,
    RegisterMerchantView,
};
use crate::error::SettlError;
use crate::events::{
    MerchantDeactivated, MerchantRegistered, WalletUpdateRequested, WalletUpdated,
};
use crate::pubkey::Pubkey;
#[allow(unused_imports)]
use crate::state::{
    is_valid_merchant_id, MerchantAccount, MerchantView, MAX_MERCHANT_ID_LEN, WALLET_UPDATE_DELAY,
};

verus! {

/// A new entry: active, nothing released, no wallet change pending.
pub open spec fn new_merchant(
    ctx: RegisterMerchantView,
    bumps: RegisterMerchantBumps,
    merchant_id: Seq<char>,
    wallet: Pubkey,
    now: int,
) -> MerchantView {
    MerchantView {
        merchant_id,
        wallet,
        is_active: true,
        registered_at: now,
        total_released: 0,
        total_fees_paid: 0,
        authority: ctx.authority,
        pending_wallet: None,
        wallet_update_at: None,
        bump: bumps.merchant,
    }
}

/// Fills the newly created entry of a merchant.
pub fn register_merchant(
    ctx: &mut RegisterMerchant,
    bumps: RegisterMerchantBumps,
    merchant_id: String,
    wallet_address: Pubkey,
    now: i64,
) -> (res: Result<MerchantRegistered, SettlError>)
    ensures
        res is Ok <==> encode_utf8(merchant_id@).len() <= MAX_MERCHANT_ID_LEN,
        res matches Ok(event) ==> {
            &&& final(ctx)@ == (RegisterMerchantView {
                merchant: old(ctx)@.merchant.with(
                    new_merchant(old(ctx)@, bumps, merchant_id@, wallet_address, now as int),
                ),
                ..old(ctx)@
            })
            &&& final(ctx)@.merchant.data.wf()
            &&& event == (MerchantRegistered { merchant_id, wallet_address, registered_at: now })
        },
        res matches Err(error) ==> error == SettlError::MerchantIdTooLong && *final(ctx) == *old(
            ctx,
        ),
{
    if !is_valid_merchant_id(&merchant_id) {
        return Err(SettlError::MerchantIdTooLong);
    }
    ctx.merchant.data = MerchantAccount {
        merchant_id: merchant_id.clone(),
        wallet: wallet_address,
        is_active: true,
        registered_at: now,
        total_released: 0,
        total_fees_paid: 0,
        authority: ctx.authority,
        pending_wallet: None,
        wallet_update_at: None,
        bump: bumps.merchant,
    };
    Ok(MerchantRegistered { merchant_id, wallet_address, registered_at: now })
}

/// An entry for which a wallet change was requested at `now`.
pub open spec fn with_request(
    merchant: MerchantView,
    new_wallet: Pubkey,
    now: int,
) -> MerchantView {
    MerchantView {
        pending_wallet: Some(new_wallet),
        wallet_update_at: Some(now + WALLET_UPDATE_DELAY),
        ..merchant
    }
}

/// Requests a wallet change, which can be confirmed 24 hours later. A request
/// that was pending before is dropped. Never fails.
pub fn request_wallet_update(ctx: &mut ManageMerchant, new_wallet: Pubkey, now: i64) -> (res:
    Result<WalletUpdateRequested, SettlError>)
    requires
        now + WALLET_UPDATE_DELAY <= i64::MAX,
    ensures
        res == Ok::<WalletUpdateRequested, SettlError>(
            WalletUpdateRequested {
                merchant_id: old(ctx).merchant.data.merchant_id,
                new_wallet,
                unlocks_at: (now + WALLET_UPDATE_DELAY) as i64,
            },
        ),
        final(ctx)@ == (ManageMerchantView {
            merchant: old(ctx)@.merchant.with(
                with_request(old(ctx)@.merchant.data, new_wallet, now as int),
            ),
            ..old(ctx)@
        }),
        old(ctx)@.merchant.data.wf() ==> final(ctx)@.merchant.data.wf(),
{
    let unlocks_at: i64 = now + WALLET_UPDATE_DELAY;
    ctx.merchant.data.pending_wallet = Some(new_wallet);
    ctx.merchant.data.wallet_update_at = Some(unlocks_at);
    Ok(
        WalletUpdateRequested {
            merchant_id: ctx.merchant.data.merchant_id.clone(),
            new_wallet,
            unlocks_at,
        },
    )
}

/// Why a confirmation at `now` is refused, if it is.
pub open spec fn confirm_error(merchant: MerchantView, now: int) -> Option<SettlError> {
    match merchant.wallet_update_at {
        None => Some(SettlError::NoWalletUpdatePending),
        Some(unlock_at) => if now < unlock_at {
            Some(SettlError::WalletUpdateNotReady)
        } else if merchant.pending_wallet is None {
            Some(SettlError::NoWalletUpdatePending)
        } else {
            None
        },
    }
}

/// An entry whose pending wallet was put in place.
pub open spec fn with_confirmation(merchant: MerchantView) -> MerchantView {
    MerchantView {
        wallet: merchant.pending_wallet->0,
        pending_wallet: None,
        wallet_update_at: None,
        ..merchant
    }
}

/// Puts a requested wallet in place, once its delay has passed.
pub fn confirm_wallet_update(ctx: &mut ManageMerchant, now: i64) -> (res: Result<
    WalletUpdated,
    SettlError,
>)
    ensures
        match res {
            Ok(event) => {
                &&& confirm_error(old(ctx)@.merchant.data, now as int) is None
                &&& final(ctx)@ == (ManageMerchantView {
                    merchant: old(ctx)@.merchant.with(
                        with_confirmation(old(ctx)@.merchant.data),
                    ),
                    ..old(ctx)@
                })
                &&& event == (WalletUpdated {
                    merchant_id: old(ctx).merchant.data.merchant_id,
                    old_wallet: old(ctx).merchant.data.wallet,
                    new_wallet: old(ctx).merchant.data.pending_wallet->0,
                })
            },
            Err(error) => {
                &&& confirm_error(old(ctx)@.merchant.data, now as int) == Some(error)
                &&& *final(ctx) == *old(ctx)
            },
        },
        old(ctx)@.merchant.data.wf() ==> final(ctx)@.merchant.data.wf(),
{
    let unlock_at: i64 = match ctx.merchant.data.wallet_update_at {
        Some(at) => at,
        None => return Err(SettlError::NoWalletUpdatePending),
    };
    if now < unlock_at {
        return Err(SettlError::WalletUpdateNotReady);
    }
    let new_wallet = match ctx.merchant.data.pending_wallet {
        Some(wallet) => wallet,
        None => return Err(SettlError::NoWalletUpdatePending),
    };
    let old_wallet = ctx.merchant.data.wallet;
    ctx.merchant.data.wallet = new_wallet;
    ctx.merchant.data.pending_wallet = None;
    ctx.merchant.data.wallet_update_at = None;
    Ok(
        WalletUpdated {
            merchant_id: ctx.merchant.data.merchant_id.clone(),
            old_wallet,
            new_wallet,
        },
    )
}

/// An entry closed to payments.
pub open spec fn deactivated(merchant: MerchantView) -> MerchantView {
    MerchantView { is_active: false, ..merchant }
}

/// Closes a merchant: the escrow accepts no more deposits. Never fails.
pub fn deactivate_merchant(ctx: &mut ManageMerchant) -> (res: Result<
    MerchantDeactivated,
    SettlError,
>)
    ensures
        res == Ok::<MerchantDeactivated, SettlError>(
            MerchantDeactivated { merchant_id: old(ctx).merchant.data.merchant_id },
        ),
        final(ctx)@ == (ManageMerchantView {
            merchant: old(ctx)@.merchant.with(deactivated(old(ctx)@.merchant.data)),
            ..old(ctx)@
        }),
        old(ctx)@.merchant.data.wf() ==> final(ctx)@.merchant.data.wf(),
{
    ctx.merchant.data.is_active = false;
    Ok(MerchantDeactivated { merchant_id: ctx.merchant.data.merchant_id.clone() })
}

} // verus!
