//! What a call returns and leaves behind, in terms of what it was given.
//!
//! The laws here speak of calls of the library's functions: of the arguments, of the
//! result, and of the accounts before and after. An account that a law does not name
//! stays as it is.
use vstd::prelude::*;
#[allow(unused_imports)]
use vstd::utf8::*;

#[allow(unused_imports)]
use crate::accounts::{
    Deposit, DepositView, InitializeConfig, InitializeConfigBumps, InitializeConfigView,
    InitializeEscrow, InitializeEscrowBumps, InitializeEscrowView, ManageConfig, ManageConfigView,
    ManageMerchant, ManageMerchantView, RegisterMerchant, RegisterMerchantBumps,
    RegisterMerchantView, Release, ReleaseView, UpdateEscrowWallet, UpdateEscrowWalletView,
};
#[allow(unused_imports)]
use crate::config;
#[allow(unused_imports)]
use crate::error::{AccountName, InstructionError, SettlError};
#[allow(unused_imports)]
use crate::escrow;
#[allow(unused_imports)]
use crate::escrow::ReleasePlan;
#[allow(unused_imports)]
use crate::events::{
    ConfigInitialized, EscrowInitialized, FeeUpdated, FundsReleased, MerchantDeactivated,
    MerchantRegistered, PaymentReceived, TreasuryUpdated, WalletUpdateRequested, WalletUpdated,
};
#[allow(unused_imports)]
use crate::merchant;
#[allow(unused_imports)]
use crate::processor;
#[allow(unused_imports)]
use crate::pubkey::Pubkey;
#[allow(unused_imports)]
use crate::state;
#[allow(unused_imports)]
use crate::state::{ConfigView, EscrowView, MerchantView};
#[allow(unused_imports)]
use crate::transfer::TokenTransfer;

verus! {

/// Creating the configuration stores the rate, the treasury wallet and the signer,
/// and reports them. Only a rate of more than 10% is refused.
pub proof fn law_initialize_config(
    ctx: &mut InitializeConfig,
    bumps: InitializeConfigBumps,
    rate: u16,
    res: Result<ConfigInitialized, SettlError>,
)
    requires
        call_ensures(config::initialize_config, (ctx, bumps, rate), res),
    ensures
        final(ctx)@ == (InitializeConfigView { config: final(ctx)@.config, ..old(ctx)@ }),
        res is Ok <==> rate <= 1_000,
        res matches Err(error) ==> error == SettlError::FeeTooHigh && *final(ctx) == *old(ctx),
        res matches Ok(event) ==> {
            &&& final(ctx).config.key == old(ctx).config.key
            &&& final(ctx).config.data.fee_basis_points == rate
            &&& final(ctx).config.data.treasury_wallet == old(ctx).treasury_wallet
            &&& final(ctx).config.data.authority == old(ctx).authority
            &&& final(ctx).config.data.total_fees_collected == 0
            &&& final(ctx).config.data.bump == bumps.config
            &&& event.fee_basis_points == rate
            &&& event.treasury_wallet == old(ctx).treasury_wallet
            &&& event.authority == old(ctx).authority
        },
{
}

/// A change of the rate stores the rate given, and reports it with the one before.
/// Nothing else of the configuration changes. Only a rate of more than 10% is
/// refused.
pub proof fn law_update_fee(
    ctx: &mut ManageConfig,
    rate: u16,
    res: Result<FeeUpdated, SettlError>,
)
    requires
        call_ensures(config::update_fee, (ctx, rate), res),
    ensures
        final(ctx)@ == (ManageConfigView { config: final(ctx)@.config, ..old(ctx)@ }),
        res is Ok <==> rate <= 1_000,
        res matches Err(error) ==> error == SettlError::FeeTooHigh && *final(ctx) == *old(ctx),
        res matches Ok(event) ==> {
            &&& final(ctx).config.key == old(ctx).config.key
            &&& final(ctx).config.data.fee_basis_points == rate
            &&& final(ctx).config.data.treasury_wallet == old(ctx).config.data.treasury_wallet
            &&& final(ctx).config.data.authority == old(ctx).config.data.authority
            &&& final(ctx).config.data.total_fees_collected
                == old(ctx).config.data.total_fees_collected
            &&& final(ctx).config.data.bump == old(ctx).config.data.bump
            &&& event.old_fee == old(ctx).config.data.fee_basis_points
            &&& event.new_fee == rate
        },
{
}

/// A change of the treasury stores the wallet given, and reports it. Nothing else of
/// the configuration changes, and nothing is refused.
pub proof fn law_update_treasury(
    ctx: &mut ManageConfig,
    res: Result<TreasuryUpdated, SettlError>,
)
    requires
        call_ensures(config::update_treasury, (ctx,), res),
    ensures
        final(ctx)@ == (ManageConfigView { config: final(ctx)@.config, ..old(ctx)@ }),
        res matches Ok(event) && event.new_treasury == old(ctx).new_treasury,
        final(ctx).config.key == old(ctx).config.key,
        final(ctx).config.data.treasury_wallet == old(ctx).new_treasury,
        final(ctx).config.data.fee_basis_points == old(ctx).config.data.fee_basis_points,
        final(ctx).config.data.authority == old(ctx).config.data.authority,
        final(ctx).config.data.total_fees_collected == old(ctx).config.data.total_fees_collected,
        final(ctx).config.data.bump == old(ctx).config.data.bump,
{
}

/// An identifier is valid exactly with at most 64 bytes.
pub proof fn law_is_valid_merchant_id(merchant_id: &String, valid: bool)
    requires
        call_ensures(state::is_valid_merchant_id, (merchant_id,), valid),
    ensures
        valid <==> encode_utf8(merchant_id@).len() <= 64,
{
}

/// A registration stores the identifier, the wallet and the time given, and reports
/// them. The entry is active and its signer's, with nothing released and no change
/// open. Only an identifier of more than 64 bytes is refused.
pub proof fn law_register_merchant(
    ctx: &mut RegisterMerchant,
    bumps: RegisterMerchantBumps,
    merchant_id: String,
    wallet: Pubkey,
    now: i64,
    res: Result<MerchantRegistered, SettlError>,
)
    requires
        call_ensures(merchant::register_merchant, (ctx, bumps, merchant_id, wallet, now), res),
    ensures
        final(ctx)@ == (RegisterMerchantView { merchant: final(ctx)@.merchant, ..old(ctx)@ }),
        res is Ok <==> encode_utf8(merchant_id@).len() <= 64,
        res matches Err(error) ==> error == SettlError::MerchantIdTooLong && *final(ctx) == *old(
            ctx,
        ),
        res matches Ok(event) ==> {
            &&& final(ctx).merchant.key == old(ctx).merchant.key
            &&& final(ctx).merchant.data.merchant_id@ == merchant_id@
            &&& final(ctx).merchant.data.wallet == wallet
            &&& final(ctx).merchant.data.is_active
            &&& final(ctx).merchant.data.registered_at == now
            &&& final(ctx).merchant.data.total_released == 0
            &&& final(ctx).merchant.data.total_fees_paid == 0
            &&& final(ctx).merchant.data.authority == old(ctx).authority
            &&& final(ctx).merchant.data.pending_wallet is None
            &&& final(ctx).merchant.data.wallet_update_at is None
            &&& final(ctx).merchant.data.bump == bumps.merchant
            &&& event.merchant_id@ == merchant_id@
            &&& event.wallet_address == wallet
            &&& event.registered_at == now
        },
{
}

/// The parts of an entry that wallet changes and deactivation leave alone.
pub open spec fn same_merchant(before: MerchantView, after: MerchantView) -> bool {
    &&& after.merchant_id == before.merchant_id
    &&& after.registered_at == before.registered_at
    &&& after.total_released == before.total_released
    &&& after.total_fees_paid == before.total_fees_paid
    &&& after.authority == before.authority
    &&& after.bump == before.bump
}

/// A request opens a change to the wallet given, for 24 hours later, and reports
/// both. The wallet in force stays, and nothing is refused.
pub proof fn law_request_wallet_update(
    ctx: &mut ManageMerchant,
    wallet: Pubkey,
    now: i64,
    res: Result<WalletUpdateRequested, SettlError>,
)
    requires
        now + 24 * 60 * 60 <= i64::MAX,
        call_ensures(merchant::request_wallet_update, (ctx, wallet, now), res),
    ensures
        final(ctx)@ == (ManageMerchantView { merchant: final(ctx)@.merchant, ..old(ctx)@ }),
        res matches Ok(event) && event.merchant_id@ == old(ctx).merchant.data.merchant_id@
            && event.new_wallet == wallet && event.unlocks_at == now + 24 * 60 * 60,
        final(ctx).merchant.key == old(ctx).merchant.key,
        final(ctx).merchant.data.pending_wallet == Some(wallet),
        final(ctx).merchant.data.wallet_update_at matches Some(at) && at == now + 24 * 60 * 60,
        final(ctx).merchant.data.wallet == old(ctx).merchant.data.wallet,
        final(ctx).merchant.data.is_active == old(ctx).merchant.data.is_active,
        same_merchant(old(ctx).merchant.data@, final(ctx).merchant.data@),
{
}

/// A confirmation puts the pending wallet in force from the unlock time on, and
/// reports it with the wallet before. It is refused before that time, and where no
/// change is open.
pub proof fn law_confirm_wallet_update(
    ctx: &mut ManageMerchant,
    now: i64,
    res: Result<WalletUpdated, SettlError>,
)
    requires
        call_ensures(merchant::confirm_wallet_update, (ctx, now), res),
    ensures
        final(ctx)@ == (ManageMerchantView { merchant: final(ctx)@.merchant, ..old(ctx)@ }),
        ({
            let before = old(ctx).merchant.data;
            let after = final(ctx).merchant.data;
            match (before.wallet_update_at, before.pending_wallet) {
                (None, _) => res == Err::<WalletUpdated, SettlError>(
                    SettlError::NoWalletUpdatePending,
                ),
                (Some(at), pending) => if now < at {
                    res == Err::<WalletUpdated, SettlError>(SettlError::WalletUpdateNotReady)
                } else if pending is None {
                    res == Err::<WalletUpdated, SettlError>(SettlError::NoWalletUpdatePending)
                } else {
                    &&& after.wallet == pending->0
                    &&& after.pending_wallet is None
                    &&& after.wallet_update_at is None
                    &&& after.is_active == before.is_active
                    &&& same_merchant(before@, after@)
                    &&& res matches Ok(event) && event.merchant_id@ == before.merchant_id@
                        && event.old_wallet == before.wallet && event.new_wallet == pending->0
                },
            }
        }),
        res is Err ==> *final(ctx) == *old(ctx),
        final(ctx).merchant.key == old(ctx).merchant.key,
{
}

/// A deactivation closes the merchant and reports it. Nothing else changes, and
/// nothing is refused.
pub proof fn law_deactivate_merchant(
    ctx: &mut ManageMerchant,
    res: Result<MerchantDeactivated, SettlError>,
)
    requires
        call_ensures(merchant::deactivate_merchant, (ctx,), res),
    ensures
        final(ctx)@ == (ManageMerchantView { merchant: final(ctx)@.merchant, ..old(ctx)@ }),
        res matches Ok(event) && event.merchant_id@ == old(ctx).merchant.data.merchant_id@,
        final(ctx).merchant.key == old(ctx).merchant.key,
        !final(ctx).merchant.data.is_active,
        final(ctx).merchant.data.wallet == old(ctx).merchant.data.wallet,
        final(ctx).merchant.data.pending_wallet == old(ctx).merchant.data.pending_wallet,
        final(ctx).merchant.data@.wallet_update_at == old(ctx).merchant.data@.wallet_update_at,
        same_merchant(old(ctx).merchant.data@, final(ctx).merchant.data@),
{
}

/// Creating an escrow stores the identifier given and the wallet in force in the
/// merchant's entry, and reports them. The escrow is its signer's, with nothing paid
/// or released. Only an identifier of more than 64 bytes is refused.
pub proof fn law_initialize_merchant_escrow(
    ctx: &mut InitializeEscrow,
    bumps: InitializeEscrowBumps,
    merchant_id: String,
    res: Result<EscrowInitialized, SettlError>,
)
    requires
        call_ensures(escrow::initialize_merchant_escrow, (ctx, bumps, merchant_id), res),
    ensures
        final(ctx)@ == (InitializeEscrowView { escrow: final(ctx)@.escrow, ..old(ctx)@ }),
        res is Ok <==> encode_utf8(merchant_id@).len() <= 64,
        res matches Err(error) ==> error == SettlError::MerchantIdTooLong && *final(ctx) == *old(
            ctx,
        ),
        res matches Ok(event) ==> {
            &&& final(ctx).escrow.key == old(ctx).escrow.key
            &&& final(ctx).escrow.data.merchant_id@ == merchant_id@
            &&& final(ctx).escrow.data.merchant_wallet == old(ctx).merchant.data.wallet
            &&& final(ctx).escrow.data.pending_balance == 0
            &&& final(ctx).escrow.data.total_payments == 0
            &&& final(ctx).escrow.data.last_released_at == 0
            &&& final(ctx).escrow.data.authority == old(ctx).authority
            &&& final(ctx).escrow.data.bump == bumps.escrow
            &&& final(ctx).escrow.data.vault_bump == bumps.vault
            &&& event.merchant_id@ == merchant_id@
            &&& event.merchant_wallet == old(ctx).merchant.data.wallet
        },
{
}

/// Bringing an escrow up to date gives it the wallet in force in the entry. Nothing
/// else changes, and nothing is refused.
pub proof fn law_update_escrow_wallet(ctx: &mut UpdateEscrowWallet, res: Result<(), SettlError>)
    requires
        call_ensures(escrow::update_escrow_wallet, (ctx,), res),
    ensures
        final(ctx)@ == (UpdateEscrowWalletView { escrow: final(ctx)@.escrow, ..old(ctx)@ }),
        res is Ok,
        final(ctx).escrow.key == old(ctx).escrow.key,
        final(ctx).escrow.data.merchant_wallet == old(ctx).merchant.data.wallet,
        final(ctx).escrow.data.merchant_id@ == old(ctx).escrow.data.merchant_id@,
        final(ctx).escrow.data.pending_balance == old(ctx).escrow.data.pending_balance,
        final(ctx).escrow.data.total_payments == old(ctx).escrow.data.total_payments,
        final(ctx).escrow.data.last_released_at == old(ctx).escrow.data.last_released_at,
        final(ctx).escrow.data.authority == old(ctx).escrow.data.authority,
        final(ctx).escrow.data.bump == old(ctx).escrow.data.bump,
        final(ctx).escrow.data.vault_bump == old(ctx).escrow.data.vault_bump,
{
}

/// A deposit is refused with nothing to pay, for an inactive merchant, and for an
/// identifier that is not the escrow's. Else the amount is ordered from the
/// customer's token account into the vault, with the customer's signature and no
/// other.
pub proof fn law_deposit(
    ctx: &Deposit,
    merchant_id: String,
    amount: u64,
    res: Result<TokenTransfer, SettlError>,
)
    requires
        call_ensures(escrow::deposit, (ctx, merchant_id, amount), res),
    ensures
        if amount == 0 {
            res == Err::<TokenTransfer, SettlError>(SettlError::ZeroAmount)
        } else if !ctx.merchant.data.is_active {
            res == Err::<TokenTransfer, SettlError>(SettlError::MerchantInactive)
        } else if ctx.escrow.data.merchant_id@ != merchant_id@ {
            res == Err::<TokenTransfer, SettlError>(SettlError::MerchantMismatch)
        } else {
            res matches Ok(order) && order.from == ctx.customer_ata.key && order.to
                == ctx.vault.key && order.authority == ctx.customer && order.amount == amount
                && order.signer_seeds@.len() == 0
        },
{
    if let Ok(order) = res {
        assert(order@.signer_seeds.len() == order.signer_seeds@.len());
    }
}

/// Booking a deposit adds its amount to what is pending and one to the payments, and
/// reports the customer, the amount, the new balance and the time. It is refused
/// where a sum exceeds 64 bits, and then changes nothing.
pub proof fn law_record_deposit(
    ctx: &mut Deposit,
    order: &TokenTransfer,
    now: i64,
    res: Result<PaymentReceived, SettlError>,
)
    requires
        call_ensures(escrow::record_deposit, (ctx, order, now), res),
    ensures
        final(ctx)@ == (DepositView { escrow: final(ctx)@.escrow, ..old(ctx)@ }),
        res is Ok <==> old(ctx).escrow.data.pending_balance + order.amount
            <= 0xffff_ffff_ffff_ffff && old(ctx).escrow.data.total_payments + 1
            <= 0xffff_ffff_ffff_ffff,
        res matches Err(error) ==> error == SettlError::Overflow && *final(ctx) == *old(ctx),
        res matches Ok(event) ==> {
            &&& final(ctx).escrow.key == old(ctx).escrow.key
            &&& final(ctx).escrow.data.pending_balance == old(ctx).escrow.data.pending_balance
                + order.amount
            &&& final(ctx).escrow.data.total_payments == old(ctx).escrow.data.total_payments + 1
            &&& final(ctx).escrow.data.merchant_id@ == old(ctx).escrow.data.merchant_id@
            &&& final(ctx).escrow.data.merchant_wallet == old(ctx).escrow.data.merchant_wallet
            &&& final(ctx).escrow.data.last_released_at == old(ctx).escrow.data.last_released_at
            &&& final(ctx).escrow.data.authority == old(ctx).escrow.data.authority
            &&& final(ctx).escrow.data.bump == old(ctx).escrow.data.bump
            &&& final(ctx).escrow.data.vault_bump == old(ctx).escrow.data.vault_bump
            &&& event.merchant_id@ == old(ctx).escrow.data.merchant_id@
            &&& event.customer_wallet == old(ctx).customer
            &&& event.amount == order.amount
            &&& event.pending_balance == final(ctx).escrow.data.pending_balance
            &&& event.timestamp == now
        },
{
}

/// A split gives the exact share, rounded down, and the rest. It is refused where
/// the product exceeds 64 bits or the share the whole.
pub proof fn law_split_gross(gross: u64, rate: u16, res: Result<(u64, u64), SettlError>)
    requires
        call_ensures(escrow::split_gross, (gross, rate), res),
    ensures
        res is Ok <==> gross * rate <= 0xffff_ffff_ffff_ffff && gross * rate < 10_000 * (gross
            + 1),
        res matches Err(error) ==> error == SettlError::Overflow,
        res matches Ok((fee, net)) ==> {
            &&& 10_000 * fee <= gross * rate < 10_000 * (fee + 1)
            &&& fee + net == gross
        },
{
}

/// A release is refused for an identifier that is not the escrow's, with nothing
/// pending, and where the split is refused. Else it splits what is pending at the
/// configuration's rate, and orders the net to the merchant's token account and
/// then, if there is one, the fee to the treasury's, out of the vault and signed by
/// the escrow's seeds.
pub proof fn law_release(
    ctx: &Release,
    merchant_id: String,
    res: Result<ReleasePlan, SettlError>,
)
    requires
        call_ensures(escrow::release, (ctx, merchant_id), res),
    ensures
        ({
            let pending = ctx.escrow.data.pending_balance;
            let product = pending * ctx.config.data.fee_basis_points;
            if ctx.escrow.data.merchant_id@ != merchant_id@ {
                res == Err::<ReleasePlan, SettlError>(SettlError::MerchantMismatch)
            } else if pending == 0 {
                res == Err::<ReleasePlan, SettlError>(SettlError::ZeroBalance)
            } else if product > 0xffff_ffff_ffff_ffff || product >= 10_000 * (pending + 1) {
                res == Err::<ReleasePlan, SettlError>(SettlError::Overflow)
            } else {
                &&& res matches Ok(plan) && {
                    &&& plan.gross == pending
                    &&& plan.fee == product / 10_000
                    &&& plan.net == pending - plan.fee
                    &&& plan.payouts@.len() == if plan.fee > 0 { 2nat } else { 1nat }
                    &&& is_payout(
                        ctx,
                        merchant_id@,
                        plan.payouts@[0],
                        ctx.merchant_ata.key,
                        plan.net,
                    )
                    &&& plan.fee > 0 ==> is_payout(
                        ctx,
                        merchant_id@,
                        plan.payouts@[1],
                        ctx.treasury_ata.key,
                        plan.fee,
                    )
                }
            }
        }),
{
    if let Ok(plan) = res {
        lemma_payouts_in_full(ctx, merchant_id@, plan);
    }
}

/// An order of an amount out of the vault of a release, signed for by the escrow.
pub open spec fn is_payout(
    ctx: &Release,
    merchant_id: Seq<char>,
    order: TokenTransfer,
    to: Pubkey,
    amount: u64,
) -> bool {
    &&& order.from == ctx.vault.key
    &&& order.to == to
    &&& order.authority == ctx.escrow.key
    &&& order.amount == amount
    &&& order.signer_seeds@.len() == 3
    &&& order.signer_seeds@[0]@ == encode_utf8("escrow"@)
    &&& order.signer_seeds@[1]@ == encode_utf8(merchant_id)
    &&& order.signer_seeds@[2]@ == seq![ctx.escrow.data.bump]
}

/// The orders of a plan, with their seeds one by one.
pub proof fn lemma_payouts_in_full(ctx: &Release, merchant_id: Seq<char>, plan: ReleasePlan)
    requires
        plan@ == escrow::release_plan(ctx@, merchant_id),
    ensures
        plan.payouts@.len() == if plan.fee > 0 { 2nat } else { 1nat },
        is_payout(ctx, merchant_id, plan.payouts@[0], ctx.merchant_ata.key, plan.net),
        plan.fee > 0 ==> is_payout(
            ctx,
            merchant_id,
            plan.payouts@[1],
            ctx.treasury_ata.key,
            plan.fee,
        ),
{
    let orders = plan.payouts@;
    let seeds = seq![
        encode_utf8("escrow"@),
        encode_utf8(merchant_id),
        seq![ctx.escrow.data.bump],
    ];
    assert(plan@.payouts.len() == orders.len());
    assert(plan@.payouts[0] == orders[0]@);
    assert(escrow::escrow_signer_seeds(merchant_id, ctx.escrow.data.bump) =~= seeds);
    assert(orders[0]@.signer_seeds.len() == orders[0].signer_seeds@.len());
    assert forall|k: int| 0 <= k < 3 implies #[trigger] orders[0].signer_seeds@[k]@ == seeds[k] by {
        assert(orders[0]@.signer_seeds[k] == orders[0].signer_seeds@[k]@);
    }
    if plan.fee > 0 {
        assert(plan@.payouts[1] == orders[1]@);
        assert(orders[1]@.signer_seeds.len() == orders[1].signer_seeds@.len());
        assert forall|k: int| 0 <= k < 3 implies #[trigger] orders[1].signer_seeds@[k]@
            == seeds[k] by {
            assert(orders[1]@.signer_seeds[k] == orders[1].signer_seeds@[k]@);
        }
    }
}

/// Booking a release adds the net to what the merchant was paid, the fee to what it
/// paid in fees and to what was collected, leaves nothing pending, dates the release
/// and reports it. It is refused where a sum exceeds 64 bits, and then changes
/// nothing.
pub proof fn law_settle_release(
    ctx: &mut Release,
    plan: &ReleasePlan,
    now: i64,
    res: Result<FundsReleased, SettlError>,
)
    requires
        call_ensures(escrow::settle_release, (ctx, plan, now), res),
    ensures
        final(ctx)@ == (ReleaseView {
            config: final(ctx)@.config,
            merchant: final(ctx)@.merchant,
            escrow: final(ctx)@.escrow,
            ..old(ctx)@
        }),
        res is Ok <==> {
            &&& old(ctx).merchant.data.total_released + plan.net <= 0xffff_ffff_ffff_ffff
            &&& old(ctx).merchant.data.total_fees_paid + plan.fee <= 0xffff_ffff_ffff_ffff
            &&& old(ctx).config.data.total_fees_collected + plan.fee <= 0xffff_ffff_ffff_ffff
        },
        res matches Err(error) ==> error == SettlError::Overflow && *final(ctx) == *old(ctx),
        res matches Ok(event) ==> {
            &&& final(ctx).config.data@ == (ConfigView {
                total_fees_collected: (old(ctx).config.data.total_fees_collected
                    + plan.fee) as nat,
                ..old(ctx).config.data@
            })
            &&& final(ctx).merchant.data@ == (MerchantView {
                total_released: (old(ctx).merchant.data.total_released + plan.net) as nat,
                total_fees_paid: (old(ctx).merchant.data.total_fees_paid + plan.fee) as nat,
                ..old(ctx).merchant.data@
            })
            &&& final(ctx).escrow.data@ == (EscrowView {
                pending_balance: 0,
                last_released_at: now as int,
                ..old(ctx).escrow.data@
            })
            &&& final(ctx).config.key == old(ctx).config.key
            &&& final(ctx).merchant.key == old(ctx).merchant.key
            &&& final(ctx).escrow.key == old(ctx).escrow.key
            &&& final(ctx).config.data.total_fees_collected
                == old(ctx).config.data.total_fees_collected + plan.fee
            &&& final(ctx).merchant.data.total_released == old(ctx).merchant.data.total_released
                + plan.net
            &&& final(ctx).merchant.data.total_fees_paid == old(ctx).merchant.data.total_fees_paid
                + plan.fee
            &&& final(ctx).escrow.data.pending_balance == 0
            &&& final(ctx).escrow.data.last_released_at == now
            &&& event.merchant_id@ == old(ctx).escrow.data.merchant_id@
            &&& event.merchant_wallet == old(ctx).escrow.data.merchant_wallet
            &&& event.gross == plan.gross
            &&& event.fee == plan.fee
            &&& event.net == plan.net
            &&& event.released_at == now
        },
{
}

} // verus!
