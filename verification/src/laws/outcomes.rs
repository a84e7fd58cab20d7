//! What each instruction leaves behind, in terms of what it was given.
use vstd::prelude::*;
#[allow(unused_imports)]
use vstd::utf8::*;

#[allow(unused_imports)]
use crate::accounts::{
    AccountView, DepositView, InitializeConfigBumps, InitializeConfigView, InitializeEscrowBumps,
    InitializeEscrowView, RegisterMerchantBumps, RegisterMerchantView, ReleaseView,
};
#[allow(unused_imports)]
use crate::config;
#[allow(unused_imports)]
use crate::escrow;
#[allow(unused_imports)]
use crate::laws::fees;
#[allow(unused_imports)]
use crate::merchant;
#[allow(unused_imports)]
use crate::pubkey::Pubkey;
#[allow(unused_imports)]
use crate::state::{ConfigView, EscrowView, MerchantView};

verus! {

/// A created configuration holds the rate and the treasury wallet given. Its signer
/// is its authority, and nothing was collected yet.
pub proof fn law_created_config_holds_what_was_given(
    ctx: InitializeConfigView,
    bumps: InitializeConfigBumps,
    rate: nat,
)
    ensures
        config::new_config(ctx, bumps, rate).fee_basis_points == rate,
        config::new_config(ctx, bumps, rate).treasury_wallet == ctx.treasury_wallet,
        config::new_config(ctx, bumps, rate).authority == ctx.authority,
        config::new_config(ctx, bumps, rate).total_fees_collected == 0,
        config::new_config(ctx, bumps, rate).bump == bumps.config,
{
}

/// A change of the rate sets the rate given and nothing else.
pub proof fn law_fee_update_sets_the_rate(before: ConfigView, rate: nat)
    ensures
        config::with_fee(before, rate) == (ConfigView { fee_basis_points: rate, ..before }),
        config::with_fee(before, before.fee_basis_points) == before,
{
}

/// A change of the treasury sets the wallet given and nothing else.
pub proof fn law_treasury_update_sets_the_wallet(before: ConfigView, wallet: Pubkey)
    ensures
        config::with_treasury(before, wallet) == (ConfigView { treasury_wallet: wallet, ..before }),
        config::with_treasury(before, before.treasury_wallet) == before,
{
}

/// The last rate of at most 10% that changes have set, or the first rate.
pub open spec fn last_rate(first: nat, steps: Seq<fees::ConfigStep>) -> nat
    decreases steps.len(),
{
    if steps.len() == 0 {
        first
    } else {
        match steps.last() {
            fees::ConfigStep::UpdateFee(rate) => if rate <= 1_000 {
                rate
            } else {
                last_rate(first, steps.drop_last())
            },
            _ => last_rate(first, steps.drop_last()),
        }
    }
}

/// The last treasury wallet that changes have set, or the first one.
pub open spec fn last_treasury(first: Pubkey, steps: Seq<fees::ConfigStep>) -> Pubkey
    decreases steps.len(),
{
    if steps.len() == 0 {
        first
    } else {
        match steps.last() {
            fees::ConfigStep::UpdateTreasury(wallet) => wallet,
            _ => last_treasury(first, steps.drop_last()),
        }
    }
}

/// The rate and the treasury in force are those last set, or those that the
/// configuration was created with, after every history.
pub proof fn law_last_setting_is_in_force(
    ctx: InitializeConfigView,
    bumps: InitializeConfigBumps,
    rate: nat,
    steps: Seq<fees::ConfigStep>,
)
    ensures
        ({
            let now = fees::config_run(config::new_config(ctx, bumps, rate), steps);
            &&& now.fee_basis_points == last_rate(rate, steps)
            &&& now.treasury_wallet == last_treasury(ctx.treasury_wallet, steps)
        }),
    decreases steps.len(),
{
    if steps.len() > 0 {
        law_last_setting_is_in_force(ctx, bumps, rate, steps.drop_last());
    }
}

/// A registered merchant holds the identifier and the wallet given and the time of
/// the registration. It is active, its signer is its authority, nothing was
/// released, and no wallet change is open.
pub proof fn law_registered_merchant_holds_what_was_given(
    ctx: RegisterMerchantView,
    bumps: RegisterMerchantBumps,
    merchant_id: Seq<char>,
    wallet: Pubkey,
    now: int,
)
    ensures
        ({
            let entry = merchant::new_merchant(ctx, bumps, merchant_id, wallet, now);
            &&& entry.merchant_id == merchant_id
            &&& entry.wallet == wallet
            &&& entry.is_active
            &&& entry.registered_at == now
            &&& entry.total_released == 0
            &&& entry.total_fees_paid == 0
            &&& entry.authority == ctx.authority
            &&& entry.pending_wallet is None
            &&& entry.wallet_update_at is None
            &&& entry.bump == bumps.merchant
        }),
{
}

/// A request opens a change to the wallet given, for 24 hours later, and changes
/// nothing else.
pub proof fn law_request_opens_the_change(before: MerchantView, wallet: Pubkey, now: int)
    ensures
        merchant::with_request(before, wallet, now) == (MerchantView {
            pending_wallet: Some(wallet),
            wallet_update_at: Some(now + 24 * 60 * 60),
            ..before
        }),
{
}

/// A confirmation puts the pending wallet in force, closes the change, and changes
/// nothing else.
pub proof fn law_confirmation_closes_the_change(before: MerchantView, wallet: Pubkey)
    requires
        before.pending_wallet == Some(wallet),
    ensures
        merchant::with_confirmation(before) == (MerchantView {
            wallet,
            pending_wallet: None,
            wallet_update_at: None,
            ..before
        }),
{
}

/// A deactivation closes the merchant to deposits and changes nothing else.
pub proof fn law_deactivation_only_closes(before: MerchantView)
    ensures
        merchant::deactivated(before) == (MerchantView { is_active: false, ..before }),
{
}

/// A created escrow is for the identifier given and for the wallet in force in the
/// merchant's entry. Its signer is its authority, and nothing was paid or released.
pub proof fn law_created_escrow_holds_what_was_given(
    ctx: InitializeEscrowView,
    bumps: InitializeEscrowBumps,
    merchant_id: Seq<char>,
)
    ensures
        ({
            let created = escrow::new_escrow(ctx, bumps, merchant_id);
            &&& created.merchant_id == merchant_id
            &&& created.merchant_wallet == ctx.merchant.data.wallet
            &&& created.pending_balance == 0
            &&& created.total_payments == 0
            &&& created.last_released_at == 0
            &&& created.authority == ctx.authority
            &&& created.bump == bumps.escrow
            &&& created.vault_bump == bumps.vault
        }),
{
}

/// Bringing an escrow up to date gives it the wallet in force in the entry, and
/// changes nothing else. A newly created escrow is up to date already.
pub proof fn law_update_copies_the_wallet(
    before: EscrowView,
    entry: MerchantView,
    ctx: InitializeEscrowView,
    bumps: InitializeEscrowBumps,
    merchant_id: Seq<char>,
)
    ensures
        escrow::synced(before, entry) == (EscrowView { merchant_wallet: entry.wallet, ..before }),
        escrow::synced(escrow::new_escrow(ctx, bumps, merchant_id), ctx.merchant.data)
            == escrow::new_escrow(ctx, bumps, merchant_id),
{
}

/// A deposit of any amount orders that amount from the customer's token account into
/// the vault. The customer who signs the instruction signs for it, and the program
/// signs for nobody.
pub proof fn law_deposit_is_signed_by_the_customer(ctx: DepositView, amount: nat)
    ensures
        escrow::deposit_transfer(ctx, amount).authority == ctx.customer,
        escrow::deposit_transfer(ctx, amount).signer_seeds.len() == 0,
        escrow::deposit_transfer(ctx, amount).from == ctx.customer_ata.key,
        escrow::deposit_transfer(ctx, amount).to == ctx.vault.key,
        escrow::deposit_transfer(ctx, amount).amount == amount,
{
}

/// A booked deposit adds its amount to what is pending and one to the payments, and
/// changes nothing else. Two deposits add up in either order.
pub proof fn law_deposit_adds_its_amount(before: EscrowView, amount: nat, other: nat)
    ensures
        escrow::recorded(before, amount) == (EscrowView {
            pending_balance: before.pending_balance + amount,
            total_payments: before.total_payments + 1,
            ..before
        }),
        escrow::recorded(escrow::recorded(before, amount), other) == escrow::recorded(
            escrow::recorded(before, other),
            amount,
        ),
{
}

/// A deposit can be booked exactly when balance and count stay within 64 bits.
pub proof fn law_deposit_is_booked_within_64_bits(before: EscrowView, amount: nat)
    ensures
        escrow::can_record(before, amount) <==> {
            &&& before.pending_balance + amount <= 0xffff_ffff_ffff_ffff
            &&& before.total_payments + 1 <= 0xffff_ffff_ffff_ffff
        },
{
}

/// The fee of a split is the exact share of the gross amount, rounded down, and the
/// net is the rest. A split is possible exactly when the product of amount and rate
/// stays within 64 bits and the fee within the amount.
pub proof fn law_split_is_exact(gross: nat, rate: nat)
    ensures
        10_000 * escrow::fee_of(gross, rate) <= gross * rate,
        gross * rate < 10_000 * (escrow::fee_of(gross, rate) + 1),
        escrow::net_of(gross, rate) + escrow::fee_of(gross, rate) == gross,
        escrow::can_split(gross, rate) <==> gross * rate <= 0xffff_ffff_ffff_ffff && gross * rate
            < 10_000 * (gross + 1),
{
}

/// The fee of every accepted release is the share that the rate in force takes of
/// what is pending, rounded down, and the net is the rest. Gross is all of it.
pub proof fn law_release_takes_exactly_the_rate(ctx: ReleaseView, merchant_id: Seq<char>)
    requires
        escrow::release_error(ctx, merchant_id) is None,
    ensures
        ({
            let plan = escrow::release_plan(ctx, merchant_id);
            let pending = ctx.escrow.data.pending_balance;
            let rate = ctx.config.data.fee_basis_points;
            &&& plan.gross == pending
            &&& plan.fee == pending * rate / 10_000
            &&& 10_000 * plan.fee <= pending * rate < 10_000 * (plan.fee + 1)
            &&& plan.net == pending - plan.fee
            &&& plan.net + plan.fee == pending
        }),
{
}

/// The net of every accepted release is at least nine tenths of what is pending, and
/// the fee at most one tenth, at every rate that can be set.
pub proof fn law_release_leaves_nine_tenths(ctx: ReleaseView, merchant_id: Seq<char>)
    requires
        escrow::release_error(ctx, merchant_id) is None,
        ctx.config.data.fee_basis_points <= 1_000,
    ensures
        10 * escrow::release_plan(ctx, merchant_id).fee <= ctx.escrow.data.pending_balance,
        10 * escrow::release_plan(ctx, merchant_id).net >= 9 * ctx.escrow.data.pending_balance,
{
    fees::law_fee_is_capped(ctx.escrow.data.pending_balance, ctx.config.data.fee_basis_points);
    law_release_takes_exactly_the_rate(ctx, merchant_id);
}

/// A release takes the share of the rate last set, or of the rate that the
/// configuration was created with, after every history of the configuration.
pub proof fn law_release_takes_the_rate_last_set(
    created: InitializeConfigView,
    bumps: InitializeConfigBumps,
    rate: nat,
    steps: Seq<fees::ConfigStep>,
    ctx: ReleaseView,
    merchant_id: Seq<char>,
)
    requires
        escrow::release_error(ctx, merchant_id) is None,
        ctx.config.data == fees::config_run(config::new_config(created, bumps, rate), steps),
    ensures
        ({
            let fee = escrow::release_plan(ctx, merchant_id).fee;
            let share = ctx.escrow.data.pending_balance * last_rate(rate, steps);
            10_000 * fee <= share < 10_000 * (fee + 1)
        }),
{
    law_last_setting_is_in_force(created, bumps, rate, steps);
    law_release_takes_exactly_the_rate(ctx, merchant_id);
}

/// An accepted release orders the net to the merchant's token account and then, if
/// there is a fee, the fee to the treasury's. Both come out of the vault, and the
/// program signs for the escrow with the escrow's seeds.
pub proof fn law_release_orders_net_then_fee(ctx: ReleaseView, merchant_id: Seq<char>)
    ensures
        ({
            let plan = escrow::release_plan(ctx, merchant_id);
            &&& plan.payouts.len() == if plan.fee > 0 { 2nat } else { 1nat }
            &&& plan.payouts[0].to == ctx.merchant_ata.key
            &&& plan.payouts[0].amount == plan.net
            &&& plan.fee > 0 ==> plan.payouts[1].to == ctx.treasury_ata.key
            &&& plan.fee > 0 ==> plan.payouts[1].amount == plan.fee
            &&& forall|i: int|
                0 <= i < plan.payouts.len() ==> {
                    &&& (#[trigger] plan.payouts[i]).from == ctx.vault.key
                    &&& plan.payouts[i].authority == ctx.escrow.key
                    &&& plan.payouts[i].signer_seeds == seq![
                        encode_utf8("escrow"@),
                        encode_utf8(merchant_id),
                        seq![ctx.escrow.data.bump],
                    ]
                }
        }),
{
    let seeds = seq![
        encode_utf8("escrow"@),
        encode_utf8(merchant_id),
        seq![ctx.escrow.data.bump],
    ];
    assert(escrow::escrow_signer_seeds(merchant_id, ctx.escrow.data.bump) =~= seeds);
}

/// A booked release adds the net to what the merchant was paid, the fee to what it
/// paid in fees and to what was collected, leaves nothing pending and dates the
/// release. Nothing else changes, in no account.
pub proof fn law_release_books_net_and_fee(
    ctx: ReleaseView,
    plan: escrow::ReleasePlanView,
    now: int,
)
    ensures
        escrow::settled(ctx, plan, now) == (ReleaseView {
            config: AccountView {
                key: ctx.config.key,
                data: ConfigView {
                    total_fees_collected: ctx.config.data.total_fees_collected + plan.fee,
                    ..ctx.config.data
                },
            },
            merchant: AccountView {
                key: ctx.merchant.key,
                data: MerchantView {
                    total_released: ctx.merchant.data.total_released + plan.net,
                    total_fees_paid: ctx.merchant.data.total_fees_paid + plan.fee,
                    ..ctx.merchant.data
                },
            },
            escrow: AccountView {
                key: ctx.escrow.key,
                data: EscrowView {
                    pending_balance: 0,
                    last_released_at: now,
                    ..ctx.escrow.data
                },
            },
            ..ctx
        }),
{
}

/// A release can be booked exactly when the three totals stay within 64 bits.
pub proof fn law_release_is_booked_within_64_bits(
    ctx: ReleaseView,
    plan: escrow::ReleasePlanView,
)
    ensures
        escrow::can_settle(ctx, plan) <==> {
            &&& ctx.merchant.data.total_released + plan.net <= 0xffff_ffff_ffff_ffff
            &&& ctx.merchant.data.total_fees_paid + plan.fee <= 0xffff_ffff_ffff_ffff
            &&& ctx.config.data.total_fees_collected + plan.fee <= 0xffff_ffff_ffff_ffff
        },
{
}

/// What is deposited into a new escrow is what its first release pays, and the
/// merchant's totals grow by it.
pub proof fn law_deposit_comes_back_in_release(
    opened: InitializeEscrowView,
    bumps: InitializeEscrowBumps,
    merchant_id: Seq<char>,
    amount: nat,
    other: nat,
    ctx: ReleaseView,
    now: int,
)
    requires
        ctx.escrow.data == escrow::recorded(
            escrow::recorded(escrow::new_escrow(opened, bumps, merchant_id), amount),
            other,
        ),
        escrow::release_error(ctx, merchant_id) is None,
    ensures
        ({
            let plan = escrow::release_plan(ctx, merchant_id);
            let before = ctx.merchant.data;
            let after = escrow::settled(ctx, plan, now).merchant.data;
            &&& plan.gross == amount + other
            &&& after.total_released + after.total_fees_paid == before.total_released
                + before.total_fees_paid + amount + other
        }),
{
}

} // verus!
