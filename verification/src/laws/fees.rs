//! The fee model.
use vstd::prelude::*;

#[allow(unused_imports)]
use crate::accounts::ReleaseView;
#[allow(unused_imports)]
use crate::config;
#[allow(unused_imports)]
use crate::escrow;
#[allow(unused_imports)]
use crate::pubkey::Pubkey;
#[allow(unused_imports)]
use crate::state::{ConfigView, MerchantView, BASIS_POINTS, MAX_FEE_BASIS_POINTS};

verus! {

/// At a rate of at most 100%, fee and net are parts of the gross amount, and
/// together they are all of it.
pub proof fn law_split_conserves(gross: nat, fee_basis_points: nat)
    requires
        fee_basis_points <= BASIS_POINTS,
    ensures
        escrow::fee_of(gross, fee_basis_points) <= gross,
        0 <= escrow::net_of(gross, fee_basis_points) <= gross,
        escrow::fee_of(gross, fee_basis_points) + escrow::net_of(gross, fee_basis_points) == gross,
{
    assert(gross * fee_basis_points <= gross * 10_000) by (nonlinear_arith)
        requires
            fee_basis_points <= 10_000,
    ;
}

/// At any rate that can be set, the fee is at most a tenth of the gross amount,
/// so the merchant gets at least nine tenths.
pub proof fn law_fee_is_capped(gross: nat, fee_basis_points: nat)
    requires
        fee_basis_points <= MAX_FEE_BASIS_POINTS,
    ensures
        10 * escrow::fee_of(gross, fee_basis_points) <= gross,
        10 * escrow::net_of(gross, fee_basis_points) >= 9 * gross,
{
    assert(gross * fee_basis_points <= gross * 1_000) by (nonlinear_arith)
        requires
            fee_basis_points <= 1_000,
    ;
}

/// The fee is the exact share rounded down: it falls short of it by less than one
/// unit, and never exceeds it.
pub proof fn law_fee_rounds_down(gross: nat, fee_basis_points: nat)
    ensures
        BASIS_POINTS * escrow::fee_of(gross, fee_basis_points) <= gross * fee_basis_points,
        gross * fee_basis_points < BASIS_POINTS * (escrow::fee_of(gross, fee_basis_points) + 1),
{
}

/// More gross, or a higher rate, never means a lower fee.
pub proof fn law_fee_is_monotone(
    gross: nat,
    more_gross: nat,
    fee_basis_points: nat,
    more_basis_points: nat,
)
    requires
        gross <= more_gross,
        fee_basis_points <= more_basis_points,
    ensures
        escrow::fee_of(gross, fee_basis_points) <= escrow::fee_of(more_gross, more_basis_points),
{
    assert(gross * fee_basis_points <= more_gross * more_basis_points) by (nonlinear_arith)
        requires
            gross <= more_gross,
            fee_basis_points <= more_basis_points,
    ;
}

/// With a valid configuration a release of the right escrow with something pending
/// can only be refused because the fee product exceeds 64 bits.
pub proof fn law_release_is_owed(ctx: ReleaseView, merchant_id: Seq<char>)
    requires
        ctx.config.data.wf(),
        ctx.escrow.data.merchant_id == merchant_id,
        ctx.escrow.data.pending_balance > 0,
    ensures
        escrow::release_error(ctx, merchant_id) is None <==> ctx.escrow.data.pending_balance
            * ctx.config.data.fee_basis_points <= u64::MAX,
        ctx.escrow.data.pending_balance <= u64::MAX / 1_000 ==> escrow::release_error(
            ctx,
            merchant_id,
        ) is None,
{
    let gross = ctx.escrow.data.pending_balance;
    let rate = ctx.config.data.fee_basis_points;
    law_split_conserves(gross, rate);
    assert(gross * rate <= gross * 1_000) by (nonlinear_arith)
        requires
            rate <= 1_000,
    ;
}

/// A change to the configuration.
pub enum ConfigStep {
    /// An accepted or refused change of the fee rate.
    UpdateFee(nat),
    UpdateTreasury(Pubkey),
    /// A release that took a fee.
    Release(nat),
}

/// The configuration after a change. A fee rate over the cap is refused.
pub open spec fn config_step(config: ConfigView, step: ConfigStep) -> ConfigView {
    match step {
        ConfigStep::UpdateFee(rate) => if rate <= MAX_FEE_BASIS_POINTS {
            config::with_fee(config, rate)
        } else {
            config
        },
        ConfigStep::UpdateTreasury(wallet) => config::with_treasury(config, wallet),
        ConfigStep::Release(fee) => escrow::collected(config, fee),
    }
}

/// The configuration after changes, in their order.
pub open spec fn config_run(config: ConfigView, steps: Seq<ConfigStep>) -> ConfigView
    decreases steps.len(),
{
    if steps.len() == 0 {
        config
    } else {
        config_step(config_run(config, steps.drop_last()), steps.last())
    }
}

/// Whatever is done to a valid configuration, its fee rate stays within the cap,
/// its authority and its bump stay what they were, and the collected fees never
/// decrease.
pub proof fn law_config_stays_valid(config: ConfigView, steps: Seq<ConfigStep>)
    requires
        config.wf(),
    ensures
        config_run(config, steps).wf(),
        config_run(config, steps).authority == config.authority,
        config_run(config, steps).bump == config.bump,
        config_run(config, steps).total_fees_collected >= config.total_fees_collected,
    decreases steps.len(),
{
    if steps.len() > 0 {
        law_config_stays_valid(config, steps.drop_last());
    }
}

/// The fees that merchants have paid, all together.
pub open spec fn fees_paid(merchants: Seq<MerchantView>) -> nat
    decreases merchants.len(),
{
    if merchants.len() == 0 {
        0
    } else {
        fees_paid(merchants.drop_last()) + merchants.last().total_fees_paid
    }
}

/// Merchants that have paid no fee have paid none together.
pub proof fn lemma_no_fees_paid(merchants: Seq<MerchantView>)
    requires
        forall|i: int|
            0 <= i < merchants.len() ==> (#[trigger] merchants[i]).total_fees_paid == 0,
    ensures
        fees_paid(merchants) == 0,
    decreases merchants.len(),
{
    if merchants.len() > 0 {
        lemma_no_fees_paid(merchants.drop_last());
    }
}

/// Changing one merchant changes the sum by the difference.
pub proof fn lemma_fees_paid_update(merchants: Seq<MerchantView>, i: int, merchant: MerchantView)
    requires
        0 <= i < merchants.len(),
    ensures
        fees_paid(merchants.update(i, merchant)) == fees_paid(merchants)
            - merchants[i].total_fees_paid + merchant.total_fees_paid,
    decreases merchants.len(),
{
    let updated = merchants.update(i, merchant);
    if i == merchants.len() - 1 {
        assert(updated.drop_last() =~= merchants.drop_last());
    } else {
        assert(updated.drop_last() =~= merchants.drop_last().update(i, merchant));
        lemma_fees_paid_update(merchants.drop_last(), i, merchant);
    }
}

/// The collected fees of the configuration are the sum of what all merchants have
/// paid, and a release for any of them keeps it so.
pub proof fn law_fees_reconcile(
    merchants: Seq<MerchantView>,
    i: int,
    ctx: ReleaseView,
    plan: escrow::ReleasePlanView,
    now: int,
)
    requires
        0 <= i < merchants.len(),
        ctx.merchant.data == merchants[i],
        ctx.config.data.total_fees_collected == fees_paid(merchants),
    ensures
        escrow::settled(ctx, plan, now).config.data.total_fees_collected == fees_paid(
            merchants.update(i, escrow::settled(ctx, plan, now).merchant.data),
        ),
{
    lemma_fees_paid_update(merchants, i, escrow::settled(ctx, plan, now).merchant.data);
}

} // verus!
