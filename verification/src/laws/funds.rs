//! Where the money is, and where it goes.
use vstd::prelude::*;

#[allow(unused_imports)]
use crate::accounts::{
    DepositView, InitializeConfigBumps, InitializeConfigView, InitializeEscrowBumps,
    InitializeEscrowView, RegisterMerchantBumps, RegisterMerchantView, ReleaseView, TokenAccount,
};
#[allow(unused_imports)]
use crate::config;
#[allow(unused_imports)]
use crate::error::SettlError;
#[allow(unused_imports)]
use crate::escrow;
#[allow(unused_imports)]
use crate::laws::{fees, registry};
#[allow(unused_imports)]
use crate::merchant;
#[allow(unused_imports)]
use crate::processor;
#[allow(unused_imports)]
use crate::pubkey::Pubkey;
#[allow(unused_imports)]
use crate::state::{ConfigView, EscrowView, MerchantView};
#[allow(unused_imports)]
use crate::transfer;

verus! {

/// Unfolds the flow of one and of two transfers.
proof fn lemma_short_flows(
    first: transfer::TransferView,
    second: transfer::TransferView,
    account: Pubkey,
)
    ensures
        transfer::total_flow(seq![first], account) == transfer::flow(first, account),
        transfer::total_flow(seq![first, second], account) == transfer::flow(first, account)
            + transfer::flow(second, account),
{
    reveal_with_fuel(transfer::total_flow, 3);
    assert(seq![first].drop_last() =~= Seq::empty());
    assert(seq![first, second].drop_last() =~= seq![first]);
}

/// A release pays what is pending, whatever else the vault holds.
pub proof fn law_gross_is_pending(ctx: ReleaseView, merchant_id: Seq<char>)
    ensures
        escrow::release_plan(ctx, merchant_id).gross == ctx.escrow.data.pending_balance,
{
}

/// The token accounts of a release that stand at one address are one account.
pub open spec fn one_account_per_address(ctx: ReleaseView) -> bool {
    &&& ctx.merchant_ata.key == ctx.vault.key ==> ctx.merchant_ata == ctx.vault
    &&& ctx.treasury_ata.key == ctx.vault.key ==> ctx.treasury_ata == ctx.vault
    &&& ctx.treasury_ata.key == ctx.merchant_ata.key ==> ctx.treasury_ata == ctx.merchant_ata
}

/// Neither of the wallets that a release pays owns the vault. A vault is created
/// as the escrow's own, so this asks that the escrow is no such wallet.
pub open spec fn vault_is_apart(ctx: ReleaseView) -> bool {
    &&& ctx.vault.owner != ctx.escrow.data.merchant_wallet
    &&& ctx.vault.owner != ctx.config.data.treasury_wallet
}

/// On accepted accounts a release never pays the vault out of itself.
pub proof fn law_release_leaves_vault(ctx: ReleaseView, merchant_id: Seq<char>, program_id: Pubkey)
    requires
        processor::release_refusal(ctx, merchant_id, program_id) is None,
        one_account_per_address(ctx),
        vault_is_apart(ctx),
    ensures
        ctx.merchant_ata.key != ctx.vault.key,
        ctx.treasury_ata.key != ctx.vault.key,
{
}

/// A vault's balance after transfers.
pub open spec fn balance_after(
    vault: TokenAccount,
    transfers: Seq<transfer::TransferView>,
) -> int {
    vault.amount + transfer::total_flow(transfers, vault.key)
}

/// An accepted release takes exactly what was pending out of the vault, fee and net
/// together. A vault that held no more than that is empty afterwards.
pub proof fn law_release_takes_pending(
    ctx: ReleaseView,
    merchant_id: Seq<char>,
    program_id: Pubkey,
)
    requires
        processor::release_refusal(ctx, merchant_id, program_id) is None,
        escrow::release_error(ctx, merchant_id) is None,
        one_account_per_address(ctx),
        vault_is_apart(ctx),
    ensures
        ({
            let plan = escrow::release_plan(ctx, merchant_id);
            &&& plan.fee + plan.net == ctx.escrow.data.pending_balance
            &&& transfer::total_flow(plan.payouts, ctx.vault.key)
                == -ctx.escrow.data.pending_balance
            &&& ctx.vault.amount == ctx.escrow.data.pending_balance ==> balance_after(
                ctx.vault,
                plan.payouts,
            ) == 0
        }),
{
    law_release_leaves_vault(ctx, merchant_id, program_id);
    let plan = escrow::release_plan(ctx, merchant_id);
    let second = escrow::payout(ctx, merchant_id, ctx.treasury_ata.key, plan.fee);
    lemma_short_flows(plan.payouts[0], second, ctx.vault.key);
}

/// An accepted release brings the net to the merchant's token account and the fee
/// to the treasury's. This asks that these are two accounts.
pub proof fn law_release_pays_both(ctx: ReleaseView, merchant_id: Seq<char>, program_id: Pubkey)
    requires
        processor::release_refusal(ctx, merchant_id, program_id) is None,
        escrow::release_error(ctx, merchant_id) is None,
        one_account_per_address(ctx),
        vault_is_apart(ctx),
        ctx.merchant_ata.key != ctx.treasury_ata.key,
    ensures
        ({
            let plan = escrow::release_plan(ctx, merchant_id);
            &&& transfer::total_flow(plan.payouts, ctx.merchant_ata.key) == plan.net
            &&& transfer::total_flow(plan.payouts, ctx.treasury_ata.key) == plan.fee
        }),
{
    law_release_leaves_vault(ctx, merchant_id, program_id);
    let plan = escrow::release_plan(ctx, merchant_id);
    let second = escrow::payout(ctx, merchant_id, ctx.treasury_ata.key, plan.fee);
    lemma_short_flows(plan.payouts[0], second, ctx.merchant_ata.key);
    lemma_short_flows(plan.payouts[0], second, ctx.treasury_ata.key);
}

/// On accepted accounts the net is ordered to a token account of the merchant's
/// wallet, the fee, if there is one, to a token account of the treasury wallet, and
/// nothing else is ordered.
pub proof fn law_release_orders_for_wallets(
    ctx: ReleaseView,
    merchant_id: Seq<char>,
    program_id: Pubkey,
)
    requires
        processor::release_refusal(ctx, merchant_id, program_id) is None,
    ensures
        ({
            let plan = escrow::release_plan(ctx, merchant_id);
            &&& plan.payouts.len() == if plan.fee > 0 { 2nat } else { 1nat }
            &&& plan.payouts[0].to == ctx.merchant_ata.key
            &&& plan.payouts[0].amount == plan.net
            &&& ctx.merchant_ata.owner == ctx.escrow.data.merchant_wallet
            &&& plan.fee > 0 ==> {
                &&& plan.payouts[1].to == ctx.treasury_ata.key
                &&& plan.payouts[1].amount == plan.fee
                &&& ctx.treasury_ata.owner == ctx.config.data.treasury_wallet
            }
        }),
{
}

/// What the payouts of a release bring to the token accounts of a wallet, among
/// the one or two that they can go to.
pub open spec fn paid_to_wallet(ctx: ReleaseView, merchant_id: Seq<char>, wallet: Pubkey) -> int {
    let payouts = escrow::release_plan(ctx, merchant_id).payouts;
    let by_merchant_ata = if ctx.merchant_ata.owner == wallet {
        transfer::total_flow(payouts, ctx.merchant_ata.key)
    } else {
        0
    };
    let by_treasury_ata = if ctx.treasury_ata.owner == wallet && ctx.treasury_ata.key
        != ctx.merchant_ata.key {
        transfer::total_flow(payouts, ctx.treasury_ata.key)
    } else {
        0
    };
    by_merchant_ata + by_treasury_ata
}

/// The net of an accepted release reaches the merchant's wallet and the fee the
/// treasury wallet. Where these are one wallet, it gets all.
pub proof fn law_release_reaches_wallets(
    ctx: ReleaseView,
    merchant_id: Seq<char>,
    program_id: Pubkey,
)
    requires
        processor::release_refusal(ctx, merchant_id, program_id) is None,
        escrow::release_error(ctx, merchant_id) is None,
        one_account_per_address(ctx),
        vault_is_apart(ctx),
    ensures
        ({
            let plan = escrow::release_plan(ctx, merchant_id);
            let merchant_wallet = ctx.escrow.data.merchant_wallet;
            let treasury_wallet = ctx.config.data.treasury_wallet;
            if merchant_wallet == treasury_wallet {
                paid_to_wallet(ctx, merchant_id, merchant_wallet) == plan.gross
            } else {
                &&& paid_to_wallet(ctx, merchant_id, merchant_wallet) == plan.net
                &&& paid_to_wallet(ctx, merchant_id, treasury_wallet) == plan.fee
            }
        }),
{
    law_release_leaves_vault(ctx, merchant_id, program_id);
    if ctx.merchant_ata.key == ctx.treasury_ata.key {
        let plan = escrow::release_plan(ctx, merchant_id);
        let second = escrow::payout(ctx, merchant_id, ctx.treasury_ata.key, plan.fee);
        lemma_short_flows(plan.payouts[0], second, ctx.merchant_ata.key);
    } else {
        law_release_pays_both(ctx, merchant_id, program_id);
    }
}

/// All that was pending is booked: the merchant's two totals grow by it together,
/// the collected fees by the fee, and nothing is pending any more.
pub proof fn law_release_is_booked(ctx: ReleaseView, merchant_id: Seq<char>, now: int)
    requires
        escrow::release_error(ctx, merchant_id) is None,
    ensures
        ({
            let plan = escrow::release_plan(ctx, merchant_id);
            let after = escrow::settled(ctx, plan, now);
            &&& after.merchant.data.total_released + after.merchant.data.total_fees_paid
                == ctx.merchant.data.total_released + ctx.merchant.data.total_fees_paid
                + ctx.escrow.data.pending_balance
            &&& after.config.data.total_fees_collected - ctx.config.data.total_fees_collected
                == after.merchant.data.total_fees_paid - ctx.merchant.data.total_fees_paid
            &&& after.escrow.data.pending_balance == 0
        }),
{
}

/// What a vault holds beyond what its escrow says is pending.
pub open spec fn surplus(escrow: EscrowView, balance: int) -> int {
    balance - escrow.pending_balance
}

/// A deposit keeps the surplus of the vault: it brings to the vault what it adds to
/// the pending balance. This asks that the customer does not pay out of the vault
/// itself.
pub proof fn law_deposit_keeps_surplus(ctx: DepositView, amount: nat)
    requires
        ctx.customer_ata.key != ctx.vault.key,
    ensures
        surplus(
            escrow::recorded(ctx.escrow.data, amount),
            balance_after(ctx.vault, seq![escrow::deposit_transfer(ctx, amount)]),
        ) == surplus(ctx.escrow.data, ctx.vault.amount as int),
{
    let order = escrow::deposit_transfer(ctx, amount);
    lemma_short_flows(order, order, ctx.vault.key);
}

/// A release keeps the surplus of the vault, and leaves nothing else in it.
pub proof fn law_release_keeps_surplus(
    ctx: ReleaseView,
    merchant_id: Seq<char>,
    now: int,
    program_id: Pubkey,
)
    requires
        processor::release_refusal(ctx, merchant_id, program_id) is None,
        escrow::release_error(ctx, merchant_id) is None,
        one_account_per_address(ctx),
        vault_is_apart(ctx),
    ensures
        ({
            let plan = escrow::release_plan(ctx, merchant_id);
            let before = surplus(ctx.escrow.data, ctx.vault.amount as int);
            let left = balance_after(ctx.vault, plan.payouts);
            &&& surplus(escrow::settled(ctx, plan, now).escrow.data, left) == before
            &&& left == before
        }),
{
    law_release_takes_pending(ctx, merchant_id, program_id);
}

/// A second release with nothing paid in between is refused, whatever the vault
/// holds.
pub proof fn law_no_second_release(
    ctx: ReleaseView,
    merchant_id: Seq<char>,
    now: int,
    later: ReleaseView,
)
    requires
        escrow::release_error(ctx, merchant_id) is None,
        later.escrow == escrow::settled(
            ctx,
            escrow::release_plan(ctx, merchant_id),
            now,
        ).escrow,
    ensures
        escrow::release_error(later, merchant_id) == Some(SettlError::ZeroBalance),
{
}

/// An escrow after deposits, in their order.
pub open spec fn after_deposits(escrow: EscrowView, amounts: Seq<nat>) -> EscrowView
    decreases amounts.len(),
{
    if amounts.len() == 0 {
        escrow
    } else {
        escrow::recorded(after_deposits(escrow, amounts.drop_last()), amounts.last())
    }
}

/// The sum of amounts.
pub open spec fn sum(amounts: Seq<nat>) -> nat
    decreases amounts.len(),
{
    if amounts.len() == 0 {
        0
    } else {
        sum(amounts.drop_last()) + amounts.last()
    }
}

/// After a release, what is pending is the sum of the deposits made since, and
/// each of them was counted. Nothing else of the escrow changes by them.
pub proof fn law_pending_is_deposits_since_release(
    released: EscrowView,
    now: int,
    amounts: Seq<nat>,
)
    ensures
        after_deposits(escrow::emptied(released, now), amounts) == (EscrowView {
            pending_balance: sum(amounts),
            total_payments: released.total_payments + amounts.len(),
            last_released_at: now,
            ..released
        }),
    decreases amounts.len(),
{
    if amounts.len() > 0 {
        law_pending_is_deposits_since_release(released, now, amounts.drop_last());
    }
}

/// Something done to an escrow.
pub enum EscrowStep {
    Deposit(nat),
    Release(int),
    /// Bringing the wallet up to date with a merchant's entry.
    UpdateWallet(MerchantView),
}

/// The escrow after it.
pub open spec fn escrow_step(escrow: EscrowView, step: EscrowStep) -> EscrowView {
    match step {
        EscrowStep::Deposit(amount) => escrow::recorded(escrow, amount),
        EscrowStep::Release(now) => escrow::emptied(escrow, now),
        EscrowStep::UpdateWallet(merchant) => escrow::synced(escrow, merchant),
    }
}

/// The escrow after all that was done to it, in its order.
pub open spec fn escrow_run(escrow: EscrowView, steps: Seq<EscrowStep>) -> EscrowView
    decreases steps.len(),
{
    if steps.len() == 0 {
        escrow
    } else {
        escrow_step(escrow_run(escrow, steps.drop_last()), steps.last())
    }
}

/// Whatever is done to a valid escrow, it stays valid, it stays the same
/// merchant's with the same authority and at the same address, and the count of
/// its payments never decreases.
pub proof fn law_escrow_stays_valid(escrow: EscrowView, steps: Seq<EscrowStep>)
    requires
        escrow.wf(),
    ensures
        escrow_run(escrow, steps).wf(),
        escrow_run(escrow, steps).merchant_id == escrow.merchant_id,
        escrow_run(escrow, steps).authority == escrow.authority,
        escrow_run(escrow, steps).bump == escrow.bump,
        escrow_run(escrow, steps).vault_bump == escrow.vault_bump,
        escrow_run(escrow, steps).total_payments >= escrow.total_payments,
    decreases steps.len(),
{
    if steps.len() > 0 {
        law_escrow_stays_valid(escrow, steps.drop_last());
    }
}

/// All that the program keeps: the configuration, and for each merchant its entry,
/// its escrow, and its vault with the balance.
pub struct Ledger {
    pub config: ConfigView,
    pub merchants: Seq<MerchantView>,
    pub escrows: Seq<EscrowView>,
    pub vaults: Seq<Pubkey>,
    pub balances: Seq<int>,
}

impl Ledger {
    /// Each merchant has an escrow and a vault of its own.
    pub open spec fn wf(self) -> bool {
        &&& self.escrows.len() == self.merchants.len()
        &&& self.vaults.len() == self.merchants.len()
        &&& self.balances.len() == self.merchants.len()
        &&& self.vaults.no_duplicates()
    }

    /// Nothing was collected, released or paid in yet.
    pub open spec fn is_fresh(self) -> bool {
        &&& self.config.total_fees_collected == 0
        &&& forall|i: int|
            0 <= i < self.merchants.len() ==> (#[trigger] self.merchants[i]).total_released == 0
                && self.merchants[i].total_fees_paid == 0
        &&& forall|i: int|
            0 <= i < self.escrows.len() ==> (#[trigger] self.escrows[i]).pending_balance == 0
        &&& forall|i: int| 0 <= i < self.balances.len() ==> #[trigger] self.balances[i] >= 0
    }

    /// What the vaults hold after transfers.
    pub open spec fn balances_after(self, transfers: Seq<transfer::TransferView>) -> Seq<int> {
        Seq::new(
            self.balances.len(),
            |i: int| self.balances[i] + transfer::total_flow(transfers, self.vaults[i]),
        )
    }
}

/// Something done to the ledger, for the merchant of an index.
pub enum LedgerStep {
    Deposit { i: int, ctx: DepositView, merchant_id: Seq<char>, amount: nat },
    Release { i: int, ctx: ReleaseView, merchant_id: Seq<char>, now: int },
    /// A change of the configuration.
    Config(fees::ConfigStep),
    /// A change of a merchant's entry.
    Merchant(int, registry::MerchantStep),
    /// Bringing the wallet of an escrow up to date with an entry.
    UpdateWallet(int, MerchantView),
    /// Tokens sent to a vault without a deposit.
    Gift(int, nat),
}

/// The program carries a step out. A deposit or a release works on the accounts of
/// the ledger and is refused in no part; the other steps are taken as they come. A
/// customer has no vault to pay from, since no customer can sign for one.
pub open spec fn step_is_accepted(ledger: Ledger, step: LedgerStep, program_id: Pubkey) -> bool {
    match step {
        LedgerStep::Deposit { i, ctx, merchant_id, amount } => {
            &&& 0 <= i < ledger.merchants.len()
            &&& ctx.merchant.data == ledger.merchants[i]
            &&& ctx.escrow.data == ledger.escrows[i]
            &&& ctx.vault.key == ledger.vaults[i]
            &&& ctx.vault.amount == ledger.balances[i]
            &&& !ledger.vaults.contains(ctx.customer_ata.key)
            &&& processor::deposit_refusal(ctx, merchant_id, program_id) is None
            &&& escrow::deposit_error(ctx, merchant_id, amount) is None
            &&& escrow::can_record(ctx.escrow.data, amount)
        },
        LedgerStep::Release { i, ctx, merchant_id, now } => {
            &&& 0 <= i < ledger.merchants.len()
            &&& ctx.config.data == ledger.config
            &&& ctx.merchant.data == ledger.merchants[i]
            &&& ctx.escrow.data == ledger.escrows[i]
            &&& ctx.vault.key == ledger.vaults[i]
            &&& ctx.vault.amount == ledger.balances[i]
            &&& processor::release_refusal(ctx, merchant_id, program_id) is None
            &&& escrow::release_error(ctx, merchant_id) is None
            &&& escrow::can_settle(ctx, escrow::release_plan(ctx, merchant_id))
        },
        LedgerStep::Config(change) => change !is Release,
        LedgerStep::Merchant(i, change) => 0 <= i < ledger.merchants.len() && change !is Release,
        LedgerStep::UpdateWallet(i, merchant) => 0 <= i < ledger.escrows.len(),
        LedgerStep::Gift(i, amount) => 0 <= i < ledger.balances.len(),
    }
}

/// The ledger after a step.
pub open spec fn ledger_step(ledger: Ledger, step: LedgerStep) -> Ledger {
    match step {
        LedgerStep::Deposit { i, ctx, merchant_id, amount } => Ledger {
            escrows: ledger.escrows.update(i, escrow::recorded(ctx.escrow.data, amount)),
            balances: ledger.balances_after(seq![escrow::deposit_transfer(ctx, amount)]),
            ..ledger
        },
        LedgerStep::Release { i, ctx, merchant_id, now } => {
            let plan = escrow::release_plan(ctx, merchant_id);
            let after = escrow::settled(ctx, plan, now);
            Ledger {
                config: after.config.data,
                merchants: ledger.merchants.update(i, after.merchant.data),
                escrows: ledger.escrows.update(i, after.escrow.data),
                balances: ledger.balances_after(plan.payouts),
                ..ledger
            }
        },
        LedgerStep::Config(change) => Ledger {
            config: fees::config_step(ledger.config, change),
            ..ledger
        },
        LedgerStep::Merchant(i, change) => Ledger {
            merchants: ledger.merchants.update(
                i,
                registry::merchant_step(ledger.merchants[i], change),
            ),
            ..ledger
        },
        LedgerStep::UpdateWallet(i, merchant) => Ledger {
            escrows: ledger.escrows.update(i, escrow::synced(ledger.escrows[i], merchant)),
            ..ledger
        },
        LedgerStep::Gift(i, amount) => Ledger {
            balances: ledger.balances.update(i, ledger.balances[i] + amount),
            ..ledger
        },
    }
}

/// The ledger after all that was done to it, in its order.
pub open spec fn ledger_run(ledger: Ledger, steps: Seq<LedgerStep>) -> Ledger
    decreases steps.len(),
{
    if steps.len() == 0 {
        ledger
    } else {
        ledger_step(ledger_run(ledger, steps.drop_last()), steps.last())
    }
}

/// Each step of a history is accepted where it comes.
pub open spec fn history_is_accepted(
    ledger: Ledger,
    steps: Seq<LedgerStep>,
    program_id: Pubkey,
) -> bool
    decreases steps.len(),
{
    steps.len() == 0 || {
        &&& history_is_accepted(ledger, steps.drop_last(), program_id)
        &&& step_is_accepted(ledger_run(ledger, steps.drop_last()), steps.last(), program_id)
    }
}

/// What was deposited for merchant `i`, all together.
pub open spec fn deposited(steps: Seq<LedgerStep>, i: int) -> nat
    decreases steps.len(),
{
    if steps.len() == 0 {
        0
    } else {
        let before = deposited(steps.drop_last(), i);
        match steps.last() {
            LedgerStep::Deposit { i: payee, ctx, merchant_id, amount } => if payee == i {
                before + amount
            } else {
                before
            },
            _ => before,
        }
    }
}

/// What a merchant was paid, what it paid in fees and what is pending for it.
pub open spec fn accounted(merchant: MerchantView, escrow: EscrowView) -> nat {
    merchant.total_released + merchant.total_fees_paid + escrow.pending_balance
}

/// Accounts are created fresh.
pub proof fn law_created_accounts_are_fresh(
    created: InitializeConfigView,
    config_bumps: InitializeConfigBumps,
    fee_basis_points: nat,
    registered: RegisterMerchantView,
    merchant_bumps: RegisterMerchantBumps,
    merchant_id: Seq<char>,
    wallet: Pubkey,
    now: int,
    opened: InitializeEscrowView,
    escrow_bumps: InitializeEscrowBumps,
)
    requires
        opened.vault.amount == 0,
    ensures
        (Ledger {
            config: config::new_config(created, config_bumps, fee_basis_points),
            merchants: seq![
                merchant::new_merchant(registered, merchant_bumps, merchant_id, wallet, now),
            ],
            escrows: seq![escrow::new_escrow(opened, escrow_bumps, merchant_id)],
            vaults: seq![opened.vault.key],
            balances: seq![opened.vault.amount as int],
        }).is_fresh(),
{
}

/// Every unit that was ever deposited for a merchant was paid out to it, was taken
/// as a fee, or is pending; and the collected fees are what all merchants paid. This
/// holds after every history from fresh accounts.
pub proof fn law_deposits_are_accounted_for(
    start: Ledger,
    steps: Seq<LedgerStep>,
    program_id: Pubkey,
)
    requires
        start.wf(),
        start.is_fresh(),
        history_is_accepted(start, steps, program_id),
    ensures
        ledger_run(start, steps).wf(),
        ledger_run(start, steps).merchants.len() == start.merchants.len(),
        forall|i: int|
            0 <= i < start.merchants.len() ==> #[trigger] accounted(
                ledger_run(start, steps).merchants[i],
                ledger_run(start, steps).escrows[i],
            ) == deposited(steps, i),
        ledger_run(start, steps).config.total_fees_collected == fees::fees_paid(
            ledger_run(start, steps).merchants,
        ),
    decreases steps.len(),
{
    if steps.len() == 0 {
        fees::lemma_no_fees_paid(start.merchants);
    } else {
        let before = ledger_run(start, steps.drop_last());
        let after = ledger_run(start, steps);
        law_deposits_are_accounted_for(start, steps.drop_last(), program_id);
        assert forall|i: int| 0 <= i < start.merchants.len() implies #[trigger] accounted(
            after.merchants[i],
            after.escrows[i],
        ) == deposited(steps, i) by {
            assert(accounted(before.merchants[i], before.escrows[i]) == deposited(
                steps.drop_last(),
                i,
            ));
        }
        match steps.last() {
            LedgerStep::Release { i, ctx, merchant_id, now } => {
                fees::law_fees_reconcile(
                    before.merchants,
                    i,
                    ctx,
                    escrow::release_plan(ctx, merchant_id),
                    now,
                );
            },
            LedgerStep::Merchant(i, change) => {
                fees::lemma_fees_paid_update(before.merchants, i, after.merchants[i]);
            },
            _ => {},
        }
    }
}

/// A vault always holds at least what is pending, so a release never orders more
/// than there is. This holds after every history from fresh accounts.
pub proof fn law_vaults_cover_pending(start: Ledger, steps: Seq<LedgerStep>, program_id: Pubkey)
    requires
        start.wf(),
        start.is_fresh(),
        history_is_accepted(start, steps, program_id),
    ensures
        forall|i: int|
            0 <= i < start.merchants.len() ==> #[trigger] surplus(
                ledger_run(start, steps).escrows[i],
                ledger_run(start, steps).balances[i],
            ) >= 0,
    decreases steps.len(),
{
    if steps.len() > 0 {
        let before = ledger_run(start, steps.drop_last());
        let after = ledger_run(start, steps);
        law_vaults_cover_pending(start, steps.drop_last(), program_id);
        law_deposits_are_accounted_for(start, steps.drop_last(), program_id);
        assert forall|j: int| 0 <= j < start.merchants.len() implies #[trigger] surplus(
            after.escrows[j],
            after.balances[j],
        ) >= 0 by {
            assert(surplus(before.escrows[j], before.balances[j]) >= 0);
            match steps.last() {
                LedgerStep::Deposit { i, ctx, merchant_id, amount } => {
                    let order = escrow::deposit_transfer(ctx, amount);
                    lemma_short_flows(order, order, before.vaults[j]);
                    assert(before.vaults.contains(before.vaults[j]));
                },
                LedgerStep::Release { i, ctx, merchant_id, now } => {
                    let plan = escrow::release_plan(ctx, merchant_id);
                    let second = escrow::payout(
                        ctx,
                        merchant_id,
                        ctx.treasury_ata.key,
                        plan.fee,
                    );
                    lemma_short_flows(plan.payouts[0], second, before.vaults[j]);
                },
                _ => {},
            }
        }
    }
}

/// Tokens enter vaults by deposits only, and no vault is paid by a release.
pub open spec fn vaults_are_apart(start: Ledger, steps: Seq<LedgerStep>) -> bool {
    forall|k: int|
        0 <= k < steps.len() ==> match #[trigger] steps[k] {
            LedgerStep::Release { i, ctx, merchant_id, now } => {
                &&& !start.vaults.contains(ctx.merchant_ata.key)
                &&& !start.vaults.contains(ctx.treasury_ata.key)
            },
            LedgerStep::Gift(i, amount) => false,
            _ => true,
        }
}

/// A vault holds exactly what is pending, after every history from fresh accounts
/// with empty vaults in which tokens move by deposits and releases only.
pub proof fn law_vaults_hold_pending(start: Ledger, steps: Seq<LedgerStep>, program_id: Pubkey)
    requires
        start.wf(),
        start.is_fresh(),
        forall|i: int| 0 <= i < start.balances.len() ==> #[trigger] start.balances[i] == 0,
        history_is_accepted(start, steps, program_id),
        vaults_are_apart(start, steps),
    ensures
        ledger_run(start, steps).vaults == start.vaults,
        forall|i: int|
            0 <= i < start.merchants.len() ==> #[trigger] surplus(
                ledger_run(start, steps).escrows[i],
                ledger_run(start, steps).balances[i],
            ) == 0,
    decreases steps.len(),
{
    if steps.len() > 0 {
        let before = ledger_run(start, steps.drop_last());
        let after = ledger_run(start, steps);
        law_vaults_hold_pending(start, steps.drop_last(), program_id);
        law_deposits_are_accounted_for(start, steps.drop_last(), program_id);
        assert forall|j: int| 0 <= j < start.merchants.len() implies #[trigger] surplus(
            after.escrows[j],
            after.balances[j],
        ) == 0 by {
            assert(surplus(before.escrows[j], before.balances[j]) == 0);
            assert(before.vaults.contains(before.vaults[j]));
            match steps.last() {
                LedgerStep::Deposit { i, ctx, merchant_id, amount } => {
                    let order = escrow::deposit_transfer(ctx, amount);
                    lemma_short_flows(order, order, before.vaults[j]);
                },
                LedgerStep::Release { i, ctx, merchant_id, now } => {
                    let plan = escrow::release_plan(ctx, merchant_id);
                    let second = escrow::payout(
                        ctx,
                        merchant_id,
                        ctx.treasury_ata.key,
                        plan.fee,
                    );
                    lemma_short_flows(plan.payouts[0], second, before.vaults[j]);
                },
                _ => {},
            }
        }
    }
}

} // verus!
