//! Escrows: creating one, paying into it, paying it out.
//!
//! Tokens are moved by the token program, not here. An instruction that moves
//! tokens therefore comes in two parts: the first checks it and says which
//! transfers to order, the second books it once they were made. If a transfer
//! fails, the instruction ends there and nothing is booked.
use vstd::prelude::*;
#[allow(unused_imports)]
use vstd::utf8::*;

#[allow(unused_imports)]
use crate::accounts::{
    AccountView, Deposit, DepositView, InitializeEscrow, InitializeEscrowBumps,
    InitializeEscrowView, Release, ReleaseView, UpdateEscrowWallet, UpdateEscrowWalletView,
};
#[allow(unused_imports)]
use crate::address;
use crate::error::SettlError;
use crate::events::{EscrowInitialized, FundsReleased, PaymentReceived};
#[allow(unused_imports)]
use crate::pubkey::Pubkey;
#[allow(unused_imports)]
use crate::state::{
    is_valid_merchant_id, ConfigView, EscrowAccount, EscrowView, MerchantView, BASIS_POINTS,
    MAX_MERCHANT_ID_LEN,
};
#[allow(unused_imports)]
use crate::transfer;
#[allow(unused_imports)]
use crate::transfer::{TokenTransfer, TransferView};

verus! {

/// The platform's share of a gross amount, rounded down.
pub open spec fn fee_of(gross: nat, fee_basis_points: nat) -> nat {
    gross * fee_basis_points / BASIS_POINTS as nat
}

/// The merchant's share of a gross amount.
pub open spec fn net_of(gross: nat, fee_basis_points: nat) -> int {
    gross - fee_of(gross, fee_basis_points)
}

/// A gross amount can be split at a rate: the product fits 64 bits, and the fee
/// is not more than there is.
pub open spec fn can_split(gross: nat, fee_basis_points: nat) -> bool {
    &&& gross * fee_basis_points <= u64::MAX
    &&& fee_of(gross, fee_basis_points) <= gross
}

/// Splits a gross amount into fee and net.
pub fn split_gross(gross: u64, fee_basis_points: u16) -> (res: Result<(u64, u64), SettlError>)
    ensures
        res is Ok <==> can_split(gross as nat, fee_basis_points as nat),
        res matches Ok((fee, net)) ==> {
            &&& fee == fee_of(gross as nat, fee_basis_points as nat)
            &&& net == net_of(gross as nat, fee_basis_points as nat)
        },
        res matches Err(error) ==> error == SettlError::Overflow,
{
    let fee_bps: u64 = fee_basis_points as u64;
    let product: u64 = match gross.checked_mul(fee_bps) {
        Some(product) => product,
        None => return Err(SettlError::Overflow),
    };
    let fee: u64 = match product.checked_div(BASIS_POINTS) {
        Some(fee) => fee,
        None => return Err(SettlError::Overflow),
    };
    match gross.checked_sub(fee) {
        Some(net) => Ok((fee, net)),
        None => Err(SettlError::Overflow),
    }
}

/// What a release pays, and to whom.
#[derive(Clone, Debug, PartialEq, Eq)]
pub struct ReleasePlan {
    pub gross: u64,
    pub fee: u64,
    pub net: u64,
    /// The transfers to order, in this order.
    pub payouts: Vec<TokenTransfer>,
}

/// What a release pays, as a mathematical value.
pub struct ReleasePlanView {
    pub gross: nat,
    pub fee: nat,
    pub net: nat,
    pub payouts: Seq<TransferView>,
}

impl View for ReleasePlan {
    type V = ReleasePlanView;

    open spec fn view(&self) -> ReleasePlanView {
        ReleasePlanView {
            gross: self.gross as nat,
            fee: self.fee as nat,
            net: self.net as nat,
            payouts: transfer::transfers_view(self.payouts@),
        }
    }
}

/// Why a release is refused, if it is.
pub open spec fn release_error(ctx: ReleaseView, merchant_id: Seq<char>) -> Option<SettlError> {
    if ctx.escrow.data.merchant_id != merchant_id {
        Some(SettlError::MerchantMismatch)
    } else if ctx.escrow.data.pending_balance == 0 {
        Some(SettlError::ZeroBalance)
    } else if !can_split(ctx.escrow.data.pending_balance, ctx.config.data.fee_basis_points) {
        Some(SettlError::Overflow)
    } else {
        None
    }
}

/// The seeds by which the program signs for a merchant's escrow.
pub open spec fn escrow_signer_seeds(merchant_id: Seq<char>, bump: u8) -> Seq<Seq<u8>> {
    address::with_bump(address::escrow_seeds(merchant_id), bump)
}

/// A transfer out of the vault, signed for by the escrow.
pub open spec fn payout(
    ctx: ReleaseView,
    merchant_id: Seq<char>,
    to: Pubkey,
    amount: nat,
) -> TransferView {
    TransferView {
        from: ctx.vault.key,
        to,
        authority: ctx.escrow.key,
        amount,
        signer_seeds: escrow_signer_seeds(merchant_id, ctx.escrow.data.bump),
    }
}

/// What an accepted release pays: all that is pending, the net to the merchant's
/// token account and then the fee, if there is one, to the treasury's. What else
/// the vault holds stays in it.
pub open spec fn release_plan(ctx: ReleaseView, merchant_id: Seq<char>) -> ReleasePlanView {
    let gross = ctx.escrow.data.pending_balance;
    let fee = fee_of(gross, ctx.config.data.fee_basis_points);
    let net = net_of(gross, ctx.config.data.fee_basis_points) as nat;
    let to_merchant = payout(ctx, merchant_id, ctx.merchant_ata.key, net);
    let to_treasury = payout(ctx, merchant_id, ctx.treasury_ata.key, fee);
    ReleasePlanView {
        gross,
        fee,
        net,
        payouts: if fee > 0 {
            seq![to_merchant, to_treasury]
        } else {
            seq![to_merchant]
        },
    }
}

/// The seeds by which the program signs for a merchant's escrow.
fn signer_seeds(merchant_id: &String, bump: u8) -> (seeds: Vec<Vec<u8>>)
    ensures
        address::owned_seed_bytes(seeds@) == escrow_signer_seeds(merchant_id@, bump),
{
    let mut bump_seed: Vec<u8> = Vec::new();
    bump_seed.push(bump);
    let mut seeds: Vec<Vec<u8>> = Vec::new();
    seeds.push(vstd::slice::slice_to_vec("escrow".as_bytes()));
    seeds.push(vstd::slice::slice_to_vec(merchant_id.as_str().as_bytes()));
    seeds.push(bump_seed);
    assert(bump_seed@ =~= seq![bump]);
    assert(address::owned_seed_bytes(seeds@) =~= escrow_signer_seeds(merchant_id@, bump));
    seeds
}

/// First part of a release: checks it, splits what is pending, and says which
/// transfers to order.
pub fn release(ctx: &Release, merchant_id: String) -> (res: Result<ReleasePlan, SettlError>)
    ensures
        match res {
            Ok(plan) => {
                &&& release_error(ctx@, merchant_id@) is None
                &&& plan@ == release_plan(ctx@, merchant_id@)
            },
            Err(error) => release_error(ctx@, merchant_id@) == Some(error),
        },
{
    if ctx.escrow.data.merchant_id != merchant_id {
        return Err(SettlError::MerchantMismatch);
    }
    let gross: u64 = ctx.escrow.data.pending_balance;
    if gross == 0 {
        return Err(SettlError::ZeroBalance);
    }
    let (fee, net) = match split_gross(gross, ctx.config.data.fee_basis_points) {
        Ok(split) => split,
        Err(error) => return Err(error),
    };
    let bump: u8 = ctx.escrow.data.bump;
    let mut payouts: Vec<TokenTransfer> = Vec::new();
    payouts.push(
        TokenTransfer {
            from: ctx.vault.key,
            to: ctx.merchant_ata.key,
            authority: ctx.escrow.key,
            amount: net,
            signer_seeds: signer_seeds(&merchant_id, bump),
        },
    );
    if fee > 0 {
        payouts.push(
            TokenTransfer {
                from: ctx.vault.key,
                to: ctx.treasury_ata.key,
                authority: ctx.escrow.key,
                amount: fee,
                signer_seeds: signer_seeds(&merchant_id, bump),
            },
        );
    }
    let plan = ReleasePlan { gross, fee, net, payouts };
    assert(plan@.payouts =~= release_plan(ctx@, merchant_id@).payouts);
    Ok(plan)
}

/// The totals that a release adds to all stay within 64 bits.
pub open spec fn can_settle(ctx: ReleaseView, plan: ReleasePlanView) -> bool {
    &&& ctx.merchant.data.total_released + plan.net <= u64::MAX
    &&& ctx.merchant.data.total_fees_paid + plan.fee <= u64::MAX
    &&& ctx.config.data.total_fees_collected + plan.fee <= u64::MAX
}

/// The configuration after a release.
pub open spec fn collected(config: ConfigView, fee: nat) -> ConfigView {
    ConfigView { total_fees_collected: config.total_fees_collected + fee, ..config }
}

/// A merchant's entry after a release.
pub open spec fn credited(merchant: MerchantView, net: nat, fee: nat) -> MerchantView {
    MerchantView {
        total_released: merchant.total_released + net,
        total_fees_paid: merchant.total_fees_paid + fee,
        ..merchant
    }
}

/// An escrow after a release.
pub open spec fn emptied(escrow: EscrowView, now: int) -> EscrowView {
    EscrowView { pending_balance: 0, last_released_at: now, ..escrow }
}

/// The accounts after a release: net and fee are added to the totals, nothing is
/// pending any more, and the release is dated.
pub open spec fn settled(ctx: ReleaseView, plan: ReleasePlanView, now: int) -> ReleaseView {
    ReleaseView {
        config: ctx.config.with(collected(ctx.config.data, plan.fee)),
        merchant: ctx.merchant.with(credited(ctx.merchant.data, plan.net, plan.fee)),
        escrow: ctx.escrow.with(emptied(ctx.escrow.data, now)),
        ..ctx
    }
}

/// Second part of a release, once the transfers of `plan` were made at `now`:
/// books it.
pub fn settle_release(ctx: &mut Release, plan: &ReleasePlan, now: i64) -> (res: Result<
    FundsReleased,
    SettlError,
>)
    ensures
        res is Ok <==> can_settle(old(ctx)@, plan@),
        res matches Ok(event) ==> {
            &&& final(ctx)@ == settled(old(ctx)@, plan@, now as int)
            &&& event == (FundsReleased {
                merchant_id: old(ctx).escrow.data.merchant_id,
                merchant_wallet: old(ctx).escrow.data.merchant_wallet,
                gross: plan.gross,
                fee: plan.fee,
                net: plan.net,
                released_at: now,
            })
        },
        res matches Err(error) ==> error == SettlError::Overflow && *final(ctx) == *old(ctx),
        old(ctx)@.config.data.wf() ==> final(ctx)@.config.data.wf(),
        old(ctx)@.merchant.data.wf() ==> final(ctx)@.merchant.data.wf(),
        old(ctx)@.escrow.data.wf() ==> final(ctx)@.escrow.data.wf(),
{
    let total_released: u64 = match ctx.merchant.data.total_released.checked_add(plan.net) {
        Some(total) => total,
        None => return Err(SettlError::Overflow),
    };
    let total_fees_paid: u64 = match ctx.merchant.data.total_fees_paid.checked_add(plan.fee) {
        Some(total) => total,
        None => return Err(SettlError::Overflow),
    };
    let total_fees_collected: u64 = match ctx.config.data.total_fees_collected.checked_add(
        plan.fee,
    ) {
        Some(total) => total,
        None => return Err(SettlError::Overflow),
    };
    ctx.merchant.data.total_released = total_released;
    ctx.merchant.data.total_fees_paid = total_fees_paid;
    ctx.escrow.data.pending_balance = 0;
    ctx.escrow.data.last_released_at = now;
    ctx.config.data.total_fees_collected = total_fees_collected;
    Ok(
        FundsReleased {
            merchant_id: ctx.escrow.data.merchant_id.clone(),
            merchant_wallet: ctx.escrow.data.merchant_wallet,
            gross: plan.gross,
            fee: plan.fee,
            net: plan.net,
            released_at: now,
        },
    )
}

/// Why a deposit is refused, if it is.
pub open spec fn deposit_error(
    ctx: DepositView,
    merchant_id: Seq<char>,
    amount: nat,
) -> Option<SettlError> {
    if amount == 0 {
        Some(SettlError::ZeroAmount)
    } else if !ctx.merchant.data.is_active {
        Some(SettlError::MerchantInactive)
    } else if ctx.escrow.data.merchant_id != merchant_id {
        Some(SettlError::MerchantMismatch)
    } else {
        None
    }
}

/// The transfer of an accepted deposit: from the customer's token account into
/// the vault, signed by the customer.
pub open spec fn deposit_transfer(ctx: DepositView, amount: nat) -> TransferView {
    TransferView {
        from: ctx.customer_ata.key,
        to: ctx.vault.key,
        authority: ctx.customer,
        amount,
        signer_seeds: Seq::empty(),
    }
}

/// First part of a deposit: checks it, and says which transfer to order.
pub fn deposit(ctx: &Deposit, merchant_id: String, amount: u64) -> (res: Result<
    TokenTransfer,
    SettlError,
>)
    ensures
        match res {
            Ok(transfer) => {
                &&& deposit_error(ctx@, merchant_id@, amount as nat) is None
                &&& transfer@ == deposit_transfer(ctx@, amount as nat)
            },
            Err(error) => deposit_error(ctx@, merchant_id@, amount as nat) == Some(error),
        },
{
    if amount == 0 {
        return Err(SettlError::ZeroAmount);
    }
    if !ctx.merchant.data.is_active {
        return Err(SettlError::MerchantInactive);
    }
    if ctx.escrow.data.merchant_id != merchant_id {
        return Err(SettlError::MerchantMismatch);
    }
    let transfer = TokenTransfer {
        from: ctx.customer_ata.key,
        to: ctx.vault.key,
        authority: ctx.customer,
        amount,
        signer_seeds: Vec::new(),
    };
    assert(transfer@.signer_seeds =~= Seq::empty());
    Ok(transfer)
}

/// The balance and the count that a deposit adds to both stay within 64 bits.
pub open spec fn can_record(escrow: EscrowView, amount: nat) -> bool {
    &&& escrow.pending_balance + amount <= u64::MAX
    &&& escrow.total_payments + 1 <= u64::MAX
}

/// An escrow after a deposit.
pub open spec fn recorded(escrow: EscrowView, amount: nat) -> EscrowView {
    EscrowView {
        pending_balance: escrow.pending_balance + amount,
        total_payments: escrow.total_payments + 1,
        ..escrow
    }
}

/// Second part of a deposit, once `transfer` was made at `now`: books it.
pub fn record_deposit(ctx: &mut Deposit, transfer: &TokenTransfer, now: i64) -> (res: Result<
    PaymentReceived,
    SettlError,
>)
    ensures
        res is Ok <==> can_record(old(ctx)@.escrow.data, transfer@.amount),
        res matches Ok(event) ==> {
            &&& final(ctx)@ == (DepositView {
                escrow: old(ctx)@.escrow.with(
                    recorded(old(ctx)@.escrow.data, transfer@.amount),
                ),
                ..old(ctx)@
            })
            &&& event == (PaymentReceived {
                merchant_id: old(ctx).escrow.data.merchant_id,
                customer_wallet: old(ctx).customer,
                amount: transfer.amount,
                pending_balance: (old(ctx).escrow.data.pending_balance + transfer.amount) as u64,
                timestamp: now,
            })
        },
        res matches Err(error) ==> error == SettlError::Overflow && *final(ctx) == *old(ctx),
        old(ctx)@.escrow.data.wf() ==> final(ctx)@.escrow.data.wf(),
{
    let pending_balance: u64 = match ctx.escrow.data.pending_balance.checked_add(transfer.amount) {
        Some(balance) => balance,
        None => return Err(SettlError::Overflow),
    };
    let total_payments: u64 = match ctx.escrow.data.total_payments.checked_add(1) {
        Some(count) => count,
        None => return Err(SettlError::Overflow),
    };
    ctx.escrow.data.pending_balance = pending_balance;
    ctx.escrow.data.total_payments = total_payments;
    Ok(
        PaymentReceived {
            merchant_id: ctx.escrow.data.merchant_id.clone(),
            customer_wallet: ctx.customer,
            amount: transfer.amount,
            pending_balance,
            timestamp: now,
        },
    )
}

/// A new escrow: for the merchant's current wallet, empty, never released.
pub open spec fn new_escrow(
    ctx: InitializeEscrowView,
    bumps: InitializeEscrowBumps,
    merchant_id: Seq<char>,
) -> EscrowView {
    EscrowView {
        merchant_id,
        merchant_wallet: ctx.merchant.data.wallet,
        pending_balance: 0,
        total_payments: 0,
        last_released_at: 0,
        authority: ctx.authority,
        bump: bumps.escrow,
        vault_bump: bumps.vault,
    }
}

/// Fills the newly created escrow of a merchant.
pub fn initialize_merchant_escrow(
    ctx: &mut InitializeEscrow,
    bumps: InitializeEscrowBumps,
    merchant_id: String,
) -> (res: Result<EscrowInitialized, SettlError>)
    ensures
        res is Ok <==> encode_utf8(merchant_id@).len() <= MAX_MERCHANT_ID_LEN,
        res matches Ok(event) ==> {
            &&& final(ctx)@ == (InitializeEscrowView {
                escrow: old(ctx)@.escrow.with(new_escrow(old(ctx)@, bumps, merchant_id@)),
                ..old(ctx)@
            })
            &&& final(ctx)@.escrow.data.wf()
            &&& event == (EscrowInitialized {
                merchant_id,
                merchant_wallet: old(ctx).merchant.data.wallet,
            })
        },
        res matches Err(error) ==> error == SettlError::MerchantIdTooLong && *final(ctx) == *old(
            ctx,
        ),
{
    if !is_valid_merchant_id(&merchant_id) {
        return Err(SettlError::MerchantIdTooLong);
    }
    ctx.escrow.data = EscrowAccount {
        merchant_id: merchant_id.clone(),
        merchant_wallet: ctx.merchant.data.wallet,
        pending_balance: 0,
        total_payments: 0,
        last_released_at: 0,
        authority: ctx.authority,
        bump: bumps.escrow,
        vault_bump: bumps.vault,
    };
    Ok(EscrowInitialized { merchant_id, merchant_wallet: ctx.merchant.data.wallet })
}

/// An escrow brought up to date with its merchant's wallet.
pub open spec fn synced(escrow: EscrowView, merchant: MerchantView) -> EscrowView {
    EscrowView { merchant_wallet: merchant.wallet, ..escrow }
}

/// Copies the merchant's wallet into the escrow. Never fails.
pub fn update_escrow_wallet(ctx: &mut UpdateEscrowWallet) -> (res: Result<(), SettlError>)
    ensures
        res is Ok,
        final(ctx)@ == (UpdateEscrowWalletView {
            escrow: old(ctx)@.escrow.with(
                synced(old(ctx)@.escrow.data, old(ctx)@.merchant.data),
            ),
            ..old(ctx)@
        }),
        old(ctx)@.escrow.data.wf() ==> final(ctx)@.escrow.data.wf(),
{
    ctx.escrow.data.merchant_wallet = ctx.merchant.data.wallet;
    Ok(())
}

} // verus!
