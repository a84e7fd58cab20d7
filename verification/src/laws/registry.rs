//! What can and cannot happen to a merchant's entry.
use vstd::prelude::*;

#[allow(unused_imports)]
use crate::accounts::DepositView;
#[allow(unused_imports)]
use crate::error::SettlError;
#[allow(unused_imports)]
use crate::escrow;
#[allow(unused_imports)]
use crate::merchant;
#[allow(unused_imports)]
use crate::pubkey::Pubkey;
#[allow(unused_imports)]
use crate::state::{EscrowView, MerchantView, WALLET_UPDATE_DELAY};

verus! {

/// A requested wallet can be confirmed from 24 hours after the request on, and not
/// before. The confirmation puts exactly that wallet in place.
pub proof fn law_wallet_change_waits_a_day(
    entry: MerchantView,
    new_wallet: Pubkey,
    requested_at: int,
    now: int,
)
    ensures
        now < requested_at + 24 * 60 * 60 <==> merchant::confirm_error(
            merchant::with_request(entry, new_wallet, requested_at),
            now,
        ) == Some(SettlError::WalletUpdateNotReady),
        now >= requested_at + 24 * 60 * 60 <==> merchant::confirm_error(
            merchant::with_request(entry, new_wallet, requested_at),
            now,
        ) is None,
        merchant::with_confirmation(merchant::with_request(entry, new_wallet, requested_at)) == (
        MerchantView { wallet: new_wallet, pending_wallet: None, wallet_update_at: None, ..entry }),
{
}

/// A request leaves the wallet in force as it is.
pub proof fn law_request_keeps_wallet(entry: MerchantView, new_wallet: Pubkey, now: int)
    ensures
        merchant::with_request(entry, new_wallet, now).wallet == entry.wallet,
{
}

/// A later request replaces an earlier one, and its delay starts anew.
pub proof fn law_last_request_counts(
    entry: MerchantView,
    first: Pubkey,
    first_at: int,
    last: Pubkey,
    last_at: int,
)
    ensures
        merchant::with_request(merchant::with_request(entry, first, first_at), last, last_at)
            == merchant::with_request(entry, last, last_at),
{
}

/// An entry without a request has none to confirm, and a request can be confirmed
/// once only.
pub proof fn law_confirmation_needs_request(entry: MerchantView, now: int)
    ensures
        entry.wallet_update_at is None ==> merchant::confirm_error(entry, now) == Some(
            SettlError::NoWalletUpdatePending,
        ),
        merchant::confirm_error(merchant::with_confirmation(entry), now) == Some(
            SettlError::NoWalletUpdatePending,
        ),
{
}

/// A confirmed wallet reaches the escrow when the escrow is brought up to date.
pub proof fn law_confirmed_wallet_reaches_escrow(
    entry: MerchantView,
    account: EscrowView,
    new_wallet: Pubkey,
    requested_at: int,
)
    ensures
        escrow::synced(
            account,
            merchant::with_confirmation(
                merchant::with_request(entry, new_wallet, requested_at),
            ),
        ) == (EscrowView { merchant_wallet: new_wallet, ..account }),
{
}

/// A deactivated merchant accepts no deposit, of whatever amount and for whatever
/// identifier; a positive one is refused for that reason.
pub proof fn law_deactivated_takes_no_deposit(
    ctx: DepositView,
    entry: MerchantView,
    merchant_id: Seq<char>,
    amount: nat,
)
    requires
        ctx.merchant.data == merchant::deactivated(entry),
    ensures
        escrow::deposit_error(ctx, merchant_id, amount) is Some,
        amount > 0 ==> escrow::deposit_error(ctx, merchant_id, amount) == Some(
            SettlError::MerchantInactive,
        ),
{
}

/// Something done to a merchant's entry.
pub enum MerchantStep {
    Request(Pubkey, int),
    /// An accepted or refused confirmation.
    Confirm(int),
    Deactivate,
    /// A release that paid a net amount and took a fee.
    Release(nat, nat),
}

/// The entry after it. A refused confirmation changes nothing.
pub open spec fn merchant_step(entry: MerchantView, step: MerchantStep) -> MerchantView {
    match step {
        MerchantStep::Request(wallet, now) => merchant::with_request(entry, wallet, now),
        MerchantStep::Confirm(now) => if merchant::confirm_error(entry, now) is None {
            merchant::with_confirmation(entry)
        } else {
            entry
        },
        MerchantStep::Deactivate => merchant::deactivated(entry),
        MerchantStep::Release(net, fee) => escrow::credited(entry, net, fee),
    }
}

/// The entry after all that was done to it, in its order.
pub open spec fn merchant_run(entry: MerchantView, steps: Seq<MerchantStep>) -> MerchantView
    decreases steps.len(),
{
    if steps.len() == 0 {
        entry
    } else {
        merchant_step(merchant_run(entry, steps.drop_last()), steps.last())
    }
}

/// Whatever is done to a valid entry, it stays valid, it stays the same merchant's
/// with the same authority, and its totals never decrease.
pub proof fn law_merchant_stays_valid(entry: MerchantView, steps: Seq<MerchantStep>)
    requires
        entry.wf(),
    ensures
        merchant_run(entry, steps).wf(),
        merchant_run(entry, steps).merchant_id == entry.merchant_id,
        merchant_run(entry, steps).authority == entry.authority,
        merchant_run(entry, steps).registered_at == entry.registered_at,
        merchant_run(entry, steps).bump == entry.bump,
        merchant_run(entry, steps).total_released >= entry.total_released,
        merchant_run(entry, steps).total_fees_paid >= entry.total_fees_paid,
    decreases steps.len(),
{
    if steps.len() > 0 {
        law_merchant_stays_valid(entry, steps.drop_last());
    }
}

/// Nothing opens a deactivated merchant again.
pub proof fn law_deactivation_lasts(entry: MerchantView, steps: Seq<MerchantStep>)
    requires
        !entry.is_active,
    ensures
        !merchant_run(entry, steps).is_active,
    decreases steps.len(),
{
    if steps.len() > 0 {
        law_deactivation_lasts(entry, steps.drop_last());
    }
}

/// Step `i` of a history requested `wallet`, to be confirmed from `unlocks_at` on.
pub open spec fn requested(
    steps: Seq<MerchantStep>,
    i: int,
    wallet: Pubkey,
    unlocks_at: int,
) -> bool {
    &&& 0 <= i < steps.len()
    &&& steps[i] matches MerchantStep::Request(requested_wallet, now) && requested_wallet == wallet
        && now + WALLET_UPDATE_DELAY == unlocks_at
}

/// Step `i` of a history requested `wallet`, and the later step `j` confirmed it,
/// 24 hours or more after the request.
pub open spec fn requested_and_confirmed(
    steps: Seq<MerchantStep>,
    i: int,
    j: int,
    wallet: Pubkey,
) -> bool {
    &&& 0 <= i < j < steps.len()
    &&& steps[i] matches MerchantStep::Request(requested_wallet, requested_at) && (
    steps[j] matches MerchantStep::Confirm(confirmed_at) && requested_wallet == wallet
        && confirmed_at >= requested_at + WALLET_UPDATE_DELAY)
}

/// What a history without an open request at its start tells of a pending wallet.
proof fn lemma_pending_was_requested(entry: MerchantView, steps: Seq<MerchantStep>)
    requires
        entry.wf(),
        entry.pending_wallet is None,
    ensures
        merchant_run(entry, steps).pending_wallet matches Some(wallet) ==> exists|i: int|
            requested(steps, i, wallet, merchant_run(entry, steps).wallet_update_at->0),
    decreases steps.len(),
{
    law_merchant_stays_valid(entry, steps);
    if steps.len() > 0 {
        let before = steps.drop_last();
        lemma_pending_was_requested(entry, before);
        law_merchant_stays_valid(entry, before);
        let after = merchant_run(entry, steps);
        if after.pending_wallet is Some {
            let wallet = after.pending_wallet->0;
            let unlocks_at = after.wallet_update_at->0;
            if steps.last() is Request {
                assert(requested(steps, steps.len() - 1, wallet, unlocks_at));
            } else {
                let i = choose|i: int| requested(before, i, wallet, unlocks_at);
                assert(steps[i] == before[i]);
                assert(requested(steps, i, wallet, unlocks_at));
            }
        }
    }
}

/// The wallet in force is the one that the merchant was found with, or one that
/// was requested and confirmed 24 hours or more later: there is no quicker way to
/// change it. This asks that no request was open at the start, as in a new entry.
pub proof fn law_wallet_never_changes_faster(entry: MerchantView, steps: Seq<MerchantStep>)
    requires
        entry.wf(),
        entry.pending_wallet is None,
    ensures
        merchant_run(entry, steps).wallet == entry.wallet || exists|i: int, j: int|
            requested_and_confirmed(steps, i, j, merchant_run(entry, steps).wallet),
    decreases steps.len(),
{
    if steps.len() > 0 {
        let before = steps.drop_last();
        let prior = merchant_run(entry, before);
        let wallet = merchant_run(entry, steps).wallet;
        law_wallet_never_changes_faster(entry, before);
        lemma_pending_was_requested(entry, before);
        if wallet != prior.wallet {
            let i = choose|i: int| requested(before, i, wallet, prior.wallet_update_at->0);
            assert(steps[i] == before[i]);
            assert(requested_and_confirmed(steps, i, steps.len() - 1, wallet));
        } else if wallet != entry.wallet {
            let (i, j) = choose|i: int, j: int| requested_and_confirmed(before, i, j, wallet);
            assert(steps[i] == before[i]);
            assert(steps[j] == before[j]);
            assert(requested_and_confirmed(steps, i, j, wallet));
        }
    }
}

} // verus!
