//! Which wallet a release can pay.
//!
//! The registry changes a wallet behind a delay, and the escrow, which is what a
//! release pays from, takes the registry's wallet over. The laws here span the two.
//! They ask that an escrow is brought up to date with its own merchant's entry.
use vstd::prelude::*;
#[allow(unused_imports)]
use vstd::utf8::*;

#[allow(unused_imports)]
use crate::accounts::{
    InitializeEscrowBumps, InitializeEscrowView, RegisterMerchantBumps, RegisterMerchantView,
    ReleaseView,
};
#[allow(unused_imports)]
use crate::escrow;
#[allow(unused_imports)]
use crate::laws::{funds, registry};
#[allow(unused_imports)]
use crate::merchant;
#[allow(unused_imports)]
use crate::pubkey::Pubkey;
#[allow(unused_imports)]
use crate::state::{MAX_MERCHANT_ID_LEN, WALLET_UPDATE_DELAY};

verus! {

/// Every escrow that a history brings up to date takes the wallet of its own
/// merchant's entry.
pub open spec fn syncs_own_entries(
    start: funds::Ledger,
    steps: Seq<funds::LedgerStep>,
) -> bool
    decreases steps.len(),
{
    steps.len() == 0 || {
        &&& syncs_own_entries(start, steps.drop_last())
        &&& steps.last() matches funds::LedgerStep::UpdateWallet(i, entry) ==> entry
            == funds::ledger_run(start, steps.drop_last()).merchants[i]
    }
}

/// Step `a` of a history requested `wallet` for merchant `i`, to be confirmed from
/// `unlocks_at` on.
pub open spec fn requested(
    steps: Seq<funds::LedgerStep>,
    a: int,
    i: int,
    wallet: Pubkey,
    unlocks_at: int,
) -> bool {
    &&& 0 <= a < steps.len()
    &&& steps[a] matches funds::LedgerStep::Merchant(payee, change) && payee == i && (
    change matches registry::MerchantStep::Request(new_wallet, now) && new_wallet == wallet && now
        + WALLET_UPDATE_DELAY == unlocks_at)
}

/// Step `b` of a history asked to confirm merchant `i`'s request at `now`.
pub open spec fn confirmed(steps: Seq<funds::LedgerStep>, b: int, i: int, now: int) -> bool {
    &&& 0 <= b < steps.len()
    &&& steps[b] == funds::LedgerStep::Merchant(i, registry::MerchantStep::Confirm(now))
}

/// Step `a` of a history requested `wallet` for merchant `i`, and the later step `b`
/// confirmed it, 24 hours or more after the request.
pub open spec fn waited_between(
    steps: Seq<funds::LedgerStep>,
    a: int,
    b: int,
    i: int,
    wallet: Pubkey,
) -> bool {
    &&& a < b
    &&& exists|unlocks_at: int, now: int|
        unlocks_at <= now && #[trigger] requested(steps, a, i, wallet, unlocks_at)
            && #[trigger] confirmed(steps, b, i, now)
}

/// `wallet` was requested for merchant `i`, and confirmed 24 hours or more later.
pub open spec fn waited(steps: Seq<funds::LedgerStep>, i: int, wallet: Pubkey) -> bool {
    exists|a: int, b: int| waited_between(steps, a, b, i, wallet)
}

/// Another step leaves what was waited for as it is.
proof fn lemma_waited_lasts(steps: Seq<funds::LedgerStep>, i: int, wallet: Pubkey)
    requires
        steps.len() > 0,
        waited(steps.drop_last(), i, wallet),
    ensures
        waited(steps, i, wallet),
{
    let before = steps.drop_last();
    let (a, b) = choose|a: int, b: int| waited_between(before, a, b, i, wallet);
    let (unlocks_at, now) = choose|unlocks_at: int, now: int|
        unlocks_at <= now && #[trigger] requested(before, a, i, wallet, unlocks_at)
            && #[trigger] confirmed(before, b, i, now);
    assert(steps[a] == before[a] && steps[b] == before[b]);
    assert(requested(steps, a, i, wallet, unlocks_at));
    assert(confirmed(steps, b, i, now));
    assert(waited_between(steps, a, b, i, wallet));
}

/// What a history from an entry without an open request tells of the entry: a
/// pending wallet was requested, and the wallet in force is the first one or was
/// waited for.
proof fn lemma_entry_waits(
    start: funds::Ledger,
    steps: Seq<funds::LedgerStep>,
    i: int,
    program_id: Pubkey,
)
    requires
        start.wf(),
        start.is_fresh(),
        funds::history_is_accepted(start, steps, program_id),
        0 <= i < start.merchants.len(),
        start.merchants[i].wf(),
        start.merchants[i].pending_wallet is None,
    ensures
        ({
            let entry = funds::ledger_run(start, steps).merchants[i];
            &&& entry.wf()
            &&& entry.pending_wallet matches Some(wallet) ==> exists|a: int|
                requested(steps, a, i, wallet, entry.wallet_update_at->0)
            &&& entry.wallet == start.merchants[i].wallet || waited(steps, i, entry.wallet)
        }),
    decreases steps.len(),
{
    if steps.len() > 0 {
        let before = steps.drop_last();
        let prior = funds::ledger_run(start, before).merchants[i];
        let entry = funds::ledger_run(start, steps).merchants[i];
        let last: int = steps.len() - 1;
        lemma_entry_waits(start, before, i, program_id);
        funds::law_deposits_are_accounted_for(start, before, program_id);
        if waited(before, i, prior.wallet) {
            lemma_waited_lasts(steps, i, prior.wallet);
        }
        if entry.pending_wallet is Some {
            let wallet = entry.pending_wallet->0;
            let unlocks_at = entry.wallet_update_at->0;
            if entry.pending_wallet == prior.pending_wallet && entry.wallet_update_at
                == prior.wallet_update_at {
                let a = choose|a: int| requested(before, a, i, wallet, unlocks_at);
                assert(steps[a] == before[a]);
                assert(requested(steps, a, i, wallet, unlocks_at));
            } else {
                assert(requested(steps, last, i, wallet, unlocks_at));
            }
        }
        if entry.wallet != prior.wallet {
            let unlocks_at = prior.wallet_update_at->0;
            let a = choose|a: int| requested(before, a, i, entry.wallet, unlocks_at);
            assert(steps[a] == before[a]);
            assert(requested(steps, a, i, entry.wallet, unlocks_at));
            let now = steps.last()->Merchant_1->Confirm_0;
            assert(confirmed(steps, last, i, now));
            assert(waited_between(steps, a, last, i, entry.wallet));
        }
    }
}

/// The wallet of an escrow is the one that the escrow was created with, the one that
/// its merchant was registered with, or one that was requested and confirmed 24
/// hours or more later. This holds after every history from fresh accounts in which
/// escrows are brought up to date with their own merchants' entries.
pub proof fn law_escrow_wallet_never_changes_faster(
    start: funds::Ledger,
    steps: Seq<funds::LedgerStep>,
    i: int,
    program_id: Pubkey,
)
    requires
        start.wf(),
        start.is_fresh(),
        funds::history_is_accepted(start, steps, program_id),
        syncs_own_entries(start, steps),
        0 <= i < start.merchants.len(),
        start.merchants[i].wf(),
        start.merchants[i].pending_wallet is None,
    ensures
        ({
            let wallet = funds::ledger_run(start, steps).escrows[i].merchant_wallet;
            ||| wallet == start.escrows[i].merchant_wallet
            ||| wallet == start.merchants[i].wallet
            ||| waited(steps, i, wallet)
        }),
    decreases steps.len(),
{
    if steps.len() > 0 {
        let before = steps.drop_last();
        let prior = funds::ledger_run(start, before);
        law_escrow_wallet_never_changes_faster(start, before, i, program_id);
        lemma_entry_waits(start, before, i, program_id);
        funds::law_deposits_are_accounted_for(start, before, program_id);
        if waited(before, i, prior.escrows[i].merchant_wallet) {
            lemma_waited_lasts(steps, i, prior.escrows[i].merchant_wallet);
        }
        if waited(before, i, prior.merchants[i].wallet) {
            lemma_waited_lasts(steps, i, prior.merchants[i].wallet);
        }
    }
}

/// So the token account that a release pays the net to belongs to such a wallet.
pub proof fn law_release_pays_waited_wallet(
    start: funds::Ledger,
    steps: Seq<funds::LedgerStep>,
    i: int,
    ctx: ReleaseView,
    merchant_id: Seq<char>,
    now: int,
    program_id: Pubkey,
)
    requires
        start.wf(),
        start.is_fresh(),
        funds::history_is_accepted(start, steps, program_id),
        syncs_own_entries(start, steps),
        funds::step_is_accepted(
            funds::ledger_run(start, steps),
            funds::LedgerStep::Release { i, ctx, merchant_id, now },
            program_id,
        ),
        0 <= i < start.merchants.len(),
        start.merchants[i].wf(),
        start.merchants[i].pending_wallet is None,
    ensures
        ({
            let wallet = ctx.merchant_ata.owner;
            ||| wallet == start.escrows[i].merchant_wallet
            ||| wallet == start.merchants[i].wallet
            ||| waited(steps, i, wallet)
        }),
{
    law_escrow_wallet_never_changes_faster(start, steps, i, program_id);
}

/// A created escrow pays the wallet in force in its merchant's entry: the one given
/// at the registration, or one that was requested and confirmed 24 hours or more
/// later.
pub proof fn law_created_escrow_pays_registered_or_waited(
    registered: RegisterMerchantView,
    merchant_bumps: RegisterMerchantBumps,
    merchant_id: Seq<char>,
    wallet: Pubkey,
    registered_at: int,
    steps: Seq<registry::MerchantStep>,
    opened: InitializeEscrowView,
    escrow_bumps: InitializeEscrowBumps,
)
    requires
        encode_utf8(merchant_id).len() <= MAX_MERCHANT_ID_LEN,
        opened.merchant.data == registry::merchant_run(
            merchant::new_merchant(registered, merchant_bumps, merchant_id, wallet, registered_at),
            steps,
        ),
    ensures
        ({
            let paid = escrow::new_escrow(opened, escrow_bumps, merchant_id).merchant_wallet;
            &&& paid == opened.merchant.data.wallet
            &&& paid == wallet || exists|a: int, b: int|
                registry::requested_and_confirmed(steps, a, b, paid)
        }),
{
    registry::law_wallet_never_changes_faster(
        merchant::new_merchant(registered, merchant_bumps, merchant_id, wallet, registered_at),
        steps,
    );
}

/// From the creation of an escrow on, a release pays the net to a token account of
/// the wallet that was in force in the merchant's entry then, or of one that was
/// requested and confirmed 24 hours or more later.
pub proof fn law_release_pays_wallet_in_force_or_waited(
    start: funds::Ledger,
    steps: Seq<funds::LedgerStep>,
    i: int,
    opened: InitializeEscrowView,
    escrow_bumps: InitializeEscrowBumps,
    ctx: ReleaseView,
    merchant_id: Seq<char>,
    now: int,
    program_id: Pubkey,
)
    requires
        start.wf(),
        start.is_fresh(),
        funds::history_is_accepted(start, steps, program_id),
        syncs_own_entries(start, steps),
        funds::step_is_accepted(
            funds::ledger_run(start, steps),
            funds::LedgerStep::Release { i, ctx, merchant_id, now },
            program_id,
        ),
        0 <= i < start.merchants.len(),
        start.merchants[i] == opened.merchant.data,
        start.escrows[i] == escrow::new_escrow(opened, escrow_bumps, merchant_id),
        start.merchants[i].wf(),
        start.merchants[i].pending_wallet is None,
    ensures
        ctx.merchant_ata.owner == opened.merchant.data.wallet || waited(
            steps,
            i,
            ctx.merchant_ata.owner,
        ),
{
    law_release_pays_waited_wallet(start, steps, i, ctx, merchant_id, now, program_id);
}

/// With the escrow created right at the registration, a release pays the net to a
/// token account of the wallet given at the registration, or of one that was
/// requested and confirmed 24 hours or more later.
pub proof fn law_release_pays_registered_or_waited(
    start: funds::Ledger,
    steps: Seq<funds::LedgerStep>,
    i: int,
    registered: RegisterMerchantView,
    merchant_bumps: RegisterMerchantBumps,
    wallet: Pubkey,
    registered_at: int,
    opened: InitializeEscrowView,
    escrow_bumps: InitializeEscrowBumps,
    ctx: ReleaseView,
    merchant_id: Seq<char>,
    now: int,
    program_id: Pubkey,
)
    requires
        encode_utf8(merchant_id).len() <= MAX_MERCHANT_ID_LEN,
        start.wf(),
        start.is_fresh(),
        funds::history_is_accepted(start, steps, program_id),
        syncs_own_entries(start, steps),
        funds::step_is_accepted(
            funds::ledger_run(start, steps),
            funds::LedgerStep::Release { i, ctx, merchant_id, now },
            program_id,
        ),
        0 <= i < start.merchants.len(),
        start.merchants[i] == merchant::new_merchant(
            registered,
            merchant_bumps,
            merchant_id,
            wallet,
            registered_at,
        ),
        opened.merchant.data == start.merchants[i],
        start.escrows[i] == escrow::new_escrow(opened, escrow_bumps, merchant_id),
    ensures
        ctx.merchant_ata.owner == wallet || waited(steps, i, ctx.merchant_ata.owner),
{
    law_release_pays_waited_wallet(start, steps, i, ctx, merchant_id, now, program_id);
}

} // verus!
