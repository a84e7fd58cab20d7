//! What contracts read of a value is what the value holds.
//!
//! Contracts speak of accounts, orders and plans as mathematical values. The laws
//! here say, field by field, that nothing is lost or changed on the way.
use vstd::prelude::*;

#[allow(unused_imports)]
use crate::accounts::{
    Account, AccountView, Deposit, InitializeConfig, InitializeEscrow, ManageConfig,
    ManageMerchant, RegisterMerchant, Release, UpdateEscrowWallet,
};
#[allow(unused_imports)]
use crate::address;
#[allow(unused_imports)]
use crate::address::ProgramAddress;
#[allow(unused_imports)]
use crate::escrow::ReleasePlan;
#[allow(unused_imports)]
use crate::pubkey;
#[allow(unused_imports)]
use crate::pubkey::Pubkey;
#[allow(unused_imports)]
use crate::state::{EscrowAccount, MerchantAccount, SettlConfig};
#[allow(unused_imports)]
use crate::transfer::TokenTransfer;

verus! {

/// An address is read as its bytes, so two addresses read alike are the same.
pub proof fn law_address_is_read_whole(key: Pubkey, other: Pubkey)
    ensures
        key@ == key.bytes@,
        key@.len() == 32,
        key@ == other@ ==> key == other,
{
    pubkey::lemma_pubkey_view_injective(key, other);
}

/// An optional address is read as its bytes, or as none.
pub proof fn law_optional_addresses_are_read_whole(
    key: Option<Pubkey>,
    found: Option<ProgramAddress>,
)
    ensures
        key is None <==> address::opt_key_view(key) is None,
        key matches Some(k) ==> address::opt_key_view(key) == Some(k.bytes@),
        found is None <==> address::opt_address_view(found) is None,
        found matches Some(f) ==> address::opt_address_view(found) == Some((f.key.bytes@, f.bump)),
{
}

/// A configuration is read field by field.
pub proof fn law_config_is_read_whole(config: SettlConfig)
    ensures
        config@.authority == config.authority,
        config@.treasury_wallet == config.treasury_wallet,
        config@.fee_basis_points == config.fee_basis_points,
        config@.total_fees_collected == config.total_fees_collected,
        config@.bump == config.bump,
{
}

/// A merchant's entry is read field by field.
pub proof fn law_merchant_is_read_whole(merchant: MerchantAccount)
    ensures
        merchant@.merchant_id == merchant.merchant_id@,
        merchant@.wallet == merchant.wallet,
        merchant@.is_active == merchant.is_active,
        merchant@.registered_at == merchant.registered_at,
        merchant@.total_released == merchant.total_released,
        merchant@.total_fees_paid == merchant.total_fees_paid,
        merchant@.authority == merchant.authority,
        merchant@.pending_wallet == merchant.pending_wallet,
        merchant@.wallet_update_at is None <==> merchant.wallet_update_at is None,
        merchant.wallet_update_at matches Some(at) ==> merchant@.wallet_update_at == Some(
            at as int,
        ),
        merchant@.bump == merchant.bump,
{
}

/// An escrow is read field by field.
pub proof fn law_escrow_is_read_whole(escrow: EscrowAccount)
    ensures
        escrow@.merchant_id == escrow.merchant_id@,
        escrow@.merchant_wallet == escrow.merchant_wallet,
        escrow@.pending_balance == escrow.pending_balance,
        escrow@.total_payments == escrow.total_payments,
        escrow@.last_released_at == escrow.last_released_at,
        escrow@.authority == escrow.authority,
        escrow@.bump == escrow.bump,
        escrow@.vault_bump == escrow.vault_bump,
{
}

/// An account is read as its address and what it stores.
pub proof fn law_account_is_read_whole<T: View>(account: Account<T>)
    ensures
        account@.key == account.key,
        account@.data == account.data@,
{
}

/// Storing into an account keeps its address, and what was stored is read again.
pub proof fn law_stored_is_read_again<V>(account: AccountView<V>, first: V, second: V)
    ensures
        account.with(first).key == account.key,
        account.with(first).data == first,
        account.with(first).with(second) == account.with(second),
        account.with(account.data) == account,
{
}

/// The accounts of the instructions on the configuration are read one by one.
pub proof fn law_config_accounts_are_read_whole(creating: InitializeConfig, managing: ManageConfig)
    ensures
        creating@.config == creating.config@,
        creating@.treasury_wallet == creating.treasury_wallet,
        creating@.authority == creating.authority,
        managing@.config == managing.config@,
        managing@.new_treasury == managing.new_treasury,
        managing@.authority == managing.authority,
{
}

/// The accounts of the instructions on a merchant are read one by one.
pub proof fn law_merchant_accounts_are_read_whole(
    registering: RegisterMerchant,
    managing: ManageMerchant,
)
    ensures
        registering@.config == registering.config@,
        registering@.merchant == registering.merchant@,
        registering@.authority == registering.authority,
        managing@.merchant == managing.merchant@,
        managing@.authority == managing.authority,
{
}

/// The accounts of creating an escrow and of bringing it up to date are read one by
/// one.
pub proof fn law_escrow_accounts_are_read_whole(
    creating: InitializeEscrow,
    updating: UpdateEscrowWallet,
)
    ensures
        creating@.merchant == creating.merchant@,
        creating@.escrow == creating.escrow@,
        creating@.vault == creating.vault,
        creating@.authority == creating.authority,
        updating@.merchant == updating.merchant@,
        updating@.escrow == updating.escrow@,
        updating@.authority == updating.authority,
{
}

/// The accounts of a deposit and of a release are read one by one.
pub proof fn law_payment_accounts_are_read_whole(paying: Deposit, releasing: Release)
    ensures
        paying@.merchant == paying.merchant@,
        paying@.escrow == paying.escrow@,
        paying@.vault == paying.vault,
        paying@.customer_ata == paying.customer_ata,
        paying@.customer == paying.customer,
        releasing@.config == releasing.config@,
        releasing@.merchant == releasing.merchant@,
        releasing@.escrow == releasing.escrow@,
        releasing@.vault == releasing.vault,
        releasing@.merchant_ata == releasing.merchant_ata,
        releasing@.treasury_ata == releasing.treasury_ata,
        releasing@.authority == releasing.authority,
{
}

/// An order to the token program is read field by field, its seeds one by one.
pub proof fn law_transfer_is_read_whole(transfer: TokenTransfer)
    ensures
        transfer@.from == transfer.from,
        transfer@.to == transfer.to,
        transfer@.authority == transfer.authority,
        transfer@.amount == transfer.amount,
        transfer@.signer_seeds.len() == transfer.signer_seeds@.len(),
        forall|i: int|
            0 <= i < transfer.signer_seeds@.len() ==> #[trigger] transfer@.signer_seeds[i]
                == transfer.signer_seeds@[i]@,
{
}

/// A release plan is read field by field, its orders one by one.
pub proof fn law_plan_is_read_whole(plan: ReleasePlan)
    ensures
        plan@.gross == plan.gross,
        plan@.fee == plan.fee,
        plan@.net == plan.net,
        plan@.payouts.len() == plan.payouts@.len(),
        forall|i: int|
            0 <= i < plan.payouts@.len() ==> #[trigger] plan@.payouts[i] == plan.payouts@[i]@,
{
}

/// Borrowed seeds are read one by one.
pub proof fn law_seeds_are_read_whole(seeds: Seq<&[u8]>)
    ensures
        address::seed_bytes(seeds).len() == seeds.len(),
        forall|i: int|
            0 <= i < seeds.len() ==> #[trigger] address::seed_bytes(seeds)[i] == seeds[i]@,
{
}

} // verus!
