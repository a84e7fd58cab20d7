//! When an instruction is refused, and with which error.
//!
//! The laws give each decision as a whole, over addresses, keys and amounts: the
//! conditions in the order in which they are tested, and the error of each.
use vstd::prelude::*;
#[allow(unused_imports)]
use vstd::utf8::*;

#[allow(unused_imports)]
use crate::accounts::{
    DepositView, InitializeConfigView, InitializeEscrowView, ManageConfigView, ManageMerchantView,
    RegisterMerchantView, ReleaseView, UpdateEscrowWalletView,
};
#[allow(unused_imports)]
use crate::address;
#[allow(unused_imports)]
use crate::error::{AccountName, InstructionError, SettlError};
#[allow(unused_imports)]
use crate::escrow;
#[allow(unused_imports)]
use crate::merchant;
#[allow(unused_imports)]
use crate::processor;
#[allow(unused_imports)]
use crate::pubkey::Pubkey;
#[allow(unused_imports)]
use crate::state::{
    ConfigView, EscrowView, MerchantView, BASIS_POINTS, MAX_FEE_BASIS_POINTS, MAX_MERCHANT_ID_LEN,
    WALLET_UPDATE_DELAY,
};

verus! {

/// The limits of the program: a fee of at most 10%, identifiers of at most 64 bytes,
/// a delay of 24 hours.
pub proof fn law_limits()
    ensures
        BASIS_POINTS == 10_000,
        10 * MAX_FEE_BASIS_POINTS == BASIS_POINTS,
        MAX_MERCHANT_ID_LEN == 64,
        WALLET_UPDATE_DELAY == 24 * 60 * 60,
{
}

/// A configuration is valid exactly with a rate of at most 10%; an entry and an
/// escrow with an identifier of at most 64 bytes, and an entry also with both or
/// none of pending wallet and unlock time.
pub proof fn law_validity(config: ConfigView, entry: MerchantView, account: EscrowView)
    ensures
        config.wf() <==> config.fee_basis_points <= 1_000,
        entry.wf() <==> encode_utf8(entry.merchant_id).len() <= 64 && (entry.pending_wallet is Some
            == entry.wallet_update_at is Some),
        account.wf() <==> encode_utf8(account.merchant_id).len() <= 64,
{
}

/// A confirmation is refused without an open change, before the change unlocks, and
/// without a pending wallet; else it is accepted.
pub proof fn law_confirmation_decision(entry: MerchantView, now: int)
    ensures
        merchant::confirm_error(entry, now) == if entry.wallet_update_at is None {
            Some(SettlError::NoWalletUpdatePending)
        } else if now < entry.wallet_update_at->0 {
            Some(SettlError::WalletUpdateNotReady)
        } else if entry.pending_wallet is None {
            Some(SettlError::NoWalletUpdatePending)
        } else {
            None
        },
{
}

/// A deposit is refused with nothing to pay, for an inactive merchant, and for an
/// identifier that is not the escrow's; else it is accepted.
pub proof fn law_deposit_decision(ctx: DepositView, merchant_id: Seq<char>, amount: nat)
    ensures
        escrow::deposit_error(ctx, merchant_id, amount) == if amount == 0 {
            Some(SettlError::ZeroAmount)
        } else if !ctx.merchant.data.is_active {
            Some(SettlError::MerchantInactive)
        } else if ctx.escrow.data.merchant_id != merchant_id {
            Some(SettlError::MerchantMismatch)
        } else {
            None
        },
{
}

/// A release is refused for an identifier that is not the escrow's, with nothing
/// pending, and where the fee cannot be computed within 64 bits or exceeds what is
/// pending; else it is accepted.
pub proof fn law_release_decision(ctx: ReleaseView, merchant_id: Seq<char>)
    ensures
        ({
            let pending = ctx.escrow.data.pending_balance;
            let product = pending * ctx.config.data.fee_basis_points;
            escrow::release_error(ctx, merchant_id) == if ctx.escrow.data.merchant_id
                != merchant_id {
                Some(SettlError::MerchantMismatch)
            } else if pending == 0 {
                Some(SettlError::ZeroBalance)
            } else if product > 0xffff_ffff_ffff_ffff || product >= 10_000 * (pending + 1) {
                Some(SettlError::Overflow)
            } else {
                None
            }
        }),
{
}

/// The seeds of the program's accounts: a tag, and for a merchant's accounts the
/// bytes of its identifier.
pub proof fn law_seeds(merchant_id: Seq<char>)
    ensures
        address::config_seeds() =~= seq![encode_utf8("config"@)],
        address::merchant_seeds(merchant_id) =~= seq![
            encode_utf8("merchant"@),
            encode_utf8(merchant_id),
        ],
        address::escrow_seeds(merchant_id) =~= seq![
            encode_utf8("escrow"@),
            encode_utf8(merchant_id),
        ],
        address::vault_seeds(merchant_id) =~= seq![
            encode_utf8("vault"@),
            encode_utf8(merchant_id),
        ],
{
}

/// Two merchants share no seeds, whatever the kind of account.
pub proof fn law_merchants_share_no_seeds(first: Seq<char>, second: Seq<char>)
    requires
        encode_utf8(first) != encode_utf8(second),
    ensures
        address::merchant_seeds(first) != address::merchant_seeds(second),
        address::escrow_seeds(first) != address::escrow_seeds(second),
        address::vault_seeds(first) != address::vault_seeds(second),
{
    assert(address::merchant_seeds(first)[1] != address::merchant_seeds(second)[1]);
    assert(address::escrow_seeds(first)[1] != address::escrow_seeds(second)[1]);
    assert(address::vault_seeds(first)[1] != address::vault_seeds(second)[1]);
}

/// The address of seeds and a bump is the program address of the seeds with the bump
/// as one more, and a key is there exactly when its bytes are that address.
pub proof fn law_address_of_bump(seeds: Seq<Seq<u8>>, bump: u8, key: Pubkey, program_id: Pubkey)
    ensures
        address::bumped_address(seeds, bump, program_id@) == address::program_address(
            seeds.push(seq![bump]),
            program_id@,
        ),
        address::is_at(key, seeds, bump, program_id) <==> address::program_address(
            seeds.push(seq![bump]),
            program_id@,
        ) == Some(key.bytes@),
{
}

/// Among bumps of at least `bump` of which one works, one is the greatest.
proof fn lemma_some_bump_is_greatest(seeds: Seq<Seq<u8>>, program_id: Seq<u8>, bump: u8)
    requires
        bump >= 1,
        address::bumped_address(seeds, bump, program_id) is Some,
    ensures
        exists|b: u8| address::is_canonical_bump(seeds, b, program_id),
    decreases 255 - bump,
{
    if exists|higher: u8|
        higher > bump && (#[trigger] address::bumped_address(seeds, higher, program_id)) is Some {
        let higher = choose|higher: u8|
            higher > bump && (#[trigger] address::bumped_address(
                seeds,
                higher,
                program_id,
            )) is Some;
        lemma_some_bump_is_greatest(seeds, program_id, higher);
    } else {
        assert(address::is_canonical_bump(seeds, bump, program_id));
    }
}

/// The canonical address of seeds is the one of the greatest bump of at least one
/// that derives an address at all, and comes with that bump. Seeds have none exactly
/// when no such bump does.
pub proof fn law_canonical_address_has_greatest_bump(seeds: Seq<Seq<u8>>, program_id: Seq<u8>)
    ensures
        address::canonical_address(seeds, program_id) is None <==> forall|bump: u8|
            bump >= 1 ==> (#[trigger] address::program_address(
                seeds.push(seq![bump]),
                program_id,
            )) is None,
        address::canonical_address(seeds, program_id) matches Some((found, bump)) ==> {
            &&& bump == address::canonical_bump(seeds, program_id)
            &&& bump >= 1
            &&& address::program_address(seeds.push(seq![bump]), program_id) == Some(found)
            &&& forall|higher: u8|
                higher > bump ==> (#[trigger] address::program_address(
                    seeds.push(seq![higher]),
                    program_id,
                )) is None
        },
{
    let none_works = forall|bump: u8|
        bump >= 1 ==> (#[trigger] address::program_address(
            seeds.push(seq![bump]),
            program_id,
        )) is None;
    if exists|b: u8| address::is_canonical_bump(seeds, b, program_id) {
        let chosen = address::canonical_bump(seeds, program_id);
        assert(address::is_canonical_bump(seeds, chosen, program_id));
        assert(address::program_address(seeds.push(seq![chosen]), program_id) is Some);
        assert forall|higher: u8| higher > chosen implies (#[trigger] address::program_address(
            seeds.push(seq![higher]),
            program_id,
        )) is None by {
            assert(address::bumped_address(seeds, higher, program_id) is None);
        }
    } else if !none_works {
        let bump = choose|bump: u8|
            bump >= 1 && (#[trigger] address::program_address(
                seeds.push(seq![bump]),
                program_id,
            )) is Some;
        assert(address::bumped_address(seeds, bump, program_id) is Some);
        lemma_some_bump_is_greatest(seeds, program_id, bump);
    }
}

/// The bumps of creations are those of the canonical addresses.
pub proof fn law_creation_bumps(merchant_id: Seq<char>, program_id: Pubkey)
    ensures
        processor::initialize_config_bumps(program_id).config == address::canonical_bump(
            seq![encode_utf8("config"@)],
            program_id@,
        ),
        processor::register_merchant_bumps(merchant_id, program_id).merchant
            == address::canonical_bump(
            seq![encode_utf8("merchant"@), encode_utf8(merchant_id)],
            program_id@,
        ),
        processor::initialize_escrow_bumps(merchant_id, program_id).escrow
            == address::canonical_bump(
            seq![encode_utf8("escrow"@), encode_utf8(merchant_id)],
            program_id@,
        ),
        processor::initialize_escrow_bumps(merchant_id, program_id).vault
            == address::canonical_bump(
            seq![encode_utf8("vault"@), encode_utf8(merchant_id)],
            program_id@,
        ),
{
}

/// A new account stands at the canonical address found for it.
pub open spec fn is_found(key: Pubkey, found: Option<(Seq<u8>, u8)>) -> bool {
    found matches Some((canonical, _)) && canonical == key.bytes@
}

/// A configuration's creation is refused where it has no address, and elsewhere than
/// at its canonical address; else it is accepted.
pub proof fn law_initialize_config_decision(
    ctx: InitializeConfigView,
    config: Option<(Seq<u8>, u8)>,
)
    ensures
        ctx.refusal(config) == if config is None {
            Some(InstructionError::NoProgramAddress(AccountName::Config))
        } else if !is_found(ctx.config.key, config) {
            Some(InstructionError::ConstraintSeeds(AccountName::Config))
        } else {
            None
        },
{
}

/// A change of the configuration is refused elsewhere than at its address, and to
/// who is not its authority; else it is accepted.
pub proof fn law_manage_config_decision(ctx: ManageConfigView, config: Option<Seq<u8>>)
    ensures
        ctx.refusal(config) == if config != Some(ctx.config.key.bytes@) {
            Some(InstructionError::ConstraintSeeds(AccountName::Config))
        } else if ctx.authority != ctx.config.data.authority {
            Some(InstructionError::Account(AccountName::Config, SettlError::Unauthorized))
        } else {
            None
        },
{
}

/// A registration is refused where the merchant has no address, elsewhere than at
/// its canonical address, with a configuration elsewhere than at its address, and to
/// who is not the configuration's authority; else it is accepted.
pub proof fn law_register_merchant_decision(
    ctx: RegisterMerchantView,
    merchant: Option<(Seq<u8>, u8)>,
    config: Option<Seq<u8>>,
)
    ensures
        ctx.refusal(merchant, config) == if merchant is None {
            Some(InstructionError::NoProgramAddress(AccountName::Merchant))
        } else if !is_found(ctx.merchant.key, merchant) {
            Some(InstructionError::ConstraintSeeds(AccountName::Merchant))
        } else if config != Some(ctx.config.key.bytes@) {
            Some(InstructionError::ConstraintSeeds(AccountName::Config))
        } else if ctx.authority != ctx.config.data.authority {
            Some(InstructionError::Account(AccountName::Config, SettlError::Unauthorized))
        } else {
            None
        },
{
}

/// Managing a merchant is refused to who is not its authority; else it is accepted.
pub proof fn law_manage_merchant_decision(ctx: ManageMerchantView)
    ensures
        ctx.refusal() == if ctx.authority != ctx.merchant.data.authority {
            Some(InstructionError::Account(AccountName::Merchant, SettlError::Unauthorized))
        } else {
            None
        },
{
}

/// An escrow's creation is refused where escrow or vault have no address, elsewhere
/// than at their canonical addresses, with a merchant elsewhere than at its address,
/// and to who is not the merchant's authority; else it is accepted.
pub proof fn law_initialize_escrow_decision(
    ctx: InitializeEscrowView,
    escrow: Option<(Seq<u8>, u8)>,
    vault: Option<(Seq<u8>, u8)>,
    merchant: Option<Seq<u8>>,
)
    ensures
        ctx.refusal(escrow, vault, merchant) == if escrow is None {
            Some(InstructionError::NoProgramAddress(AccountName::Escrow))
        } else if !is_found(ctx.escrow.key, escrow) {
            Some(InstructionError::ConstraintSeeds(AccountName::Escrow))
        } else if vault is None {
            Some(InstructionError::NoProgramAddress(AccountName::Vault))
        } else if !is_found(ctx.vault.key, vault) {
            Some(InstructionError::ConstraintSeeds(AccountName::Vault))
        } else if merchant != Some(ctx.merchant.key.bytes@) {
            Some(InstructionError::ConstraintSeeds(AccountName::Merchant))
        } else if ctx.authority != ctx.merchant.data.authority {
            Some(InstructionError::Account(AccountName::Merchant, SettlError::Unauthorized))
        } else {
            None
        },
{
}

/// A deposit is refused with a merchant, an escrow or a vault elsewhere than at its
/// address; else it is accepted, from every customer.
pub proof fn law_deposit_accounts_decision(
    ctx: DepositView,
    merchant: Option<Seq<u8>>,
    escrow: Option<Seq<u8>>,
    vault: Option<Seq<u8>>,
)
    ensures
        ctx.refusal(merchant, escrow, vault) == if merchant != Some(ctx.merchant.key.bytes@) {
            Some(InstructionError::ConstraintSeeds(AccountName::Merchant))
        } else if escrow != Some(ctx.escrow.key.bytes@) {
            Some(InstructionError::ConstraintSeeds(AccountName::Escrow))
        } else if vault != Some(ctx.vault.key.bytes@) {
            Some(InstructionError::ConstraintSeeds(AccountName::Vault))
        } else {
            None
        },
{
}

/// A release is refused with a configuration, a merchant or an escrow elsewhere than
/// at its address, to who is not the escrow's authority, with a vault elsewhere than
/// at its address, and to token accounts of other wallets; else it is accepted.
pub proof fn law_release_accounts_decision(
    ctx: ReleaseView,
    config: Option<Seq<u8>>,
    merchant: Option<Seq<u8>>,
    escrow: Option<Seq<u8>>,
    vault: Option<Seq<u8>>,
)
    ensures
        ctx.refusal(config, merchant, escrow, vault) == if config != Some(ctx.config.key.bytes@) {
            Some(InstructionError::ConstraintSeeds(AccountName::Config))
        } else if merchant != Some(ctx.merchant.key.bytes@) {
            Some(InstructionError::ConstraintSeeds(AccountName::Merchant))
        } else if escrow != Some(ctx.escrow.key.bytes@) {
            Some(InstructionError::ConstraintSeeds(AccountName::Escrow))
        } else if ctx.authority != ctx.escrow.data.authority {
            Some(InstructionError::Account(AccountName::Escrow, SettlError::Unauthorized))
        } else if vault != Some(ctx.vault.key.bytes@) {
            Some(InstructionError::ConstraintSeeds(AccountName::Vault))
        } else if ctx.merchant_ata.owner != ctx.escrow.data.merchant_wallet {
            Some(InstructionError::ConstraintTokenOwner(AccountName::MerchantAta))
        } else if ctx.treasury_ata.owner != ctx.config.data.treasury_wallet {
            Some(InstructionError::ConstraintTokenOwner(AccountName::TreasuryAta))
        } else {
            None
        },
{
}

/// Bringing an escrow up to date is refused to who is not the authority of the
/// merchant, and of the escrow; else it is accepted.
pub proof fn law_update_escrow_wallet_decision(ctx: UpdateEscrowWalletView)
    ensures
        ctx.refusal() == if ctx.authority != ctx.merchant.data.authority {
            Some(InstructionError::Account(AccountName::Merchant, SettlError::Unauthorized))
        } else if ctx.authority != ctx.escrow.data.authority {
            Some(InstructionError::Account(AccountName::Escrow, SettlError::Unauthorized))
        } else {
            None
        },
{
}

/// The program address of a tag alone, or of a tag and an identifier, with a bump.
pub open spec fn address_of(tag: Seq<char>, id: Option<Seq<char>>, bump: u8, program_id: Pubkey) ->
    Option<Seq<u8>> {
    address::program_address(
        match id {
            Some(id) => seq![encode_utf8(tag), encode_utf8(id), seq![bump]],
            None => seq![encode_utf8(tag), seq![bump]],
        },
        program_id.bytes@,
    )
}

/// Pushing a bump behind one or two seeds.
pub proof fn lemma_bump_is_last(tag: Seq<char>, id: Seq<char>, bump: u8)
    ensures
        seq![encode_utf8(tag)].push(seq![bump]) =~= seq![encode_utf8(tag), seq![bump]],
        seq![encode_utf8(tag), encode_utf8(id)].push(seq![bump]) =~= seq![
            encode_utf8(tag),
            encode_utf8(id),
            seq![bump],
        ],
{
}

/// Where the instructions on existing accounts look for them: each account at the
/// address of its tag, the identifier given and the bump that the account records;
/// the vault with the bump that the escrow records.
pub proof fn law_accounts_are_looked_for(
    managing: ManageConfigView,
    paying: DepositView,
    releasing: ReleaseView,
    id: Seq<char>,
    program_id: Pubkey,
)
    ensures
        processor::manage_config_refusal(managing, program_id) == managing.refusal(
            address_of("config"@, None, managing.config.data.bump, program_id),
        ),
        processor::deposit_refusal(paying, id, program_id) == paying.refusal(
            address_of("merchant"@, Some(id), paying.merchant.data.bump, program_id),
            address_of("escrow"@, Some(id), paying.escrow.data.bump, program_id),
            address_of("vault"@, Some(id), paying.escrow.data.vault_bump, program_id),
        ),
        processor::release_refusal(releasing, id, program_id) == releasing.refusal(
            address_of("config"@, None, releasing.config.data.bump, program_id),
            address_of("merchant"@, Some(id), releasing.merchant.data.bump, program_id),
            address_of("escrow"@, Some(id), releasing.escrow.data.bump, program_id),
            address_of("vault"@, Some(id), releasing.escrow.data.vault_bump, program_id),
        ),
{
    lemma_bump_is_last("config"@, id, managing.config.data.bump);
    lemma_bump_is_last("config"@, id, releasing.config.data.bump);
    lemma_bump_is_last("merchant"@, id, paying.merchant.data.bump);
    lemma_bump_is_last("merchant"@, id, releasing.merchant.data.bump);
    lemma_bump_is_last("escrow"@, id, paying.escrow.data.bump);
    lemma_bump_is_last("escrow"@, id, releasing.escrow.data.bump);
    lemma_bump_is_last("vault"@, id, paying.escrow.data.vault_bump);
    lemma_bump_is_last("vault"@, id, releasing.escrow.data.vault_bump);
}

/// Where the creating instructions put and look for accounts: a new account at the
/// canonical address of its tag and the identifier given, an existing one at the
/// address of its tag, the identifier and the bump that it records.
pub proof fn law_new_accounts_are_put(
    creating: InitializeConfigView,
    registering: RegisterMerchantView,
    opening: InitializeEscrowView,
    id: Seq<char>,
    program_id: Pubkey,
)
    ensures
        processor::initialize_config_refusal(creating, program_id) == creating.refusal(
            address::canonical_address(seq![encode_utf8("config"@)], program_id.bytes@),
        ),
        processor::register_merchant_refusal(registering, id, program_id) == registering.refusal(
            address::canonical_address(
                seq![encode_utf8("merchant"@), encode_utf8(id)],
                program_id.bytes@,
            ),
            address_of("config"@, None, registering.config.data.bump, program_id),
        ),
        processor::initialize_escrow_refusal(opening, id, program_id) == opening.refusal(
            address::canonical_address(
                seq![encode_utf8("escrow"@), encode_utf8(id)],
                program_id.bytes@,
            ),
            address::canonical_address(
                seq![encode_utf8("vault"@), encode_utf8(id)],
                program_id.bytes@,
            ),
            address_of("merchant"@, Some(id), opening.merchant.data.bump, program_id),
        ),
{
    lemma_bump_is_last("config"@, id, registering.config.data.bump);
    lemma_bump_is_last("merchant"@, id, opening.merchant.data.bump);
}

} // verus!
