//! Who may do what, and with which accounts.
use vstd::prelude::*;
#[allow(unused_imports)]
use vstd::utf8::*;

#[allow(unused_imports)]
use crate::accounts::{
    DepositView, InitializeConfigView, InitializeEscrowView, ManageConfigView, ManageMerchantView,
    RegisterMerchantView, ReleaseView, UpdateEscrowWalletView,
};
#[allow(unused_imports)]
use crate::address;
#[allow(unused_imports)]
use crate::config;
#[allow(unused_imports)]
use crate::constraints;
#[allow(unused_imports)]
use crate::error::{AccountName, InstructionError, SettlError};
#[allow(unused_imports)]
use crate::escrow;
#[allow(unused_imports)]
use crate::laws::{fees, funds, registry};
#[allow(unused_imports)]
use crate::merchant;
#[allow(unused_imports)]
use crate::processor;
#[allow(unused_imports)]
use crate::pubkey::Pubkey;
#[allow(unused_imports)]
use crate::state::{
    ConfigView, EscrowView, MerchantView, MAX_FEE_BASIS_POINTS, MAX_MERCHANT_ID_LEN,
};

verus! {

/// Only the authority of an escrow can have it released.
pub proof fn law_only_authority_releases(
    ctx: ReleaseView,
    merchant_id: Seq<char>,
    program_id: Pubkey,
)
    requires
        ctx.authority != ctx.escrow.data.authority,
    ensures
        processor::release_refusal(ctx, merchant_id, program_id) is Some,
{
}

/// Only the authority of the configuration can change it.
pub proof fn law_only_authority_manages_config(ctx: ManageConfigView, program_id: Pubkey)
    requires
        ctx.authority != ctx.config.data.authority,
    ensures
        processor::manage_config_refusal(ctx, program_id) is Some,
{
}

/// Only the authority of a merchant can manage it; anyone else is told so.
pub proof fn law_only_authority_manages_merchant(ctx: ManageMerchantView)
    ensures
        ctx.refusal() is None <==> ctx.authority == ctx.merchant.data.authority,
        ctx.authority != ctx.merchant.data.authority ==> ctx.refusal() == Some(
            InstructionError::Account(AccountName::Merchant, SettlError::Unauthorized),
        ),
{
}

/// Only who is the authority of both a merchant and an escrow can bring the
/// escrow's wallet up to date.
pub proof fn law_only_authority_syncs(ctx: UpdateEscrowWalletView)
    ensures
        ctx.refusal() is None <==> ctx.authority == ctx.merchant.data.authority && ctx.authority
            == ctx.escrow.data.authority,
{
}

/// All accounts of a release stand where the seeds of one merchant say.
pub open spec fn release_in_place(
    ctx: ReleaseView,
    merchant_id: Seq<char>,
    program_id: Pubkey,
) -> bool {
    &&& address::is_at(
        ctx.config.key,
        address::config_seeds(),
        ctx.config.data.bump,
        program_id,
    )
    &&& address::is_at(
        ctx.merchant.key,
        address::merchant_seeds(merchant_id),
        ctx.merchant.data.bump,
        program_id,
    )
    &&& address::is_at(
        ctx.escrow.key,
        address::escrow_seeds(merchant_id),
        ctx.escrow.data.bump,
        program_id,
    )
    &&& address::is_at(
        ctx.vault.key,
        address::vault_seeds(merchant_id),
        ctx.escrow.data.vault_bump,
        program_id,
    )
}

/// The token accounts that a release pays belong to the escrow's merchant wallet and
/// to the treasury wallet.
pub open spec fn receivers_belong(ctx: ReleaseView) -> bool {
    &&& ctx.merchant_ata.owner == ctx.escrow.data.merchant_wallet
    &&& ctx.treasury_ata.owner == ctx.config.data.treasury_wallet
}

/// A release is open to its authority exactly on accounts in place and to token
/// accounts of the two wallets. On accounts in place anyone else is told to be
/// unauthorized, and the authority is told which token account belongs to another
/// wallet.
pub proof fn law_release_accepts_accounts_in_place(
    ctx: ReleaseView,
    merchant_id: Seq<char>,
    program_id: Pubkey,
)
    ensures
        processor::release_refusal(ctx, merchant_id, program_id) is None <==> release_in_place(
            ctx,
            merchant_id,
            program_id,
        ) && ctx.authority == ctx.escrow.data.authority && receivers_belong(ctx),
        release_in_place(ctx, merchant_id, program_id) && ctx.authority
            != ctx.escrow.data.authority ==> processor::release_refusal(
            ctx,
            merchant_id,
            program_id,
        ) == Some(InstructionError::Account(AccountName::Escrow, SettlError::Unauthorized)),
        release_in_place(ctx, merchant_id, program_id) && ctx.authority
            == ctx.escrow.data.authority && !receivers_belong(ctx) ==> processor::release_refusal(
            ctx,
            merchant_id,
            program_id,
        ) == Some(
            InstructionError::ConstraintTokenOwner(
                if ctx.merchant_ata.owner != ctx.escrow.data.merchant_wallet {
                    AccountName::MerchantAta
                } else {
                    AccountName::TreasuryAta
                },
            ),
        ),
{
}

/// A release leaves its accounts in place and the wallets as they are, so the next
/// one finds them there.
pub proof fn law_release_keeps_accounts_in_place(
    ctx: ReleaseView,
    plan: escrow::ReleasePlanView,
    now: int,
    merchant_id: Seq<char>,
    program_id: Pubkey,
)
    ensures
        release_in_place(escrow::settled(ctx, plan, now), merchant_id, program_id)
            == release_in_place(ctx, merchant_id, program_id),
        receivers_belong(escrow::settled(ctx, plan, now)) == receivers_belong(ctx),
{
}

/// A deposit is open to every customer on accounts in place, whoever they are.
pub proof fn law_deposit_accepts_accounts_in_place(
    ctx: DepositView,
    merchant_id: Seq<char>,
    program_id: Pubkey,
)
    ensures
        processor::deposit_refusal(ctx, merchant_id, program_id) is None <==> {
            &&& address::is_at(
                ctx.merchant.key,
                address::merchant_seeds(merchant_id),
                ctx.merchant.data.bump,
                program_id,
            )
            &&& address::is_at(
                ctx.escrow.key,
                address::escrow_seeds(merchant_id),
                ctx.escrow.data.bump,
                program_id,
            )
            &&& address::is_at(
                ctx.vault.key,
                address::vault_seeds(merchant_id),
                ctx.escrow.data.vault_bump,
                program_id,
            )
        },
{
}

/// The seeds with which an accepted release signs derive the escrow's own address,
/// so the program signs for the escrow and for nothing else.
pub proof fn law_release_signs_for_escrow(
    ctx: ReleaseView,
    merchant_id: Seq<char>,
    program_id: Pubkey,
    i: int,
)
    requires
        processor::release_refusal(ctx, merchant_id, program_id) is None,
        0 <= i < escrow::release_plan(ctx, merchant_id).payouts.len(),
    ensures
        ({
            let payout = escrow::release_plan(ctx, merchant_id).payouts[i];
            &&& payout.authority == ctx.escrow.key
            &&& address::program_address(payout.signer_seeds, program_id@) == Some(
                ctx.escrow.key@,
            )
        }),
{
}

/// An account created at the canonical address of its seeds, with the canonical
/// bump, stands where seeds and bump say.
pub proof fn law_created_account_is_in_place(
    name: AccountName,
    key: Pubkey,
    seeds: Seq<Seq<u8>>,
    program_id: Pubkey,
)
    requires
        constraints::creation_refusal(
            name,
            key,
            address::canonical_address(seeds, program_id@),
        ) is None,
    ensures
        address::is_at(key, seeds, address::canonical_bump(seeds, program_id@), program_id),
{
}

/// Who created the configuration can change it, whatever was done to it since.
pub proof fn law_creator_manages_config(
    created: InitializeConfigView,
    fee_basis_points: nat,
    steps: Seq<fees::ConfigStep>,
    ctx: ManageConfigView,
    program_id: Pubkey,
)
    requires
        processor::initialize_config_refusal(created, program_id) is None,
        fee_basis_points <= MAX_FEE_BASIS_POINTS,
        ctx.config == created.config.with(
            fees::config_run(
                config::new_config(
                    created,
                    processor::initialize_config_bumps(program_id),
                    fee_basis_points,
                ),
                steps,
            ),
        ),
        ctx.authority == created.authority,
    ensures
        processor::manage_config_refusal(ctx, program_id) is None,
{
    fees::law_config_stays_valid(
        config::new_config(
            created,
            processor::initialize_config_bumps(program_id),
            fee_basis_points,
        ),
        steps,
    );
}

/// Only the authority of the configuration registers merchants. With the accounts
/// otherwise in order anyone else is told to be unauthorized.
pub proof fn law_only_backend_registers(
    ctx: RegisterMerchantView,
    merchant_id: Seq<char>,
    program_id: Pubkey,
)
    requires
        ctx.authority != ctx.config.data.authority,
    ensures
        processor::register_merchant_refusal(ctx, merchant_id, program_id) is Some,
        processor::register_merchant_refusal(
            RegisterMerchantView { authority: ctx.config.data.authority, ..ctx },
            merchant_id,
            program_id,
        ) is None ==> processor::register_merchant_refusal(ctx, merchant_id, program_id) == Some(
            InstructionError::Account(AccountName::Config, SettlError::Unauthorized),
        ),
{
}

/// Only the authority of a merchant creates its escrow. With the accounts otherwise
/// in order anyone else is told to be unauthorized.
pub proof fn law_only_merchant_authority_opens_escrow(
    ctx: InitializeEscrowView,
    merchant_id: Seq<char>,
    program_id: Pubkey,
)
    requires
        ctx.authority != ctx.merchant.data.authority,
    ensures
        processor::initialize_escrow_refusal(ctx, merchant_id, program_id) is Some,
        processor::initialize_escrow_refusal(
            InitializeEscrowView { authority: ctx.merchant.data.authority, ..ctx },
            merchant_id,
            program_id,
        ) is None ==> processor::initialize_escrow_refusal(ctx, merchant_id, program_id) == Some(
            InstructionError::Account(AccountName::Merchant, SettlError::Unauthorized),
        ),
{
}

/// The authority of the configuration at its registration, and nobody else, can
/// manage a merchant, whatever was done to the merchant since.
pub proof fn law_backend_manages_merchant(
    registered: RegisterMerchantView,
    merchant_id: Seq<char>,
    wallet: Pubkey,
    now: int,
    steps: Seq<registry::MerchantStep>,
    ctx: ManageMerchantView,
    program_id: Pubkey,
)
    requires
        processor::register_merchant_refusal(registered, merchant_id, program_id) is None,
        encode_utf8(merchant_id).len() <= MAX_MERCHANT_ID_LEN,
        ctx.merchant == registered.merchant.with(
            registry::merchant_run(
                merchant::new_merchant(
                    registered,
                    processor::register_merchant_bumps(merchant_id, program_id),
                    merchant_id,
                    wallet,
                    now,
                ),
                steps,
            ),
        ),
    ensures
        ctx.refusal() is None <==> ctx.authority == registered.config.data.authority,
{
    registry::law_merchant_stays_valid(
        merchant::new_merchant(
            registered,
            processor::register_merchant_bumps(merchant_id, program_id),
            merchant_id,
            wallet,
            now,
        ),
        steps,
    );
}

/// A newly registered merchant can be given an escrow by the configuration's
/// authority: the creation of an escrow finds the registry entry where it looks for
/// it, and the signer recorded in it.
pub proof fn law_registered_merchant_gets_escrow(
    registered: RegisterMerchantView,
    merchant_id: Seq<char>,
    wallet: Pubkey,
    now: int,
    ctx: InitializeEscrowView,
    program_id: Pubkey,
)
    requires
        processor::register_merchant_refusal(registered, merchant_id, program_id) is None,
        ctx.merchant == registered.merchant.with(
            merchant::new_merchant(
                registered,
                processor::register_merchant_bumps(merchant_id, program_id),
                merchant_id,
                wallet,
                now,
            ),
        ),
        ctx.authority == registered.config.data.authority,
    ensures
        processor::initialize_escrow_refusal(ctx, merchant_id, program_id) == constraints::first(
            constraints::creation_refusal(
                AccountName::Escrow,
                ctx.escrow.key,
                address::canonical_address(address::escrow_seeds(merchant_id), program_id@),
            ),
            constraints::creation_refusal(
                AccountName::Vault,
                ctx.vault.key,
                address::canonical_address(address::vault_seeds(merchant_id), program_id@),
            ),
        ),
{
}

/// An escrow takes deposits of every positive amount from everyone, whatever was
/// done to it and to its merchant since its creation, as long as the merchant is
/// active.
pub proof fn law_created_escrow_takes_deposits(
    created: InitializeEscrowView,
    merchant_id: Seq<char>,
    escrow_steps: Seq<funds::EscrowStep>,
    merchant_steps: Seq<registry::MerchantStep>,
    ctx: DepositView,
    amount: nat,
    program_id: Pubkey,
)
    requires
        processor::initialize_escrow_refusal(created, merchant_id, program_id) is None,
        encode_utf8(merchant_id).len() <= MAX_MERCHANT_ID_LEN,
        created.merchant.data.wf(),
        ctx.merchant == created.merchant.with(
            registry::merchant_run(created.merchant.data, merchant_steps),
        ),
        ctx.escrow == created.escrow.with(
            funds::escrow_run(
                escrow::new_escrow(
                    created,
                    processor::initialize_escrow_bumps(merchant_id, program_id),
                    merchant_id,
                ),
                escrow_steps,
            ),
        ),
        ctx.vault.key == created.vault.key,
        ctx.merchant.data.is_active,
        amount > 0,
    ensures
        processor::deposit_refusal(ctx, merchant_id, program_id) is None,
        escrow::deposit_error(ctx, merchant_id, amount) is None,
{
    registry::law_merchant_stays_valid(created.merchant.data, merchant_steps);
    funds::law_escrow_stays_valid(
        escrow::new_escrow(
            created,
            processor::initialize_escrow_bumps(merchant_id, program_id),
            merchant_id,
        ),
        escrow_steps,
    );
}

/// The authority of a merchant, who alone could create its escrow, and nobody else
/// can have the escrow released, whatever was done to it and to the merchant since,
/// with the configuration in place and to token accounts of the two wallets.
pub proof fn law_merchant_authority_releases_escrow(
    created: InitializeEscrowView,
    merchant_id: Seq<char>,
    escrow_steps: Seq<funds::EscrowStep>,
    merchant_steps: Seq<registry::MerchantStep>,
    ctx: ReleaseView,
    program_id: Pubkey,
)
    requires
        processor::initialize_escrow_refusal(created, merchant_id, program_id) is None,
        encode_utf8(merchant_id).len() <= MAX_MERCHANT_ID_LEN,
        created.merchant.data.wf(),
        address::is_at(
            ctx.config.key,
            address::config_seeds(),
            ctx.config.data.bump,
            program_id,
        ),
        ctx.merchant == created.merchant.with(
            registry::merchant_run(created.merchant.data, merchant_steps),
        ),
        ctx.escrow == created.escrow.with(
            funds::escrow_run(
                escrow::new_escrow(
                    created,
                    processor::initialize_escrow_bumps(merchant_id, program_id),
                    merchant_id,
                ),
                escrow_steps,
            ),
        ),
        ctx.vault.key == created.vault.key,
        receivers_belong(ctx),
    ensures
        processor::release_refusal(ctx, merchant_id, program_id) is None <==> ctx.authority
            == created.merchant.data.authority,
        escrow::release_error(ctx, merchant_id) != Some(SettlError::MerchantMismatch),
{
    registry::law_merchant_stays_valid(created.merchant.data, merchant_steps);
    funds::law_escrow_stays_valid(
        escrow::new_escrow(
            created,
            processor::initialize_escrow_bumps(merchant_id, program_id),
            merchant_id,
        ),
        escrow_steps,
    );
}

/// How an escrow came to be what it is: the configuration was created and changed,
/// the merchant was registered and changed, and the escrow was created and changed.
pub struct EscrowPast {
    pub created: InitializeConfigView,
    pub fee_basis_points: nat,
    /// What was done to the configuration before the registration.
    pub config_steps: Seq<fees::ConfigStep>,
    pub registered: RegisterMerchantView,
    pub merchant_id: Seq<char>,
    pub wallet: Pubkey,
    pub registered_at: int,
    /// What was done to the merchant before its escrow was created.
    pub merchant_steps: Seq<registry::MerchantStep>,
    pub opened: InitializeEscrowView,
    pub escrow_steps: Seq<funds::EscrowStep>,
}

impl EscrowPast {
    /// The configuration when the merchant was registered.
    pub open spec fn config(self, program_id: Pubkey) -> ConfigView {
        fees::config_run(
            config::new_config(
                self.created,
                processor::initialize_config_bumps(program_id),
                self.fee_basis_points,
            ),
            self.config_steps,
        )
    }

    /// The merchant when its escrow was created.
    pub open spec fn merchant(self, program_id: Pubkey) -> MerchantView {
        registry::merchant_run(
            merchant::new_merchant(
                self.registered,
                processor::register_merchant_bumps(self.merchant_id, program_id),
                self.merchant_id,
                self.wallet,
                self.registered_at,
            ),
            self.merchant_steps,
        )
    }

    /// The escrow as it is now.
    pub open spec fn escrow(self, program_id: Pubkey) -> EscrowView {
        funds::escrow_run(
            escrow::new_escrow(
                self.opened,
                processor::initialize_escrow_bumps(self.merchant_id, program_id),
                self.merchant_id,
            ),
            self.escrow_steps,
        )
    }

    /// The three creations were accepted, each on what the one before it left.
    pub open spec fn is_accepted(self, program_id: Pubkey) -> bool {
        &&& processor::initialize_config_refusal(self.created, program_id) is None
        &&& self.fee_basis_points <= MAX_FEE_BASIS_POINTS
        &&& self.registered.config == self.created.config.with(self.config(program_id))
        &&& processor::register_merchant_refusal(
            self.registered,
            self.merchant_id,
            program_id,
        ) is None
        &&& encode_utf8(self.merchant_id).len() <= MAX_MERCHANT_ID_LEN
        &&& self.opened.merchant == self.registered.merchant.with(self.merchant(program_id))
        &&& processor::initialize_escrow_refusal(
            self.opened,
            self.merchant_id,
            program_id,
        ) is None
    }
}

/// One authority holds all accounts: whoever created the configuration is the
/// authority of the configuration, of every registered merchant and of every created
/// escrow, after every history of each of them.
pub proof fn law_backend_is_the_only_authority(
    past: EscrowPast,
    later_config_steps: Seq<fees::ConfigStep>,
    later_merchant_steps: Seq<registry::MerchantStep>,
    program_id: Pubkey,
)
    requires
        past.is_accepted(program_id),
    ensures
        fees::config_run(past.config(program_id), later_config_steps).authority
            == past.created.authority,
        registry::merchant_run(past.merchant(program_id), later_merchant_steps).authority
            == past.created.authority,
        past.escrow(program_id).authority == past.created.authority,
{
    fees::law_config_stays_valid(
        config::new_config(
            past.created,
            processor::initialize_config_bumps(program_id),
            past.fee_basis_points,
        ),
        past.config_steps,
    );
    fees::law_config_stays_valid(past.config(program_id), later_config_steps);
    registry::law_merchant_stays_valid(
        merchant::new_merchant(
            past.registered,
            processor::register_merchant_bumps(past.merchant_id, program_id),
            past.merchant_id,
            past.wallet,
            past.registered_at,
        ),
        past.merchant_steps,
    );
    registry::law_merchant_stays_valid(past.merchant(program_id), later_merchant_steps);
    funds::law_escrow_stays_valid(
        escrow::new_escrow(
            past.opened,
            processor::initialize_escrow_bumps(past.merchant_id, program_id),
            past.merchant_id,
        ),
        past.escrow_steps,
    );
}

/// Nobody but who created the configuration can have an escrow released, whatever
/// was done to the escrow, to its merchant and to the configuration. On accounts in
/// place anyone else is told to be unauthorized.
pub proof fn law_only_backend_releases(
    past: EscrowPast,
    later_config_steps: Seq<fees::ConfigStep>,
    ctx: ReleaseView,
    merchant_id: Seq<char>,
    program_id: Pubkey,
)
    requires
        past.is_accepted(program_id),
        ctx.config.data == fees::config_run(past.config(program_id), later_config_steps),
        ctx.escrow.data == past.escrow(program_id),
    ensures
        ctx.authority != ctx.config.data.authority ==> processor::release_refusal(
            ctx,
            merchant_id,
            program_id,
        ) is Some,
        ctx.authority != ctx.config.data.authority && release_in_place(
            ctx,
            merchant_id,
            program_id,
        ) ==> processor::release_refusal(ctx, merchant_id, program_id) == Some(
            InstructionError::Account(AccountName::Escrow, SettlError::Unauthorized),
        ),
        ctx.config.data.authority == past.created.authority,
{
    law_backend_is_the_only_authority(past, later_config_steps, Seq::empty(), program_id);
}

} // verus!
