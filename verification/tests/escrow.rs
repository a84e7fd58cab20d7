use anchor_lang::solana_program::pubkey::Pubkey as SolanaPubkey;
use anchor_lang::AnchorSerialize;
use settl::accounts::{
    Account, Deposit, InitializeConfig, InitializeEscrow, InitializeEscrowBumps, ManageMerchant,
    RegisterMerchant, Release, TokenAccount, UpdateEscrowWallet,
};
use settl::error::{AccountName, InstructionError, SettlError};
use settl::escrow::{
    deposit, initialize_merchant_escrow, record_deposit, release, settle_release, split_gross,
    update_escrow_wallet,
};
use settl::events::{EscrowInitialized, FundsReleased, PaymentReceived};
use settl::processor::{
    process_confirm_wallet_update, process_deposit, process_initialize_config,
    process_initialize_merchant_escrow, process_register_merchant, process_release,
    process_request_wallet_update, process_update_escrow_wallet,
};
use settl::pubkey::Pubkey;
use settl::state::{EscrowAccount, MerchantAccount, SettlConfig};
use settl::transfer::TokenTransfer;

fn key(n: u8) -> Pubkey {
    Pubkey { bytes: [n; 32] }
}

fn program() -> SolanaPubkey {
    "RZgHzaU8jKm4ydzwkmoooqd2TNek4L9W4o8tthekeLn".parse().unwrap()
}

fn own(key: SolanaPubkey) -> Pubkey {
    Pubkey { bytes: key.to_bytes() }
}

fn find(seeds: &[&[u8]]) -> (Pubkey, u8) {
    let (address, bump) = SolanaPubkey::find_program_address(seeds, &program());
    (own(address), bump)
}

const BACKEND: u8 = 1;
const TREASURY: u8 = 2;
const CUSTOMER: u8 = 3;
const WALLET: u8 = 5;
const MERCHANT_ATA: u8 = 20;
const TREASURY_ATA: u8 = 21;
const CUSTOMER_ATA: u8 = 22;

fn config() -> Account<SettlConfig> {
    let (address, bump) = find(&[b"config"]);
    Account {
        key: address,
        data: SettlConfig {
            authority: key(BACKEND),
            treasury_wallet: key(TREASURY),
            fee_basis_points: 150,
            total_fees_collected: 100,
            bump,
        },
    }
}

fn merchant(id: &str) -> Account<MerchantAccount> {
    let (address, bump) = find(&[b"merchant", id.as_bytes()]);
    Account {
        key: address,
        data: MerchantAccount {
            merchant_id: id.to_string(),
            wallet: key(WALLET),
            is_active: true,
            registered_at: 0,
            total_released: 0,
            total_fees_paid: 0,
            authority: key(BACKEND),
            pending_wallet: None,
            wallet_update_at: None,
            bump,
        },
    }
}

fn escrow(id: &str, pending_balance: u64) -> Account<EscrowAccount> {
    let (address, bump) = find(&[b"escrow", id.as_bytes()]);
    let (_, vault_bump) = find(&[b"vault", id.as_bytes()]);
    Account {
        key: address,
        data: EscrowAccount {
            merchant_id: id.to_string(),
            merchant_wallet: key(WALLET),
            pending_balance,
            total_payments: 4,
            last_released_at: 60,
            authority: key(BACKEND),
            bump,
            vault_bump,
        },
    }
}

fn vault(id: &str, amount: u64) -> TokenAccount {
    let (address, _) = find(&[b"vault", id.as_bytes()]);
    let (owner, _) = find(&[b"escrow", id.as_bytes()]);
    TokenAccount { key: address, owner, amount }
}

fn paying(id: &str, pending: u64) -> Deposit {
    Deposit {
        merchant: merchant(id),
        escrow: escrow(id, pending),
        vault: vault(id, pending),
        customer_ata: TokenAccount {
            key: key(CUSTOMER_ATA),
            owner: key(CUSTOMER),
            amount: 1_000_000,
        },
        customer: key(CUSTOMER),
    }
}

fn releasing(id: &str, held: u64) -> Release {
    Release {
        config: config(),
        merchant: merchant(id),
        escrow: escrow(id, held),
        vault: vault(id, held),
        merchant_ata: TokenAccount { key: key(MERCHANT_ATA), owner: key(WALLET), amount: 0 },
        treasury_ata: TokenAccount { key: key(TREASURY_ATA), owner: key(TREASURY), amount: 0 },
        authority: key(BACKEND),
    }
}

#[test]
fn fee_model() {
    assert_eq!(split_gross(1_000, 150), Ok((15, 985)));
    assert_eq!(split_gross(100, 150), Ok((1, 99)));
    assert_eq!(split_gross(66, 150), Ok((0, 66)));
    assert_eq!(split_gross(67, 150), Ok((1, 66)));
    assert_eq!(split_gross(0, 150), Ok((0, 0)));
    assert_eq!(split_gross(1_000, 1_000), Ok((100, 900)));
    assert_eq!(split_gross(1_000, 0), Ok((0, 1_000)));
    assert_eq!(split_gross(u64::MAX, 1), Ok((1_844_674_407_370_955, 18_444_899_399_302_180_660)));
}

#[test]
fn fee_arithmetic_overflows_into_an_error() {
    assert_eq!(split_gross(u64::MAX, 2), Err(SettlError::Overflow));
    assert_eq!(split_gross(u64::MAX / 150 + 1, 150), Err(SettlError::Overflow));
    assert!(split_gross(u64::MAX / 150, 150).is_ok());
    assert_eq!(split_gross(10, 20_000), Err(SettlError::Overflow));
    assert_eq!(split_gross(10, 10_000), Ok((10, 0)));
}

#[test]
fn deposit_orders_a_transfer_into_the_vault() {
    let ctx = paying("shop", 0);
    assert_eq!(
        deposit(&ctx, "shop".to_string(), 250),
        Ok(TokenTransfer {
            from: key(CUSTOMER_ATA),
            to: ctx.vault.key,
            authority: key(CUSTOMER),
            amount: 250,
            signer_seeds: vec![],
        })
    );
}

#[test]
fn deposit_errors_in_their_order() {
    let mut ctx = paying("shop", 0);
    assert_eq!(deposit(&ctx, "stall".to_string(), 1), Err(SettlError::MerchantMismatch));
    ctx.merchant.data.is_active = false;
    assert_eq!(deposit(&ctx, "stall".to_string(), 1), Err(SettlError::MerchantInactive));
    assert_eq!(deposit(&ctx, "shop".to_string(), 1), Err(SettlError::MerchantInactive));
    assert_eq!(deposit(&ctx, "stall".to_string(), 0), Err(SettlError::ZeroAmount));
}

#[test]
fn record_deposit_adds_up() {
    let mut ctx = paying("shop", 30);
    let first = deposit(&ctx, "shop".to_string(), 250).unwrap();
    assert_eq!(
        record_deposit(&mut ctx, &first, 70),
        Ok(PaymentReceived {
            merchant_id: "shop".to_string(),
            customer_wallet: key(CUSTOMER),
            amount: 250,
            pending_balance: 280,
            timestamp: 70,
        })
    );
    let second = deposit(&ctx, "shop".to_string(), 20).unwrap();
    assert_eq!(record_deposit(&mut ctx, &second, 71).unwrap().pending_balance, 300);
    let mut expected = paying("shop", 30);
    expected.escrow.data.pending_balance = 300;
    expected.escrow.data.total_payments = 6;
    assert_eq!(ctx, expected);
}

#[test]
fn record_deposit_overflow_changes_nothing() {
    let mut ctx = paying("shop", u64::MAX - 10);
    let order = deposit(&ctx, "shop".to_string(), 11).unwrap();
    assert_eq!(record_deposit(&mut ctx, &order, 0), Err(SettlError::Overflow));
    assert_eq!(ctx, paying("shop", u64::MAX - 10));

    let mut ctx = paying("shop", 0);
    ctx.escrow.data.total_payments = u64::MAX;
    let before = ctx.clone();
    assert_eq!(record_deposit(&mut ctx, &order, 0), Err(SettlError::Overflow));
    assert_eq!(ctx, before);
}

#[test]
fn release_splits_what_is_pending() {
    let ctx = releasing("shop", 1_000);
    let plan = release(&ctx, "shop".to_string()).unwrap();
    assert_eq!((plan.gross, plan.fee, plan.net), (1_000, 15, 985));
    let seeds = vec![b"escrow".to_vec(), b"shop".to_vec(), vec![ctx.escrow.data.bump]];
    assert_eq!(
        plan.payouts,
        vec![
            TokenTransfer {
                from: ctx.vault.key,
                to: key(MERCHANT_ATA),
                authority: ctx.escrow.key,
                amount: 985,
                signer_seeds: seeds.clone(),
            },
            TokenTransfer {
                from: ctx.vault.key,
                to: key(TREASURY_ATA),
                authority: ctx.escrow.key,
                amount: 15,
                signer_seeds: seeds,
            },
        ]
    );
}

#[test]
fn release_without_a_fee_pays_the_merchant_only() {
    let mut ctx = releasing("shop", 1_000);
    ctx.config.data.fee_basis_points = 0;
    let plan = release(&ctx, "shop".to_string()).unwrap();
    assert_eq!((plan.fee, plan.net), (0, 1_000));
    assert_eq!(plan.payouts.len(), 1);
    assert_eq!(plan.payouts[0].amount, 1_000);

    let small = releasing("shop", 66);
    assert_eq!(release(&small, "shop".to_string()).unwrap().payouts.len(), 1);
}

#[test]
fn release_leaves_what_is_not_pending() {
    let mut ctx = releasing("shop", 1_000);
    ctx.vault.amount = 1_200;
    let plan = process_release(&own(program()), &ctx, "shop".to_string()).unwrap();
    assert_eq!((plan.gross, plan.fee, plan.net), (1_000, 15, 985));
    let paid: Vec<(Pubkey, u64)> =
        plan.payouts.iter().map(|order| (order.to, order.amount)).collect();
    assert_eq!(paid, vec![(key(MERCHANT_ATA), 985), (key(TREASURY_ATA), 15)]);
    for order in &plan.payouts {
        ctx.vault.amount -= order.amount;
    }
    settle_release(&mut ctx, &plan, 99).unwrap();
    assert_eq!(ctx.vault.amount, 200);
    assert_eq!(release(&ctx, "shop".to_string()), Err(SettlError::ZeroBalance));
}

#[test]
fn a_gift_to_an_empty_escrow_is_not_released() {
    let mut ctx = releasing("shop", 0);
    ctx.vault.amount = 200;
    assert_eq!(release(&ctx, "shop".to_string()), Err(SettlError::ZeroBalance));
}

#[test]
fn release_errors_in_their_order() {
    let mut ctx = releasing("shop", 0);
    assert_eq!(release(&ctx, "stall".to_string()), Err(SettlError::MerchantMismatch));
    assert_eq!(release(&ctx, "shop".to_string()), Err(SettlError::ZeroBalance));
    ctx.escrow.data.pending_balance = u64::MAX;
    assert_eq!(release(&ctx, "shop".to_string()), Err(SettlError::Overflow));
}

#[test]
fn release_signer_seeds_derive_the_escrow() {
    let ctx = releasing("shop", 1_000);
    for order in release(&ctx, "shop".to_string()).unwrap().payouts {
        let seeds: Vec<&[u8]> = order.signer_seeds.iter().map(|seed| seed.as_slice()).collect();
        let derived = SolanaPubkey::create_program_address(&seeds, &program()).unwrap();
        assert_eq!(own(derived), ctx.escrow.key);
    }
}

#[test]
fn settle_release_books_everything() {
    let mut ctx = releasing("shop", 1_000);
    let plan = release(&ctx, "shop".to_string()).unwrap();
    assert_eq!(
        settle_release(&mut ctx, &plan, 99),
        Ok(FundsReleased {
            merchant_id: "shop".to_string(),
            merchant_wallet: key(WALLET),
            gross: 1_000,
            fee: 15,
            net: 985,
            released_at: 99,
        })
    );
    let mut expected = releasing("shop", 1_000);
    expected.config.data.total_fees_collected = 115;
    expected.merchant.data.total_released = 985;
    expected.merchant.data.total_fees_paid = 15;
    expected.escrow.data.pending_balance = 0;
    expected.escrow.data.last_released_at = 99;
    assert_eq!(ctx, expected);
}

#[test]
fn settle_release_overflow_changes_nothing() {
    let plan = release(&releasing("shop", 1_000), "shop".to_string()).unwrap();

    let mut ctx = releasing("shop", 1_000);
    ctx.merchant.data.total_released = u64::MAX;
    let before = ctx.clone();
    assert_eq!(settle_release(&mut ctx, &plan, 99), Err(SettlError::Overflow));
    assert_eq!(ctx, before);

    let mut ctx = releasing("shop", 1_000);
    ctx.merchant.data.total_fees_paid = u64::MAX;
    let before = ctx.clone();
    assert_eq!(settle_release(&mut ctx, &plan, 99), Err(SettlError::Overflow));
    assert_eq!(ctx, before);

    let mut ctx = releasing("shop", 1_000);
    ctx.config.data.total_fees_collected = u64::MAX - 14;
    let before = ctx.clone();
    assert_eq!(settle_release(&mut ctx, &plan, 99), Err(SettlError::Overflow));
    assert_eq!(ctx, before);
}

#[test]
fn a_second_release_is_refused() {
    let mut ctx = releasing("shop", 1_000);
    let plan = release(&ctx, "shop".to_string()).unwrap();
    settle_release(&mut ctx, &plan, 99).unwrap();
    ctx.vault.amount -= plan.payouts[0].amount + plan.payouts[1].amount;
    assert_eq!(release(&ctx, "shop".to_string()), Err(SettlError::ZeroBalance));
}

#[test]
fn releases_of_two_merchants_reconcile() {
    let mut first = releasing("shop", 1_000);
    let plan = release(&first, "shop".to_string()).unwrap();
    settle_release(&mut first, &plan, 1).unwrap();
    let mut second = releasing("stall", 4_000);
    second.config = first.config.clone();
    let plan = release(&second, "stall".to_string()).unwrap();
    settle_release(&mut second, &plan, 2).unwrap();
    assert_eq!(
        second.config.data.total_fees_collected - 100,
        first.merchant.data.total_fees_paid + second.merchant.data.total_fees_paid
    );
    assert_eq!(second.config.data.total_fees_collected, 175);
}

#[test]
fn process_release_is_for_the_authority() {
    let mut ctx = releasing("shop", 1_000);
    assert_eq!(process_release(&own(program()), &ctx, "shop".to_string()).unwrap().net, 985);
    ctx.authority = key(CUSTOMER);
    assert_eq!(
        process_release(&own(program()), &ctx, "shop".to_string()),
        Err(InstructionError::Account(AccountName::Escrow, SettlError::Unauthorized))
    );
}

#[test]
fn process_release_checks_each_address() {
    let refused = |ctx: &Release| process_release(&own(program()), ctx, "shop".to_string());

    let mut ctx = releasing("shop", 1_000);
    ctx.vault = vault("stall", 1_000);
    assert_eq!(refused(&ctx), Err(InstructionError::ConstraintSeeds(AccountName::Vault)));
    ctx.authority = key(CUSTOMER);
    assert_eq!(
        refused(&ctx),
        Err(InstructionError::Account(AccountName::Escrow, SettlError::Unauthorized))
    );
    ctx.escrow.key = key(9);
    assert_eq!(refused(&ctx), Err(InstructionError::ConstraintSeeds(AccountName::Escrow)));
    ctx.merchant = merchant("stall");
    assert_eq!(refused(&ctx), Err(InstructionError::ConstraintSeeds(AccountName::Merchant)));
    ctx.config.key = key(9);
    assert_eq!(refused(&ctx), Err(InstructionError::ConstraintSeeds(AccountName::Config)));
}

#[test]
fn process_release_pays_the_two_wallets_only() {
    let refused = |ctx: &Release| process_release(&own(program()), ctx, "shop".to_string());

    let mut ctx = releasing("shop", 1_000);
    ctx.treasury_ata.owner = key(CUSTOMER);
    assert_eq!(
        refused(&ctx),
        Err(InstructionError::ConstraintTokenOwner(AccountName::TreasuryAta))
    );
    ctx.merchant_ata.owner = key(CUSTOMER);
    assert_eq!(
        refused(&ctx),
        Err(InstructionError::ConstraintTokenOwner(AccountName::MerchantAta))
    );
    ctx.treasury_ata.owner = key(TREASURY);
    assert_eq!(
        refused(&ctx),
        Err(InstructionError::ConstraintTokenOwner(AccountName::MerchantAta))
    );
    ctx.vault.key = key(9);
    assert_eq!(refused(&ctx), Err(InstructionError::ConstraintSeeds(AccountName::Vault)));

    let mut ctx = releasing("shop", 1_000);
    ctx.merchant_ata = ctx.vault;
    assert_eq!(
        refused(&ctx),
        Err(InstructionError::ConstraintTokenOwner(AccountName::MerchantAta))
    );

    let mut moved = releasing("shop", 1_000);
    moved.escrow.data.merchant_wallet = key(6);
    assert_eq!(
        refused(&moved),
        Err(InstructionError::ConstraintTokenOwner(AccountName::MerchantAta))
    );
    moved.merchant_ata.owner = key(6);
    assert_eq!(refused(&moved).unwrap().net, 985);
}

#[test]
fn every_deposit_is_accounted_for() {
    let id = ["shop", "stall"];
    let mut config = config();
    config.data.total_fees_collected = 0;
    let mut merchants = [merchant("shop"), merchant("stall")];
    let mut escrows = [escrow("shop", 0), escrow("stall", 0)];
    let mut vaults = [vault("shop", 0), vault("stall", 0)];
    let mut deposited = [0, 0];
    for (i, amount) in [(0, 1_000), (1, 67), (0, 0), (1, 500), (0, 333), (0, 0), (1, 40)] {
        if amount > 0 {
            let mut ctx = paying(id[i], 0);
            ctx.escrow = escrows[i].clone();
            ctx.vault = vaults[i];
            let order =
                process_deposit(&own(program()), &ctx, id[i].to_string(), amount).unwrap();
            record_deposit(&mut ctx, &order, 1).unwrap();
            escrows[i] = ctx.escrow;
            vaults[i].amount += order.amount;
            deposited[i] += amount;
        } else {
            let mut ctx = releasing(id[i], 0);
            ctx.config = config.clone();
            ctx.merchant = merchants[i].clone();
            ctx.escrow = escrows[i].clone();
            ctx.vault = vaults[i];
            let plan = process_release(&own(program()), &ctx, id[i].to_string()).unwrap();
            settle_release(&mut ctx, &plan, 2).unwrap();
            config = ctx.config;
            merchants[i] = ctx.merchant;
            escrows[i] = ctx.escrow;
            for order in &plan.payouts {
                vaults[i].amount -= order.amount;
            }
        }
        for j in [0, 1] {
            assert_eq!(
                merchants[j].data.total_released
                    + merchants[j].data.total_fees_paid
                    + escrows[j].data.pending_balance,
                deposited[j]
            );
            assert_eq!(vaults[j].amount, escrows[j].data.pending_balance);
        }
        assert_eq!(
            config.data.total_fees_collected,
            merchants[0].data.total_fees_paid + merchants[1].data.total_fees_paid
        );
    }
    assert_eq!(deposited, [1_333, 607]);
    assert_eq!(config.data.total_fees_collected, 19);
}

#[test]
fn process_release_passes_the_handlers_error_on() {
    let ctx = releasing("shop", 0);
    assert_eq!(
        process_release(&own(program()), &ctx, "shop".to_string()),
        Err(InstructionError::Handler(SettlError::ZeroBalance))
    );
}

#[test]
fn a_wrong_bump_is_a_wrong_address() {
    let mut ctx = releasing("shop", 1_000);
    ctx.escrow.data.bump = ctx.escrow.data.bump.wrapping_sub(1);
    assert_eq!(
        process_release(&own(program()), &ctx, "shop".to_string()),
        Err(InstructionError::ConstraintSeeds(AccountName::Escrow))
    );
}

#[test]
fn process_deposit_is_for_everyone() {
    let mut ctx = paying("shop", 0);
    assert!(process_deposit(&own(program()), &ctx, "shop".to_string(), 5).is_ok());
    ctx.customer = key(77);
    let order = process_deposit(&own(program()), &ctx, "shop".to_string(), 5).unwrap();
    assert_eq!(order.authority, key(77));
    assert_eq!(
        process_deposit(&own(program()), &ctx, "shop".to_string(), 0),
        Err(InstructionError::Handler(SettlError::ZeroAmount))
    );
}

#[test]
fn process_deposit_checks_each_address() {
    let refused = |ctx: &Deposit| process_deposit(&own(program()), ctx, "shop".to_string(), 5);

    let mut ctx = paying("shop", 0);
    ctx.vault.key = key(9);
    assert_eq!(refused(&ctx), Err(InstructionError::ConstraintSeeds(AccountName::Vault)));
    ctx.escrow = escrow("stall", 0);
    assert_eq!(refused(&ctx), Err(InstructionError::ConstraintSeeds(AccountName::Escrow)));
    ctx.merchant = merchant("stall");
    assert_eq!(refused(&ctx), Err(InstructionError::ConstraintSeeds(AccountName::Merchant)));
    let long = "c".repeat(33);
    assert_eq!(
        process_deposit(&own(program()), &paying("shop", 0), long, 5),
        Err(InstructionError::ConstraintSeeds(AccountName::Merchant))
    );
}

fn creating(id: &str) -> InitializeEscrow {
    let mut new_escrow = escrow(id, 0);
    new_escrow.data = EscrowAccount {
        merchant_id: String::new(),
        merchant_wallet: key(0),
        pending_balance: 0,
        total_payments: 0,
        last_released_at: 0,
        authority: key(0),
        bump: 0,
        vault_bump: 0,
    };
    InitializeEscrow {
        merchant: merchant(id),
        escrow: new_escrow,
        vault: vault(id, 0),
        authority: key(BACKEND),
    }
}

#[test]
fn initialize_merchant_escrow_fills_every_field() {
    let mut ctx = creating("shop");
    let bumps = InitializeEscrowBumps { escrow: 250, vault: 251 };
    assert_eq!(
        initialize_merchant_escrow(&mut ctx, bumps, "shop".to_string()),
        Ok(EscrowInitialized { merchant_id: "shop".to_string(), merchant_wallet: key(WALLET) })
    );
    assert_eq!(
        ctx.escrow.data,
        EscrowAccount {
            merchant_id: "shop".to_string(),
            merchant_wallet: key(WALLET),
            pending_balance: 0,
            total_payments: 0,
            last_released_at: 0,
            authority: key(BACKEND),
            bump: 250,
            vault_bump: 251,
        }
    );
    let mut ctx = creating("shop");
    assert_eq!(
        initialize_merchant_escrow(&mut ctx, bumps, "d".repeat(65)),
        Err(SettlError::MerchantIdTooLong)
    );
    assert_eq!(ctx, creating("shop"));
}

#[test]
fn a_created_escrow_takes_deposits() {
    let mut ctx = creating("shop");
    process_initialize_merchant_escrow(&own(program()), &mut ctx, "shop".to_string()).unwrap();
    let mut payment = paying("shop", 0);
    payment.merchant = ctx.merchant;
    payment.escrow = ctx.escrow;
    payment.vault = ctx.vault;
    assert!(process_deposit(&own(program()), &payment, "shop".to_string(), 5).is_ok());
}

#[test]
fn only_the_merchants_authority_creates_an_escrow() {
    let mut ctx = creating("shop");
    ctx.authority = key(CUSTOMER);
    let before = ctx.clone();
    assert_eq!(
        process_initialize_merchant_escrow(&own(program()), &mut ctx, "shop".to_string()),
        Err(InstructionError::Account(AccountName::Merchant, SettlError::Unauthorized))
    );
    assert_eq!(ctx, before);

    ctx.authority = key(BACKEND);
    assert!(
        process_initialize_merchant_escrow(&own(program()), &mut ctx, "shop".to_string()).is_ok()
    );
    assert_eq!(ctx.escrow.data.authority, key(BACKEND));
}

#[test]
fn the_backend_holds_every_account() {
    let mut blank = config();
    blank.data.authority = key(0);
    blank.data.bump = 0;
    let mut start = InitializeConfig {
        config: blank,
        treasury_wallet: key(TREASURY),
        authority: key(BACKEND),
    };
    process_initialize_config(&own(program()), &mut start, 150).unwrap();

    let mut entry = RegisterMerchant {
        config: start.config,
        merchant: merchant("shop"),
        authority: key(BACKEND),
    };
    entry.merchant.data.authority = key(0);
    process_register_merchant(&own(program()), &mut entry, "shop".to_string(), key(WALLET), 0)
        .unwrap();

    let mut opening = creating("shop");
    opening.merchant = entry.merchant;
    process_initialize_merchant_escrow(&own(program()), &mut opening, "shop".to_string()).unwrap();
    assert_eq!(opening.merchant.data.authority, key(BACKEND));
    assert_eq!(opening.escrow.data.authority, key(BACKEND));

    let mut ctx = releasing("shop", 0);
    ctx.config = entry.config;
    ctx.merchant = opening.merchant;
    ctx.escrow = opening.escrow;
    ctx.escrow.data.pending_balance = 1_000;
    ctx.vault.amount = 1_000;
    assert!(process_release(&own(program()), &ctx, "shop".to_string()).is_ok());
    ctx.authority = key(CUSTOMER);
    assert_eq!(
        process_release(&own(program()), &ctx, "shop".to_string()),
        Err(InstructionError::Account(AccountName::Escrow, SettlError::Unauthorized))
    );
}

#[test]
fn a_release_pays_a_new_wallet_only_after_a_day() {
    let release_to = |escrow: &Account<EscrowAccount>, owner: Pubkey| {
        let mut ctx = releasing("shop", 1_000);
        ctx.escrow = escrow.clone();
        ctx.merchant_ata.owner = owner;
        process_release(&own(program()), &ctx, "shop".to_string()).map(|plan| plan.net)
    };
    let refused = Err(InstructionError::ConstraintTokenOwner(AccountName::MerchantAta));
    let mut sync = UpdateEscrowWallet {
        merchant: merchant("shop"),
        escrow: escrow("shop", 1_000),
        authority: key(BACKEND),
    };
    let mut managed = ManageMerchant { merchant: merchant("shop"), authority: key(BACKEND) };
    process_request_wallet_update(&mut managed, key(6), 5_000).unwrap();
    assert!(process_confirm_wallet_update(&mut managed, 91_399).is_err());
    sync.merchant = managed.merchant.clone();
    process_update_escrow_wallet(&mut sync).unwrap();
    assert_eq!(release_to(&sync.escrow, key(WALLET)), Ok(985));
    assert_eq!(release_to(&sync.escrow, key(6)), refused);

    process_confirm_wallet_update(&mut managed, 91_400).unwrap();
    assert_eq!(release_to(&sync.escrow, key(6)), refused);
    sync.merchant = managed.merchant;
    process_update_escrow_wallet(&mut sync).unwrap();
    assert_eq!(release_to(&sync.escrow, key(6)), Ok(985));
    assert_eq!(release_to(&sync.escrow, key(WALLET)), refused);
}

#[test]
fn escrow_creation_checks_new_accounts_first() {
    let refused = |ctx: &mut InitializeEscrow| {
        process_initialize_merchant_escrow(&own(program()), ctx, "shop".to_string())
    };
    let mut ctx = creating("shop");
    ctx.authority = key(CUSTOMER);
    ctx.merchant = merchant("stall");
    assert_eq!(refused(&mut ctx), Err(InstructionError::ConstraintSeeds(AccountName::Merchant)));
    ctx.vault.key = key(9);
    assert_eq!(refused(&mut ctx), Err(InstructionError::ConstraintSeeds(AccountName::Vault)));
    ctx.escrow.key = key(9);
    assert_eq!(refused(&mut ctx), Err(InstructionError::ConstraintSeeds(AccountName::Escrow)));
    assert_eq!(
        process_initialize_merchant_escrow(&own(program()), &mut ctx, "e".repeat(33)),
        Err(InstructionError::NoProgramAddress(AccountName::Escrow))
    );
}

#[test]
fn escrow_wallet_follows_the_merchant() {
    let mut ctx = UpdateEscrowWallet {
        merchant: merchant("shop"),
        escrow: escrow("shop", 7),
        authority: key(BACKEND),
    };
    ctx.merchant.data.wallet = key(6);
    let mut expected = ctx.clone();
    expected.escrow.data.merchant_wallet = key(6);
    let mut other = ctx.clone();
    assert_eq!(update_escrow_wallet(&mut ctx), Ok(()));
    assert_eq!(ctx, expected);
    assert_eq!(process_update_escrow_wallet(&mut other), Ok(()));
    assert_eq!(other, expected);
}

#[test]
fn escrow_wallet_needs_the_authority_of_both() {
    let mut ctx = UpdateEscrowWallet {
        merchant: merchant("shop"),
        escrow: escrow("shop", 7),
        authority: key(BACKEND),
    };
    ctx.escrow.data.authority = key(8);
    assert_eq!(
        process_update_escrow_wallet(&mut ctx),
        Err(InstructionError::Account(AccountName::Escrow, SettlError::Unauthorized))
    );
    ctx.authority = key(8);
    assert_eq!(
        process_update_escrow_wallet(&mut ctx),
        Err(InstructionError::Account(AccountName::Merchant, SettlError::Unauthorized))
    );
}

#[test]
fn stored_accounts_fit_their_space() {
    let id = "f".repeat(64);
    let config = ([0u8; 32], [0u8; 32], 0u16, 0u64, 0u8).try_to_vec().unwrap();
    assert_eq!(8 + config.len() + 32, SettlConfig::SPACE);
    let merchant = (
        id.clone(),
        [0u8; 32],
        true,
        0i64,
        0u64,
        0u64,
        [0u8; 32],
        Some([0u8; 32]),
        Some(0i64),
        0u8,
    )
        .try_to_vec()
        .unwrap();
    assert_eq!(8 + merchant.len() + 64, MerchantAccount::SPACE);
    let escrow = (id, [0u8; 32], 0u64, 0u64, 0i64, [0u8; 32], 0u8, 0u8).try_to_vec().unwrap();
    assert_eq!(8 + escrow.len() + 64, EscrowAccount::SPACE);
    assert_eq!(SettlConfig::SPACE, 115);
    assert_eq!(MerchantAccount::SPACE, 272);
    assert_eq!(EscrowAccount::SPACE, 230);
}

#[test]
fn an_escrow_lives_on_after_a_release() {
    let mut ctx = creating("shop");
    process_initialize_merchant_escrow(&own(program()), &mut ctx, "shop".to_string()).unwrap();

    let mut payment = paying("shop", 0);
    payment.escrow = ctx.escrow;
    for amount in [400, 600] {
        let order =
            process_deposit(&own(program()), &payment, "shop".to_string(), amount).unwrap();
        record_deposit(&mut payment, &order, 10).unwrap();
        payment.vault.amount += order.amount;
    }
    assert_eq!(payment.escrow.data.pending_balance, 1_000);
    assert_eq!(payment.escrow.data.pending_balance, payment.vault.amount);

    let mut paid_out = releasing("shop", 0);
    paid_out.escrow = payment.escrow.clone();
    paid_out.vault = payment.vault;
    let plan = process_release(&own(program()), &paid_out, "shop".to_string()).unwrap();
    assert_eq!(plan.gross, paid_out.escrow.data.pending_balance);
    settle_release(&mut paid_out, &plan, 20).unwrap();
    for order in &plan.payouts {
        paid_out.vault.amount -= order.amount;
    }
    assert_eq!(paid_out.vault.amount, 0);
    assert_eq!(paid_out.escrow.data.pending_balance, 0);

    let mut renamed = UpdateEscrowWallet {
        merchant: paid_out.merchant.clone(),
        escrow: paid_out.escrow,
        authority: key(BACKEND),
    };
    process_update_escrow_wallet(&mut renamed).unwrap();
    payment.escrow = renamed.escrow;
    payment.vault = paid_out.vault;
    let order = process_deposit(&own(program()), &payment, "shop".to_string(), 50).unwrap();
    let event = record_deposit(&mut payment, &order, 30).unwrap();
    assert_eq!(event.pending_balance, 50);
    assert_eq!(payment.escrow.data.total_payments, 3);
    assert_eq!(payment.escrow.data.last_released_at, 20);

    payment.merchant.data.is_active = false;
    assert_eq!(
        process_deposit(&own(program()), &payment, "shop".to_string(), 50),
        Err(InstructionError::Handler(SettlError::MerchantInactive))
    );
}
