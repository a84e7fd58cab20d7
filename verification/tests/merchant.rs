use anchor_lang::solana_program::pubkey::Pubkey as SolanaPubkey;
use settl::accounts::{Account, ManageMerchant, RegisterMerchant, RegisterMerchantBumps};
use settl::error::{AccountName, InstructionError, SettlError};
use settl::events::{
    MerchantDeactivated, MerchantRegistered, WalletUpdateRequested, WalletUpdated,
};
use settl::merchant::{
    confirm_wallet_update, deactivate_merchant, register_merchant, request_wallet_update,
};
use settl::processor::{
    process_confirm_wallet_update, process_deactivate_merchant, process_register_merchant,
    process_request_wallet_update,
};
use settl::pubkey::Pubkey;
use settl::state::{MerchantAccount, SettlConfig};

fn key(n: u8) -> Pubkey {
    Pubkey { bytes: [n; 32] }
}

fn program() -> SolanaPubkey {
    "RZgHzaU8jKm4ydzwkmoooqd2TNek4L9W4o8tthekeLn".parse().unwrap()
}

fn own(key: SolanaPubkey) -> Pubkey {
    Pubkey { bytes: key.to_bytes() }
}

fn entry() -> MerchantAccount {
    MerchantAccount {
        merchant_id: "shop".to_string(),
        wallet: key(5),
        is_active: true,
        registered_at: 1_000,
        total_released: 40,
        total_fees_paid: 2,
        authority: key(1),
        pending_wallet: None,
        wallet_update_at: None,
        bump: 253,
    }
}

fn blank() -> MerchantAccount {
    MerchantAccount {
        merchant_id: String::new(),
        wallet: key(0),
        is_active: false,
        registered_at: 0,
        total_released: 0,
        total_fees_paid: 0,
        authority: key(0),
        pending_wallet: None,
        wallet_update_at: None,
        bump: 0,
    }
}

fn create(merchant: Pubkey) -> RegisterMerchant {
    let (config, bump) = SolanaPubkey::find_program_address(&[b"config"], &program());
    RegisterMerchant {
        config: Account {
            key: own(config),
            data: SettlConfig {
                authority: key(1),
                treasury_wallet: key(2),
                fee_basis_points: 150,
                total_fees_collected: 0,
                bump,
            },
        },
        merchant: Account { key: merchant, data: blank() },
        authority: key(1),
    }
}

fn manage(signer: Pubkey) -> ManageMerchant {
    ManageMerchant { merchant: Account { key: key(7), data: entry() }, authority: signer }
}

#[test]
fn register_merchant_fills_every_field() {
    let mut ctx = create(key(7));
    let bumps = RegisterMerchantBumps { merchant: 253 };
    assert_eq!(
        register_merchant(&mut ctx, bumps, "shop".to_string(), key(5), 1_000),
        Ok(MerchantRegistered {
            merchant_id: "shop".to_string(),
            wallet_address: key(5),
            registered_at: 1_000,
        })
    );
    let mut expected = entry();
    expected.total_released = 0;
    expected.total_fees_paid = 0;
    assert_eq!(ctx.merchant.data, expected);
}

#[test]
fn merchant_id_is_limited_to_64_bytes() {
    let bumps = RegisterMerchantBumps { merchant: 1 };
    let mut ctx = create(key(7));
    assert!(register_merchant(&mut ctx, bumps, "a".repeat(64), key(5), 0).is_ok());
    let mut ctx = create(key(7));
    assert_eq!(
        register_merchant(&mut ctx, bumps, "a".repeat(65), key(5), 0),
        Err(SettlError::MerchantIdTooLong)
    );
    assert_eq!(ctx, create(key(7)));
    assert_eq!(
        register_merchant(&mut ctx, bumps, "é".repeat(33), key(5), 0),
        Err(SettlError::MerchantIdTooLong)
    );
}

#[test]
fn merchant_is_created_at_its_canonical_address() {
    let (address, bump) = SolanaPubkey::find_program_address(&[b"merchant", b"shop"], &program());
    let mut ctx = create(own(address));
    let res =
        process_register_merchant(&own(program()), &mut ctx, "shop".to_string(), key(5), 1_000);
    assert!(res.is_ok());
    assert_eq!(ctx.merchant.data.bump, bump);

    let mut ctx = create(own(address));
    assert_eq!(
        process_register_merchant(&own(program()), &mut ctx, "stall".to_string(), key(5), 1_000),
        Err(InstructionError::ConstraintSeeds(AccountName::Merchant))
    );
    assert_eq!(ctx, create(own(address)));
}

#[test]
fn only_the_backend_registers_merchants() {
    let (address, _) = SolanaPubkey::find_program_address(&[b"merchant", b"shop"], &program());
    let register = |ctx: &mut RegisterMerchant| {
        process_register_merchant(&own(program()), ctx, "shop".to_string(), key(5), 1_000)
    };

    let mut ctx = create(own(address));
    ctx.authority = key(8);
    let before = ctx.clone();
    assert_eq!(
        register(&mut ctx),
        Err(InstructionError::Account(AccountName::Config, SettlError::Unauthorized))
    );
    assert_eq!(ctx, before);

    ctx.config.data.authority = key(8);
    ctx.config.key = key(9);
    assert_eq!(
        register(&mut ctx),
        Err(InstructionError::ConstraintSeeds(AccountName::Config))
    );
    ctx.merchant.key = key(9);
    assert_eq!(
        register(&mut ctx),
        Err(InstructionError::ConstraintSeeds(AccountName::Merchant))
    );

    let mut ctx = create(own(address));
    assert!(register(&mut ctx).is_ok());
    assert_eq!(ctx.merchant.data.authority, ctx.config.data.authority);
}

#[test]
fn an_id_too_long_for_a_seed_has_no_address() {
    let id = "b".repeat(32);
    let (address, _) =
        SolanaPubkey::find_program_address(&[b"merchant", id.as_bytes()], &program());
    let mut ctx = create(own(address));
    assert!(process_register_merchant(&own(program()), &mut ctx, id, key(5), 0).is_ok());

    let mut ctx = create(own(address));
    assert_eq!(
        process_register_merchant(&own(program()), &mut ctx, "b".repeat(33), key(5), 0),
        Err(InstructionError::NoProgramAddress(AccountName::Merchant))
    );
}

#[test]
fn wallet_change_waits_a_day() {
    let mut ctx = manage(key(1));
    assert_eq!(
        request_wallet_update(&mut ctx, key(6), 5_000),
        Ok(WalletUpdateRequested {
            merchant_id: "shop".to_string(),
            new_wallet: key(6),
            unlocks_at: 91_400,
        })
    );
    assert_eq!(ctx.merchant.data.wallet, key(5));
    assert_eq!(ctx.merchant.data.pending_wallet, Some(key(6)));
    assert_eq!(ctx.merchant.data.wallet_update_at, Some(91_400));

    let waiting = ctx.clone();
    assert_eq!(
        confirm_wallet_update(&mut ctx, 91_399),
        Err(SettlError::WalletUpdateNotReady)
    );
    assert_eq!(ctx, waiting);

    assert_eq!(
        confirm_wallet_update(&mut ctx, 91_400),
        Ok(WalletUpdated {
            merchant_id: "shop".to_string(),
            old_wallet: key(5),
            new_wallet: key(6),
        })
    );
    let mut expected = entry();
    expected.wallet = key(6);
    assert_eq!(ctx.merchant.data, expected);
}

#[test]
fn confirmation_needs_a_request_and_uses_it_up() {
    let mut ctx = manage(key(1));
    assert_eq!(
        confirm_wallet_update(&mut ctx, 1_000_000),
        Err(SettlError::NoWalletUpdatePending)
    );
    assert!(request_wallet_update(&mut ctx, key(6), 0).is_ok());
    assert!(confirm_wallet_update(&mut ctx, 86_400).is_ok());
    assert_eq!(
        confirm_wallet_update(&mut ctx, 86_400),
        Err(SettlError::NoWalletUpdatePending)
    );
}

#[test]
fn confirmation_without_a_pending_wallet_is_refused() {
    let mut ctx = manage(key(1));
    ctx.merchant.data.wallet_update_at = Some(10);
    assert_eq!(confirm_wallet_update(&mut ctx, 9), Err(SettlError::WalletUpdateNotReady));
    assert_eq!(confirm_wallet_update(&mut ctx, 10), Err(SettlError::NoWalletUpdatePending));
}

#[test]
fn the_last_request_counts() {
    let mut ctx = manage(key(1));
    assert!(request_wallet_update(&mut ctx, key(6), 0).is_ok());
    assert!(request_wallet_update(&mut ctx, key(8), 50_000).is_ok());
    assert_eq!(
        confirm_wallet_update(&mut ctx, 86_400),
        Err(SettlError::WalletUpdateNotReady)
    );
    assert!(confirm_wallet_update(&mut ctx, 136_400).is_ok());
    assert_eq!(ctx.merchant.data.wallet, key(8));
}

#[test]
fn deactivation_lasts() {
    let mut ctx = manage(key(1));
    assert_eq!(
        deactivate_merchant(&mut ctx),
        Ok(MerchantDeactivated { merchant_id: "shop".to_string() })
    );
    let mut expected = entry();
    expected.is_active = false;
    assert_eq!(ctx.merchant.data, expected);
    assert!(request_wallet_update(&mut ctx, key(6), 0).is_ok());
    assert!(confirm_wallet_update(&mut ctx, 86_400).is_ok());
    assert!(deactivate_merchant(&mut ctx).is_ok());
    assert!(!ctx.merchant.data.is_active);
}

#[test]
fn only_the_authority_manages_a_merchant() {
    let refused = InstructionError::Account(AccountName::Merchant, SettlError::Unauthorized);
    let mut ctx = manage(key(2));
    assert_eq!(process_request_wallet_update(&mut ctx, key(6), 0), Err(refused));
    assert_eq!(process_confirm_wallet_update(&mut ctx, 0), Err(refused));
    assert_eq!(process_deactivate_merchant(&mut ctx), Err(refused));
    assert_eq!(ctx, manage(key(2)));

    let mut ctx = manage(key(1));
    assert!(process_request_wallet_update(&mut ctx, key(6), 0).is_ok());
    assert_eq!(
        process_confirm_wallet_update(&mut ctx, 1),
        Err(InstructionError::Handler(SettlError::WalletUpdateNotReady))
    );
    assert!(process_confirm_wallet_update(&mut ctx, 86_400).is_ok());
    assert!(process_deactivate_merchant(&mut ctx).is_ok());
    assert_eq!(ctx.merchant.data.wallet, key(6));
    assert!(!ctx.merchant.data.is_active);
}

#[test]
fn keys_differ_by_any_byte() {
    let mut other = key(4);
    other.bytes[31] = 5;
    assert!(key(4) == key(4));
    assert!(key(4) != other);
}
