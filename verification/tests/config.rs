use anchor_lang::solana_program::pubkey::Pubkey as SolanaPubkey;
use settl::accounts::{Account, InitializeConfig, InitializeConfigBumps, ManageConfig};
use settl::config::{initialize_config, update_fee, update_treasury};
use settl::error::{AccountName, InstructionError, SettlError};
use settl::events::{ConfigInitialized, FeeUpdated, TreasuryUpdated};
use settl::processor::{process_initialize_config, process_update_fee, process_update_treasury};
use settl::pubkey::Pubkey;
use settl::state::SettlConfig;

fn key(n: u8) -> Pubkey {
    Pubkey { bytes: [n; 32] }
}

fn program() -> SolanaPubkey {
    "RZgHzaU8jKm4ydzwkmoooqd2TNek4L9W4o8tthekeLn".parse().unwrap()
}

fn own(key: SolanaPubkey) -> Pubkey {
    Pubkey { bytes: key.to_bytes() }
}

fn blank() -> SettlConfig {
    SettlConfig {
        authority: key(0),
        treasury_wallet: key(0),
        fee_basis_points: 0,
        total_fees_collected: 0,
        bump: 0,
    }
}

fn create(config: Pubkey) -> InitializeConfig {
    InitializeConfig {
        config: Account { key: config, data: blank() },
        treasury_wallet: key(2),
        authority: key(1),
    }
}

fn manage(config: Pubkey, bump: u8, signer: Pubkey) -> ManageConfig {
    ManageConfig {
        config: Account {
            key: config,
            data: SettlConfig {
                authority: key(1),
                treasury_wallet: key(2),
                fee_basis_points: 150,
                total_fees_collected: 7,
                bump,
            },
        },
        new_treasury: key(3),
        authority: signer,
    }
}

#[test]
fn initialize_config_fills_every_field() {
    let mut ctx = create(key(9));
    let event = initialize_config(&mut ctx, InitializeConfigBumps { config: 254 }, 150);
    assert_eq!(
        event,
        Ok(ConfigInitialized {
            authority: key(1),
            treasury_wallet: key(2),
            fee_basis_points: 150,
        })
    );
    assert_eq!(
        ctx.config.data,
        SettlConfig {
            authority: key(1),
            treasury_wallet: key(2),
            fee_basis_points: 150,
            total_fees_collected: 0,
            bump: 254,
        }
    );
    assert_eq!(ctx.config.key, key(9));
}

#[test]
fn fee_rate_is_capped_at_ten_percent() {
    let mut ctx = create(key(9));
    let bumps = InitializeConfigBumps { config: 1 };
    assert_eq!(initialize_config(&mut ctx, bumps, 1_001), Err(SettlError::FeeTooHigh));
    assert_eq!(ctx, create(key(9)));
    assert!(initialize_config(&mut ctx, bumps, 1_000).is_ok());

    let mut ctx = manage(key(9), 1, key(1));
    assert_eq!(update_fee(&mut ctx, 1_001), Err(SettlError::FeeTooHigh));
    assert_eq!(ctx, manage(key(9), 1, key(1)));
    assert_eq!(update_fee(&mut ctx, 1_000), Ok(FeeUpdated { old_fee: 150, new_fee: 1_000 }));
    assert_eq!(ctx.config.data.fee_basis_points, 1_000);
    assert_eq!(update_fee(&mut ctx, 0), Ok(FeeUpdated { old_fee: 1_000, new_fee: 0 }));
    assert_eq!(ctx.config.data.total_fees_collected, 7);
}

#[test]
fn update_treasury_changes_only_the_treasury() {
    let mut ctx = manage(key(9), 1, key(1));
    assert_eq!(update_treasury(&mut ctx), Ok(TreasuryUpdated { new_treasury: key(3) }));
    let mut expected = manage(key(9), 1, key(1));
    expected.config.data.treasury_wallet = key(3);
    assert_eq!(ctx, expected);
}

#[test]
fn config_is_created_at_its_canonical_address() {
    let (address, bump) = SolanaPubkey::find_program_address(&[b"config"], &program());
    let mut ctx = create(own(address));
    assert!(process_initialize_config(&own(program()), &mut ctx, 150).is_ok());
    assert_eq!(ctx.config.data.bump, bump);

    let mut elsewhere = create(key(9));
    assert_eq!(
        process_initialize_config(&own(program()), &mut elsewhere, 150),
        Err(InstructionError::ConstraintSeeds(AccountName::Config))
    );
    assert_eq!(elsewhere, create(key(9)));

    let mut dear = create(own(address));
    assert_eq!(
        process_initialize_config(&own(program()), &mut dear, 2_000),
        Err(InstructionError::Handler(SettlError::FeeTooHigh))
    );
}

#[test]
fn a_created_config_is_accepted_afterwards() {
    let (address, _) = SolanaPubkey::find_program_address(&[b"config"], &program());
    let mut created = create(own(address));
    assert!(process_initialize_config(&own(program()), &mut created, 150).is_ok());
    let mut ctx = ManageConfig {
        config: created.config,
        new_treasury: key(3),
        authority: key(1),
    };
    assert_eq!(
        process_update_fee(&own(program()), &mut ctx, 200),
        Ok(FeeUpdated { old_fee: 150, new_fee: 200 })
    );
    assert_eq!(
        process_update_treasury(&own(program()), &mut ctx),
        Ok(TreasuryUpdated { new_treasury: key(3) })
    );
}

#[test]
fn only_the_authority_changes_the_config() {
    let (address, bump) = SolanaPubkey::find_program_address(&[b"config"], &program());
    let refused = InstructionError::Account(AccountName::Config, SettlError::Unauthorized);
    let mut ctx = manage(own(address), bump, key(8));
    assert_eq!(process_update_fee(&own(program()), &mut ctx, 200), Err(refused));
    assert_eq!(process_update_treasury(&own(program()), &mut ctx), Err(refused));
    assert_eq!(ctx, manage(own(address), bump, key(8)));
}

#[test]
fn a_config_elsewhere_is_refused_before_its_signer() {
    let mut ctx = manage(key(9), 255, key(8));
    assert_eq!(
        process_update_fee(&own(program()), &mut ctx, 200),
        Err(InstructionError::ConstraintSeeds(AccountName::Config))
    );
}

#[test]
fn messages_are_those_shown_to_clients() {
    assert_eq!(SettlError::FeeTooHigh.message(), "Fee cannot exceed 10% (1000 basis points)");
    assert_eq!(
        SettlError::MerchantIdTooLong.message(),
        "Merchant ID must be 64 characters or fewer"
    );
    assert_eq!(
        SettlError::Unauthorized.message(),
        "Unauthorized — only the Settl authority can call this"
    );
    assert_eq!(SettlError::NoWalletUpdatePending.message(), "No wallet update is pending");
    assert_eq!(
        SettlError::WalletUpdateNotReady.message(),
        "24-hour wallet update delay has not passed yet"
    );
    assert_eq!(SettlError::ZeroAmount.message(), "Amount must be greater than zero");
    assert_eq!(SettlError::ZeroBalance.message(), "No pending balance to release");
    assert_eq!(
        SettlError::MerchantMismatch.message(),
        "Merchant ID does not match this escrow"
    );
    assert_eq!(
        SettlError::MerchantInactive.message(),
        "Merchant is inactive — not accepting payments"
    );
    assert_eq!(SettlError::Overflow.message(), "Arithmetic overflow");
}
