use obi_pass::authority::{authority_label, derive_address, derive_authority_address};
use obi_pass::errors::{InitError, MintError};
use obi_pass::initializer::{initialize, Initialize};
use obi_pass::issuer::{mint_license, MintLicense};
use obi_pass::records::{AssetRecord, HoldingRecord, NativeAccount};
use obi_pass::{ISSUE_AMOUNT, LICENSE_FEE};

fn bound_asset() -> AssetRecord {
    let authority = derive_authority_address();
    AssetRecord {
        address: 77,
        decimals: 0,
        mint_authority: authority,
        freeze_authority: authority,
    }
}

fn first_time_ctx(buyer_balance: u64) -> MintLicense {
    MintLicense {
        buyer: NativeAccount {
            address: 1,
            balance: buyer_balance,
        },
        buyer_signed: true,
        treasury: NativeAccount {
            address: 2,
            balance: 500,
        },
        asset: bound_asset(),
        supplied_authority: derive_authority_address(),
        buyer_record: None,
        record_storage_cost: 0,
    }
}

#[test]
fn authority_label_is_the_word_authority() {
    assert_eq!(authority_label(), b"authority".to_vec());
}

#[test]
fn authority_derivation_is_deterministic() {
    let a = derive_authority_address();
    let b = derive_authority_address();
    let c = derive_address(&authority_label());
    assert_eq!(a, b);
    assert_eq!(a, c);
}

#[test]
fn derivation_depends_on_the_label() {
    assert_ne!(derive_address(b"authority"), derive_address(b"authoritz"));
    assert_ne!(derive_address(b"authority"), derive_address(b""));
}

#[test]
fn initialize_binds_both_authorities_to_the_derived_address() {
    let ctx = Initialize {
        payer: NativeAccount {
            address: 9,
            balance: 1_000,
        },
        payer_signed: true,
        asset_address: 77,
        asset_exists: false,
        storage_cost: 300,
    };
    let out = initialize(&ctx).unwrap();
    assert_eq!(out.asset.address, 77);
    assert_eq!(out.asset.decimals, 0);
    assert_eq!(out.asset.mint_authority, derive_authority_address());
    assert_eq!(out.asset.freeze_authority, derive_authority_address());
    assert_eq!(out.payer_balance, 700);
}

#[test]
fn initialize_twice_fails_with_collision() {
    let ctx = Initialize {
        payer: NativeAccount {
            address: 9,
            balance: 1_000,
        },
        payer_signed: true,
        asset_address: 77,
        asset_exists: true,
        storage_cost: 300,
    };
    assert_eq!(initialize(&ctx), Err(InitError::AlreadyInitialized));
}

#[test]
fn initialize_without_signature_fails() {
    let ctx = Initialize {
        payer: NativeAccount {
            address: 9,
            balance: 1_000,
        },
        payer_signed: false,
        asset_address: 77,
        asset_exists: false,
        storage_cost: 300,
    };
    assert_eq!(initialize(&ctx), Err(InitError::MissingRequiredSignature));
}

#[test]
fn initialize_with_poor_payer_fails() {
    let ctx = Initialize {
        payer: NativeAccount {
            address: 9,
            balance: 299,
        },
        payer_signed: true,
        asset_address: 77,
        asset_exists: false,
        storage_cost: 300,
    };
    assert_eq!(initialize(&ctx), Err(InitError::InsufficientFunds));
}

#[test]
fn exact_fee_balance_buys_one_license() {
    let out = mint_license(&first_time_ctx(1_000_000_000)).unwrap();
    assert_eq!(out.buyer_balance, 0);
    assert_eq!(out.treasury_balance, 500 + 1_000_000_000);
    assert_eq!(out.record.balance, 1);
    assert_eq!(out.record.owner, 1);
    assert_eq!(out.record.asset, 77);
    assert!(out.record_created);
}

#[test]
fn one_unit_short_of_the_fee_fails_payment() {
    assert_eq!(
        mint_license(&first_time_ctx(999_999_999)),
        Err(MintError::PaymentFailed)
    );
}

#[test]
fn unsigned_buyer_is_rejected() {
    let mut ctx = first_time_ctx(2_000_000_000);
    ctx.buyer_signed = false;
    assert_eq!(
        mint_license(&ctx),
        Err(MintError::MissingRequiredSignature)
    );
}

#[test]
fn wrong_supplied_authority_is_rejected() {
    let mut ctx = first_time_ctx(2_000_000_000);
    ctx.supplied_authority ^= 1;
    assert_eq!(
        mint_license(&ctx),
        Err(MintError::UnauthorizedAuthority)
    );
}

#[test]
fn asset_bound_to_another_authority_is_rejected() {
    let mut ctx = first_time_ctx(2_000_000_000);
    ctx.asset.mint_authority ^= 1;
    assert_eq!(
        mint_license(&ctx),
        Err(MintError::UnauthorizedAuthority)
    );
}

#[test]
fn overflowing_treasury_fails_payment() {
    let mut ctx = first_time_ctx(2_000_000_000);
    ctx.treasury.balance = u64::MAX;
    assert_eq!(mint_license(&ctx), Err(MintError::PaymentFailed));
}

#[test]
fn buyer_who_cannot_fund_the_record_is_rejected() {
    let mut ctx = first_time_ctx(LICENSE_FEE + 199);
    ctx.record_storage_cost = 200;
    assert_eq!(
        mint_license(&ctx),
        Err(MintError::RecordCreationFailed)
    );
}

#[test]
fn record_storage_cost_is_charged_on_creation() {
    let mut ctx = first_time_ctx(LICENSE_FEE + 200);
    ctx.record_storage_cost = 200;
    let out = mint_license(&ctx).unwrap();
    assert_eq!(out.buyer_balance, 0);
    assert_eq!(out.record.balance, ISSUE_AMOUNT);
    assert!(out.record_created);
}

#[test]
fn existing_empty_record_is_reused_not_recreated() {
    let mut ctx = first_time_ctx(2_000_000_000);
    ctx.record_storage_cost = 200;
    ctx.buyer_record = Some(HoldingRecord {
        asset: 77,
        owner: 1,
        balance: 0,
    });
    let out = mint_license(&ctx).unwrap();
    assert!(!out.record_created);
    assert_eq!(out.record.balance, 1);
    assert_eq!(out.buyer_balance, 2_000_000_000 - LICENSE_FEE);
}

#[test]
fn second_purchase_by_the_same_buyer_is_rejected() {
    let first = mint_license(&first_time_ctx(3_000_000_000)).unwrap();
    let mut again = first_time_ctx(first.buyer_balance);
    again.treasury.balance = first.treasury_balance;
    again.buyer_record = Some(first.record);
    assert_eq!(mint_license(&again), Err(MintError::AlreadyLicensed));
}

#[test]
fn initialize_then_mint_end_to_end() {
    let init_ctx = Initialize {
        payer: NativeAccount {
            address: 9,
            balance: 10_000,
        },
        payer_signed: true,
        asset_address: 42,
        asset_exists: false,
        storage_cost: 10_000,
    };
    let created = initialize(&init_ctx).unwrap();
    assert_eq!(created.payer_balance, 0);
    let mint_ctx = MintLicense {
        buyer: NativeAccount {
            address: 1,
            balance: LICENSE_FEE + 250,
        },
        buyer_signed: true,
        treasury: NativeAccount {
            address: 2,
            balance: 0,
        },
        asset: created.asset,
        supplied_authority: derive_authority_address(),
        buyer_record: None,
        record_storage_cost: 250,
    };
    let out = mint_license(&mint_ctx).unwrap();
    assert_eq!(out.buyer_balance, 0);
    assert_eq!(out.treasury_balance, LICENSE_FEE);
    assert_eq!(out.record.balance, ISSUE_AMOUNT);
    assert_eq!(out.record.asset, 42);
}
