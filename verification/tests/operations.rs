use skillstore::error::SkillstoreError;
use skillstore::events::{
    ConfigInitialized, FeeUpdated, ListingDeactivated, SkillListed, SkillPurchased,
    TreasuryUpdated,
};
use skillstore::identity::Identity;
use skillstore::instructions::{
    deactivate_listing, initialize, list_skill, purchase_skill, update_fee, update_treasury,
    DeactivateListing, Initialize, ListSkill, PurchaseSkill, Transfer, UpdateConfig,
};
use skillstore::state::{Config, Listing, Receipt};

fn party(tag: u8) -> Identity {
    Identity::new([tag; 32])
}

fn sample_config() -> Config {
    Config {
        admin: party(1),
        treasury: party(2),
        fee_basis_points: 500,
        total_sales: 0,
        total_fees_collected: 0,
        bump: 254,
    }
}

fn sample_listing() -> Listing {
    Listing {
        creator: party(3),
        skill_id: String::from("sk1"),
        price_lamports: 1000,
        metadata_uri: String::from("ipfs://x"),
        total_sales: 0,
        is_active: true,
        created_at: 1_700_000_000,
        bump: 253,
    }
}

fn sample_purchase() -> PurchaseSkill {
    PurchaseSkill {
        buyer: party(4),
        creator: party(3),
        treasury: party(2),
        config: sample_config(),
        listing: sample_listing(),
        receipt_bump: 252,
    }
}

#[test]
fn initialize_creates_the_configuration() {
    let ctx = Initialize { admin: party(1), treasury: party(2), config_bump: 254 };
    let (config, event) = initialize(&ctx, 500).unwrap();
    assert_eq!(config, sample_config());
    assert_eq!(
        event,
        ConfigInitialized { admin: party(1), treasury: party(2), fee_basis_points: 500 }
    );
}

#[test]
fn initialize_accepts_the_whole_and_nothing() {
    let ctx = Initialize { admin: party(1), treasury: party(2), config_bump: 0 };
    assert_eq!(initialize(&ctx, 10000).unwrap().0.fee_basis_points, 10000);
    assert_eq!(initialize(&ctx, 0).unwrap().0.fee_basis_points, 0);
}

#[test]
fn initialize_refuses_a_rate_above_the_whole() {
    let ctx = Initialize { admin: party(1), treasury: party(2), config_bump: 254 };
    assert_eq!(initialize(&ctx, 10001), Err(SkillstoreError::InvalidFee));
    assert_eq!(initialize(&ctx, u16::MAX), Err(SkillstoreError::InvalidFee));
}

#[test]
fn update_treasury_reports_the_treasury_as_it_was() {
    let mut ctx = UpdateConfig { admin: party(1), config: sample_config() };
    let event = update_treasury(&mut ctx, party(9)).unwrap();
    assert_eq!(event, TreasuryUpdated { old_treasury: party(2), new_treasury: party(9) });
    assert_eq!(ctx.config, Config { treasury: party(9), ..sample_config() });
}

#[test]
fn update_treasury_is_for_the_admin_alone() {
    for tag in [0u8, 2, 3, 255] {
        let mut ctx = UpdateConfig { admin: party(tag), config: sample_config() };
        assert_eq!(update_treasury(&mut ctx, party(9)), Err(SkillstoreError::Unauthorized));
        assert_eq!(ctx.config, sample_config());
    }
    let mut almost = [1u8; 32];
    almost[31] = 0;
    let mut ctx = UpdateConfig { admin: Identity::new(almost), config: sample_config() };
    assert_eq!(update_treasury(&mut ctx, party(9)), Err(SkillstoreError::Unauthorized));
}

#[test]
fn update_fee_sets_the_rate() {
    let mut ctx = UpdateConfig { admin: party(1), config: sample_config() };
    assert_eq!(update_fee(&mut ctx, 250), Ok(FeeUpdated { old_fee: 500, new_fee: 250 }));
    assert_eq!(ctx.config, Config { fee_basis_points: 250, ..sample_config() });
    assert_eq!(update_fee(&mut ctx, 10000), Ok(FeeUpdated { old_fee: 250, new_fee: 10000 }));
}

#[test]
fn update_fee_is_for_the_admin_alone() {
    let mut ctx = UpdateConfig { admin: party(7), config: sample_config() };
    assert_eq!(update_fee(&mut ctx, 250), Err(SkillstoreError::Unauthorized));
    assert_eq!(update_fee(&mut ctx, 10001), Err(SkillstoreError::Unauthorized));
    assert_eq!(ctx.config, sample_config());
}

#[test]
fn update_fee_refuses_a_rate_above_the_whole() {
    let mut ctx = UpdateConfig { admin: party(1), config: sample_config() };
    assert_eq!(update_fee(&mut ctx, 10001), Err(SkillstoreError::InvalidFee));
    assert_eq!(ctx.config, sample_config());
}

#[test]
fn list_skill_makes_an_active_listing() {
    let ctx = ListSkill { creator: party(3), listing_bump: 253 };
    let (listing, event) = list_skill(
        &ctx,
        String::from("sk1"),
        1000,
        String::from("ipfs://x"),
        1_700_000_000,
    )
    .unwrap();
    assert_eq!(listing, sample_listing());
    assert_eq!(
        event,
        SkillListed { creator: party(3), skill_id: String::from("sk1"), price_lamports: 1000 }
    );
}

#[test]
fn list_skill_refuses_a_price_of_zero() {
    let ctx = ListSkill { creator: party(3), listing_bump: 253 };
    let outcome = list_skill(&ctx, String::from("sk1"), 0, String::from("ipfs://x"), 0);
    assert_eq!(outcome, Err(SkillstoreError::InvalidPrice));
}

#[test]
fn list_skill_refuses_a_long_identifier() {
    let ctx = ListSkill { creator: party(3), listing_bump: 253 };
    let outcome = list_skill(&ctx, "a".repeat(33), 1000, String::from("ipfs://x"), 0);
    assert_eq!(outcome, Err(SkillstoreError::SkillIdTooLong));
    let outcome = list_skill(&ctx, "a".repeat(32), 1000, String::from("ipfs://x"), 0);
    assert!(outcome.is_ok());
    let outcome = list_skill(&ctx, String::new(), 1000, String::new(), 0);
    assert!(outcome.is_ok());
}

#[test]
fn list_skill_refuses_a_long_metadata_pointer() {
    let ctx = ListSkill { creator: party(3), listing_bump: 253 };
    let outcome = list_skill(&ctx, String::from("sk1"), 1000, "u".repeat(201), 0);
    assert_eq!(outcome, Err(SkillstoreError::MetadataUriTooLong));
    let outcome = list_skill(&ctx, String::from("sk1"), 1000, "u".repeat(200), 0);
    assert!(outcome.is_ok());
}

#[test]
fn list_skill_measures_text_in_bytes() {
    let ctx = ListSkill { creator: party(3), listing_bump: 253 };
    let outcome = list_skill(&ctx, "\u{e9}".repeat(16), 1000, String::from("ipfs://x"), 0);
    assert!(outcome.is_ok());
    let outcome = list_skill(&ctx, "\u{e9}".repeat(17), 1000, String::from("ipfs://x"), 0);
    assert_eq!(outcome, Err(SkillstoreError::SkillIdTooLong));
    let outcome = list_skill(&ctx, String::from("sk1"), 1000, "\u{20ac}".repeat(67), 0);
    assert_eq!(outcome, Err(SkillstoreError::MetadataUriTooLong));
}

#[test]
fn list_skill_looks_at_the_identifier_first_and_the_price_last() {
    let ctx = ListSkill { creator: party(3), listing_bump: 253 };
    let outcome = list_skill(&ctx, "a".repeat(33), 0, "u".repeat(201), 0);
    assert_eq!(outcome, Err(SkillstoreError::SkillIdTooLong));
    let outcome = list_skill(&ctx, "a".repeat(32), 0, "u".repeat(201), 0);
    assert_eq!(outcome, Err(SkillstoreError::MetadataUriTooLong));
}

#[test]
fn purchase_splits_the_price_and_counts_the_sale() {
    let mut ctx = sample_purchase();
    let purchase = purchase_skill(&mut ctx, 1_700_000_100).unwrap();
    assert_eq!(
        purchase.fee_transfer,
        Some(Transfer { from: party(4), to: party(2), lamports: 50 })
    );
    assert_eq!(
        purchase.creator_transfer,
        Transfer { from: party(4), to: party(3), lamports: 950 }
    );
    assert_eq!(
        purchase.receipt,
        Receipt {
            buyer: party(4),
            skill_id: String::from("sk1"),
            creator: party(3),
            price_paid: 1000,
            fee_paid: 50,
            purchased_at: 1_700_000_100,
            bump: 252,
        }
    );
    assert_eq!(
        purchase.event,
        SkillPurchased {
            buyer: party(4),
            creator: party(3),
            skill_id: String::from("sk1"),
            price: 1000,
            fee: 50,
        }
    );
    assert_eq!(ctx.listing, Listing { total_sales: 1, ..sample_listing() });
    assert_eq!(
        ctx.config,
        Config { total_sales: 1, total_fees_collected: 50, ..sample_config() }
    );
}

#[test]
fn purchase_without_fee_pays_the_creator_alone() {
    let mut ctx = sample_purchase();
    ctx.config.fee_basis_points = 0;
    let purchase = purchase_skill(&mut ctx, 5).unwrap();
    assert_eq!(purchase.fee_transfer, None);
    assert_eq!(purchase.creator_transfer.lamports, 1000);
    assert_eq!(purchase.receipt.fee_paid, 0);
    assert_eq!(ctx.config.total_fees_collected, 0);
    assert_eq!(ctx.config.total_sales, 1);

    let mut ctx = sample_purchase();
    ctx.listing.price_lamports = 19;
    let purchase = purchase_skill(&mut ctx, 5).unwrap();
    assert_eq!(purchase.fee_transfer, None);
    assert_eq!(purchase.creator_transfer.lamports, 19);
}

#[test]
fn purchase_at_the_full_rate_pays_the_creator_nothing() {
    let mut ctx = sample_purchase();
    ctx.config.fee_basis_points = 10000;
    let purchase = purchase_skill(&mut ctx, 5).unwrap();
    assert_eq!(
        purchase.fee_transfer,
        Some(Transfer { from: party(4), to: party(2), lamports: 1000 })
    );
    assert_eq!(
        purchase.creator_transfer,
        Transfer { from: party(4), to: party(3), lamports: 0 }
    );
}

#[test]
fn purchase_of_an_inactive_listing_is_refused() {
    let mut ctx = sample_purchase();
    ctx.listing.is_active = false;
    assert_eq!(purchase_skill(&mut ctx, 5), Err(SkillstoreError::ListingNotActive));
    assert_eq!(ctx.listing, Listing { is_active: false, ..sample_listing() });
    assert_eq!(ctx.config, sample_config());

    ctx.treasury = party(8);
    ctx.creator = party(9);
    assert_eq!(purchase_skill(&mut ctx, 5), Err(SkillstoreError::ListingNotActive));
}

#[test]
fn purchase_checks_the_treasury_then_the_creator() {
    let mut ctx = sample_purchase();
    ctx.treasury = party(8);
    assert_eq!(purchase_skill(&mut ctx, 5), Err(SkillstoreError::InvalidTreasury));
    ctx.creator = party(9);
    assert_eq!(purchase_skill(&mut ctx, 5), Err(SkillstoreError::InvalidTreasury));
    ctx.treasury = party(2);
    assert_eq!(purchase_skill(&mut ctx, 5), Err(SkillstoreError::InvalidCreator));
    assert_eq!(ctx.listing, sample_listing());
    assert_eq!(ctx.config, sample_config());
}

#[test]
fn purchase_never_wraps_a_counter() {
    let mut ctx = sample_purchase();
    ctx.listing.total_sales = u64::MAX;
    assert_eq!(purchase_skill(&mut ctx, 5), Err(SkillstoreError::ArithmeticOverflow));
    assert_eq!(ctx.listing.total_sales, u64::MAX);

    let mut ctx = sample_purchase();
    ctx.config.total_sales = u64::MAX;
    assert_eq!(purchase_skill(&mut ctx, 5), Err(SkillstoreError::ArithmeticOverflow));
    assert_eq!(ctx.listing.total_sales, 0);

    let mut ctx = sample_purchase();
    ctx.config.total_fees_collected = u64::MAX - 49;
    assert_eq!(purchase_skill(&mut ctx, 5), Err(SkillstoreError::ArithmeticOverflow));
    assert_eq!(ctx.config.total_fees_collected, u64::MAX - 49);
    assert_eq!(ctx.config.total_sales, 0);
    assert_eq!(ctx.listing.total_sales, 0);

    ctx.config.total_fees_collected = u64::MAX - 50;
    assert!(purchase_skill(&mut ctx, 5).is_ok());
    assert_eq!(ctx.config.total_fees_collected, u64::MAX);
}

#[test]
fn purchase_refuses_a_fee_above_the_price() {
    let mut ctx = sample_purchase();
    ctx.config.fee_basis_points = 20000;
    assert_eq!(purchase_skill(&mut ctx, 5), Err(SkillstoreError::ArithmeticOverflow));
    assert_eq!(ctx.config.total_sales, 0);
}

#[test]
fn purchase_of_the_largest_price() {
    let mut ctx = sample_purchase();
    ctx.listing.price_lamports = u64::MAX;
    let purchase = purchase_skill(&mut ctx, 5).unwrap();
    assert_eq!(purchase.receipt.fee_paid, 922337203685477580);
    assert_eq!(purchase.creator_transfer.lamports, 17524406870024074035);
}

#[test]
fn deactivate_takes_the_listing_off_sale() {
    let mut ctx = DeactivateListing { creator: party(3), listing: sample_listing() };
    let event = deactivate_listing(&mut ctx).unwrap();
    assert_eq!(event, ListingDeactivated { skill_id: String::from("sk1"), creator: party(3) });
    assert_eq!(ctx.listing, Listing { is_active: false, ..sample_listing() });
    assert!(deactivate_listing(&mut ctx).is_ok());
    assert!(!ctx.listing.is_active);
}

#[test]
fn deactivate_is_for_the_creator_alone() {
    let mut ctx = DeactivateListing { creator: party(4), listing: sample_listing() };
    assert_eq!(deactivate_listing(&mut ctx), Err(SkillstoreError::Unauthorized));
    assert_eq!(ctx.listing, sample_listing());
}
