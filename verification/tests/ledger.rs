use skillstore::error::{LedgerError, SkillstoreError};
use skillstore::events::{
    ConfigInitialized, FeeUpdated, ListingDeactivated, SkillListed, SkillPurchased,
    TreasuryUpdated,
};
use skillstore::address::{config_address, listing_address, receipt_address};
use skillstore::identity::Identity;
use skillstore::ledger::Ledger;
use skillstore::state::{Config, Listing, Receipt};

fn party(tag: u8) -> Identity {
    Identity::new([tag; 32])
}

const PROGRAM: u8 = 42;
const ADMIN: u8 = 1;
const TREASURY: u8 = 2;
const CREATOR: u8 = 3;
const BUYER: u8 = 4;
const OTHER_BUYER: u8 = 5;

fn sk1() -> String {
    String::from("sk1")
}

fn market() -> Ledger {
    let mut ledger = Ledger::new(party(PROGRAM));
    ledger.initialize(party(ADMIN), party(TREASURY), 500).unwrap();
    ledger
        .list_skill(party(CREATOR), sk1(), 1000, String::from("ipfs://x"), 1_700_000_000)
        .unwrap();
    ledger.deposit(party(BUYER), 5000).unwrap();
    ledger.deposit(party(OTHER_BUYER), 5000).unwrap();
    ledger
}

fn buy(ledger: &mut Ledger, buyer: u8) -> Result<SkillPurchased, LedgerError> {
    ledger.purchase_skill(party(buyer), party(CREATOR), party(TREASURY), &sk1(), 1_700_000_100)
}

#[test]
fn a_new_ledger_is_empty() {
    let ledger = Ledger::new(party(PROGRAM));
    assert_eq!(ledger.program_id(), party(PROGRAM));
    assert_eq!(ledger.config(), None);
    assert_eq!(ledger.listing(&sk1()), None);
    assert_eq!(ledger.receipt(&party(BUYER), &sk1()), None);
    assert_eq!(ledger.balance_of(&party(BUYER)), 0);
}

#[test]
fn end_to_end_purchase() {
    let mut ledger = Ledger::new(party(PROGRAM));
    let event = ledger.initialize(party(ADMIN), party(TREASURY), 500).unwrap();
    assert_eq!(
        event,
        ConfigInitialized { admin: party(ADMIN), treasury: party(TREASURY), fee_basis_points: 500 }
    );
    let event = ledger
        .list_skill(party(CREATOR), sk1(), 1000, String::from("ipfs://x"), 1_700_000_000)
        .unwrap();
    assert_eq!(
        event,
        SkillListed { creator: party(CREATOR), skill_id: sk1(), price_lamports: 1000 }
    );
    ledger.deposit(party(BUYER), 1000).unwrap();

    let event = buy(&mut ledger, BUYER).unwrap();
    assert_eq!(
        event,
        SkillPurchased {
            buyer: party(BUYER),
            creator: party(CREATOR),
            skill_id: sk1(),
            price: 1000,
            fee: 50,
        }
    );
    assert_eq!(ledger.balance_of(&party(TREASURY)), 50);
    assert_eq!(ledger.balance_of(&party(CREATOR)), 950);
    assert_eq!(ledger.balance_of(&party(BUYER)), 0);
    let config = ledger.config().unwrap();
    assert_eq!(config.total_sales, 1);
    assert_eq!(config.total_fees_collected, 50);
    let listing = ledger.listing(&sk1()).unwrap();
    assert_eq!(listing.total_sales, 1);
    let receipt = ledger.receipt(&party(BUYER), &sk1()).unwrap();
    assert_eq!(receipt.price_paid, 1000);
    assert_eq!(receipt.fee_paid, 50);
    assert_eq!(
        receipt,
        Receipt {
            buyer: party(BUYER),
            skill_id: sk1(),
            creator: party(CREATOR),
            price_paid: 1000,
            fee_paid: 50,
            purchased_at: 1_700_000_100,
            bump: receipt_address(&party(PROGRAM), &party(BUYER), &sk1()).unwrap().1,
        }
    );
}

#[test]
fn records_carry_the_bump_seed_of_their_address() {
    let ledger = market();
    assert_eq!(
        ledger.config(),
        Some(Config {
            admin: party(ADMIN),
            treasury: party(TREASURY),
            fee_basis_points: 500,
            total_sales: 0,
            total_fees_collected: 0,
            bump: config_address(&party(PROGRAM)).unwrap().1,
        })
    );
    assert_eq!(
        ledger.listing(&sk1()),
        Some(Listing {
            creator: party(CREATOR),
            skill_id: sk1(),
            price_lamports: 1000,
            metadata_uri: String::from("ipfs://x"),
            total_sales: 0,
            is_active: true,
            created_at: 1_700_000_000,
            bump: listing_address(&party(PROGRAM), &sk1()).unwrap().1,
        })
    );
}

#[test]
fn initialize_happens_once() {
    let mut ledger = market();
    assert_eq!(
        ledger.initialize(party(9), party(9), 100),
        Err(LedgerError::AlreadyExists)
    );
    assert_eq!(ledger.config().unwrap().admin, party(ADMIN));
    assert_eq!(ledger.config().unwrap().fee_basis_points, 500);
}

#[test]
fn initialize_refuses_a_rate_above_the_whole_on_the_ledger() {
    let mut ledger = Ledger::new(party(PROGRAM));
    assert_eq!(
        ledger.initialize(party(ADMIN), party(TREASURY), 10001),
        Err(LedgerError::Rule(SkillstoreError::InvalidFee))
    );
    assert_eq!(ledger.config(), None);
    assert!(ledger.initialize(party(ADMIN), party(TREASURY), 10000).is_ok());
}

#[test]
fn updates_need_a_configuration() {
    let mut ledger = Ledger::new(party(PROGRAM));
    assert_eq!(ledger.update_fee(party(ADMIN), 1), Err(LedgerError::NotInitialized));
    assert_eq!(
        ledger.update_treasury(party(ADMIN), party(9)),
        Err(LedgerError::NotInitialized)
    );
}

#[test]
fn only_the_admin_updates_the_configuration() {
    let mut ledger = market();
    for tag in [TREASURY, CREATOR, BUYER, 0, 255] {
        assert_eq!(
            ledger.update_fee(party(tag), 100),
            Err(LedgerError::Rule(SkillstoreError::Unauthorized))
        );
        assert_eq!(
            ledger.update_treasury(party(tag), party(tag)),
            Err(LedgerError::Rule(SkillstoreError::Unauthorized))
        );
    }
    assert_eq!(ledger.config().unwrap().fee_basis_points, 500);
    assert_eq!(ledger.config().unwrap().treasury, party(TREASURY));
}

#[test]
fn the_admin_updates_the_configuration() {
    let mut ledger = market();
    assert_eq!(
        ledger.update_fee(party(ADMIN), 1000),
        Ok(FeeUpdated { old_fee: 500, new_fee: 1000 })
    );
    assert_eq!(
        ledger.update_treasury(party(ADMIN), party(9)),
        Ok(TreasuryUpdated { old_treasury: party(TREASURY), new_treasury: party(9) })
    );
    assert_eq!(
        ledger.update_fee(party(ADMIN), 10001),
        Err(LedgerError::Rule(SkillstoreError::InvalidFee))
    );
    let config = ledger.config().unwrap();
    assert_eq!(config.fee_basis_points, 1000);
    assert_eq!(config.treasury, party(9));

    assert_eq!(
        ledger.purchase_skill(party(BUYER), party(CREATOR), party(TREASURY), &sk1(), 7),
        Err(LedgerError::Rule(SkillstoreError::InvalidTreasury))
    );
    ledger.purchase_skill(party(BUYER), party(CREATOR), party(9), &sk1(), 7).unwrap();
    assert_eq!(ledger.balance_of(&party(9)), 100);
    assert_eq!(ledger.balance_of(&party(CREATOR)), 900);
}

#[test]
fn a_skill_is_listed_once() {
    let mut ledger = market();
    assert_eq!(
        ledger.list_skill(party(9), sk1(), 5, String::from("ipfs://y"), 8),
        Err(LedgerError::AlreadyExists)
    );
    let listing = ledger.listing(&sk1()).unwrap();
    assert_eq!(listing.creator, party(CREATOR));
    assert_eq!(listing.price_lamports, 1000);
    assert!(ledger.list_skill(party(9), String::from("sk2"), 5, String::new(), 8).is_ok());
    assert_eq!(ledger.listing(&String::from("sk2")).unwrap().creator, party(9));
    assert_eq!(ledger.listing(&sk1()).unwrap(), listing);
}

#[test]
fn listing_rules_hold_on_the_ledger() {
    let mut ledger = Ledger::new(party(PROGRAM));
    assert_eq!(
        ledger.list_skill(party(CREATOR), sk1(), 0, String::from("ipfs://x"), 0),
        Err(LedgerError::Rule(SkillstoreError::InvalidPrice))
    );
    assert_eq!(
        ledger.list_skill(party(CREATOR), "a".repeat(33), 1000, String::from("ipfs://x"), 0),
        Err(LedgerError::Rule(SkillstoreError::SkillIdTooLong))
    );
    assert_eq!(
        ledger.list_skill(party(CREATOR), sk1(), 1000, "u".repeat(201), 0),
        Err(LedgerError::Rule(SkillstoreError::MetadataUriTooLong))
    );
    assert_eq!(ledger.listing(&sk1()), None);
    assert!(ledger.list_skill(party(CREATOR), "a".repeat(32), 1, "u".repeat(200), 0).is_ok());
}

#[test]
fn inactive_listing_is_not_sold() {
    let mut ledger = market();
    assert_eq!(
        ledger.deactivate_listing(party(CREATOR), &sk1()),
        Ok(ListingDeactivated { skill_id: sk1(), creator: party(CREATOR) })
    );
    assert!(!ledger.listing(&sk1()).unwrap().is_active);
    assert_eq!(
        buy(&mut ledger, BUYER),
        Err(LedgerError::Rule(SkillstoreError::ListingNotActive))
    );
    assert_eq!(
        ledger.purchase_skill(party(BUYER), party(8), party(9), &sk1(), 7),
        Err(LedgerError::Rule(SkillstoreError::ListingNotActive))
    );
    assert_eq!(ledger.balance_of(&party(BUYER)), 5000);
    assert_eq!(ledger.balance_of(&party(CREATOR)), 0);
    assert_eq!(ledger.balance_of(&party(TREASURY)), 0);
    assert_eq!(ledger.receipt(&party(BUYER), &sk1()), None);
    assert_eq!(ledger.listing(&sk1()).unwrap().total_sales, 0);
    assert_eq!(ledger.config().unwrap().total_sales, 0);
    assert_eq!(ledger.config().unwrap().total_fees_collected, 0);
}

#[test]
fn only_the_creator_deactivates() {
    let mut ledger = market();
    assert_eq!(
        ledger.deactivate_listing(party(ADMIN), &sk1()),
        Err(LedgerError::Rule(SkillstoreError::Unauthorized))
    );
    assert!(ledger.listing(&sk1()).unwrap().is_active);
    assert_eq!(
        ledger.deactivate_listing(party(CREATOR), &String::from("none")),
        Err(LedgerError::UnknownListing)
    );
}

#[test]
fn two_buyers_two_sales() {
    let mut ledger = market();
    buy(&mut ledger, BUYER).unwrap();
    assert_eq!(ledger.listing(&sk1()).unwrap().total_sales, 1);
    assert_eq!(ledger.config().unwrap().total_sales, 1);
    buy(&mut ledger, OTHER_BUYER).unwrap();
    assert_eq!(ledger.listing(&sk1()).unwrap().total_sales, 2);
    assert_eq!(ledger.config().unwrap().total_sales, 2);
    assert_eq!(ledger.config().unwrap().total_fees_collected, 100);
    assert_eq!(ledger.receipt(&party(BUYER), &sk1()).unwrap().buyer, party(BUYER));
    assert_eq!(ledger.receipt(&party(OTHER_BUYER), &sk1()).unwrap().buyer, party(OTHER_BUYER));
    assert_eq!(ledger.receipt(&party(CREATOR), &sk1()), None);
    assert_eq!(ledger.balance_of(&party(CREATOR)), 1900);
    assert_eq!(ledger.balance_of(&party(TREASURY)), 100);
    assert_eq!(ledger.balance_of(&party(BUYER)), 4000);
    assert_eq!(ledger.balance_of(&party(OTHER_BUYER)), 4000);
}

#[test]
fn no_second_purchase_by_the_same_buyer() {
    let mut ledger = market();
    buy(&mut ledger, BUYER).unwrap();
    let receipt = ledger.receipt(&party(BUYER), &sk1()).unwrap();
    assert_eq!(buy(&mut ledger, BUYER), Err(LedgerError::AlreadyExists));
    assert_eq!(ledger.listing(&sk1()).unwrap().total_sales, 1);
    assert_eq!(ledger.config().unwrap().total_sales, 1);
    assert_eq!(ledger.config().unwrap().total_fees_collected, 50);
    assert_eq!(ledger.balance_of(&party(BUYER)), 4000);
    assert_eq!(ledger.balance_of(&party(CREATOR)), 950);
    assert_eq!(ledger.balance_of(&party(TREASURY)), 50);
    assert_eq!(ledger.receipt(&party(BUYER), &sk1()).unwrap(), receipt);
}

#[test]
fn purchase_needs_the_records() {
    let mut ledger = Ledger::new(party(PROGRAM));
    ledger.deposit(party(BUYER), 5000).unwrap();
    assert_eq!(buy(&mut ledger, BUYER), Err(LedgerError::NotInitialized));
    ledger.initialize(party(ADMIN), party(TREASURY), 500).unwrap();
    assert_eq!(buy(&mut ledger, BUYER), Err(LedgerError::UnknownListing));
    assert_eq!(ledger.balance_of(&party(BUYER)), 5000);
}

#[test]
fn purchase_names_the_right_parties() {
    let mut ledger = market();
    assert_eq!(
        ledger.purchase_skill(party(BUYER), party(CREATOR), party(9), &sk1(), 7),
        Err(LedgerError::Rule(SkillstoreError::InvalidTreasury))
    );
    assert_eq!(
        ledger.purchase_skill(party(BUYER), party(9), party(TREASURY), &sk1(), 7),
        Err(LedgerError::Rule(SkillstoreError::InvalidCreator))
    );
    assert_eq!(ledger.balance_of(&party(BUYER)), 5000);
    assert_eq!(ledger.receipt(&party(BUYER), &sk1()), None);
}

#[test]
fn purchase_without_funds_changes_nothing() {
    let mut ledger = Ledger::new(party(PROGRAM));
    ledger.initialize(party(ADMIN), party(TREASURY), 500).unwrap();
    ledger
        .list_skill(party(CREATOR), sk1(), 1000, String::from("ipfs://x"), 1_700_000_000)
        .unwrap();
    assert_eq!(buy(&mut ledger, BUYER), Err(LedgerError::InsufficientFunds));
    ledger.deposit(party(BUYER), 999).unwrap();
    assert_eq!(buy(&mut ledger, BUYER), Err(LedgerError::InsufficientFunds));
    assert_eq!(ledger.balance_of(&party(BUYER)), 999);
    assert_eq!(ledger.balance_of(&party(TREASURY)), 0);
    assert_eq!(ledger.balance_of(&party(CREATOR)), 0);
    assert_eq!(ledger.receipt(&party(BUYER), &sk1()), None);
    assert_eq!(ledger.listing(&sk1()).unwrap().total_sales, 0);
    assert_eq!(ledger.config().unwrap().total_sales, 0);
    ledger.deposit(party(BUYER), 1).unwrap();
    assert!(buy(&mut ledger, BUYER).is_ok());
    assert_eq!(ledger.balance_of(&party(BUYER)), 0);
}

#[test]
fn purchase_that_overflows_a_balance_changes_nothing() {
    let mut ledger = market();
    ledger.deposit(party(CREATOR), u64::MAX - 949).unwrap();
    assert_eq!(
        buy(&mut ledger, BUYER),
        Err(LedgerError::Rule(SkillstoreError::ArithmeticOverflow))
    );
    assert_eq!(ledger.balance_of(&party(BUYER)), 5000);
    assert_eq!(ledger.balance_of(&party(TREASURY)), 0);
    assert_eq!(ledger.balance_of(&party(CREATOR)), u64::MAX - 949);
    assert_eq!(ledger.config().unwrap().total_sales, 0);
    assert_eq!(ledger.receipt(&party(BUYER), &sk1()), None);
}

#[test]
fn creator_may_buy_the_own_skill() {
    let mut ledger = market();
    ledger.deposit(party(CREATOR), 1000).unwrap();
    ledger
        .purchase_skill(party(CREATOR), party(CREATOR), party(TREASURY), &sk1(), 7)
        .unwrap();
    assert_eq!(ledger.balance_of(&party(CREATOR)), 950);
    assert_eq!(ledger.balance_of(&party(TREASURY)), 50);
    assert_eq!(ledger.listing(&sk1()).unwrap().total_sales, 1);
}

#[test]
fn deposits_add_up_and_never_wrap() {
    let mut ledger = Ledger::new(party(PROGRAM));
    ledger.deposit(party(BUYER), 10).unwrap();
    ledger.deposit(party(BUYER), 32).unwrap();
    ledger.deposit(party(CREATOR), 1).unwrap();
    assert_eq!(ledger.balance_of(&party(BUYER)), 42);
    assert_eq!(
        ledger.deposit(party(BUYER), u64::MAX - 41),
        Err(LedgerError::Rule(SkillstoreError::ArithmeticOverflow))
    );
    assert_eq!(ledger.balance_of(&party(BUYER)), 42);
    assert!(ledger.deposit(party(BUYER), u64::MAX - 42).is_ok());
    assert_eq!(ledger.balance_of(&party(BUYER)), u64::MAX);
    assert_eq!(ledger.balance_of(&party(CREATOR)), 1);
}
