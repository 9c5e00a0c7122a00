//! The ledger: the configuration, the listings, the receipts and the
//! balances in one place. It finds each record by what identifies it, lets
//! no two records share an identity, and applies each operation as a whole
//! or not at all.

use crate::address::{config_address, listing_address, receipt_address};
use crate::balances::Balances;
use crate::error::LedgerError;
use crate::events::{
    ConfigInitialized, FeeUpdated, ListingDeactivated, SkillListed, SkillPurchased,
    TreasuryUpdated,
};
use crate::identity::Identity;
use crate::instructions;
use crate::instructions::{
    DeactivateListing, Initialize, ListSkill, Purchase, PurchaseSkill, UpdateConfig,
};
use crate::model::LedgerView;
use crate::state::{Config, Listing, Receipt};
use crate::table::{
    distinct_keys, lemma_table_absent, lemma_table_entry, lemma_table_push, lemma_table_update,
    table,
};
use vstd::prelude::*;

verus! {

/// The marketplace's records and the balances of its parties.
#[derive(Debug)]
pub struct Ledger {
    program_id: Identity,
    config: Option<Config>,
    listings: Vec<Listing>,
    receipts: Vec<Receipt>,
    balances: Balances,
}

impl View for Ledger {
    type V = LedgerView;

    closed spec fn view(&self) -> LedgerView {
        LedgerView {
            program_id: self.program_id,
            config: self.config,
            listings: table(Self::listing_entries(self.listings@)),
            receipts: table(Self::receipt_entries(self.receipts@)),
            balances: self.balances@,
        }
    }
}

impl Ledger {
    spec fn listing_entries(listings: Seq<Listing>) -> Seq<(Seq<char>, Listing)> {
        listings.map_values(|listing: Listing| (listing.skill_id@, listing))
    }

    spec fn receipt_entries(receipts: Seq<Receipt>) -> Seq<((Identity, Seq<char>), Receipt)> {
        receipts.map_values(|receipt: Receipt| ((receipt.buyer, receipt.skill_id@), receipt))
    }

    /// No two records share an identity, and what the ledger holds is valid.
    pub closed spec fn wf(&self) -> bool {
        &&& distinct_keys(Self::listing_entries(self.listings@))
        &&& distinct_keys(Self::receipt_entries(self.receipts@))
        &&& self.balances.wf()
        &&& self@.wf()
    }

    /// What a valid ledger holds is valid.
    pub proof fn lemma_view_wf(&self)
        requires
            self.wf(),
        ensures
            self@.wf(),
    {
    }

    /// An empty ledger for the program `program_id`.
    pub fn new(program_id: Identity) -> (ledger: Ledger)
        ensures
            ledger.wf(),
            ledger@.program_id == program_id,
            ledger@.config is None,
            ledger@.listings == Map::<Seq<char>, Listing>::empty(),
            ledger@.receipts == Map::<(Identity, Seq<char>), Receipt>::empty(),
            forall|who: Identity| ledger@.balances[who] == 0,
    {
        let ledger = Ledger {
            program_id,
            config: None,
            listings: Vec::new(),
            receipts: Vec::new(),
            balances: Balances::new(),
        };
        proof {
            ledger.balances.lemma_total();
            assert(ledger@.listings =~= Map::<Seq<char>, Listing>::empty());
            assert(ledger@.receipts =~= Map::<(Identity, Seq<char>), Receipt>::empty());
        }
        ledger
    }

    fn find_listing(&self, skill_id: &String) -> (at: Option<usize>)
        requires
            self.wf(),
        ensures
            at matches Some(i) ==> i < self.listings.len() && self.listings[i as int].skill_id@
                == skill_id@ && self@.listings.dom().contains(skill_id@)
                && self@.listings[skill_id@] == self.listings[i as int],
            at is None ==> !self@.listings.dom().contains(skill_id@),
    {
        let mut i: usize = 0;
        while i < self.listings.len()
            invariant
                self.wf(),
                i <= self.listings.len(),
                forall|j: int| 0 <= j < i ==> self.listings[j].skill_id@ != skill_id@,
            decreases self.listings.len() - i,
        {
            if self.listings[i].skill_id == *skill_id {
                proof {
                    lemma_table_entry(Self::listing_entries(self.listings@), i as int);
                }
                return Some(i);
            }
            i = i + 1;
        }
        proof {
            lemma_table_absent(Self::listing_entries(self.listings@), skill_id@);
        }
        None
    }

    fn find_receipt(&self, buyer: &Identity, skill_id: &String) -> (at: Option<usize>)
        requires
            self.wf(),
        ensures
            at matches Some(i) ==> i < self.receipts.len() && self@.receipts.dom().contains(
                (*buyer, skill_id@),
            ) && self@.receipts[(*buyer, skill_id@)] == self.receipts[i as int],
            at is None ==> !self@.receipts.dom().contains((*buyer, skill_id@)),
    {
        let mut i: usize = 0;
        while i < self.receipts.len()
            invariant
                self.wf(),
                i <= self.receipts.len(),
                forall|j: int|
                    0 <= j < i ==> (self.receipts[j].buyer, self.receipts[j].skill_id@) != (
                        *buyer,
                        skill_id@,
                    ),
            decreases self.receipts.len() - i,
        {
            if self.receipts[i].buyer == *buyer && self.receipts[i].skill_id == *skill_id {
                proof {
                    lemma_table_entry(Self::receipt_entries(self.receipts@), i as int);
                }
                return Some(i);
            }
            i = i + 1;
        }
        proof {
            lemma_table_absent(Self::receipt_entries(self.receipts@), (*buyer, skill_id@));
        }
        None
    }

    /// The program whose records the ledger holds.
    pub fn program_id(&self) -> (program_id: Identity)
        ensures
            program_id == self@.program_id,
    {
        self.program_id
    }

    /// The configuration, if it was created.
    pub fn config(&self) -> (config: Option<Config>)
        ensures
            config == self@.config,
    {
        self.config
    }

    /// The listing of `skill_id`, if there is one.
    pub fn listing(&self, skill_id: &String) -> (listing: Option<Listing>)
        requires
            self.wf(),
        ensures
            listing == if self@.listings.dom().contains(skill_id@) {
                Some(self@.listings[skill_id@])
            } else {
                None
            },
    {
        match self.find_listing(skill_id) {
            Some(at) => Some(self.listings[at].clone()),
            None => None,
        }
    }

    /// The receipt that `buyer` holds for `skill_id`, if there is one.
    pub fn receipt(&self, buyer: &Identity, skill_id: &String) -> (receipt: Option<Receipt>)
        requires
            self.wf(),
        ensures
            receipt == if self@.receipts.dom().contains((*buyer, skill_id@)) {
                Some(self@.receipts[(*buyer, skill_id@)])
            } else {
                None
            },
    {
        match self.find_receipt(buyer, skill_id) {
            Some(at) => Some(self.receipts[at].clone()),
            None => None,
        }
    }

    /// What `who` holds.
    pub fn balance_of(&self, who: &Identity) -> (lamports: u64)
        requires
            self.wf(),
        ensures
            lamports == self@.balances[*who],
    {
        self.balances.balance_of(who)
    }

    /// Adds `lamports` to what `who` holds, unless the sum leaves the range
    /// of a balance. No record changes.
    pub fn deposit(&mut self, who: Identity, lamports: u64) -> (outcome: Result<(), LedgerError>)
        requires
            old(self).wf(),
        ensures
            final(self).wf(),
            outcome == match old(self)@.deposit_refusal(who, lamports) {
                Some(refusal) => Err::<(), LedgerError>(refusal),
                None => Ok::<(), LedgerError>(()),
            },
            final(self)@ == match old(self)@.deposit_refusal(who, lamports) {
                Some(_) => old(self)@,
                None => old(self)@.deposit_effect(who, lamports),
            },
    {
        self.balances.deposit(who, lamports)
    }

    /// Creates the configuration with `admin` as administrator, once.
    pub fn initialize(
        &mut self,
        admin: Identity,
        treasury: Identity,
        fee_basis_points: u16,
    ) -> (outcome: Result<ConfigInitialized, LedgerError>)
        requires
            old(self).wf(),
        ensures
            final(self).wf(),
            outcome == match old(self)@.initialize_refusal(fee_basis_points) {
                Some(refusal) => Err::<ConfigInitialized, LedgerError>(refusal),
                None => Ok::<ConfigInitialized, LedgerError>(
                    ConfigInitialized { admin, treasury, fee_basis_points },
                ),
            },
            final(self)@ == match old(self)@.initialize_refusal(fee_basis_points) {
                Some(_) => old(self)@,
                None => old(self)@.initialize_effect(admin, treasury, fee_basis_points),
            },
    {
        let derived = config_address(&self.program_id);
        let config_bump: u8 = match derived {
            Some(found) => found.1,
            None => 0,
        };
        let accounts = Initialize { admin, treasury, config_bump };
        let (config, event) = match instructions::initialize(&accounts, fee_basis_points) {
            Ok(made) => made,
            Err(rule) => {
                return Err(LedgerError::Rule(rule));
            },
        };
        if derived.is_none() {
            return Err(LedgerError::NoAddress);
        }
        if self.config.is_some() {
            return Err(LedgerError::AlreadyExists);
        }
        self.config = Some(config);
        Ok(event)
    }

    /// Makes `new_treasury` the receiver of the fees, on the word of the
    /// administrator.
    pub fn update_treasury(
        &mut self,
        signer: Identity,
        new_treasury: Identity,
    ) -> (outcome: Result<TreasuryUpdated, LedgerError>)
        requires
            old(self).wf(),
        ensures
            final(self).wf(),
            outcome == match old(self)@.update_treasury_refusal(signer) {
                Some(refusal) => Err::<TreasuryUpdated, LedgerError>(refusal),
                None => Ok::<TreasuryUpdated, LedgerError>(
                    TreasuryUpdated {
                        old_treasury: old(self)@.config.unwrap().treasury,
                        new_treasury,
                    },
                ),
            },
            final(self)@ == match old(self)@.update_treasury_refusal(signer) {
                Some(_) => old(self)@,
                None => old(self)@.update_treasury_effect(new_treasury),
            },
    {
        let config: Config = match self.config {
            Some(config) => config,
            None => {
                return Err(LedgerError::NotInitialized);
            },
        };
        let mut accounts = UpdateConfig { admin: signer, config };
        match instructions::update_treasury(&mut accounts, new_treasury) {
            Ok(event) => {
                self.config = Some(accounts.config);
                Ok(event)
            },
            Err(rule) => Err(LedgerError::Rule(rule)),
        }
    }

    /// Sets the fee rate, on the word of the administrator.
    pub fn update_fee(
        &mut self,
        signer: Identity,
        new_fee_basis_points: u16,
    ) -> (outcome: Result<FeeUpdated, LedgerError>)
        requires
            old(self).wf(),
        ensures
            final(self).wf(),
            outcome == match old(self)@.update_fee_refusal(signer, new_fee_basis_points) {
                Some(refusal) => Err::<FeeUpdated, LedgerError>(refusal),
                None => Ok::<FeeUpdated, LedgerError>(
                    FeeUpdated {
                        old_fee: old(self)@.config.unwrap().fee_basis_points,
                        new_fee: new_fee_basis_points,
                    },
                ),
            },
            final(self)@ == match old(self)@.update_fee_refusal(signer, new_fee_basis_points) {
                Some(_) => old(self)@,
                None => old(self)@.update_fee_effect(new_fee_basis_points),
            },
    {
        let config: Config = match self.config {
            Some(config) => config,
            None => {
                return Err(LedgerError::NotInitialized);
            },
        };
        let mut accounts = UpdateConfig { admin: signer, config };
        match instructions::update_fee(&mut accounts, new_fee_basis_points) {
            Ok(event) => {
                self.config = Some(accounts.config);
                Ok(event)
            },
            Err(rule) => Err(LedgerError::Rule(rule)),
        }
    }

    /// Puts the skill `skill_id` up for sale, owned by `creator`, unless the
    /// skill has a listing already.
    pub fn list_skill(
        &mut self,
        creator: Identity,
        skill_id: String,
        price_lamports: u64,
        metadata_uri: String,
        unix_timestamp: i64,
    ) -> (outcome: Result<SkillListed, LedgerError>)
        requires
            old(self).wf(),
        ensures
            final(self).wf(),
            outcome == match old(self)@.list_skill_refusal(skill_id@, price_lamports, metadata_uri@) {
                Some(refusal) => Err::<SkillListed, LedgerError>(refusal),
                None => Ok::<SkillListed, LedgerError>(
                    SkillListed { creator, skill_id, price_lamports },
                ),
            },
            final(self)@ == match old(self)@.list_skill_refusal(
                skill_id@,
                price_lamports,
                metadata_uri@,
            ) {
                Some(_) => old(self)@,
                None => old(self)@.list_skill_effect(
                    creator,
                    skill_id,
                    price_lamports,
                    metadata_uri,
                    unix_timestamp,
                ),
            },
    {
        let derived = listing_address(&self.program_id, &skill_id);
        let listing_bump: u8 = match derived {
            Some(found) => found.1,
            None => 0,
        };
        let accounts = ListSkill { creator, listing_bump };
        let (listing, event) = match instructions::list_skill(
            &accounts,
            skill_id,
            price_lamports,
            metadata_uri,
            unix_timestamp,
        ) {
            Ok(made) => made,
            Err(rule) => {
                return Err(LedgerError::Rule(rule));
            },
        };
        if derived.is_none() {
            return Err(LedgerError::NoAddress);
        }
        if self.find_listing(&listing.skill_id).is_some() {
            return Err(LedgerError::AlreadyExists);
        }
        let ghost listings_before = Self::listing_entries(self.listings@);
        let ghost made = listing;
        self.listings.push(listing);
        proof {
            lemma_table_push(listings_before, made.skill_id@, made);
            assert(Self::listing_entries(self.listings@) =~= listings_before.push(
                (made.skill_id@, made),
            ));
        }
        Ok(event)
    }

    /// Takes the skill `skill_id` off sale, on the word of its creator.
    pub fn deactivate_listing(
        &mut self,
        signer: Identity,
        skill_id: &String,
    ) -> (outcome: Result<ListingDeactivated, LedgerError>)
        requires
            old(self).wf(),
        ensures
            final(self).wf(),
            outcome == match old(self)@.deactivate_refusal(signer, skill_id@) {
                Some(refusal) => Err::<ListingDeactivated, LedgerError>(refusal),
                None => Ok::<ListingDeactivated, LedgerError>(
                    ListingDeactivated {
                        skill_id: old(self)@.listings[skill_id@].skill_id,
                        creator: old(self)@.listings[skill_id@].creator,
                    },
                ),
            },
            final(self)@ == match old(self)@.deactivate_refusal(signer, skill_id@) {
                Some(_) => old(self)@,
                None => old(self)@.deactivate_effect(skill_id@),
            },
    {
        let at: usize = match self.find_listing(skill_id) {
            Some(at) => at,
            None => {
                return Err(LedgerError::UnknownListing);
            },
        };
        let mut accounts = DeactivateListing { creator: signer, listing: self.listings[at].clone() };
        match instructions::deactivate_listing(&mut accounts) {
            Ok(event) => {
                let ghost listings_before = Self::listing_entries(self.listings@);
                let ghost listing = accounts.listing;
                self.listings.set(at, accounts.listing);
                proof {
                    lemma_table_update(listings_before, at as int, listing);
                    assert(Self::listing_entries(self.listings@) =~= listings_before.update(
                        at as int,
                        (skill_id@, listing),
                    ));
                }
                Ok(event)
            },
            Err(rule) => Err(LedgerError::Rule(rule)),
        }
    }

    /// Buys the skill `skill_id` for `buyer`, who names the creator to be
    /// paid and the treasury to receive the fee. The payments, the receipt
    /// and the counters take effect together, or the purchase is refused
    /// and the ledger stays as it was.
    pub fn purchase_skill(
        &mut self,
        buyer: Identity,
        creator: Identity,
        treasury: Identity,
        skill_id: &String,
        unix_timestamp: i64,
    ) -> (outcome: Result<SkillPurchased, LedgerError>)
        requires
            old(self).wf(),
        ensures
            final(self).wf(),
            outcome == match old(self)@.purchase_refusal(buyer, creator, treasury, skill_id@) {
                Some(refusal) => Err::<SkillPurchased, LedgerError>(refusal),
                None => Ok::<SkillPurchased, LedgerError>(
                    instructions::purchase_result(
                        old(self)@.purchase_accounts(buyer, creator, treasury, skill_id@),
                        unix_timestamp,
                    ).event,
                ),
            },
            final(self)@ == match old(self)@.purchase_refusal(buyer, creator, treasury, skill_id@) {
                Some(_) => old(self)@,
                None => old(self)@.purchase_effect(
                    buyer,
                    creator,
                    treasury,
                    skill_id@,
                    unix_timestamp,
                ),
            },
    {
        let config: Config = match self.config {
            Some(config) => config,
            None => {
                return Err(LedgerError::NotInitialized);
            },
        };
        let at: usize = match self.find_listing(skill_id) {
            Some(at) => at,
            None => {
                return Err(LedgerError::UnknownListing);
            },
        };
        let derived = receipt_address(&self.program_id, &buyer, skill_id);
        let receipt_bump: u8 = match derived {
            Some(found) => found.1,
            None => 0,
        };
        let mut accounts = PurchaseSkill {
            buyer,
            creator,
            treasury,
            config,
            listing: self.listings[at].clone(),
            receipt_bump,
        };
        assert(accounts == old(self)@.purchase_accounts(buyer, creator, treasury, skill_id@));
        let purchase: Purchase = match instructions::purchase_skill(&mut accounts, unix_timestamp) {
            Ok(purchase) => purchase,
            Err(rule) => {
                return Err(LedgerError::Rule(rule));
            },
        };
        if derived.is_none() {
            return Err(LedgerError::NoAddress);
        }
        let mut balances = self.balances.snapshot();
        match purchase.fee_transfer {
            Some(fee_transfer) => {
                match balances.transfer(&fee_transfer) {
                    Ok(()) => {},
                    Err(refusal) => {
                        return Err(refusal);
                    },
                }
            },
            None => {},
        }
        match balances.transfer(&purchase.creator_transfer) {
            Ok(()) => {},
            Err(refusal) => {
                return Err(refusal);
            },
        }
        if self.find_receipt(&buyer, skill_id).is_some() {
            return Err(LedgerError::AlreadyExists);
        }
        let ghost listings_before = Self::listing_entries(self.listings@);
        let ghost receipts_before = Self::receipt_entries(self.receipts@);
        let ghost receipt = purchase.receipt;
        let ghost listing = accounts.listing;
        self.balances = balances;
        self.receipts.push(purchase.receipt);
        self.listings.set(at, accounts.listing);
        self.config = Some(accounts.config);
        proof {
            lemma_table_push(receipts_before, (buyer, skill_id@), receipt);
            assert(Self::receipt_entries(self.receipts@) =~= receipts_before.push(
                ((buyer, skill_id@), receipt),
            ));
            lemma_table_update(listings_before, at as int, listing);
            assert(Self::listing_entries(self.listings@) =~= listings_before.update(
                at as int,
                (skill_id@, listing),
            ));
            crate::fee::lemma_fee_within_price(
                listing.price_lamports,
                config.fee_basis_points,
            );
        }
        Ok(purchase.event)
    }
}

} // verus!
