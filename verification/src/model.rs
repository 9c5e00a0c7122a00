//! What a ledger holds, and what each operation makes of it: when the
//! operation is refused, and what the ledger holds after it took effect.

use crate::address::{config_seeds, derived_address, listing_seeds, receipt_seeds};
use crate::balances::transfer_outcome;
use crate::error::{LedgerError, SkillstoreError};
use crate::identity::Identity;
use crate::instructions;
use crate::instructions::{PurchaseSkill, UpdateConfig};
use crate::state::{Config, Listing, Receipt};
use vstd::prelude::*;

verus! {

/// What a ledger holds: the configuration if it was created, each listing
/// under its skill identifier, each receipt under its buyer and skill
/// identifier, and what each party holds.
pub struct LedgerView {
    pub program_id: Identity,
    pub config: Option<Config>,
    pub listings: Map<Seq<char>, Listing>,
    pub receipts: Map<(Identity, Seq<char>), Receipt>,
    pub balances: Map<Identity, u64>,
}

impl LedgerView {
    /// Every record is valid and stored under its own identity, and every
    /// party has a balance.
    pub open spec fn wf(self) -> bool {
        &&& self.config matches Some(config) ==> config.wf()
        &&& forall|skill_id: Seq<char>| #[trigger]
            self.listings.dom().contains(skill_id) ==> self.listings[skill_id].skill_id@
                == skill_id && self.listings[skill_id].wf()
        &&& forall|buyer: Identity, skill_id: Seq<char>| #[trigger]
            self.receipts.dom().contains((buyer, skill_id)) ==> self.receipts[(
                buyer,
                skill_id,
            )].buyer == buyer && self.receipts[(buyer, skill_id)].skill_id@ == skill_id
                && self.receipts[(buyer, skill_id)].wf()
        &&& forall|who: Identity| self.balances.dom().contains(who)
    }

    /// The bump seed of the address of the configuration, where it has one.
    pub open spec fn config_bump(self) -> Option<u8> {
        match derived_address(config_seeds(), self.program_id@) {
            Some(found) => Some(found.1),
            None => None,
        }
    }

    /// The bump seed of the address of the listing of `skill_id`, where it
    /// has one.
    pub open spec fn listing_bump(self, skill_id: Seq<char>) -> Option<u8> {
        match derived_address(listing_seeds(skill_id), self.program_id@) {
            Some(found) => Some(found.1),
            None => None,
        }
    }

    /// Why the creation of the configuration is refused, if it is. In this
    /// order: the fee rate must be valid; the configuration must have an
    /// address; and there must be no configuration yet.
    pub open spec fn initialize_refusal(self, fee_basis_points: u16) -> Option<LedgerError> {
        if fee_basis_points > 10000 {
            Some(LedgerError::Rule(SkillstoreError::InvalidFee))
        } else if self.config_bump() is None {
            Some(LedgerError::NoAddress)
        } else if self.config is Some {
            Some(LedgerError::AlreadyExists)
        } else {
            None
        }
    }

    /// The ledger after the creation of the configuration.
    pub open spec fn initialize_effect(
        self,
        admin: Identity,
        treasury: Identity,
        fee_basis_points: u16,
    ) -> LedgerView {
        LedgerView {
            config: Some(
                Config {
                    admin,
                    treasury,
                    fee_basis_points,
                    total_sales: 0,
                    total_fees_collected: 0,
                    bump: self.config_bump().unwrap(),
                },
            ),
            ..self
        }
    }

    /// Why a change of the treasury is refused, if it is: there must be a
    /// configuration, and the signer must be its administrator.
    pub open spec fn update_treasury_refusal(self, signer: Identity) -> Option<LedgerError> {
        if self.config is None {
            Some(LedgerError::NotInitialized)
        } else if signer != self.config.unwrap().admin {
            Some(LedgerError::Rule(SkillstoreError::Unauthorized))
        } else {
            None
        }
    }

    /// The ledger after a change of the treasury.
    pub open spec fn update_treasury_effect(self, new_treasury: Identity) -> LedgerView {
        LedgerView {
            config: Some(Config { treasury: new_treasury, ..self.config.unwrap() }),
            ..self
        }
    }

    /// Why a change of the fee rate is refused, if it is: there must be a
    /// configuration, the signer must be its administrator, and the rate
    /// must be valid.
    pub open spec fn update_fee_refusal(self, signer: Identity, new_fee_basis_points: u16) -> Option<
        LedgerError,
    > {
        if self.config is None {
            Some(LedgerError::NotInitialized)
        } else {
            match instructions::fee_update_refusal(
                UpdateConfig { admin: signer, config: self.config.unwrap() },
                new_fee_basis_points,
            ) {
                Some(rule) => Some(LedgerError::Rule(rule)),
                None => None,
            }
        }
    }

    /// The ledger after a change of the fee rate.
    pub open spec fn update_fee_effect(self, new_fee_basis_points: u16) -> LedgerView {
        LedgerView {
            config: Some(
                Config { fee_basis_points: new_fee_basis_points, ..self.config.unwrap() },
            ),
            ..self
        }
    }

    /// Why a listing is refused, if it is. In this order: the identifier,
    /// the metadata pointer and the price must be valid; the listing must
    /// have an address; and the skill must have no listing yet.
    pub open spec fn list_skill_refusal(
        self,
        skill_id: Seq<char>,
        price_lamports: u64,
        metadata_uri: Seq<char>,
    ) -> Option<LedgerError> {
        match instructions::listing_refusal(skill_id, price_lamports, metadata_uri) {
            Some(rule) => Some(LedgerError::Rule(rule)),
            None => if self.listing_bump(skill_id) is None {
                Some(LedgerError::NoAddress)
            } else if self.listings.dom().contains(skill_id) {
                Some(LedgerError::AlreadyExists)
            } else {
                None
            },
        }
    }

    /// The ledger after the listing of a skill: the listing is stored,
    /// active and with no sale counted.
    pub open spec fn list_skill_effect(
        self,
        creator: Identity,
        skill_id: String,
        price_lamports: u64,
        metadata_uri: String,
        unix_timestamp: i64,
    ) -> LedgerView {
        LedgerView {
            listings: self.listings.insert(
                skill_id@,
                Listing {
                    creator,
                    skill_id,
                    price_lamports,
                    metadata_uri,
                    total_sales: 0,
                    is_active: true,
                    created_at: unix_timestamp,
                    bump: self.listing_bump(skill_id@).unwrap(),
                },
            ),
            ..self
        }
    }

    /// Why the deactivation of a listing is refused, if it is: the listing
    /// must exist, and the signer must be its creator.
    pub open spec fn deactivate_refusal(self, signer: Identity, skill_id: Seq<char>) -> Option<
        LedgerError,
    > {
        if !self.listings.dom().contains(skill_id) {
            Some(LedgerError::UnknownListing)
        } else if signer != self.listings[skill_id].creator {
            Some(LedgerError::Rule(SkillstoreError::Unauthorized))
        } else {
            None
        }
    }

    /// The ledger after the deactivation of a listing.
    pub open spec fn deactivate_effect(self, skill_id: Seq<char>) -> LedgerView {
        LedgerView {
            listings: self.listings.insert(
                skill_id,
                Listing { is_active: false, ..self.listings[skill_id] },
            ),
            ..self
        }
    }

    /// Why a deposit is refused, if it is: what the party then holds must
    /// not leave the range of a balance.
    pub open spec fn deposit_refusal(self, who: Identity, lamports: u64) -> Option<LedgerError> {
        if self.balances[who] + lamports > u64::MAX {
            Some(LedgerError::Rule(SkillstoreError::ArithmeticOverflow))
        } else {
            None
        }
    }

    /// The ledger after a deposit.
    pub open spec fn deposit_effect(self, who: Identity, lamports: u64) -> LedgerView {
        LedgerView {
            balances: self.balances.insert(who, (self.balances[who] + lamports) as u64),
            ..self
        }
    }

    /// The bump seed of the address of the receipt that `buyer` gets for
    /// `skill_id`, where the receipt has an address.
    pub open spec fn receipt_bump(self, buyer: Identity, skill_id: Seq<char>) -> Option<u8> {
        match derived_address(receipt_seeds(buyer, skill_id), self.program_id@) {
            Some(found) => Some(found.1),
            None => None,
        }
    }

    /// What a purchase of `skill_id` works on, where the configuration and
    /// the listing exist.
    pub open spec fn purchase_accounts(
        self,
        buyer: Identity,
        creator: Identity,
        treasury: Identity,
        skill_id: Seq<char>,
    ) -> PurchaseSkill {
        PurchaseSkill {
            buyer,
            creator,
            treasury,
            config: self.config.unwrap(),
            listing: self.listings[skill_id],
            receipt_bump: match self.receipt_bump(buyer, skill_id) {
                Some(bump) => bump,
                None => 0,
            },
        }
    }

    /// The balances after the payments of a purchase, the fee first, or why
    /// one of them cannot be made.
    pub open spec fn payments(self, accounts: PurchaseSkill) -> Result<
        Map<Identity, u64>,
        LedgerError,
    > {
        match instructions::fee_payment(accounts) {
            Some(fee_transfer) => match transfer_outcome(self.balances, fee_transfer) {
                Ok(paid) => transfer_outcome(paid, instructions::creator_payment(accounts)),
                Err(refusal) => Err(refusal),
            },
            None => transfer_outcome(self.balances, instructions::creator_payment(accounts)),
        }
    }

    /// Why a purchase is refused, if it is. In this order: the
    /// configuration and the listing must exist; the rules of the purchase
    /// must allow it; the receipt must have an address; the buyer must be
    /// able to pay; and the buyer must hold no receipt for the skill yet.
    pub open spec fn purchase_refusal(
        self,
        buyer: Identity,
        creator: Identity,
        treasury: Identity,
        skill_id: Seq<char>,
    ) -> Option<LedgerError> {
        let accounts = self.purchase_accounts(buyer, creator, treasury, skill_id);
        if self.config is None {
            Some(LedgerError::NotInitialized)
        } else if !self.listings.dom().contains(skill_id) {
            Some(LedgerError::UnknownListing)
        } else {
            match instructions::purchase_refusal(accounts) {
                Some(rule) => Some(LedgerError::Rule(rule)),
                None => if self.receipt_bump(buyer, skill_id) is None {
                    Some(LedgerError::NoAddress)
                } else {
                    match self.payments(accounts) {
                        Err(refusal) => Some(refusal),
                        Ok(_) => if self.receipts.dom().contains((buyer, skill_id)) {
                            Some(LedgerError::AlreadyExists)
                        } else {
                            None
                        },
                    }
                },
            }
        }
    }

    /// The ledger after a purchase that is not refused: the payments are
    /// made, the receipt is stored, and the listing and the configuration
    /// count one sale more.
    pub open spec fn purchase_effect(
        self,
        buyer: Identity,
        creator: Identity,
        treasury: Identity,
        skill_id: Seq<char>,
        unix_timestamp: i64,
    ) -> LedgerView {
        let accounts = self.purchase_accounts(buyer, creator, treasury, skill_id);
        let purchase = instructions::purchase_result(accounts, unix_timestamp);
        let records = instructions::purchase_records(accounts);
        LedgerView {
            config: Some(records.config),
            listings: self.listings.insert(skill_id, records.listing),
            receipts: self.receipts.insert((buyer, skill_id), purchase.receipt),
            balances: self.payments(accounts).unwrap(),
            ..self
        }
    }
}

/// What can be asked of a ledger.
#[allow(inconsistent_fields)]
pub enum Operation {
    Initialize { admin: Identity, treasury: Identity, fee_basis_points: u16 },
    UpdateTreasury { signer: Identity, new_treasury: Identity },
    UpdateFee { signer: Identity, new_fee_basis_points: u16 },
    ListSkill {
        creator: Identity,
        skill_id: String,
        price_lamports: u64,
        metadata_uri: String,
        unix_timestamp: i64,
    },
    DeactivateListing { signer: Identity, skill_id: Seq<char> },
    PurchaseSkill {
        buyer: Identity,
        creator: Identity,
        treasury: Identity,
        skill_id: Seq<char>,
        unix_timestamp: i64,
    },
    Deposit { who: Identity, lamports: u64 },
}

impl LedgerView {
    /// Why the operation is refused, if it is.
    pub open spec fn refusal(self, operation: Operation) -> Option<LedgerError> {
        match operation {
            Operation::Initialize { admin, treasury, fee_basis_points } => self.initialize_refusal(
                fee_basis_points,
            ),
            Operation::UpdateTreasury { signer, new_treasury } => self.update_treasury_refusal(
                signer,
            ),
            Operation::UpdateFee { signer, new_fee_basis_points } => self.update_fee_refusal(
                signer,
                new_fee_basis_points,
            ),
            Operation::ListSkill {
                creator,
                skill_id,
                price_lamports,
                metadata_uri,
                unix_timestamp,
            } => self.list_skill_refusal(skill_id@, price_lamports, metadata_uri@),
            Operation::DeactivateListing { signer, skill_id } => self.deactivate_refusal(
                signer,
                skill_id,
            ),
            Operation::PurchaseSkill {
                buyer,
                creator,
                treasury,
                skill_id,
                unix_timestamp,
            } => self.purchase_refusal(buyer, creator, treasury, skill_id),
            Operation::Deposit { who, lamports } => self.deposit_refusal(who, lamports),
        }
    }

    /// The ledger after the operation took effect.
    pub open spec fn effect(self, operation: Operation) -> LedgerView {
        match operation {
            Operation::Initialize { admin, treasury, fee_basis_points } => self.initialize_effect(
                admin,
                treasury,
                fee_basis_points,
            ),
            Operation::UpdateTreasury { signer, new_treasury } => self.update_treasury_effect(
                new_treasury,
            ),
            Operation::UpdateFee { signer, new_fee_basis_points } => self.update_fee_effect(
                new_fee_basis_points,
            ),
            Operation::ListSkill {
                creator,
                skill_id,
                price_lamports,
                metadata_uri,
                unix_timestamp,
            } => self.list_skill_effect(
                creator,
                skill_id,
                price_lamports,
                metadata_uri,
                unix_timestamp,
            ),
            Operation::DeactivateListing { signer, skill_id } => self.deactivate_effect(skill_id),
            Operation::PurchaseSkill {
                buyer,
                creator,
                treasury,
                skill_id,
                unix_timestamp,
            } => self.purchase_effect(buyer, creator, treasury, skill_id, unix_timestamp),
            Operation::Deposit { who, lamports } => self.deposit_effect(who, lamports),
        }
    }

    /// The ledger after the operation was asked for: as it was where the
    /// operation is refused, else as the operation leaves it.
    pub open spec fn step(self, operation: Operation) -> LedgerView {
        if self.refusal(operation) is Some {
            self
        } else {
            self.effect(operation)
        }
    }
}

} // verus!
