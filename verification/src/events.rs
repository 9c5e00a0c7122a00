//! The notifications that tell the outside world of each operation that
//! took effect.

use crate::identity::Identity;
use vstd::prelude::*;

verus! {

/// The configuration was created.
#[derive(Clone, Copy, Debug, PartialEq, Eq)]
pub struct ConfigInitialized {
    pub admin: Identity,
    pub treasury: Identity,
    pub fee_basis_points: u16,
}

/// The fees go to another treasury from now on.
#[derive(Clone, Copy, Debug, PartialEq, Eq)]
pub struct TreasuryUpdated {
    pub old_treasury: Identity,
    pub new_treasury: Identity,
}

/// The fee rate was changed.
#[derive(Clone, Copy, Debug, PartialEq, Eq)]
pub struct FeeUpdated {
    pub old_fee: u16,
    pub new_fee: u16,
}

/// A skill was put up for sale.
#[derive(Debug, PartialEq, Eq)]
pub struct SkillListed {
    pub creator: Identity,
    pub skill_id: String,
    pub price_lamports: u64,
}

/// A skill was bought and paid for.
#[derive(Debug, PartialEq, Eq)]
pub struct SkillPurchased {
    pub buyer: Identity,
    pub creator: Identity,
    pub skill_id: String,
    pub price: u64,
    pub fee: u64,
}

/// A skill was taken off sale.
#[derive(Debug, PartialEq, Eq)]
pub struct ListingDeactivated {
    pub skill_id: String,
    pub creator: Identity,
}

} // verus!
