//! The failures that an operation of the marketplace can end in.

use vstd::prelude::*;

verus! {

/// Why an operation was refused. A refused operation has no effect.
#[derive(Clone, Copy, Debug, PartialEq, Eq, Structural)]
pub enum SkillstoreError {
    /// The fee rate is above ten thousand basis points.
    InvalidFee,
    /// The skill identifier is longer than its record allows.
    SkillIdTooLong,
    /// The metadata pointer is longer than its record allows.
    MetadataUriTooLong,
    /// The price is zero.
    InvalidPrice,
    /// The listing has been deactivated.
    ListingNotActive,
    /// The signer is not the party that the record authorizes.
    Unauthorized,
    /// The treasury handed in is not the one in the configuration.
    InvalidTreasury,
    /// The creator handed in is not the one in the listing.
    InvalidCreator,
    /// A fee, an amount or a counter left the range of its type.
    ArithmeticOverflow,
}

impl SkillstoreError {
    /// The sentence shown to a user for this failure.
    pub fn message(&self) -> (text: &'static str)
        ensures
            text@ == match *self {
                SkillstoreError::InvalidFee => "Fee basis points must be <= 10000"@,
                SkillstoreError::SkillIdTooLong => "Skill ID must be <= 32 characters"@,
                SkillstoreError::MetadataUriTooLong => "Metadata URI must be <= 200 characters"@,
                SkillstoreError::InvalidPrice => "Price must be greater than 0"@,
                SkillstoreError::ListingNotActive => "Listing is not active"@,
                SkillstoreError::Unauthorized => "Unauthorized"@,
                SkillstoreError::InvalidTreasury => "Invalid treasury account"@,
                SkillstoreError::InvalidCreator => "Invalid creator account"@,
                SkillstoreError::ArithmeticOverflow => "Arithmetic overflow"@,
            },
    {
        match self {
            SkillstoreError::InvalidFee => "Fee basis points must be <= 10000",
            SkillstoreError::SkillIdTooLong => "Skill ID must be <= 32 characters",
            SkillstoreError::MetadataUriTooLong => "Metadata URI must be <= 200 characters",
            SkillstoreError::InvalidPrice => "Price must be greater than 0",
            SkillstoreError::ListingNotActive => "Listing is not active",
            SkillstoreError::Unauthorized => "Unauthorized",
            SkillstoreError::InvalidTreasury => "Invalid treasury account",
            SkillstoreError::InvalidCreator => "Invalid creator account",
            SkillstoreError::ArithmeticOverflow => "Arithmetic overflow",
        }
    }
}

/// Why the ledger refused an operation. A refused operation leaves the
/// ledger as it was.
#[derive(Clone, Copy, Debug, PartialEq, Eq, Structural)]
pub enum LedgerError {
    /// A rule of the marketplace stands against it.
    Rule(SkillstoreError),
    /// A record is already stored where the new one would go.
    AlreadyExists,
    /// The configuration has not been created.
    NotInitialized,
    /// No listing is stored for the skill.
    UnknownListing,
    /// The seeds of the record lead to no address.
    NoAddress,
    /// The payer's balance is less than the amount to be paid.
    InsufficientFunds,
}

} // verus!
