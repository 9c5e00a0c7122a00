//! The records that the marketplace keeps: its configuration, the listings
//! and the receipts.

use crate::identity::Identity;
use vstd::prelude::*;
use vstd::utf8::encode_utf8;

verus! {

/// The longest skill identifier that a listing can hold, in bytes.
pub const MAX_SKILL_ID_LEN: usize = 32;

/// The longest metadata pointer that a listing can hold, in bytes.
pub const MAX_METADATA_URI_LEN: usize = 200;

/// The length of a text in its records: the number of bytes of its UTF-8
/// encoding, which for ASCII text is the number of its characters.
pub open spec fn byte_len(text: Seq<char>) -> nat {
    encode_utf8(text).len()
}

/// Measures a text as its records do.
pub fn text_len(text: &String) -> (len: usize)
    ensures
        len == byte_len(text@),
{
    text.as_str().as_bytes().len()
}

/// The platform's configuration, of which there is one.
#[derive(Clone, Copy, Debug, PartialEq, Eq)]
pub struct Config {
    /// Who may change the treasury and the fee rate.
    pub admin: Identity,
    /// Who receives the fees.
    pub treasury: Identity,
    /// The fee rate in basis points, at most ten thousand.
    pub fee_basis_points: u16,
    /// How many purchases were completed, over all listings.
    pub total_sales: u64,
    /// The sum of all fees collected.
    pub total_fees_collected: u64,
    /// The bump seed of the record's address.
    pub bump: u8,
}

impl Config {
    /// The fee rate is a share of the price, never more than all of it.
    pub open spec fn wf(&self) -> bool {
        self.fee_basis_points <= 10000
    }
}

/// A skill offered for sale.
#[derive(Debug, PartialEq, Eq)]
pub struct Listing {
    /// Who owns the listing and receives the proceeds.
    pub creator: Identity,
    /// The key of the listing, which never changes.
    pub skill_id: String,
    /// The price in the smallest unit of the currency, above zero.
    pub price_lamports: u64,
    /// Where the description of the skill is found.
    pub metadata_uri: String,
    /// How many times the skill was bought.
    pub total_sales: u64,
    /// Whether the skill can still be bought.
    pub is_active: bool,
    /// When the listing was made, in seconds since the Unix epoch.
    pub created_at: i64,
    /// The bump seed of the record's address.
    pub bump: u8,
}

impl Listing {
    /// The price is positive and both texts fit their fields.
    pub open spec fn wf(&self) -> bool {
        &&& self.price_lamports > 0
        &&& byte_len(self.skill_id@) <= 32
        &&& byte_len(self.metadata_uri@) <= 200
    }
}

impl Clone for Listing {
    fn clone(&self) -> (copy: Listing)
        ensures
            copy == *self,
    {
        Listing {
            creator: self.creator,
            skill_id: self.skill_id.clone(),
            price_lamports: self.price_lamports,
            metadata_uri: self.metadata_uri.clone(),
            total_sales: self.total_sales,
            is_active: self.is_active,
            created_at: self.created_at,
            bump: self.bump,
        }
    }
}

/// The proof of one purchase, written once and never changed.
#[derive(Debug, PartialEq, Eq)]
pub struct Receipt {
    /// Who bought the skill.
    pub buyer: Identity,
    /// The skill that was bought.
    pub skill_id: String,
    /// Who sold it.
    pub creator: Identity,
    /// The price that the buyer paid, fee included.
    pub price_paid: u64,
    /// The part of the price that went to the treasury.
    pub fee_paid: u64,
    /// When the purchase was made, in seconds since the Unix epoch.
    pub purchased_at: i64,
    /// The bump seed of the record's address.
    pub bump: u8,
}

impl Receipt {
    /// The fee is a part of the price that was paid, and the identifier
    /// fits its field.
    pub open spec fn wf(&self) -> bool {
        &&& self.fee_paid <= self.price_paid
        &&& byte_len(self.skill_id@) <= 32
    }
}

impl Clone for Receipt {
    fn clone(&self) -> (copy: Receipt)
        ensures
            copy == *self,
    {
        Receipt {
            buyer: self.buyer,
            skill_id: self.skill_id.clone(),
            creator: self.creator,
            price_paid: self.price_paid,
            fee_paid: self.fee_paid,
            purchased_at: self.purchased_at,
            bump: self.bump,
        }
    }
}

} // verus!
