//! The room that each record takes where it is stored. A record is written
//! as eight bytes that tell its kind, followed by its fields in order: an
//! identity as its 32 bytes, a number in as many bytes as its type has, a
//! flag in one byte, and a text as four bytes of length followed by the
//! bytes of the text.

use crate::state::{byte_len, Config, Listing, Receipt};
use vstd::prelude::*;

verus! {

/// The bytes that tell the kind of a record.
pub const DISCRIMINATOR_LEN: usize = 8;

/// The room set aside for the configuration.
pub const CONFIG_SPACE: usize = 91;

/// The room set aside for a listing.
pub const LISTING_SPACE: usize = 306;

/// The room set aside for a receipt.
pub const RECEIPT_SPACE: usize = 133;

/// The bytes that a text takes in a record.
pub open spec fn text_room(text: Seq<char>) -> nat {
    4 + byte_len(text)
}

/// The bytes that the configuration takes.
pub open spec fn config_room(config: Config) -> nat {
    8 + 32 + 32 + 2 + 8 + 8 + 1
}

/// The bytes that a listing takes.
pub open spec fn listing_room(listing: Listing) -> nat {
    8 + 32 + text_room(listing.skill_id@) + 8 + text_room(listing.metadata_uri@) + 8 + 1 + 8 + 1
}

/// The bytes that a receipt takes.
pub open spec fn receipt_room(receipt: Receipt) -> nat {
    8 + 32 + text_room(receipt.skill_id@) + 32 + 8 + 8 + 8 + 1
}

/// The limits on the texts are what makes every valid record fit the room
/// set aside for it; the configuration fills its room exactly.
pub proof fn lemma_records_fit(config: Config, listing: Listing, receipt: Receipt)
    ensures
        config_room(config) == CONFIG_SPACE,
        listing.wf() ==> listing_room(listing) <= LISTING_SPACE,
        receipt.wf() ==> receipt_room(receipt) <= RECEIPT_SPACE,
{
}

} // verus!
