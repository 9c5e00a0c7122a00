//! The operations of the marketplace, each on the records and signers that
//! it is handed. An operation either takes effect as a whole and reports it
//! in an event, or is refused and changes nothing.

use crate::error::SkillstoreError;
use crate::events::{
    ConfigInitialized, FeeUpdated, ListingDeactivated, SkillListed, SkillPurchased,
    TreasuryUpdated,
};
use crate::fee::{fee_of, split_payment, PaymentSplit, MAX_FEE_BASIS_POINTS};
use crate::identity::Identity;
use crate::state::{
    byte_len, text_len, Config, Listing, Receipt, MAX_METADATA_URI_LEN, MAX_SKILL_ID_LEN,
};
use vstd::prelude::*;

verus! {

/// What the creation of the configuration works on.
#[derive(Clone, Copy, Debug, PartialEq, Eq)]
pub struct Initialize {
    /// The signer, who becomes the administrator.
    pub admin: Identity,
    /// The party that will receive the fees.
    pub treasury: Identity,
    /// The bump seed of the address that the configuration will have.
    pub config_bump: u8,
}

/// Creates the configuration, with the signer as administrator and no sale
/// counted yet. A fee rate above ten thousand basis points is refused.
pub fn initialize(
    ctx: &Initialize,
    fee_basis_points: u16,
) -> (outcome: Result<(Config, ConfigInitialized), SkillstoreError>)
    ensures
        fee_basis_points > 10000 ==> outcome == Err::<(Config, ConfigInitialized), SkillstoreError>(
            SkillstoreError::InvalidFee,
        ),
        fee_basis_points <= 10000 ==> outcome == Ok::<(Config, ConfigInitialized), SkillstoreError>(
            (
                Config {
                    admin: ctx.admin,
                    treasury: ctx.treasury,
                    fee_basis_points,
                    total_sales: 0,
                    total_fees_collected: 0,
                    bump: ctx.config_bump,
                },
                ConfigInitialized { admin: ctx.admin, treasury: ctx.treasury, fee_basis_points },
            ),
        ),
        outcome matches Ok(made) ==> made.0.wf(),
{
    if fee_basis_points > MAX_FEE_BASIS_POINTS {
        return Err(SkillstoreError::InvalidFee);
    }
    let config = Config {
        admin: ctx.admin,
        treasury: ctx.treasury,
        fee_basis_points,
        total_sales: 0,
        total_fees_collected: 0,
        bump: ctx.config_bump,
    };
    let event = ConfigInitialized { admin: config.admin, treasury: config.treasury, fee_basis_points };
    Ok((config, event))
}

/// What a change of the configuration works on.
#[derive(Clone, Copy, Debug, PartialEq, Eq)]
pub struct UpdateConfig {
    /// The signer, who must be the administrator.
    pub admin: Identity,
    /// The platform's configuration.
    pub config: Config,
}

/// Makes `new_treasury` the receiver of the fees. Only the administrator
/// may do so. The event names the treasury as it was before the change.
pub fn update_treasury(
    ctx: &mut UpdateConfig,
    new_treasury: Identity,
) -> (outcome: Result<TreasuryUpdated, SkillstoreError>)
    ensures
        old(ctx).admin != old(ctx).config.admin ==> ({
            &&& outcome == Err::<TreasuryUpdated, SkillstoreError>(SkillstoreError::Unauthorized)
            &&& *final(ctx) == *old(ctx)
        }),
        old(ctx).admin == old(ctx).config.admin ==> ({
            &&& outcome == Ok::<TreasuryUpdated, SkillstoreError>(
                TreasuryUpdated { old_treasury: old(ctx).config.treasury, new_treasury },
            )
            &&& *final(ctx) == (UpdateConfig {
                config: Config { treasury: new_treasury, ..old(ctx).config },
                ..*old(ctx)
            })
        }),
{
    if ctx.admin != ctx.config.admin {
        return Err(SkillstoreError::Unauthorized);
    }
    let old_treasury = ctx.config.treasury;
    ctx.config.treasury = new_treasury;
    Ok(TreasuryUpdated { old_treasury, new_treasury })
}

/// Why a change of the fee rate is refused, if it is: the signer is looked
/// at first, then the rate.
pub open spec fn fee_update_refusal(ctx: UpdateConfig, new_fee_basis_points: u16) -> Option<
    SkillstoreError,
> {
    if ctx.admin != ctx.config.admin {
        Some(SkillstoreError::Unauthorized)
    } else if new_fee_basis_points > 10000 {
        Some(SkillstoreError::InvalidFee)
    } else {
        None
    }
}

/// Sets the fee rate. Only the administrator may do so, and the rate may not
/// exceed ten thousand basis points.
pub fn update_fee(
    ctx: &mut UpdateConfig,
    new_fee_basis_points: u16,
) -> (outcome: Result<FeeUpdated, SkillstoreError>)
    ensures
        outcome == match fee_update_refusal(*old(ctx), new_fee_basis_points) {
            Some(refusal) => Err::<FeeUpdated, SkillstoreError>(refusal),
            None => Ok::<FeeUpdated, SkillstoreError>(
                FeeUpdated {
                    old_fee: old(ctx).config.fee_basis_points,
                    new_fee: new_fee_basis_points,
                },
            ),
        },
        *final(ctx) == match fee_update_refusal(*old(ctx), new_fee_basis_points) {
            Some(_) => *old(ctx),
            None => (UpdateConfig {
                config: Config { fee_basis_points: new_fee_basis_points, ..old(ctx).config },
                ..*old(ctx)
            }),
        },
        outcome is Ok ==> final(ctx).config.wf(),
        old(ctx).config.wf() ==> final(ctx).config.wf(),
{
    if ctx.admin != ctx.config.admin {
        return Err(SkillstoreError::Unauthorized);
    }
    if new_fee_basis_points > MAX_FEE_BASIS_POINTS {
        return Err(SkillstoreError::InvalidFee);
    }
    let old_fee: u16 = ctx.config.fee_basis_points;
    ctx.config.fee_basis_points = new_fee_basis_points;
    Ok(FeeUpdated { old_fee, new_fee: new_fee_basis_points })
}

/// What the making of a listing works on.
#[derive(Clone, Copy, Debug, PartialEq, Eq)]
pub struct ListSkill {
    /// The signer, who will own the listing.
    pub creator: Identity,
    /// The bump seed of the address that the listing will have.
    pub listing_bump: u8,
}

/// Why a listing is refused, if it is: the identifier is looked at first,
/// then the metadata pointer, then the price.
pub open spec fn listing_refusal(
    skill_id: Seq<char>,
    price_lamports: u64,
    metadata_uri: Seq<char>,
) -> Option<SkillstoreError> {
    if byte_len(skill_id) > 32 {
        Some(SkillstoreError::SkillIdTooLong)
    } else if byte_len(metadata_uri) > 200 {
        Some(SkillstoreError::MetadataUriTooLong)
    } else if price_lamports == 0 {
        Some(SkillstoreError::InvalidPrice)
    } else {
        None
    }
}

/// Puts a skill up for sale at a price above zero, owned by the signer,
/// active and with no sale counted, stamped with the time `unix_timestamp`.
pub fn list_skill(
    ctx: &ListSkill,
    skill_id: String,
    price_lamports: u64,
    metadata_uri: String,
    unix_timestamp: i64,
) -> (outcome: Result<(Listing, SkillListed), SkillstoreError>)
    ensures
        outcome == match listing_refusal(skill_id@, price_lamports, metadata_uri@) {
            Some(refusal) => Err::<(Listing, SkillListed), SkillstoreError>(refusal),
            None => Ok::<(Listing, SkillListed), SkillstoreError>(
                (
                    Listing {
                        creator: ctx.creator,
                        skill_id,
                        price_lamports,
                        metadata_uri,
                        total_sales: 0,
                        is_active: true,
                        created_at: unix_timestamp,
                        bump: ctx.listing_bump,
                    },
                    SkillListed { creator: ctx.creator, skill_id, price_lamports },
                ),
            ),
        },
        outcome matches Ok(made) ==> made.0.wf(),
{
    if text_len(&skill_id) > MAX_SKILL_ID_LEN {
        return Err(SkillstoreError::SkillIdTooLong);
    }
    if text_len(&metadata_uri) > MAX_METADATA_URI_LEN {
        return Err(SkillstoreError::MetadataUriTooLong);
    }
    if price_lamports == 0 {
        return Err(SkillstoreError::InvalidPrice);
    }
    let event = SkillListed { creator: ctx.creator, skill_id: skill_id.clone(), price_lamports };
    let listing = Listing {
        creator: ctx.creator,
        skill_id,
        price_lamports,
        metadata_uri,
        total_sales: 0,
        is_active: true,
        created_at: unix_timestamp,
        bump: ctx.listing_bump,
    };
    Ok((listing, event))
}

/// What a purchase works on.
#[derive(Debug, PartialEq, Eq)]
pub struct PurchaseSkill {
    /// The signer, who pays.
    pub buyer: Identity,
    /// The party handed in as the one to be paid.
    pub creator: Identity,
    /// The party handed in as the one to receive the fee.
    pub treasury: Identity,
    /// The platform's configuration.
    pub config: Config,
    /// The listing that is bought.
    pub listing: Listing,
    /// The bump seed of the address that the receipt will have.
    pub receipt_bump: u8,
}

/// An amount that is to move from one party's balance to another's.
#[derive(Clone, Copy, Debug, PartialEq, Eq)]
pub struct Transfer {
    pub from: Identity,
    pub to: Identity,
    pub lamports: u64,
}

/// What a purchase that took effect hands back: the payments that it calls
/// for, the receipt to be stored and the event to be sent.
#[derive(Debug, PartialEq, Eq)]
pub struct Purchase {
    /// The payment to the treasury; none where the fee is zero.
    pub fee_transfer: Option<Transfer>,
    /// The payment to the creator.
    pub creator_transfer: Transfer,
    /// The proof of purchase.
    pub receipt: Receipt,
    /// The notification of the purchase.
    pub event: SkillPurchased,
}

/// Why a purchase is refused, if it is. The listing's state is looked at
/// first, then the treasury, then the creator, then the arithmetic: the fee
/// must not exceed the price, and no counter may leave its range.
pub open spec fn purchase_refusal(ctx: PurchaseSkill) -> Option<SkillstoreError> {
    let fee = fee_of(ctx.listing.price_lamports as int, ctx.config.fee_basis_points as int);
    if !ctx.listing.is_active {
        Some(SkillstoreError::ListingNotActive)
    } else if ctx.treasury != ctx.config.treasury {
        Some(SkillstoreError::InvalidTreasury)
    } else if ctx.creator != ctx.listing.creator {
        Some(SkillstoreError::InvalidCreator)
    } else if fee > ctx.listing.price_lamports || ctx.listing.total_sales == u64::MAX
        || ctx.config.total_sales == u64::MAX || ctx.config.total_fees_collected + fee
        > u64::MAX {
        Some(SkillstoreError::ArithmeticOverflow)
    } else {
        None
    }
}

/// The payment to the treasury that a purchase calls for: the fee, from
/// the buyer; none where the fee is zero.
pub open spec fn fee_payment(ctx: PurchaseSkill) -> Option<Transfer> {
    let fee = fee_of(ctx.listing.price_lamports as int, ctx.config.fee_basis_points as int);
    if fee > 0 {
        Some(Transfer { from: ctx.buyer, to: ctx.treasury, lamports: fee as u64 })
    } else {
        None
    }
}

/// The payment to the creator that a purchase calls for: the price less
/// the fee, from the buyer.
pub open spec fn creator_payment(ctx: PurchaseSkill) -> Transfer {
    let price = ctx.listing.price_lamports;
    let fee = fee_of(price as int, ctx.config.fee_basis_points as int);
    Transfer { from: ctx.buyer, to: ctx.creator, lamports: (price - fee) as u64 }
}

/// The payments, receipt and event of a purchase that is not refused, made
/// at the time `unix_timestamp`.
pub open spec fn purchase_result(ctx: PurchaseSkill, unix_timestamp: i64) -> Purchase {
    let price = ctx.listing.price_lamports;
    let fee = fee_of(price as int, ctx.config.fee_basis_points as int) as u64;
    Purchase {
        fee_transfer: fee_payment(ctx),
        creator_transfer: creator_payment(ctx),
        receipt: Receipt {
            buyer: ctx.buyer,
            skill_id: ctx.listing.skill_id,
            creator: ctx.listing.creator,
            price_paid: price,
            fee_paid: fee,
            purchased_at: unix_timestamp,
            bump: ctx.receipt_bump,
        },
        event: SkillPurchased {
            buyer: ctx.buyer,
            creator: ctx.listing.creator,
            skill_id: ctx.listing.skill_id,
            price,
            fee,
        },
    }
}

/// The records as a purchase that is not refused leaves them: one sale more
/// on the listing and in the configuration, and the fee added to the fees
/// collected.
pub open spec fn purchase_records(ctx: PurchaseSkill) -> PurchaseSkill {
    let fee = fee_of(ctx.listing.price_lamports as int, ctx.config.fee_basis_points as int);
    PurchaseSkill {
        config: Config {
            total_sales: (ctx.config.total_sales + 1) as u64,
            total_fees_collected: (ctx.config.total_fees_collected + fee) as u64,
            ..ctx.config
        },
        listing: Listing { total_sales: (ctx.listing.total_sales + 1) as u64, ..ctx.listing },
        ..ctx
    }
}

/// Buys the listing for the buyer. The price is split between the treasury
/// and the creator, the receipt is written, and the counters of the listing
/// and of the configuration go up. Where the purchase is refused, the
/// records stay as they were and no payment is called for.
pub fn purchase_skill(
    ctx: &mut PurchaseSkill,
    unix_timestamp: i64,
) -> (outcome: Result<Purchase, SkillstoreError>)
    ensures
        outcome == match purchase_refusal(*old(ctx)) {
            Some(refusal) => Err::<Purchase, SkillstoreError>(refusal),
            None => Ok::<Purchase, SkillstoreError>(purchase_result(*old(ctx), unix_timestamp)),
        },
        *final(ctx) == match purchase_refusal(*old(ctx)) {
            Some(_) => *old(ctx),
            None => purchase_records(*old(ctx)),
        },
{
    if !ctx.listing.is_active {
        return Err(SkillstoreError::ListingNotActive);
    }
    if ctx.treasury != ctx.config.treasury {
        return Err(SkillstoreError::InvalidTreasury);
    }
    if ctx.creator != ctx.listing.creator {
        return Err(SkillstoreError::InvalidCreator);
    }
    let price: u64 = ctx.listing.price_lamports;
    let split: PaymentSplit = match split_payment(price, ctx.config.fee_basis_points) {
        Ok(split) => split,
        Err(refusal) => {
            return Err(refusal);
        },
    };
    let fee: u64 = split.fee;
    let listing_sales: u64 = match ctx.listing.total_sales.checked_add(1) {
        Some(sales) => sales,
        None => {
            return Err(SkillstoreError::ArithmeticOverflow);
        },
    };
    let config_sales: u64 = match ctx.config.total_sales.checked_add(1) {
        Some(sales) => sales,
        None => {
            return Err(SkillstoreError::ArithmeticOverflow);
        },
    };
    let fees_collected: u64 = match ctx.config.total_fees_collected.checked_add(fee) {
        Some(fees) => fees,
        None => {
            return Err(SkillstoreError::ArithmeticOverflow);
        },
    };
    let fee_transfer: Option<Transfer> = if fee > 0 {
        Some(Transfer { from: ctx.buyer, to: ctx.treasury, lamports: fee })
    } else {
        None
    };
    let creator_transfer = Transfer {
        from: ctx.buyer,
        to: ctx.creator,
        lamports: split.creator_amount,
    };
    let receipt = Receipt {
        buyer: ctx.buyer,
        skill_id: ctx.listing.skill_id.clone(),
        creator: ctx.listing.creator,
        price_paid: price,
        fee_paid: fee,
        purchased_at: unix_timestamp,
        bump: ctx.receipt_bump,
    };
    let event = SkillPurchased {
        buyer: ctx.buyer,
        creator: ctx.listing.creator,
        skill_id: ctx.listing.skill_id.clone(),
        price,
        fee,
    };
    ctx.listing.total_sales = listing_sales;
    ctx.config.total_sales = config_sales;
    ctx.config.total_fees_collected = fees_collected;
    Ok(Purchase { fee_transfer, creator_transfer, receipt, event })
}

/// What the deactivation of a listing works on.
#[derive(Debug, PartialEq, Eq)]
pub struct DeactivateListing {
    /// The signer, who must own the listing.
    pub creator: Identity,
    /// The listing to take off sale.
    pub listing: Listing,
}

/// Takes the listing off sale. Only its creator may do so. Nothing puts a
/// listing back on sale: to deactivate one that is inactive leaves it so.
pub fn deactivate_listing(
    ctx: &mut DeactivateListing,
) -> (outcome: Result<ListingDeactivated, SkillstoreError>)
    ensures
        old(ctx).creator != old(ctx).listing.creator ==> ({
            &&& outcome == Err::<ListingDeactivated, SkillstoreError>(SkillstoreError::Unauthorized)
            &&& *final(ctx) == *old(ctx)
        }),
        old(ctx).creator == old(ctx).listing.creator ==> ({
            &&& outcome == Ok::<ListingDeactivated, SkillstoreError>(
                ListingDeactivated {
                    skill_id: old(ctx).listing.skill_id,
                    creator: old(ctx).listing.creator,
                },
            )
            &&& *final(ctx) == (DeactivateListing {
                listing: Listing { is_active: false, ..old(ctx).listing },
                ..*old(ctx)
            })
        }),
        old(ctx).listing.wf() ==> final(ctx).listing.wf(),
{
    if ctx.creator != ctx.listing.creator {
        return Err(SkillstoreError::Unauthorized);
    }
    ctx.listing.is_active = false;
    Ok(ListingDeactivated { skill_id: ctx.listing.skill_id.clone(), creator: ctx.listing.creator })
}

} // verus!
