//! What holds of the ledger whatever is asked of it, stated over what the
//! ledger holds before and after its operations.

use crate::error::{LedgerError, SkillstoreError};
use crate::fee::{fee_of, lemma_fee_within_price};
use crate::identity::Identity;
use crate::instructions;
use crate::model::{LedgerView, Operation};
use vstd::prelude::*;

verus! {

/// Nobody but the administrator changes the treasury or the fee rate: from
/// any other signer both changes are refused as unauthorized, whatever the
/// new rate.
pub proof fn law_only_the_admin_updates(
    ledger: LedgerView,
    signer: Identity,
    new_fee_basis_points: u16,
)
    requires
        ledger.config is Some,
        signer != ledger.config.unwrap().admin,
    ensures
        ledger.update_treasury_refusal(signer) == Some(
            LedgerError::Rule(SkillstoreError::Unauthorized),
        ),
        ledger.update_fee_refusal(signer, new_fee_basis_points) == Some(
            LedgerError::Rule(SkillstoreError::Unauthorized),
        ),
{
}

/// The purchase of a listing that is not active is refused for that reason,
/// whoever buys and whoever is named as creator and treasury, and leaves
/// every record and every balance as it was.
pub proof fn law_inactive_listing_is_not_sold(
    ledger: LedgerView,
    buyer: Identity,
    creator: Identity,
    treasury: Identity,
    skill_id: Seq<char>,
    unix_timestamp: i64,
)
    requires
        ledger.config is Some,
        ledger.listings.dom().contains(skill_id),
        !ledger.listings[skill_id].is_active,
    ensures
        ledger.purchase_refusal(buyer, creator, treasury, skill_id) == Some(
            LedgerError::Rule(SkillstoreError::ListingNotActive),
        ),
        ledger.step(
            Operation::PurchaseSkill { buyer, creator, treasury, skill_id, unix_timestamp },
        ) == ledger,
{
}

/// A purchase that takes effect is counted once: the buyer's receipt is the
/// one record that is new, it states the price and the fee that were paid,
/// the listing and the configuration count one sale more, the fees
/// collected grow by the fee, and the price has left the buyer in two parts
/// that add up to it.
pub proof fn law_purchase_is_counted_once(
    ledger: LedgerView,
    buyer: Identity,
    creator: Identity,
    treasury: Identity,
    skill_id: Seq<char>,
    unix_timestamp: i64,
)
    requires
        ledger.wf(),
        ledger.purchase_refusal(buyer, creator, treasury, skill_id) is None,
    ensures
        ({
            let after = ledger.purchase_effect(buyer, creator, treasury, skill_id, unix_timestamp);
            let listing = ledger.listings[skill_id];
            let config = ledger.config.unwrap();
            let fee = fee_of(listing.price_lamports as int, config.fee_basis_points as int);
            let receipt = after.receipts[(buyer, skill_id)];
            &&& after.wf()
            &&& !ledger.receipts.dom().contains((buyer, skill_id))
            &&& after.receipts.dom() == ledger.receipts.dom().insert((buyer, skill_id))
            &&& after.listings.dom() == ledger.listings.dom()
            &&& receipt.price_paid == listing.price_lamports
            &&& receipt.fee_paid == fee
            &&& receipt.creator == listing.creator
            &&& 0 <= fee <= listing.price_lamports
            &&& after.listings[skill_id].total_sales == listing.total_sales + 1
            &&& after.config.unwrap().total_sales == config.total_sales + 1
            &&& after.config.unwrap().total_fees_collected == config.total_fees_collected + fee
        }),
{
    let after = ledger.purchase_effect(buyer, creator, treasury, skill_id, unix_timestamp);
    let listing = ledger.listings[skill_id];
    let config = ledger.config.unwrap();
    assert(ledger.listings.dom().contains(skill_id));
    lemma_fee_within_price(listing.price_lamports, config.fee_basis_points);
    assert(after.receipts.dom() =~= ledger.receipts.dom().insert((buyer, skill_id)));
    assert(after.listings.dom() =~= ledger.listings.dom());
    assert forall|id: Seq<char>| #[trigger] after.listings.dom().contains(id) implies after.listings[id].skill_id@
        == id && after.listings[id].wf() by {
        if id != skill_id {
            assert(ledger.listings.dom().contains(id));
        }
    }
    assert forall|who: Identity, id: Seq<char>| #[trigger]
        after.receipts.dom().contains((who, id)) implies after.receipts[(who, id)].buyer == who
        && after.receipts[(who, id)].skill_id@ == id && after.receipts[(who, id)].wf() by {
        if (who, id) != (buyer, skill_id) {
            assert(ledger.receipts.dom().contains((who, id)));
        }
    }
}

/// Whatever is asked of a valid ledger, it stays valid: the fee rate is at
/// most the whole, every price is above zero, every text fits its field,
/// and every record is stored under its own identity.
pub proof fn law_every_step_keeps_the_ledger_valid(ledger: LedgerView, operation: Operation)
    requires
        ledger.wf(),
    ensures
        ledger.step(operation).wf(),
{
    let after = ledger.step(operation);
    if ledger.refusal(operation) is None {
        match operation {
            Operation::PurchaseSkill { buyer, creator, treasury, skill_id, unix_timestamp } => {
                law_purchase_is_counted_once(
                    ledger,
                    buyer,
                    creator,
                    treasury,
                    skill_id,
                    unix_timestamp,
                );
            },
            Operation::ListSkill {
                creator,
                skill_id,
                price_lamports,
                metadata_uri,
                unix_timestamp,
            } => {
                assert forall|id: Seq<char>| #[trigger]
                    after.listings.dom().contains(id) implies after.listings[id].skill_id@ == id
                    && after.listings[id].wf() by {
                    if id != skill_id@ {
                        assert(ledger.listings.dom().contains(id));
                    }
                }
            },
            Operation::DeactivateListing { signer, skill_id } => {
                assert(ledger.listings.dom().contains(skill_id));
                assert forall|id: Seq<char>| #[trigger]
                    after.listings.dom().contains(id) implies after.listings[id].skill_id@ == id
                    && after.listings[id].wf() by {
                    assert(ledger.listings.dom().contains(id));
                }
            },
            _ => {},
        }
    }
}

/// A receipt is written once. Whatever is asked of the ledger afterwards,
/// the receipt stays, and stays as it was written.
pub proof fn law_receipts_are_never_changed(
    ledger: LedgerView,
    operation: Operation,
    buyer: Identity,
    skill_id: Seq<char>,
)
    requires
        ledger.receipts.dom().contains((buyer, skill_id)),
    ensures
        ledger.step(operation).receipts.dom().contains((buyer, skill_id)),
        ledger.step(operation).receipts[(buyer, skill_id)] == ledger.receipts[(buyer, skill_id)],
{
}

/// A listing keeps its terms. Whatever is asked of the ledger, a listing
/// that is stored stays stored, with its creator, identifier, price,
/// metadata pointer and time of creation; its sales never fall; and once it
/// is inactive it is never active again.
pub proof fn law_listings_keep_their_terms(
    ledger: LedgerView,
    operation: Operation,
    skill_id: Seq<char>,
)
    requires
        ledger.listings.dom().contains(skill_id),
    ensures
        ({
            let before = ledger.listings[skill_id];
            let after = ledger.step(operation).listings[skill_id];
            &&& ledger.step(operation).listings.dom().contains(skill_id)
            &&& after.creator == before.creator
            &&& after.skill_id == before.skill_id
            &&& after.price_lamports == before.price_lamports
            &&& after.metadata_uri == before.metadata_uri
            &&& after.created_at == before.created_at
            &&& after.bump == before.bump
            &&& after.total_sales >= before.total_sales
            &&& after.is_active ==> before.is_active
        }),
{
}

/// The configuration is created once. Whatever is asked of the ledger
/// afterwards, it keeps its administrator, and its counters never fall.
pub proof fn law_config_is_kept(ledger: LedgerView, operation: Operation)
    requires
        ledger.config is Some,
    ensures
        ({
            let before = ledger.config.unwrap();
            let after = ledger.step(operation).config.unwrap();
            &&& ledger.step(operation).config is Some
            &&& after.admin == before.admin
            &&& after.bump == before.bump
            &&& after.total_sales >= before.total_sales
            &&& after.total_fees_collected >= before.total_fees_collected
        }),
{
    if ledger.refusal(operation) is None {
        match operation {
            Operation::PurchaseSkill { buyer, creator, treasury, skill_id, unix_timestamp } => {
                let listing = ledger.listings[skill_id];
                let fee = fee_of(
                    listing.price_lamports as int,
                    ledger.config.unwrap().fee_basis_points as int,
                );
                assert(0 <= fee) by (nonlinear_arith)
                    requires
                        fee == listing.price_lamports as int * (
                        ledger.config.unwrap().fee_basis_points as int) / 10000,
                        0 <= listing.price_lamports as int,
                        0 <= ledger.config.unwrap().fee_basis_points as int,
                ;
            },
            _ => {},
        }
    }
}

/// The treasury and the fee rate change on the administrator's word alone:
/// where an operation leaves either of them changed, the operation is that
/// change and its signer is the administrator.
pub proof fn law_changes_are_the_admins(ledger: LedgerView, operation: Operation)
    requires
        ledger.config is Some,
    ensures
        ledger.step(operation).config.unwrap().treasury != ledger.config.unwrap().treasury ==> (
        operation matches Operation::UpdateTreasury { signer, .. } && signer
            == ledger.config.unwrap().admin),
        ledger.step(operation).config.unwrap().fee_basis_points
            != ledger.config.unwrap().fee_basis_points ==> (
        operation matches Operation::UpdateFee { signer, .. } && signer
            == ledger.config.unwrap().admin),
{
}

/// A listing goes off sale on its creator's word alone: where an operation
/// leaves an active listing inactive, the operation is its deactivation and
/// the signer is its creator.
pub proof fn law_deactivation_is_the_creators(
    ledger: LedgerView,
    operation: Operation,
    skill_id: Seq<char>,
)
    requires
        ledger.listings.dom().contains(skill_id),
        ledger.listings[skill_id].is_active,
        !ledger.step(operation).listings[skill_id].is_active,
    ensures
        operation matches Operation::DeactivateListing { signer, skill_id: deactivated }
            && deactivated == skill_id && signer == ledger.listings[skill_id].creator,
{
}

/// Nothing but a purchase or a deposit moves money.
pub proof fn law_other_operations_move_no_money(ledger: LedgerView, operation: Operation)
    requires
        !(operation is PurchaseSkill),
        !(operation is Deposit),
    ensures
        ledger.step(operation).balances == ledger.balances,
{
}

/// A purchase that takes effect moves the price and nothing else: the
/// buyer pays the price, the treasury receives the fee, the creator
/// receives the price less the fee, and every other balance stays. A party
/// that has two of these roles has the sum of what they bring.
pub proof fn law_purchase_moves_the_price(
    ledger: LedgerView,
    buyer: Identity,
    creator: Identity,
    treasury: Identity,
    skill_id: Seq<char>,
    unix_timestamp: i64,
    who: Identity,
)
    requires
        ledger.wf(),
        ledger.purchase_refusal(buyer, creator, treasury, skill_id) is None,
    ensures
        ({
            let after = ledger.purchase_effect(buyer, creator, treasury, skill_id, unix_timestamp);
            let price = ledger.listings[skill_id].price_lamports as int;
            let fee = fee_of(price, ledger.config.unwrap().fee_basis_points as int);
            let paid = if who == buyer {
                price
            } else {
                0
            };
            let as_treasury = if who == treasury {
                fee
            } else {
                0
            };
            let as_creator = if who == creator {
                price - fee
            } else {
                0
            };
            after.balances[who] == ledger.balances[who] - paid + as_treasury + as_creator
        }),
{
    let listing = ledger.listings[skill_id];
    assert(ledger.listings.dom().contains(skill_id));
    lemma_fee_within_price(listing.price_lamports, ledger.config.unwrap().fee_basis_points);
}

/// One buyer's purchase does not stand in the way of another's. If the
/// second buyer's purchase would have taken effect before the first buyer
/// bought, then after it the second is refused, if at all, only because a
/// balance or a counter would leave its range.
pub proof fn law_buyers_do_not_block_each_other(
    ledger: LedgerView,
    first: Identity,
    second: Identity,
    creator: Identity,
    treasury: Identity,
    skill_id: Seq<char>,
    unix_timestamp: i64,
)
    requires
        ledger.wf(),
        first != second,
        ledger.purchase_refusal(first, creator, treasury, skill_id) is None,
        ledger.purchase_refusal(second, creator, treasury, skill_id) is None,
    ensures
        ({
            let between = ledger.purchase_effect(first, creator, treasury, skill_id, unix_timestamp);
            let refusal = between.purchase_refusal(second, creator, treasury, skill_id);
            refusal is None || refusal == Some(
                LedgerError::Rule(SkillstoreError::ArithmeticOverflow),
            )
        }),
{
    let between = ledger.purchase_effect(first, creator, treasury, skill_id, unix_timestamp);
    assert(ledger.listings.dom().contains(skill_id));
    assert(between.listings.dom().contains(skill_id));
    assert(!between.receipts.dom().contains((second, skill_id)));
}

/// Two purchases of one listing by two buyers, one after the other, that
/// both take effect leave one receipt for each of the buyers and count two
/// sales, on the listing and in the configuration.
pub proof fn law_two_buyers_two_sales(
    ledger: LedgerView,
    first: Identity,
    second: Identity,
    creator: Identity,
    treasury: Identity,
    skill_id: Seq<char>,
    first_time: i64,
    second_time: i64,
)
    requires
        ledger.wf(),
        first != second,
        ledger.purchase_refusal(first, creator, treasury, skill_id) is None,
        ledger.purchase_effect(
            first,
            creator,
            treasury,
            skill_id,
            first_time,
        ).purchase_refusal(second, creator, treasury, skill_id) is None,
    ensures
        ({
            let between = ledger.purchase_effect(first, creator, treasury, skill_id, first_time);
            let after = between.purchase_effect(second, creator, treasury, skill_id, second_time);
            &&& !ledger.receipts.dom().contains((first, skill_id))
            &&& !ledger.receipts.dom().contains((second, skill_id))
            &&& after.receipts.dom() == ledger.receipts.dom().insert((first, skill_id)).insert(
                (second, skill_id),
            )
            &&& after.receipts[(first, skill_id)].buyer == first
            &&& after.receipts[(second, skill_id)].buyer == second
            &&& between.listings[skill_id].total_sales == ledger.listings[skill_id].total_sales + 1
            &&& after.listings[skill_id].total_sales == ledger.listings[skill_id].total_sales + 2
            &&& between.config.unwrap().total_sales == ledger.config.unwrap().total_sales + 1
            &&& after.config.unwrap().total_sales == ledger.config.unwrap().total_sales + 2
        }),
{
    let between = ledger.purchase_effect(first, creator, treasury, skill_id, first_time);
    let after = between.purchase_effect(second, creator, treasury, skill_id, second_time);
    law_purchase_is_counted_once(ledger, first, creator, treasury, skill_id, first_time);
    law_purchase_is_counted_once(between, second, creator, treasury, skill_id, second_time);
    assert(after.receipts.dom() =~= ledger.receipts.dom().insert((first, skill_id)).insert(
        (second, skill_id),
    ));
}

/// A buyer buys a skill once. After a purchase that took effect, every
/// further purchase of the same skill by the same buyer is refused,
/// whoever is named as creator and treasury, and leaves the counters, the
/// records and the balances as they were; where the rules allow it and the
/// payments could be made, it is refused because the receipt exists.
pub proof fn law_no_second_purchase(
    ledger: LedgerView,
    buyer: Identity,
    creator: Identity,
    treasury: Identity,
    skill_id: Seq<char>,
    unix_timestamp: i64,
    next_creator: Identity,
    next_treasury: Identity,
)
    requires
        ledger.wf(),
        ledger.purchase_refusal(buyer, creator, treasury, skill_id) is None,
    ensures
        ({
            let after = ledger.purchase_effect(buyer, creator, treasury, skill_id, unix_timestamp);
            let accounts = after.purchase_accounts(buyer, next_creator, next_treasury, skill_id);
            let refusal = after.purchase_refusal(buyer, next_creator, next_treasury, skill_id);
            &&& refusal is Some
            &&& after.step(
                Operation::PurchaseSkill {
                    buyer,
                    creator: next_creator,
                    treasury: next_treasury,
                    skill_id,
                    unix_timestamp,
                },
            ) == after
            &&& instructions::purchase_refusal(accounts) is None && after.payments(accounts) is Ok
                ==> refusal == Some(LedgerError::AlreadyExists)
        }),
{
    let after = ledger.purchase_effect(buyer, creator, treasury, skill_id, unix_timestamp);
    assert(after.receipts.dom().contains((buyer, skill_id)));
    assert(after.listings.dom().contains(skill_id));
}

} // verus!
