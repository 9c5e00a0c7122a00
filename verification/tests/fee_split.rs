use skillstore::error::SkillstoreError;
use skillstore::fee::{split_payment, PaymentSplit};

#[test]
fn five_percent_of_a_thousand() {
    assert_eq!(split_payment(1000, 500), Ok(PaymentSplit { fee: 50, creator_amount: 950 }));
}

#[test]
fn fee_is_rounded_down() {
    assert_eq!(split_payment(999, 500), Ok(PaymentSplit { fee: 49, creator_amount: 950 }));
    assert_eq!(split_payment(1, 9999), Ok(PaymentSplit { fee: 0, creator_amount: 1 }));
    assert_eq!(split_payment(3, 3333), Ok(PaymentSplit { fee: 0, creator_amount: 3 }));
}

#[test]
fn zero_rate_leaves_all_to_the_creator() {
    assert_eq!(split_payment(12345, 0), Ok(PaymentSplit { fee: 0, creator_amount: 12345 }));
}

#[test]
fn full_rate_leaves_all_to_the_treasury() {
    assert_eq!(split_payment(12345, 10000), Ok(PaymentSplit { fee: 12345, creator_amount: 0 }));
}

#[test]
fn largest_price_does_not_overflow() {
    let split = split_payment(u64::MAX, 10000).unwrap();
    assert_eq!(split.fee, u64::MAX);
    assert_eq!(split.creator_amount, 0);
    let split = split_payment(u64::MAX, 2500).unwrap();
    assert_eq!(split.fee, 4611686018427387903);
    assert_eq!(split.creator_amount, 13835058055282163712);
}

#[test]
fn parts_add_up_to_the_price() {
    let prices: [u64; 6] = [1, 7, 9999, 10001, 1_000_000_007, u64::MAX];
    let rates: [u16; 7] = [0, 1, 33, 500, 2500, 9999, 10000];
    for price in prices {
        for rate in rates {
            let split = split_payment(price, rate).unwrap();
            assert_eq!(split.fee as u128 + split.creator_amount as u128, price as u128);
            assert_eq!(split.fee as u128, price as u128 * rate as u128 / 10000);
        }
    }
}

#[test]
fn rate_above_the_whole_is_refused_when_it_exceeds_the_price() {
    assert_eq!(split_payment(1000, 10010), Err(SkillstoreError::ArithmeticOverflow));
    assert_eq!(split_payment(1000, 10001), Ok(PaymentSplit { fee: 1000, creator_amount: 0 }));
    assert_eq!(split_payment(u64::MAX, 65535), Err(SkillstoreError::ArithmeticOverflow));
    assert_eq!(split_payment(1, 10001), Ok(PaymentSplit { fee: 1, creator_amount: 0 }));
    assert_eq!(split_payment(0, 65535), Ok(PaymentSplit { fee: 0, creator_amount: 0 }));
}
