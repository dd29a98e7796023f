use hh_markets::common::bps::Bps;
use hh_markets::common::math::{
    div_ceil, unchecked_add, unchecked_mul, unchecked_shl, unchecked_shr, unchecked_sub,
};
use hh_markets::escrow::state::Bps as EscrowBps;

/// The fee by a multiplication in 128 bits, then a division that rounds up.
fn fee_u128(amount: u64, bps: u16) -> u64 {
    let dividend = (amount as u128) * (bps as u128);
    let q = (dividend / 10_000) as u64;
    let r = (dividend % 10_000) as u64;
    q + ((r != 0) as u64)
}

#[test]
fn fee_of_two_and_a_half_percent() {
    let rate = Bps::new(250).unwrap();
    assert_eq!(rate.fee(10_000), 250);
    assert_eq!(rate.fee(1_000), 25);
}

#[test]
fn fee_rounds_up() {
    let rate = Bps::new(1).unwrap();
    assert_eq!(rate.fee(3), 1);
    assert_eq!(rate.fee(10_000), 1);
    assert_eq!(rate.fee(10_001), 2);
    assert_eq!(rate.fee(0), 0);
}

#[test]
fn fees_match_u128_impl() {
    let amounts = [
        0u64,
        1,
        2,
        3,
        9_999,
        10_000,
        10_001,
        19_999,
        123_456_789,
        u32::MAX as u64,
        1 << 40,
        u64::MAX / 10_000,
        u64::MAX / 10_000 + 1,
        u64::MAX - 10_000,
        u64::MAX - 1,
        u64::MAX,
    ];
    let rates = [0u16, 1, 2, 3, 7, 100, 250, 333, 4_999, 5_000, 9_998, 9_999, 10_000];
    for amount in amounts {
        for rate in rates {
            let bps = Bps::new(rate).unwrap();
            let fee = bps.fee(amount);
            assert_eq!(fee, fee_u128(amount, rate));
            assert!(fee <= amount);
            assert_eq!(EscrowBps::new(rate).unwrap().fee(amount), fee);
        }
    }
}

#[test]
fn fee_at_the_ends_of_the_range() {
    let none = Bps::new(0).unwrap();
    let all = Bps::new(10_000).unwrap();
    assert_eq!(none.fee(u64::MAX), 0);
    assert_eq!(all.fee(u64::MAX), u64::MAX);
    assert_eq!(all.fee(12_345), 12_345);
}

#[test]
fn fee_received_splits_the_amount() {
    let rate = Bps::new(250).unwrap();
    assert_eq!(rate.fee_received(10_000), (250, 9_750));
    assert_eq!(rate.fee_received(3), (1, 2));
    assert_eq!(rate.fee_received(0), (0, 0));
    let fee = fee_u128(u64::MAX, 250);
    assert_eq!(rate.fee_received(u64::MAX), (fee, u64::MAX - fee));
    let rate = EscrowBps::new(250).unwrap();
    assert_eq!(rate.fee_received(10_000), (250, 9_750));
}

#[test]
fn rate_above_the_maximum_is_refused() {
    assert_eq!(Bps::MAX, 10_000);
    assert!(Bps::new(10_000).is_some());
    assert!(Bps::new(10_001).is_none());
    assert!(Bps::new(u16::MAX).is_none());
    assert_eq!(EscrowBps::MAX, 10_000);
    assert_eq!(EscrowBps::LEN, 2);
    assert!(EscrowBps::new(10_000).is_some());
    assert!(EscrowBps::new(10_001).is_none());
}

#[test]
fn rate_keeps_its_value() {
    assert_eq!(Bps::new(250).unwrap().get(), 250);
    assert_eq!(Bps::new_unchecked(9_999).get(), 9_999);
    assert_eq!(Bps::from(200u8).get(), 200);
    assert_eq!(Bps::default().get(), 0);
    assert_eq!(EscrowBps::new(77).unwrap().get(), 77);
    assert_eq!(EscrowBps::default().get(), 0);
    assert_eq!(Bps::new(5).unwrap(), Bps::from(5u8));
    assert!(Bps::new(5).unwrap() < Bps::new(6).unwrap());
}

#[test]
fn div_ceil_rounds_towards_positive_infinity() {
    assert_eq!(div_ceil(0, 1), 0);
    assert_eq!(div_ceil(0, 7), 0);
    assert_eq!(div_ceil(7, 7), 1);
    assert_eq!(div_ceil(8, 7), 2);
    assert_eq!(div_ceil(13, 7), 2);
    assert_eq!(div_ceil(14, 7), 2);
    assert_eq!(div_ceil(u64::MAX, 1), u64::MAX);
    assert_eq!(div_ceil(u64::MAX, 2), (u64::MAX / 2) + 1);
    assert_eq!(div_ceil(u64::MAX, u64::MAX), 1);
    assert_eq!(div_ceil(1, u64::MAX), 1);
}

#[test]
fn unchecked_operations_compute_exactly() {
    assert_eq!(unchecked_add(u64::MAX - 1, 1), u64::MAX);
    assert_eq!(unchecked_sub(5, 5), 0);
    assert_eq!(unchecked_sub(u64::MAX, 1), u64::MAX - 1);
    assert_eq!(unchecked_mul(1 << 32, (1 << 32) - 1), u64::MAX - (u32::MAX as u64));
    assert_eq!(unchecked_shl(1, 63), 1 << 63);
    assert_eq!(unchecked_shl(3, 0), 3);
    assert_eq!(unchecked_shr(u64::MAX, 63), 1);
    assert_eq!(unchecked_shr(12, 2), 3);
}
