use erc20_ledger::bytesrepr::ToBytes;
use erc20_ledger::u256::U256;

fn amount(n: u64) -> U256 {
    U256::from_u64(n)
}

#[test]
fn zero_is_zero() {
    assert!(U256::zero().is_zero());
    assert!(!amount(1).is_zero());
    assert_eq!(U256::zero(), amount(0));
}

#[test]
fn checked_add_gives_the_sum() {
    assert_eq!(amount(40).checked_add(amount(2)), Some(amount(42)));
}

#[test]
fn checked_add_carries_into_the_next_limb() {
    let sum = amount(u64::MAX).checked_add(amount(1));
    assert_eq!(sum, Some(U256 { w0: 0, w1: 1, w2: 0, w3: 0 }));
}

#[test]
fn checked_add_fails_beyond_the_largest_amount() {
    assert_eq!(U256::max_value().checked_add(amount(1)), None);
    assert_eq!(U256::max_value().checked_add(amount(0)), Some(U256::max_value()));
}

#[test]
fn checked_sub_gives_the_difference() {
    assert_eq!(amount(100).checked_sub(amount(40)), Some(amount(60)));
    assert_eq!(amount(40).checked_sub(amount(40)), Some(amount(0)));
}

#[test]
fn checked_sub_borrows_from_the_next_limb() {
    let big = U256 { w0: 0, w1: 1, w2: 0, w3: 0 };
    assert_eq!(big.checked_sub(amount(1)), Some(amount(u64::MAX)));
}

#[test]
fn checked_sub_fails_below_zero() {
    assert_eq!(amount(40).checked_sub(amount(41)), None);
}

#[test]
fn amounts_are_ordered_as_numbers() {
    let big = U256 { w0: 0, w1: 1, w2: 0, w3: 0 };
    assert!(amount(u64::MAX).lt(&big));
    assert!(!big.lt(&amount(u64::MAX)));
    assert!(!amount(5).lt(&amount(5)));
    assert!(amount(5).ge(&amount(5)));
    assert!(big.ge(&amount(7)));
    assert!(!amount(7).ge(&big));
}

#[test]
fn amounts_are_written_in_decimal() {
    assert_eq!(amount(0).to_string(), "0");
    assert_eq!(amount(50).to_string(), "50");
    let big = U256 { w0: 0, w1: 1, w2: 0, w3: 0 };
    assert_eq!(big.to_string(), "18446744073709551616");
    assert_eq!(
        U256::max_value().to_string(),
        "115792089237316195423570985008687907853269984665640564039457584007913129639935"
    );
}

#[test]
fn amounts_serialise_to_their_significant_bytes() {
    assert_eq!(amount(0).to_bytes(), vec![0u8]);
    assert_eq!(amount(1).to_bytes(), vec![1u8, 1]);
    assert_eq!(amount(256).to_bytes(), vec![2u8, 0, 1]);
    assert_eq!(amount(0x0102_03).to_bytes(), vec![3u8, 3, 2, 1]);
    let big = U256 { w0: 0, w1: 1, w2: 0, w3: 0 };
    assert_eq!(big.to_bytes(), vec![9u8, 0, 0, 0, 0, 0, 0, 0, 0, 1]);
}
