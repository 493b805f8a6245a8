use casper_shorts::uint::{U256, U512};

#[test]
fn zero_is_zero() {
    assert_eq!(U256::zero().limbs, [0, 0, 0, 0]);
    assert_eq!(U512::zero().limbs, [0; 8]);
    assert!(U256::zero().is_zero());
    assert!(!U256::from(1).is_zero());
    assert!(!U256 { limbs: [0, 0, 0, 1] }.is_zero());
}

#[test]
fn from_small_integers() {
    assert_eq!(U256::from(7).limbs, [7, 0, 0, 0]);
    assert_eq!(U256::from_u64(u64::MAX).limbs, [u64::MAX, 0, 0, 0]);
    assert_eq!(U256::from_u128(u128::MAX).limbs, [u64::MAX, u64::MAX, 0, 0]);
    assert_eq!(U256::from_u128((3 << 64) + 5).limbs, [5, 3, 0, 0]);
    assert_eq!(U512::from_u64(9).limbs, [9, 0, 0, 0, 0, 0, 0, 0]);
}

#[test]
fn to_u128_where_it_fits() {
    assert_eq!(U256 { limbs: [5, 3, 0, 0] }.to_u128(), Some((3 << 64) + 5));
    assert_eq!(U256 { limbs: [5, 3, 1, 0] }.to_u128(), None);
    assert_eq!(U256 { limbs: [5, 3, 0, 1] }.to_u128(), None);
}

#[test]
fn order_goes_by_the_highest_limb_that_differs() {
    let small = U256 { limbs: [9, 9, 9, 1] };
    let large = U256 { limbs: [0, 0, 0, 2] };
    assert!(small.lt(large));
    assert!(!large.lt(small));
    assert!(!small.lt(small));
    assert!(small.le(small));
    assert!(small.le(large));
    assert!(!large.le(small));
    assert!(U256 { limbs: [1, 2, 0, 0] }.lt(U256 { limbs: [0, 3, 0, 0] }));
    assert!(U256 { limbs: [1, 2, 5, 0] }.lt(U256 { limbs: [0, 0, 6, 0] }));
    assert!(U256 { limbs: [1, 2, 5, 7] }.lt(U256 { limbs: [2, 2, 5, 7] }));
    assert_eq!(small.min(large), small);
    assert_eq!(large.min(small), small);
}

#[test]
fn widen_and_narrow() {
    let value = U256 { limbs: [1, 2, 3, 4] };
    assert_eq!(value.widen().limbs, [1, 2, 3, 4, 0, 0, 0, 0]);
    assert_eq!(value.widen().narrow(), Some(value));
    assert_eq!(U512 { limbs: [1, 2, 3, 4, 1, 0, 0, 0] }.narrow(), None);
    assert_eq!(U512 { limbs: [1, 2, 3, 4, 0, 0, 0, 1] }.narrow(), None);
}

#[test]
fn mul_div_takes_the_product_in_full() {
    let max = U256 { limbs: [u64::MAX; 4] };
    // max * max / max = max
    assert_eq!(max.mul_div(max, max), Some(max.widen()));
    // max * 4 / 2 = 2 * max, which needs 257 bits
    assert_eq!(
        max.mul_div(U256::from(4), U256::from(2)),
        Some(U512 { limbs: [u64::MAX - 1, u64::MAX, u64::MAX, u64::MAX, 1, 0, 0, 0] })
    );
    assert_eq!(U256::from(10).mul_div(U256::from(7), U256::from(4)), Some(U512::from_u64(17)));
    assert_eq!(U256::from(10).mul_div(U256::from(7), U256::zero()), None);
}
