use subscription_escrow::U256;

fn max() -> U256 {
    U256 { limbs: [u64::MAX, u64::MAX, u64::MAX, u64::MAX] }
}

#[test]
fn zero_is_zero() {
    assert!(U256::zero().is_zero());
    assert_eq!(U256::zero(), U256::from_u64(0));
    assert!(!U256::from_u64(1).is_zero());
    assert!(!U256 { limbs: [0, 0, 0, 1] }.is_zero());
}

#[test]
fn from_u64_fills_the_lowest_limb() {
    assert_eq!(U256::from_u64(86400), U256 { limbs: [86400, 0, 0, 0] });
}

#[test]
fn same_compares_every_limb() {
    let a = U256 { limbs: [1, 2, 3, 4] };
    assert!(a.same(&U256 { limbs: [1, 2, 3, 4] }));
    assert!(!a.same(&U256 { limbs: [1, 2, 3, 5] }));
    assert!(!a.same(&U256 { limbs: [0, 2, 3, 4] }));
}

#[test]
fn checked_add_adds() {
    assert_eq!(U256::from_u64(2).checked_add(U256::from_u64(3)), Some(U256::from_u64(5)));
}

#[test]
fn checked_add_carries_into_the_next_limb() {
    assert_eq!(
        U256::from_u64(u64::MAX).checked_add(U256::from_u64(1)),
        Some(U256 { limbs: [0, 1, 0, 0] })
    );
}

#[test]
fn checked_add_refuses_overflow() {
    assert_eq!(max().checked_add(U256::from_u64(1)), None);
    assert_eq!(max().checked_add(U256::zero()), Some(max()));
}

#[test]
fn checked_sub_subtracts() {
    assert_eq!(U256::from_u64(1000).checked_sub(U256::from_u64(25)), Some(U256::from_u64(975)));
    assert_eq!(U256::from_u64(7).checked_sub(U256::from_u64(7)), Some(U256::zero()));
}

#[test]
fn checked_sub_borrows_from_the_next_limb() {
    assert_eq!(
        U256 { limbs: [0, 1, 0, 0] }.checked_sub(U256::from_u64(1)),
        Some(U256::from_u64(u64::MAX))
    );
}

#[test]
fn checked_sub_refuses_underflow() {
    assert_eq!(U256::from_u64(3).checked_sub(U256::from_u64(4)), None);
}

#[test]
fn checked_mul_multiplies() {
    assert_eq!(U256::from_u64(1000).checked_mul(U256::from_u64(250)), Some(U256::from_u64(250000)));
    assert_eq!(
        U256::from_u64(u64::MAX).checked_mul(U256::from_u64(u64::MAX)),
        Some(U256 { limbs: [1, 18446744073709551614, 0, 0] })
    );
    assert_eq!(
        U256 { limbs: [0, 1, 0, 0] }.checked_mul(U256 { limbs: [0, 1, 0, 0] }),
        Some(U256 { limbs: [0, 0, 1, 0] })
    );
}

#[test]
fn checked_mul_refuses_overflow() {
    assert_eq!(U256 { limbs: [0, 0, 1, 0] }.checked_mul(U256 { limbs: [0, 0, 1, 0] }), None);
    assert_eq!(max().checked_mul(U256::from_u64(2)), None);
    assert_eq!(max().checked_mul(U256::from_u64(1)), Some(max()));
}

#[test]
fn checked_div_rem_divides() {
    assert_eq!(
        U256::from_u64(1000).checked_div_rem(U256::from_u64(7)),
        Some((U256::from_u64(142), U256::from_u64(6)))
    );
    assert_eq!(
        U256 { limbs: [0x3039, 0, 0, 0x100] }.checked_div_rem(U256::from_u64(10000)),
        Some((
            U256 { limbs: [0x460aa64c2f837b4b, 0x5e9e1b089a027525, 0x68db8bac710cb29, 0] },
            U256::from_u64(3721)
        ))
    );
}

#[test]
fn checked_div_rem_refuses_zero() {
    assert_eq!(U256::from_u64(1000).checked_div_rem(U256::zero()), None);
}

#[test]
fn lt_orders_by_value() {
    assert!(U256::from_u64(1).lt(&U256::from_u64(2)));
    assert!(!U256::from_u64(2).lt(&U256::from_u64(2)));
    assert!(!U256::from_u64(3).lt(&U256::from_u64(2)));
    assert!(U256::from_u64(u64::MAX).lt(&U256 { limbs: [0, 1, 0, 0] }));
    assert!(!U256 { limbs: [0, 0, 0, 1] }.lt(&U256 { limbs: [u64::MAX, u64::MAX, u64::MAX, 0] }));
}
