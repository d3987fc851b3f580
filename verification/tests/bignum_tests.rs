use cryptoctx::bignum::BigUint;

type BU64 = BigUint<u64, 2>;
type BU32 = BigUint<u32, 2>;

#[test]
fn test_bu64_add() {
    let u1 = BU64 { limbs: [0x1, 0x1] };
    let u2 = BU64 { limbs: [0x1, 0x0] };
    let u3 = BU64 { limbs: [0x2, 0x1] };
    assert_eq!(u1.add(u2), u3);
}

#[test]
fn test_bu64_add_overflow() {
    let u1 = BU64 {
        limbs: [0xFFFFFFFFFFFFFFFF, 0x0],
    };
    let u2 = BU64 { limbs: [0x1, 0x0] };
    let u3 = BU64 { limbs: [0x0, 0x1] };
    assert_eq!(u1.add(u2), u3);
}

#[test]
fn test_bu32_add() {
    let u1 = BU32 { limbs: [0x1, 0x1] };
    let u2 = BU32 { limbs: [0x1, 0x0] };
    let u3 = BU32 { limbs: [0x2, 0x1] };
    assert_eq!(u1.add(u2), u3);
}

#[test]
fn test_bu32_add_overflow() {
    let u1 = BU32 {
        limbs: [0xFFFFFFFF, 0x0],
    };
    let u2 = BU32 { limbs: [0x1, 0x0] };
    let u3 = BU32 { limbs: [0x0, 0x1] };
    assert_eq!(u1.add(u2), u3);
}

#[test]
fn bu64_default_is_zero() {
    let z = BU64::default();
    assert_eq!(z, BU64 { limbs: [0, 0] });
    let u1 = BU64 { limbs: [7, 9] };
    assert_eq!(u1.add(z), u1);
}

#[test]
fn bu64_carry_chain() {
    // a carry that ripples through the low limb
    let u1 = BU64 {
        limbs: [0xFFFFFFFFFFFFFFFF, 0x5],
    };
    let u2 = BU64 {
        limbs: [0xFFFFFFFFFFFFFFFF, 0x2],
    };
    let u3 = BU64 {
        limbs: [0xFFFFFFFFFFFFFFFE, 0x8],
    };
    assert_eq!(u1.add(u2), u3);
}
