use cellular4::discrete::{Boolean, Byte, Nibble, SInt, UInt};
use rand::rngs::StdRng;
use rand::SeedableRng;

#[test]
fn nibble_circular_add_wraps() {
    for a in 0u8..16 {
        for b in 0u8..16 {
            let r = Nibble::new(a).circular_add(Nibble::new(b));
            assert_eq!(r.into_inner(), (a + b) % 16);
        }
    }
    assert_eq!(Nibble::new(9).circular_add(Nibble::new(9)), Nibble::new(2));
}

#[test]
fn nibble_multiply_divide_modulus() {
    assert_eq!(Nibble::new(5).circular_multiply(Nibble::new(7)).into_inner(), 35 % 16);
    assert_eq!(Nibble::new(15).circular_multiply(Nibble::new(15)).into_inner(), 1);
    assert_eq!(Nibble::new(13).divide(Nibble::new(4)).into_inner(), 3);
    assert_eq!(Nibble::new(13).modulus(Nibble::new(4)).into_inner(), 1);
}

#[test]
fn zero_divisor_gives_zero() {
    for a in 0u8..16 {
        assert_eq!(Nibble::new(a).divide(Nibble::new(0)), Nibble::new(0));
        assert_eq!(Nibble::new(a).modulus(Nibble::new(0)), Nibble::new(0));
    }
    for a in 0u8..=255 {
        assert_eq!(Byte::new(a).divide(Byte::new(0)), Byte::new(0));
        assert_eq!(Byte::new(a).modulus(Byte::new(0)), Byte::new(0));
    }
    assert_eq!(UInt::new(u32::MAX).divide(UInt::new(0)), UInt::new(0));
    assert_eq!(UInt::new(77).modulus(UInt::new(0)), UInt::new(0));
    assert_eq!(SInt::new(i32::MIN).divide(SInt::new(0)), SInt::new(0));
    assert_eq!(SInt::new(-5).modulus(SInt::new(0)), SInt::new(0));
}

#[test]
fn nibble_construction() {
    assert_eq!(Nibble::new_circular(20), Nibble::new(4));
    assert_eq!(Nibble::new_circular(255).into_inner(), 15);
    assert_eq!(Nibble::checked(16), None);
    assert_eq!(Nibble::checked(15), Some(Nibble::new(15)));
    assert_eq!(Nibble::MODULUS, 16);
}

#[test]
fn byte_wrapping_arithmetic() {
    assert_eq!(Byte::new(200).circular_add(Byte::new(100)).into_inner(), 44);
    assert_eq!(Byte::new(16).circular_multiply(Byte::new(17)).into_inner(), 16);
    assert_eq!(Byte::new(200).divide(Byte::new(7)).into_inner(), 28);
    assert_eq!(Byte::new(200).modulus(Byte::new(7)).into_inner(), 4);
    assert_eq!(Byte::new(0).invert_wrapped().into_inner(), 255);
    assert_eq!(Byte::new(200).invert_wrapped().into_inner(), 55);
}

#[test]
fn uint_wrapping_arithmetic() {
    assert_eq!(UInt::new(u32::MAX).circular_add(UInt::new(2)).into_inner(), 1);
    assert_eq!(UInt::new(0x1_0000).circular_multiply(UInt::new(0x1_0001)).into_inner(), 0x1_0000);
    assert_eq!(UInt::new(100).divide(UInt::new(7)).into_inner(), 14);
    assert_eq!(UInt::new(100).modulus(UInt::new(7)).into_inner(), 2);
}

#[test]
fn sint_wrapping_arithmetic() {
    assert_eq!(SInt::new(i32::MAX).circular_add(SInt::new(1)).into_inner(), i32::MIN);
    assert_eq!(SInt::new(i32::MIN).circular_add(SInt::new(-1)).into_inner(), i32::MAX);
    assert_eq!(SInt::new(0x1_0000).circular_multiply(SInt::new(0x8000)).into_inner(), i32::MIN);
    assert_eq!(SInt::new(-7).circular_multiply(SInt::new(3)).into_inner(), -21);
}

#[test]
fn sint_division_truncates() {
    assert_eq!(SInt::new(-7).divide(SInt::new(2)).into_inner(), -3);
    assert_eq!(SInt::new(7).divide(SInt::new(-2)).into_inner(), -3);
    assert_eq!(SInt::new(-7).divide(SInt::new(-2)).into_inner(), 3);
    assert_eq!(SInt::new(i32::MIN).divide(SInt::new(-1)).into_inner(), i32::MIN);
    assert_eq!(SInt::new(i32::MIN).divide(SInt::new(1)).into_inner(), i32::MIN);
    assert_eq!(SInt::new(-7).modulus(SInt::new(2)).into_inner(), -1);
    assert_eq!(SInt::new(7).modulus(SInt::new(-2)).into_inner(), 1);
    assert_eq!(SInt::new(i32::MIN).modulus(SInt::new(-1)).into_inner(), 0);
}

#[test]
fn boolean_round_trip() {
    assert!(Boolean::new(true).into_inner());
    assert!(!Boolean::new(false).into_inner());
}

#[test]
fn random_nibbles_stay_in_range() {
    let mut rng = StdRng::seed_from_u64(11);
    let mut seen = [false; 16];
    for _ in 0..2000 {
        let n = Nibble::random(&mut rng).into_inner();
        assert!(n < 16);
        seen[n as usize] = true;
    }
    assert!(seen.iter().all(|s| *s));
}

#[test]
fn random_values_vary() {
    let mut rng = StdRng::seed_from_u64(5);
    let bytes: Vec<u8> = (0..64).map(|_| Byte::random(&mut rng).into_inner()).collect();
    assert!(bytes.iter().any(|b| *b != bytes[0]));
    let uints: Vec<u32> = (0..64).map(|_| UInt::random(&mut rng).into_inner()).collect();
    assert!(uints.iter().any(|u| *u != uints[0]));
    let sints: Vec<i32> = (0..64).map(|_| SInt::random(&mut rng).into_inner()).collect();
    assert!(sints.iter().any(|s| *s < 0));
    let bools: Vec<bool> = (0..64).map(|_| Boolean::random(&mut rng).into_inner()).collect();
    assert!(bools.iter().any(|b| *b) && bools.iter().any(|b| !*b));
}
