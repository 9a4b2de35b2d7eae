use ark_bn254::Fr;
use ark_ff::{BigInteger, PrimeField};
use ark_serialize::CanonicalSerialize;
use zk_inequality::field::{bytes_to_field, field_to_bytes, DeserializationError, FieldElement};

fn ark_bytes(f: Fr) -> [u8; 32] {
    let mut out = [0u8; 32];
    f.serialize_uncompressed(&mut out[..]).unwrap();
    out
}

fn modulus_bytes() -> [u8; 32] {
    let mut out = [0u8; 32];
    out.copy_from_slice(&Fr::MODULUS.to_bytes_le());
    out
}

#[test]
fn encoding_is_little_endian() {
    let bytes = field_to_bytes(&FieldElement::from_u64(0x0102030405060708));
    let mut expected = [0u8; 32];
    expected[..8].copy_from_slice(&[8, 7, 6, 5, 4, 3, 2, 1]);
    assert_eq!(bytes, expected);
    assert_eq!(bytes, ark_bytes(Fr::from(0x0102030405060708u64)));
    assert_eq!(field_to_bytes(&FieldElement::zero()), [0u8; 32]);
    let mut one = [0u8; 32];
    one[0] = 1;
    assert_eq!(field_to_bytes(&FieldElement::one()), one);
}

#[test]
fn round_trip_of_many_values() {
    let values = [0u64, 1, 2, 255, 256, 12345, u32::MAX as u64, u64::MAX];
    for v in values {
        let f = FieldElement::from_u64(v);
        assert_eq!(bytes_to_field(&field_to_bytes(&f)), Ok(f));
    }
    let minus_one = FieldElement::from_i32(-1);
    assert_eq!(bytes_to_field(&field_to_bytes(&minus_one)), Ok(minus_one));
    let big = minus_one.mul(&FieldElement::from_u64(u64::MAX));
    assert_eq!(bytes_to_field(&field_to_bytes(&big)), Ok(big));
}

#[test]
fn decoding_rejects_the_modulus_and_above() {
    let m = modulus_bytes();
    assert_eq!(bytes_to_field(&m), Err(DeserializationError::NotCanonical));
    assert_eq!(bytes_to_field(&[255u8; 32]), Err(DeserializationError::NotCanonical));
    let mut below = m;
    below[0] -= 1;
    assert_eq!(bytes_to_field(&below), Ok(FieldElement::from_i32(-1)));
}

#[test]
fn decoding_rejects_short_buffers_and_ignores_the_rest() {
    assert_eq!(bytes_to_field(&[]), Err(DeserializationError::NotEnoughBytes));
    assert_eq!(bytes_to_field(&[0u8; 31]), Err(DeserializationError::NotEnoughBytes));
    let mut long = [0u8; 40];
    long[0] = 9;
    long[35] = 200;
    assert_eq!(bytes_to_field(&long), Ok(FieldElement::from_u64(9)));
}

#[test]
fn signed_values_wrap_around() {
    assert_eq!(field_to_bytes(&FieldElement::from_i32(-1)), ark_bytes(-Fr::from(1u64)));
    assert_eq!(field_to_bytes(&FieldElement::from_i32(-5)), ark_bytes(-Fr::from(5u64)));
    assert_eq!(FieldElement::from_i32(7), FieldElement::from_u64(7));
    assert_eq!(FieldElement::from_i32(0), FieldElement::zero());
    assert_eq!(FieldElement::from_i32(i32::MIN), {
        let x = FieldElement::from_u64(1u64 << 31);
        FieldElement::from_i32(-1).mul(&x)
    });
}

#[test]
fn addition_and_multiplication_are_those_of_the_field() {
    let a = FieldElement::from_u64(1000);
    let b = FieldElement::from_u64(500);
    assert_eq!(a.add(&b), FieldElement::from_u64(1500));
    assert_eq!(a.mul(&b), FieldElement::from_u64(500000));
    let minus_one = FieldElement::from_i32(-1);
    assert_eq!(minus_one.add(&FieldElement::one()), FieldElement::zero());
    assert_eq!(minus_one.mul(&minus_one), FieldElement::one());
    assert_eq!(a.add(&minus_one.mul(&b)), FieldElement::from_u64(500));
    let big = FieldElement::from_u64(u64::MAX);
    let product = big.mul(&big);
    assert_eq!(field_to_bytes(&product), ark_bytes(Fr::from(u64::MAX) * Fr::from(u64::MAX)));
    let sum = product.add(&product);
    assert_eq!(
        field_to_bytes(&sum),
        ark_bytes(Fr::from(u64::MAX) * Fr::from(u64::MAX) + Fr::from(u64::MAX) * Fr::from(u64::MAX))
    );
}

#[test]
fn bits_are_those_of_the_value() {
    let f = FieldElement::from_u64(0b1011);
    assert!(f.bit(0));
    assert!(f.bit(1));
    assert!(!f.bit(2));
    assert!(f.bit(3));
    assert!(!f.bit(4));
    assert!(!f.bit(255));
    assert!(!f.bit(256));
    assert!(!f.bit(1000));
    let high = FieldElement::from_u64(1u64 << 63);
    assert!(high.bit(63));
    assert!(!high.bit(62));
    let minus_one = FieldElement::from_i32(-1);
    // the modulus is odd, so the modulus less one is even
    assert!(!minus_one.bit(0));
    assert!(minus_one.bit(253));
    assert!(!minus_one.bit(254));
}
