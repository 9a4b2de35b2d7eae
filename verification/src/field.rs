//! Elements of the BN254 scalar field, held as four 64-bit limbs in standard
//! (non-Montgomery) form. All arithmetic is done by `ark-ff`; this module
//! states what each operation returns over the element's value as a natural
//! number.

use ark_bn254::Fr;
use ark_ff::BigInt;
use ark_ff::BigInteger;
use ark_ff::PrimeField;
use ark_serialize::CanonicalDeserialize;
use ark_serialize::CanonicalSerialize;
use ark_serialize::SerializationError;
use vstd::prelude::*;

verus! {

/// The order of the BN254 scalar field.
pub open spec fn modulus() -> nat {
    21888242871839275222246405745257275088548364400416034343698204186575808495617nat
}

/// The number that four limbs stand for, least significant limb first.
pub open spec fn limbs_value(l: Seq<u64>) -> nat
    recommends
        l.len() == 4,
{
    (l[0] as nat) + (l[1] as nat) * 0x1_0000_0000_0000_0000nat + (l[2] as nat)
        * 0x1_0000_0000_0000_0000_0000_0000_0000_0000nat + (l[3] as nat)
        * 0x1_0000_0000_0000_0000_0000_0000_0000_0000_0000_0000_0000_0000nat
}

/// The number that a byte string stands for, least significant byte first.
pub open spec fn le_value(b: Seq<u8>) -> nat
    decreases b.len(),
{
    if b.len() == 0 {
        0
    } else {
        (b[0] as nat) + 256 * le_value(b.drop_first())
    }
}

/// The `n` least significant bytes of `v`, least significant first.
pub open spec fn le_bytes(v: nat, n: nat) -> Seq<u8>
    decreases n,
{
    if n == 0 {
        Seq::empty()
    } else {
        seq![(v % 256) as u8] + le_bytes(v / 256, (n - 1) as nat)
    }
}

/// 256 to the power `n`.
pub open spec fn radix(n: nat) -> nat
    decreases n,
{
    if n == 0 {
        1
    } else {
        256 * radix((n - 1) as nat)
    }
}

/// `x` as a residue, for a signed `x`.
pub open spec fn signed_residue(x: int) -> nat {
    (x % (modulus() as int)) as nat
}

/// An element of the BN254 scalar field.
#[derive(Clone, Copy, Debug, PartialEq, Eq)]
pub struct FieldElement {
    pub(crate) limbs: [u64; 4],
}

impl View for FieldElement {
    type V = nat;

    closed spec fn view(&self) -> nat {
        limbs_value(self.limbs@)
    }
}

/// Why a byte buffer was not read as a field element.
#[derive(Clone, Copy, Debug, PartialEq, Eq)]
pub enum DeserializationError {
    /// Fewer than 32 bytes were given.
    NotEnoughBytes,
    /// The first 32 bytes stand for a number that is not below the modulus.
    NotCanonical,
}

#[verifier::external_type_specification]
#[verifier::external_body]
pub struct ExSerializationError(SerializationError);

/// `Fr::from(u64)`: the element whose value is `x`.
#[verifier::external_body]
fn fr_from_u64(x: u64) -> (r: FieldElement)
    ensures
        r@ == x,
{
    FieldElement { limbs: Fr::from(x).into_bigint().0 }
}

/// `Fr::from(i32)`: the residue of `x`, so `-1` gives the modulus less one.
#[verifier::external_body]
fn fr_from_i32(x: i32) -> (r: FieldElement)
    ensures
        r@ == signed_residue(x as int),
{
    FieldElement { limbs: Fr::from(x).into_bigint().0 }
}

/// Field addition of `ark-ff`: the sum of the two values, reduced.
#[verifier::external_body]
fn fr_add(a: &FieldElement, b: &FieldElement) -> (r: FieldElement)
    ensures
        r@ == (a@ + b@) % modulus(),
{
    FieldElement { limbs: (Fr::new(BigInt(a.limbs)) + Fr::new(BigInt(b.limbs))).into_bigint().0 }
}

/// Field multiplication of `ark-ff`: the product of the two values, reduced.
#[verifier::external_body]
fn fr_mul(a: &FieldElement, b: &FieldElement) -> (r: FieldElement)
    ensures
        r@ == (a@ * b@) % modulus(),
{
    FieldElement { limbs: (Fr::new(BigInt(a.limbs)) * Fr::new(BigInt(b.limbs))).into_bigint().0 }
}

/// `BigInteger::get_bit` on the element's standard form: binary digit `i` of
/// the value, counted from the least significant.
#[verifier::external_body]
fn fr_get_bit(a: &FieldElement, i: usize) -> (r: bool)
    requires
        i < 256,
    ensures
        r == ((a@ / vstd::arithmetic::power2::pow2(i as nat)) % 2 == 1),
{
    BigInt(a.limbs).get_bit(i)
}

/// `serialize_uncompressed` on a field element: its value as 32 bytes, least
/// significant first.
#[verifier::external_body]
fn fr_serialize(a: &FieldElement) -> (r: [u8; 32])
    ensures
        r@ == le_bytes(a@, 32),
{
    let mut bytes = [0u8; 32];
    Fr::new(BigInt(a.limbs)).serialize_uncompressed(&mut bytes[..]).unwrap();
    bytes
}

/// `deserialize_uncompressed` for a field element: it reads the first 32
/// bytes as a number, least significant byte first, and fails where there are
/// fewer bytes or the number is not below the modulus. Bytes after the first
/// 32 are not looked at.
#[verifier::external_body]
fn fr_deserialize(bytes: &[u8]) -> (r: Result<FieldElement, SerializationError>)
    ensures
        r is Ok <==> decoded_field(bytes@) is Some,
        r is Ok ==> Some(r->Ok_0@) == decoded_field(bytes@),
{
    match Fr::deserialize_uncompressed(bytes) {
        Ok(f) => Ok(FieldElement { limbs: f.into_bigint().0 }),
        Err(e) => Err(e),
    }
}

/// The 32 bytes that stand for a field element of value `v`.
pub open spec fn encoded_field(v: nat) -> Seq<u8> {
    le_bytes(v, 32)
}

/// The value that a buffer decodes to: that of its first 32 bytes, where
/// there are that many and the value is below the modulus.
pub open spec fn decoded_field(bytes: Seq<u8>) -> Option<nat> {
    if bytes.len() >= 32 && le_value(bytes.take(32)) < modulus() {
        Some(le_value(bytes.take(32)))
    } else {
        None
    }
}

impl FieldElement {
    #[verifier::type_invariant]
    spec fn canonical(self) -> bool {
        limbs_value(self.limbs@) < modulus()
    }

    /// The element of value `x`.
    pub fn from_u64(x: u64) -> (r: FieldElement)
        ensures
            r@ == x,
    {
        fr_from_u64(x)
    }

    /// The residue of a signed number.
    pub fn from_i32(x: i32) -> (r: FieldElement)
        ensures
            r@ == signed_residue(x as int),
            r@ < modulus(),
    {
        fr_from_i32(x)
    }

    /// The additive identity.
    pub fn zero() -> (r: FieldElement)
        ensures
            r@ == 0,
    {
        fr_from_u64(0)
    }

    /// The multiplicative identity.
    pub fn one() -> (r: FieldElement)
        ensures
            r@ == 1,
    {
        fr_from_u64(1)
    }

    /// The sum of two elements.
    pub fn add(&self, other: &FieldElement) -> (r: FieldElement)
        ensures
            r@ == (self@ + other@) % modulus(),
    {
        fr_add(self, other)
    }

    /// The product of two elements.
    pub fn mul(&self, other: &FieldElement) -> (r: FieldElement)
        ensures
            r@ == (self@ * other@) % modulus(),
    {
        fr_mul(self, other)
    }

    /// Every element's value is below the modulus. Calling this is how code
    /// outside this module learns it of an element that it holds.
    pub fn below_modulus(&self)
        ensures
            self@ < modulus(),
    {
        proof {
            use_type_invariant(self);
        }
    }

    /// Binary digit `i` of the element's value; digits from 256 on are zero.
    pub fn bit(&self, i: usize) -> (r: bool)
        ensures
            i < 256 ==> r == ((self@ / vstd::arithmetic::power2::pow2(i as nat)) % 2 == 1),
            i >= 256 ==> !r,
    {
        if i < 256 {
            fr_get_bit(self, i)
        } else {
            false
        }
    }
}

/// `le_bytes(v, n)` has `n` bytes, and they stand for `v` where `v` fits in
/// `n` bytes.
pub proof fn lemma_le_round_trip(v: nat, n: nat)
    requires
        v < radix(n),
    ensures
        le_bytes(v, n).len() == n,
        le_value(le_bytes(v, n)) == v,
    decreases n,
{
    if n > 0 {
        let rest = le_bytes(v / 256, (n - 1) as nat);
        lemma_le_round_trip(v / 256, (n - 1) as nat);
        assert(le_bytes(v, n).drop_first() =~= rest);
    }
}

/// 32 bytes hold every number below 2^256, and the modulus is below that.
pub proof fn lemma_radix_32()
    ensures
        radix(32)
            == 0x1_0000_0000_0000_0000_0000_0000_0000_0000_0000_0000_0000_0000_0000_0000_0000_0000nat,
        modulus() < radix(32),
{
    reveal_with_fuel(radix, 33);
}

/// Decoding what was encoded gives the value back: for every field element
/// `f`, `bytes_to_field(field_to_bytes(f))` is `Ok` and holds `f`'s value.
pub proof fn lemma_field_codec_round_trip(v: nat)
    requires
        v < modulus(),
    ensures
        decoded_field(encoded_field(v)) == Some(v),
{
    lemma_radix_32();
    lemma_le_round_trip(v, 32);
    assert(encoded_field(v).take(32) =~= encoded_field(v));
}

/// A number has one way of being a limb and a multiple of 2^64.
proof fn lemma_limb_split(lo: nat, hi: nat, lo2: nat, hi2: nat)
    requires
        lo < 0x1_0000_0000_0000_0000,
        lo2 < 0x1_0000_0000_0000_0000,
        lo + 0x1_0000_0000_0000_0000 * hi == lo2 + 0x1_0000_0000_0000_0000 * hi2,
    ensures
        lo == lo2,
        hi == hi2,
{
    if hi > hi2 {
        assert(0x1_0000_0000_0000_0000 * hi >= 0x1_0000_0000_0000_0000 * hi2
            + 0x1_0000_0000_0000_0000);
    } else if hi < hi2 {
        assert(0x1_0000_0000_0000_0000 * hi2 >= 0x1_0000_0000_0000_0000 * hi
            + 0x1_0000_0000_0000_0000);
    }
}

/// Two field elements of one value are the same element.
pub proof fn lemma_value_determines_element(a: FieldElement, b: FieldElement)
    requires
        a@ == b@,
    ensures
        a == b,
{
    let x = a.limbs@;
    let y = b.limbs@;
    let base = 0x1_0000_0000_0000_0000nat;
    let x2 = (x[2] as nat) + base * (x[3] as nat);
    let y2 = (y[2] as nat) + base * (y[3] as nat);
    let x1 = (x[1] as nat) + base * x2;
    let y1 = (y[1] as nat) + base * y2;
    assert(limbs_value(x) == (x[0] as nat) + base * x1);
    assert(limbs_value(y) == (y[0] as nat) + base * y1);
    lemma_limb_split(x[0] as nat, x1, y[0] as nat, y1);
    lemma_limb_split(x[1] as nat, x2, y[1] as nat, y2);
    lemma_limb_split(x[2] as nat, x[3] as nat, y[2] as nat, y[3] as nat);
    assert(a.limbs =~= b.limbs);
}

/// Writes a field element as 32 bytes, least significant first.
pub fn field_to_bytes(field: &FieldElement) -> (r: [u8; 32])
    ensures
        r@ == encoded_field(field@),
        decoded_field(r@) == Some(field@),
{
    proof {
        use_type_invariant(field);
        lemma_field_codec_round_trip(field@);
    }
    fr_serialize(field)
}

/// Reads a field element from the first 32 bytes of a buffer.
pub fn bytes_to_field(bytes: &[u8]) -> (r: Result<FieldElement, DeserializationError>)
    ensures
        match decoded_field(bytes@) {
            Some(v) => r is Ok && r->Ok_0@ == v,
            None => r == Err::<FieldElement, DeserializationError>(
                if bytes@.len() < 32 {
                    DeserializationError::NotEnoughBytes
                } else {
                    DeserializationError::NotCanonical
                },
            ),
        },
{
    match fr_deserialize(bytes) {
        Ok(f) => Ok(f),
        Err(_) => {
            if bytes.len() < 32 {
                Err(DeserializationError::NotEnoughBytes)
            } else {
                Err(DeserializationError::NotCanonical)
            }
        },
    }
}

} // verus!
