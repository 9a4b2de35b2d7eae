//! Groth16 over BN254, as `ark-groth16` does it.
//!
//! Keys, proofs and curve points are held here in their canonical
//! uncompressed bytes. What arkworks computes from such bytes is given a
//! name in this module, and each call states that its result is the named
//! one; nothing here says what those results are.

use crate::field::FieldElement;
use crate::r1cs::ConstraintSystem;
use ark_bn254::Bn254;
use ark_bn254::Fr;
use ark_bn254::G1Affine;
use ark_bn254::G2Affine;
use ark_ec::AffineRepr;
use ark_ff::BigInt;
use ark_ff::UniformRand;
use ark_groth16::Groth16;
use ark_serialize::CanonicalDeserialize;
use ark_serialize::CanonicalSerialize;
use vstd::prelude::*;

verus! {

/// The length of a proof in uncompressed form: two points of the first group
/// and one of the second.
pub const PROOF_LEN: usize = 256;

/// A point of the first group, in uncompressed form.
#[derive(Clone, Copy, Debug, PartialEq, Eq)]
pub struct G1Point {
    pub bytes: [u8; 64],
}

/// A point of the second group, in uncompressed form.
#[derive(Clone, Copy, Debug, PartialEq, Eq)]
pub struct G2Point {
    pub bytes: [u8; 128],
}

/// A Groth16 proof: the points A, B and C.
#[derive(Clone, Copy, Debug, PartialEq, Eq)]
pub struct Proof {
    pub a: G1Point,
    pub b: G2Point,
    pub c: G1Point,
}

/// A proving key, in uncompressed form.
#[derive(Clone, Debug, PartialEq, Eq)]
pub struct ProvingKey {
    pub bytes: Vec<u8>,
}

/// A verifying key, in uncompressed form.
#[derive(Clone, Debug, PartialEq, Eq)]
pub struct VerifyingKey {
    pub bytes: Vec<u8>,
}

/// A verifying key prepared for the pairing check, in uncompressed form.
/// Its bytes are always what preparing some verifying key gave: the pairing
/// check reads them without a check of its own.
#[derive(Debug, PartialEq, Eq)]
pub struct PreparedVerifyingKey {
    bytes: Vec<u8>,
}

/// The lengths of the three query vectors of a proving key that the prover
/// reads the first element of: the A query and the B queries in both groups.
#[derive(Clone, Copy, Debug, PartialEq, Eq)]
pub struct QuerySizes {
    pub a: usize,
    pub b_g1: usize,
    pub b_g2: usize,
}

/// The uncompressed form of a proof: A, then B, then C.
pub open spec fn proof_bytes(p: Proof) -> Seq<u8> {
    p.a.bytes@ + p.b.bytes@ + p.c.bytes@
}

/// The query sizes of the proving key that the bytes decode to, if they
/// decode to one.
pub uninterp spec fn query_sizes(pk: Seq<u8>) -> Option<QuerySizes>;

/// The prepared form of the verifying key that the bytes decode to, if they
/// decode to one whose points all lie in their groups.
pub uninterp spec fn prepared_key(vk: Seq<u8>) -> Option<Seq<u8>>;

/// The verifying key inside the prepared verifying key that the bytes decode
/// to, if they decode to one.
pub uninterp spec fn unprepared_key(pvk: Seq<u8>) -> Option<Seq<u8>>;

/// The point that commits to the public inputs under a prepared verifying
/// key, if the key decodes and is made for that many inputs.
pub uninterp spec fn prepared_inputs(pvk: Seq<u8>, inputs: Seq<nat>) -> Option<Seq<u8>>;

/// The outcome of the pairing check of a proof and a prepared input under a
/// prepared verifying key, if all three decode and the check can be made.
pub uninterp spec fn pairing_accepts(pvk: Seq<u8>, proof: Seq<u8>, input: Seq<u8>) -> Option<bool>;

/// Whether the point of the first group that the bytes decode to is the
/// point at infinity, if they decode.
pub uninterp spec fn g1_at_infinity(p: Seq<u8>) -> Option<bool>;

/// Whether the point of the first group that the bytes decode to satisfies
/// the curve equation, if they decode.
pub uninterp spec fn g1_on_curve(p: Seq<u8>) -> Option<bool>;

/// Whether the point of the first group that the bytes decode to lies in the
/// subgroup of prime order, if they decode.
pub uninterp spec fn g1_in_subgroup(p: Seq<u8>) -> Option<bool>;

/// Whether the point of the second group that the bytes decode to is the
/// point at infinity, if they decode.
pub uninterp spec fn g2_at_infinity(p: Seq<u8>) -> Option<bool>;

/// Whether the point of the second group that the bytes decode to satisfies
/// the curve equation, if they decode.
pub uninterp spec fn g2_on_curve(p: Seq<u8>) -> Option<bool>;

/// Whether the point of the second group that the bytes decode to lies in
/// the subgroup of prime order, if they decode.
pub uninterp spec fn g2_in_subgroup(p: Seq<u8>) -> Option<bool>;

/// Whether the bytes are what preparing some verifying key gives.
pub open spec fn is_prepared_key(pvk: Seq<u8>) -> bool {
    exists|vk: Seq<u8>| #[trigger] prepared_key(vk) == Some(pvk)
}

/// Whether the bytes are what preparing the verifying key inside them gives.
pub open spec fn prepares_to_itself(pvk: Seq<u8>) -> bool {
    match unprepared_key(pvk) {
        Some(vk) => prepared_key(vk) == Some(pvk),
        None => false,
    }
}

/// The values of a list of field elements.
pub open spec fn values_of(inputs: Seq<FieldElement>) -> Seq<nat> {
    inputs.map_values(|f: FieldElement| f@)
}

/// Whether a proving key decodes and has what the prover reads first in each
/// of its query vectors.
pub open spec fn key_populated(pk: Seq<u8>) -> bool {
    match query_sizes(pk) {
        Some(n) => n.a > 0 && n.b_g1 > 0 && n.b_g2 > 0,
        None => false,
    }
}

/// Decodes a proving key with `deserialize_uncompressed_unchecked` and reads
/// the lengths of its A query and of its two B queries.
#[verifier::external_body]
pub(crate) fn proving_key_query_sizes(pk: &[u8]) -> (r: Option<QuerySizes>)
    ensures
        r == query_sizes(pk@),
{
    let pk = ark_groth16::ProvingKey::<Bn254>::deserialize_uncompressed_unchecked(pk).ok()?;
    Some(QuerySizes { a: pk.a_query.len(), b_g1: pk.b_g1_query.len(), b_g2: pk.b_g2_query.len() })
}

/// `Groth16::create_proof_with_reduction_and_matrices` on the system's
/// matrices and assignment, with fresh randomness from `thread_rng`, the
/// proof written with `serialize_uncompressed`. The proof differs from call
/// to call; when there is one it has 256 bytes.
#[verifier::external_body]
pub(crate) fn groth16_prove(pk: &[u8], cs: &ConstraintSystem) -> (r: Option<Vec<u8>>)
    requires
        key_populated(pk@),
    ensures
        r matches Some(p) ==> p@.len() == PROOF_LEN,
{
    let pk = ark_groth16::ProvingKey::<Bn254>::deserialize_uncompressed_unchecked(pk).ok()?;
    let sys = &cs.sys.inner;
    let m = sys.to_matrices()?;
    let z = [&sys.instance_assignment[..], &sys.witness_assignment[..]].concat();
    let rng = &mut rand::thread_rng();
    let (r, s) = (Fr::rand(rng), Fr::rand(rng));
    let (n, k) = (m.num_instance_variables, m.num_constraints);
    let made = Groth16::<Bn254>::create_proof_with_reduction_and_matrices(&pk, r, s, &m, n, k, &z);
    let mut out = Vec::new();
    made.ok()?.serialize_uncompressed(&mut out).ok()?;
    Some(out)
}

/// `prepare_verifying_key` on the key that the bytes decode to, written with
/// `serialize_uncompressed`. The key is decoded with
/// `deserialize_uncompressed`, which refuses a key with a point that is not
/// on its curve or not in the subgroup of prime order: the pairing inside the
/// preparation is defined for points of the groups only.
#[verifier::external_body]
pub(crate) fn groth16_prepare_key(vk: &[u8]) -> (r: Option<Vec<u8>>)
    ensures
        r is Some <==> prepared_key(vk@) is Some,
        r matches Some(p) ==> prepared_key(vk@) == Some(p@),
{
    let vk = ark_groth16::VerifyingKey::<Bn254>::deserialize_uncompressed(vk).ok()?;
    let mut out = Vec::new();
    ark_groth16::prepare_verifying_key(&vk).serialize_uncompressed(&mut out).ok()?;
    Some(out)
}

/// The field `vk` of the prepared key that the bytes decode to, written
/// with `serialize_uncompressed`.
#[verifier::external_body]
pub(crate) fn groth16_unprepare_key(pvk: &[u8]) -> (r: Option<Vec<u8>>)
    ensures
        r is Some <==> unprepared_key(pvk@) is Some,
        r matches Some(vk) ==> unprepared_key(pvk@) == Some(vk@),
{
    let pvk = ark_groth16::PreparedVerifyingKey::<Bn254>::deserialize_uncompressed_unchecked(pvk)
        .ok()?;
    let mut out = Vec::new();
    pvk.vk.serialize_uncompressed(&mut out).ok()?;
    Some(out)
}

/// `Groth16::prepare_inputs` on the prepared key that the bytes decode to,
/// the resulting point written with `serialize_uncompressed`.
#[verifier::external_body]
pub(crate) fn groth16_prepare_inputs(pvk: &[u8], inputs: &Vec<FieldElement>) -> (r: Option<
    [u8; 64],
>)
    ensures
        r is Some <==> prepared_inputs(pvk@, values_of(inputs@)) is Some,
        r matches Some(p) ==> prepared_inputs(pvk@, values_of(inputs@)) == Some(p@),
{
    let pvk = ark_groth16::PreparedVerifyingKey::<Bn254>::deserialize_uncompressed_unchecked(pvk)
        .ok()?;
    let inputs: Vec<Fr> = inputs.iter().map(|f| Fr::new(BigInt(f.limbs))).collect();
    let point = Groth16::<Bn254>::prepare_inputs(&pvk, &inputs).ok()?;
    let mut out = [0u8; 64];
    point.serialize_uncompressed(&mut out[..]).ok()?;
    Some(out)
}

/// `Groth16::verify_proof_with_prepared_inputs` on what the three byte
/// strings decode to. The prepared key must be one that preparing gave: the
/// pairing reads as many of its coefficients as a prepared point has.
#[verifier::external_body]
pub(crate) fn groth16_pairing_check(pvk: &[u8], proof: &[u8], input: &[u8; 64]) -> (r: Option<
    bool,
>)
    requires
        is_prepared_key(pvk@),
    ensures
        r == pairing_accepts(pvk@, proof@, input@),
{
    let pvk = ark_groth16::PreparedVerifyingKey::<Bn254>::deserialize_uncompressed_unchecked(pvk)
        .ok()?;
    let proof = ark_groth16::Proof::<Bn254>::deserialize_uncompressed_unchecked(proof).ok()?;
    let input = G1Affine::deserialize_uncompressed_unchecked(&input[..]).ok()?;
    Groth16::<Bn254>::verify_proof_with_prepared_inputs(&pvk, &proof, &input.into()).ok()
}

/// `is_zero` on the point of the first group that the bytes decode to.
#[verifier::external_body]
pub(crate) fn g1_is_zero(p: &[u8; 64]) -> (r: Option<bool>)
    ensures
        r == g1_at_infinity(p@),
{
    Some(G1Affine::deserialize_uncompressed_unchecked(&p[..]).ok()?.is_zero())
}

/// `is_on_curve` on the point of the first group that the bytes decode to.
#[verifier::external_body]
pub(crate) fn g1_is_on_curve(p: &[u8; 64]) -> (r: Option<bool>)
    ensures
        r == g1_on_curve(p@),
{
    Some(G1Affine::deserialize_uncompressed_unchecked(&p[..]).ok()?.is_on_curve())
}

/// `is_in_correct_subgroup_assuming_on_curve` on the point of the first
/// group that the bytes decode to.
#[verifier::external_body]
pub(crate) fn g1_is_in_subgroup(p: &[u8; 64]) -> (r: Option<bool>)
    ensures
        r == g1_in_subgroup(p@),
{
    let p = G1Affine::deserialize_uncompressed_unchecked(&p[..]).ok()?;
    Some(p.is_in_correct_subgroup_assuming_on_curve())
}

/// `is_zero` on the point of the second group that the bytes decode to.
#[verifier::external_body]
pub(crate) fn g2_is_zero(p: &[u8; 128]) -> (r: Option<bool>)
    ensures
        r == g2_at_infinity(p@),
{
    Some(G2Affine::deserialize_uncompressed_unchecked(&p[..]).ok()?.is_zero())
}

/// `is_on_curve` on the point of the second group that the bytes decode to.
#[verifier::external_body]
pub(crate) fn g2_is_on_curve(p: &[u8; 128]) -> (r: Option<bool>)
    ensures
        r == g2_on_curve(p@),
{
    Some(G2Affine::deserialize_uncompressed_unchecked(&p[..]).ok()?.is_on_curve())
}

/// `is_in_correct_subgroup_assuming_on_curve` on the point of the second
/// group that the bytes decode to.
#[verifier::external_body]
pub(crate) fn g2_is_in_subgroup(p: &[u8; 128]) -> (r: Option<bool>)
    ensures
        r == g2_in_subgroup(p@),
{
    let p = G2Affine::deserialize_uncompressed_unchecked(&p[..]).ok()?;
    Some(p.is_in_correct_subgroup_assuming_on_curve())
}

impl ProvingKey {
    /// The lengths of the key's A query and B queries, where the key
    /// decodes.
    pub fn query_sizes(&self) -> (r: Option<QuerySizes>)
        ensures
            r == query_sizes(self.bytes@),
    {
        proving_key_query_sizes(self.bytes.as_slice())
    }
}

/// Whether two byte strings are the same.
pub fn bytes_equal(a: &[u8], b: &[u8]) -> (r: bool)
    ensures
        r == (a@ == b@),
{
    if a.len() != b.len() {
        return false;
    }
    let mut i: usize = 0;
    while i < a.len()
        invariant
            0 <= i <= a@.len(),
            a@.len() == b@.len(),
            forall|j: int| 0 <= j < i ==> a@[j] == b@[j],
        decreases a@.len() - i,
    {
        if a[i] != b[i] {
            return false;
        }
        i += 1;
    }
    assert(a@ =~= b@);
    true
}

impl VerifyingKey {
    /// The key prepared for the pairing check, where the key decodes.
    pub fn prepare(&self) -> (r: Option<PreparedVerifyingKey>)
        ensures
            r is Some <==> prepared_key(self.bytes@) is Some,
            r matches Some(p) ==> prepared_key(self.bytes@) == Some(p@),
    {
        match groth16_prepare_key(self.bytes.as_slice()) {
            Some(bytes) => {
                assert(prepared_key(self.bytes@) == Some(bytes@));
                Some(PreparedVerifyingKey { bytes })
            },
            None => None,
        }
    }
}

impl View for PreparedVerifyingKey {
    type V = Seq<u8>;

    closed spec fn view(&self) -> Seq<u8> {
        self.bytes@
    }
}

impl Clone for PreparedVerifyingKey {
    fn clone(&self) -> (r: Self)
        ensures
            r@ == self@,
    {
        proof {
            use_type_invariant(self);
        }
        PreparedVerifyingKey { bytes: vstd::slice::slice_to_vec(self.bytes.as_slice()) }
    }
}

impl PreparedVerifyingKey {
    #[verifier::type_invariant]
    spec fn genuine(self) -> bool {
        is_prepared_key(self.bytes@)
    }

    /// The key's bytes.
    pub fn as_bytes(&self) -> (r: &[u8])
        ensures
            r@ == self@,
            is_prepared_key(self@),
    {
        proof {
            use_type_invariant(self);
        }
        self.bytes.as_slice()
    }

    /// Takes the bytes of a prepared key as such where preparing the
    /// verifying key inside them gives the same bytes again.
    pub fn from_bytes(bytes: Vec<u8>) -> (r: Option<PreparedVerifyingKey>)
        ensures
            r is Some <==> prepares_to_itself(bytes@),
            r matches Some(p) ==> p@ == bytes@,
    {
        let vk = match groth16_unprepare_key(bytes.as_slice()) {
            Some(vk) => vk,
            None => {
                return None;
            },
        };
        match groth16_prepare_key(vk.as_slice()) {
            Some(again) => {
                if bytes_equal(again.as_slice(), bytes.as_slice()) {
                    assert(prepared_key(vk@) == Some(bytes@));
                    Some(PreparedVerifyingKey { bytes })
                } else {
                    None
                }
            },
            None => None,
        }
    }
}

impl Proof {
    /// The proof in uncompressed form.
    pub fn to_bytes(&self) -> (r: Vec<u8>)
        ensures
            r@ == proof_bytes(*self),
    {
        let mut out: Vec<u8> = Vec::new();
        out.extend_from_slice(self.a.bytes.as_slice());
        out.extend_from_slice(self.b.bytes.as_slice());
        out.extend_from_slice(self.c.bytes.as_slice());
        out
    }

    /// Splits 256 bytes into the three points of a proof; any other length
    /// gives nothing.
    pub fn from_bytes(bytes: &[u8]) -> (r: Option<Proof>)
        ensures
            r is Some <==> bytes@.len() == PROOF_LEN,
            r matches Some(p) ==> proof_bytes(p) == bytes@,
    {
        if bytes.len() != PROOF_LEN {
            return None;
        }
        let mut a = [0u8; 64];
        let mut b = [0u8; 128];
        let mut c = [0u8; 64];
        let mut i: usize = 0;
        while i < 64
            invariant
                0 <= i <= 64,
                bytes@.len() == 256,
                forall|j: int| 0 <= j < i ==> a@[j] == bytes@[j],
                forall|j: int| 0 <= j < i ==> c@[j] == bytes@[192 + j],
            decreases 64 - i,
        {
            a[i] = bytes[i];
            c[i] = bytes[192 + i];
            i += 1;
        }
        let mut i: usize = 0;
        while i < 128
            invariant
                0 <= i <= 128,
                bytes@.len() == 256,
                forall|j: int| 0 <= j < i ==> b@[j] == bytes@[64 + j],
            decreases 128 - i,
        {
            b[i] = bytes[64 + i];
            i += 1;
        }
        let p = Proof { a: G1Point { bytes: a }, b: G2Point { bytes: b }, c: G1Point { bytes: c } };
        assert(proof_bytes(p) =~= bytes@);
        Some(p)
    }
}

} // verus!
