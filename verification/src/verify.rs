//! The general verifier: it first checks that every point it is given is a
//! point of the right group other than the point at infinity, and only then
//! asks for the pairing check.

use crate::groth16::g1_at_infinity;
use crate::groth16::g1_in_subgroup;
use crate::groth16::g1_is_in_subgroup;
use crate::groth16::g1_is_on_curve;
use crate::groth16::g1_is_zero;
use crate::groth16::g1_on_curve;
use crate::groth16::g2_at_infinity;
use crate::groth16::g2_in_subgroup;
use crate::groth16::g2_is_in_subgroup;
use crate::groth16::g2_is_on_curve;
use crate::groth16::g2_is_zero;
use crate::groth16::g2_on_curve;
use crate::groth16::groth16_pairing_check;
use crate::groth16::pairing_accepts;
use crate::groth16::prepared_key;
use crate::groth16::proof_bytes;
use crate::groth16::is_prepared_key;
use crate::groth16::G1Point;
use crate::groth16::G2Point;
use crate::groth16::Proof;
use crate::groth16::VerifyingKey;
use crate::prove::ProofPackage;
use vstd::prelude::*;

verus! {

/// Why a proof was not checked.
#[derive(Clone, Copy, Debug, PartialEq, Eq)]
pub enum VerificationError {
    /// A point of the proof is not a valid point.
    InvalidProof,
    /// The prepared public input is not a valid point.
    InvalidPublicInput,
    /// The pairing check could not be made.
    VerificationFailed,
}

impl VerificationError {
    /// The error as a sentence.
    pub fn to_string(&self) -> (r: String)
        ensures
            r@ == match *self {
                VerificationError::InvalidProof => "Invalid proof format"@,
                VerificationError::InvalidPublicInput => "Invalid public input"@,
                VerificationError::VerificationFailed => "Verification failed"@,
            },
    {
        match self {
            VerificationError::InvalidProof => "Invalid proof format".to_string(),
            VerificationError::InvalidPublicInput => "Invalid public input".to_string(),
            VerificationError::VerificationFailed => "Verification failed".to_string(),
        }
    }
}

/// Whether the bytes are a point of the first group that a verifier takes:
/// they decode, not to the point at infinity, to a point on the curve and in
/// the subgroup of prime order.
pub open spec fn g1_valid(p: Seq<u8>) -> bool {
    &&& g1_at_infinity(p) == Some(false)
    &&& g1_on_curve(p) == Some(true)
    &&& g1_in_subgroup(p) == Some(true)
}

/// Whether the bytes are a point of the second group that a verifier takes.
pub open spec fn g2_valid(p: Seq<u8>) -> bool {
    &&& g2_at_infinity(p) == Some(false)
    &&& g2_on_curve(p) == Some(true)
    &&& g2_in_subgroup(p) == Some(true)
}

/// Whether all three points of a proof are valid.
pub open spec fn proof_valid(p: Proof) -> bool {
    &&& g1_valid(p.a.bytes@)
    &&& g2_valid(p.b.bytes@)
    &&& g1_valid(p.c.bytes@)
}

/// What the pairing check says of a proof and a prepared input under a
/// prepared verifying key.
pub open spec fn checked(pvk: Seq<u8>, p: Proof, input: G1Point) -> Result<
    bool,
    VerificationError,
> {
    match pairing_accepts(pvk, proof_bytes(p), input.bytes@) {
        Some(accepted) => Ok(accepted),
        None => Err(VerificationError::VerificationFailed),
    }
}

/// What `verify` returns.
pub open spec fn verdict(p: Proof, input: G1Point, vk: Seq<u8>) -> Result<bool, VerificationError> {
    if !g1_valid(input.bytes@) {
        Err(VerificationError::InvalidPublicInput)
    } else if !proof_valid(p) {
        Err(VerificationError::InvalidProof)
    } else {
        match prepared_key(vk) {
            Some(pvk) => checked(pvk, p, input),
            None => Err(VerificationError::VerificationFailed),
        }
    }
}

/// What `verify_proof_package` returns.
pub open spec fn package_verdict(package: ProofPackage) -> Result<bool, VerificationError> {
    if !proof_valid(package.proof) {
        Err(VerificationError::InvalidProof)
    } else if !g1_valid(package.public_inputs.bytes@) {
        Err(VerificationError::InvalidPublicInput)
    } else {
        checked(package.prepared_verifying_key@, package.proof, package.public_inputs)
    }
}

/// Whether the point is a valid point of the first group.
pub fn is_valid_point(point: &G1Point) -> (r: bool)
    ensures
        r == g1_valid(point.bytes@),
{
    match g1_is_zero(&point.bytes) {
        Some(false) => {},
        _ => {
            return false;
        },
    }
    match g1_is_on_curve(&point.bytes) {
        Some(true) => {},
        _ => {
            return false;
        },
    }
    match g1_is_in_subgroup(&point.bytes) {
        Some(true) => true,
        _ => false,
    }
}

/// Whether the point is a valid point of the second group.
pub fn is_valid_g2_point(point: &G2Point) -> (r: bool)
    ensures
        r == g2_valid(point.bytes@),
{
    match g2_is_zero(&point.bytes) {
        Some(false) => {},
        _ => {
            return false;
        },
    }
    match g2_is_on_curve(&point.bytes) {
        Some(true) => {},
        _ => {
            return false;
        },
    }
    match g2_is_in_subgroup(&point.bytes) {
        Some(true) => true,
        _ => false,
    }
}

/// Whether all three points of the proof are valid.
pub fn is_valid_proof(p: &Proof) -> (r: bool)
    ensures
        r == proof_valid(*p),
{
    is_valid_point(&p.a) && is_valid_g2_point(&p.b) && is_valid_point(&p.c)
}

/// The pairing check on points that have been found valid.
fn check_pairing(pvk: &[u8], p: &Proof, input: &G1Point) -> (r: Result<bool, VerificationError>)
    requires
        is_prepared_key(pvk@),
    ensures
        r == checked(pvk@, *p, *input),
{
    let bytes = p.to_bytes();
    match groth16_pairing_check(pvk, bytes.as_slice(), &input.bytes) {
        Some(accepted) => Ok(accepted),
        None => Err(VerificationError::VerificationFailed),
    }
}

/// Verifies a proof against a prepared public input and a verifying key.
///
/// An invalid prepared input is reported before an invalid proof. Where all
/// points are valid the result is that of the pairing check: `Ok(false)` for
/// a proof that does not belong to the input and key.
pub fn verify(p: &Proof, public_inputs: &G1Point, vk: &VerifyingKey) -> (r: Result<
    bool,
    VerificationError,
>)
    ensures
        r == verdict(*p, *public_inputs, vk.bytes@),
{
    if !is_valid_point(public_inputs) {
        return Err(VerificationError::InvalidPublicInput);
    }
    if !is_valid_proof(p) {
        return Err(VerificationError::InvalidProof);
    }
    match vk.prepare() {
        Some(pvk) => check_pairing(pvk.as_bytes(), p, public_inputs),
        None => Err(VerificationError::VerificationFailed),
    }
}

/// Verifies a proof package. An invalid proof is reported before an invalid
/// prepared input.
pub fn verify_proof_package(proof_package: &ProofPackage) -> (r: Result<bool, VerificationError>)
    ensures
        r == package_verdict(*proof_package),
{
    if !is_valid_proof(&proof_package.proof) {
        return Err(VerificationError::InvalidProof);
    }
    if !is_valid_point(&proof_package.public_inputs) {
        return Err(VerificationError::InvalidPublicInput);
    }
    check_pairing(
        proof_package.prepared_verifying_key.as_bytes(),
        &proof_package.proof,
        &proof_package.public_inputs,
    )
}

} // verus!
