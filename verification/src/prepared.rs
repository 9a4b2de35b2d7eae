//! The constrained verifier: a host that can do one multi-pairing check on a
//! flat buffer, and nothing else. This module checks the shape of what the
//! host will be given, lays the buffer out, and reads the host's answer.

use vstd::prelude::*;

verus! {

/// The length of the buffer that the host's pairing check is given: four
/// pairs of a 64-byte and a 128-byte point.
pub const PAIRING_INPUT_LEN: usize = 768;

/// What can go wrong in the constrained verifier.
#[derive(Clone, Copy, Debug, PartialEq, Eq)]
pub enum Groth16Error {
    IncompatibleVerifyingKeyWithNrPublicInputs,
    ProofVerificationFailed,
    /// The host's pairing check failed to run.
    PairingVerificationError,
    PreparingInputsG1AdditionFailed,
    PreparingInputsG1MulFailed,
    /// A point of the first group was not given in 64 bytes.
    InvalidG1Length,
    /// A point of the second group was not given in 128 bytes.
    InvalidG2Length,
    /// The prepared public input was not given in 64 bytes.
    InvalidPublicInputsLength,
    DecompressingG1Failed,
    DecompressingG2Failed,
    PublicInputGreaterThenFieldSize,
}

impl Groth16Error {
    /// The error's name.
    pub fn to_string(&self) -> (r: String)
        ensures
            r@ == match *self {
                Groth16Error::IncompatibleVerifyingKeyWithNrPublicInputs => "Incompatible Verifying Key with number of public inputs"@,
                Groth16Error::ProofVerificationFailed => "ProofVerificationFailed"@,
                Groth16Error::PairingVerificationError => "PairingVerificationError"@,
                Groth16Error::PreparingInputsG1AdditionFailed => "PreparingInputsG1AdditionFailed"@,
                Groth16Error::PreparingInputsG1MulFailed => "PreparingInputsG1MulFailed"@,
                Groth16Error::InvalidG1Length => "InvalidG1Length"@,
                Groth16Error::InvalidG2Length => "InvalidG2Length"@,
                Groth16Error::InvalidPublicInputsLength => "InvalidPublicInputsLength"@,
                Groth16Error::DecompressingG1Failed => "DecompressingG1Failed"@,
                Groth16Error::DecompressingG2Failed => "DecompressingG2Failed"@,
                Groth16Error::PublicInputGreaterThenFieldSize => "PublicInputGreaterThenFieldSize"@,
            },
    {
        match self {
            Groth16Error::IncompatibleVerifyingKeyWithNrPublicInputs => "Incompatible Verifying Key with number of public inputs".to_string(),
            Groth16Error::ProofVerificationFailed => "ProofVerificationFailed".to_string(),
            Groth16Error::PairingVerificationError => "PairingVerificationError".to_string(),
            Groth16Error::PreparingInputsG1AdditionFailed => "PreparingInputsG1AdditionFailed".to_string(),
            Groth16Error::PreparingInputsG1MulFailed => "PreparingInputsG1MulFailed".to_string(),
            Groth16Error::InvalidG1Length => "InvalidG1Length".to_string(),
            Groth16Error::InvalidG2Length => "InvalidG2Length".to_string(),
            Groth16Error::InvalidPublicInputsLength => "InvalidPublicInputsLength".to_string(),
            Groth16Error::DecompressingG1Failed => "DecompressingG1Failed".to_string(),
            Groth16Error::DecompressingG2Failed => "DecompressingG2Failed".to_string(),
            Groth16Error::PublicInputGreaterThenFieldSize => "PublicInputGreaterThenFieldSize".to_string(),
        }
    }
}

/// The four points of a verifying key that the pairing check uses.
#[derive(Clone, Debug, PartialEq, Eq)]
pub struct Groth16VerifyingKeyPrepared {
    pub vk_alpha_g1: [u8; 64],
    pub vk_beta_g2: [u8; 128],
    pub vk_gamma_g2: [u8; 128],
    pub vk_delta_g2: [u8; 128],
}

/// A record of the verifications that a host has seen.
#[derive(Clone, Debug, PartialEq, Eq)]
pub struct VerificationState {
    pub total_verifications: u64,
    /// The first half of the last verified prepared input.
    pub last_amount: [u8; 32],
    pub last_timestamp: i64,
}

impl VerificationState {
    /// The size of the record in its stored form: two 8-byte numbers around
    /// the 32 bytes of the amount.
    pub const LEN: usize = 48;

    /// Counts one more verification and notes its prepared input and time.
    pub fn record(&mut self, amount: &[u8; 64], timestamp: i64)
        requires
            old(self).total_verifications < u64::MAX,
        ensures
            final(self).total_verifications == old(self).total_verifications + 1,
            final(self).last_amount@ == amount@.take(32),
            final(self).last_timestamp == timestamp,
    {
        self.total_verifications = self.total_verifications + 1;
        let mut last = [0u8; 32];
        let mut i: usize = 0;
        while i < 32
            invariant
                0 <= i <= 32,
                forall|j: int| 0 <= j < i ==> last@[j] == amount@[j],
            decreases 32 - i,
        {
            last[i] = amount[i];
            i += 1;
        }
        assert(last@ =~= amount@.take(32));
        self.last_amount = last;
        self.last_timestamp = timestamp;
    }
}

/// A proof, its prepared public input and the verifying key's points, each
/// in the exact number of bytes that the host's pairing check reads. The
/// field types fix the lengths; `new` takes buffers of any length and
/// refuses those of another.
#[derive(Clone, Debug, PartialEq, Eq)]
pub struct Groth16VerifierPrepared {
    pub proof_a: [u8; 64],
    pub proof_b: [u8; 128],
    pub proof_c: [u8; 64],
    pub prepared_public_inputs: [u8; 64],
    pub verifying_key: Box<Groth16VerifyingKeyPrepared>,
}

/// The error that `Groth16VerifierPrepared::new` gives for buffers of these
/// lengths, if any: the first length that is wrong decides, in the order A,
/// B, C, prepared input.
pub open spec fn length_error(a: nat, b: nat, c: nat, input: nat) -> Option<Groth16Error> {
    if a != 64 {
        Some(Groth16Error::InvalidG1Length)
    } else if b != 128 {
        Some(Groth16Error::InvalidG2Length)
    } else if c != 64 {
        Some(Groth16Error::InvalidG1Length)
    } else if input != 64 {
        Some(Groth16Error::InvalidPublicInputsLength)
    } else {
        None
    }
}

/// The buffer for the pairing check: the four pairs of the Groth16 equation,
/// `(A, B)`, `(prepared input, gamma)`, `(C, delta)`, `(alpha, beta)`.
pub open spec fn pairing_layout(
    a: Seq<u8>,
    b: Seq<u8>,
    c: Seq<u8>,
    input: Seq<u8>,
    key: Groth16VerifyingKeyPrepared,
) -> Seq<u8> {
    a + b + input + key.vk_gamma_g2@ + c + key.vk_delta_g2@ + key.vk_alpha_g1@ + key.vk_beta_g2@
}

/// Copies a slice of 64 bytes into an array.
fn copy_64(s: &[u8]) -> (r: [u8; 64])
    requires
        s@.len() == 64,
    ensures
        r@ == s@,
{
    let mut out = [0u8; 64];
    let mut i: usize = 0;
    while i < 64
        invariant
            0 <= i <= 64,
            s@.len() == 64,
            forall|j: int| 0 <= j < i ==> out@[j] == s@[j],
        decreases 64 - i,
    {
        out[i] = s[i];
        i += 1;
    }
    assert(out@ =~= s@);
    out
}

/// Copies a slice of 128 bytes into an array.
fn copy_128(s: &[u8]) -> (r: [u8; 128])
    requires
        s@.len() == 128,
    ensures
        r@ == s@,
{
    let mut out = [0u8; 128];
    let mut i: usize = 0;
    while i < 128
        invariant
            0 <= i <= 128,
            s@.len() == 128,
            forall|j: int| 0 <= j < i ==> out@[j] == s@[j],
        decreases 128 - i,
    {
        out[i] = s[i];
        i += 1;
    }
    assert(out@ =~= s@);
    out
}

impl Groth16VerifierPrepared {
    /// The buffer that the host's pairing check is to be given.
    pub open spec fn layout(self) -> Seq<u8> {
        pairing_layout(
            self.proof_a@,
            self.proof_b@,
            self.proof_c@,
            self.prepared_public_inputs@,
            *self.verifying_key,
        )
    }

    /// Takes the parts of a verifier's input. A, C and the prepared input
    /// must have 64 bytes and B 128; the first that has not decides the
    /// error. No pairing is tried here.
    pub fn new(
        proof_a: &[u8],
        proof_b: &[u8],
        proof_c: &[u8],
        prepared_public_inputs: &[u8],
        verifying_key: Box<Groth16VerifyingKeyPrepared>,
    ) -> (r: Result<Self, Groth16Error>)
        ensures
            match length_error(
                proof_a@.len(),
                proof_b@.len(),
                proof_c@.len(),
                prepared_public_inputs@.len(),
            ) {
                Some(e) => r == Err::<Self, Groth16Error>(e),
                None => r is Ok && r->Ok_0.proof_a@ == proof_a@ && r->Ok_0.proof_b@ == proof_b@
                    && r->Ok_0.proof_c@ == proof_c@ && r->Ok_0.prepared_public_inputs@
                    == prepared_public_inputs@ && *r->Ok_0.verifying_key == *verifying_key,
            },
    {
        if proof_a.len() != 64 {
            return Err(Groth16Error::InvalidG1Length);
        }
        if proof_b.len() != 128 {
            return Err(Groth16Error::InvalidG2Length);
        }
        if proof_c.len() != 64 {
            return Err(Groth16Error::InvalidG1Length);
        }
        if prepared_public_inputs.len() != 64 {
            return Err(Groth16Error::InvalidPublicInputsLength);
        }
        Ok(
            Groth16VerifierPrepared {
                proof_a: copy_64(proof_a),
                proof_b: copy_128(proof_b),
                proof_c: copy_64(proof_c),
                prepared_public_inputs: copy_64(prepared_public_inputs),
                verifying_key,
            },
        )
    }

    /// The prepared public input, which a host may record once the proof is
    /// verified.
    pub fn verified_public_input(&self) -> (r: [u8; 64])
        ensures
            r@ == self.prepared_public_inputs@,
    {
        self.prepared_public_inputs
    }

    /// Lays out the buffer for the host's pairing check.
    pub fn pairing_input(&self) -> (r: Vec<u8>)
        ensures
            r@ == self.layout(),
            r@.len() == PAIRING_INPUT_LEN,
    {
        let mut out: Vec<u8> = Vec::new();
        out.extend_from_slice(self.proof_a.as_slice());
        out.extend_from_slice(self.proof_b.as_slice());
        out.extend_from_slice(self.prepared_public_inputs.as_slice());
        out.extend_from_slice(self.verifying_key.vk_gamma_g2.as_slice());
        out.extend_from_slice(self.proof_c.as_slice());
        out.extend_from_slice(self.verifying_key.vk_delta_g2.as_slice());
        out.extend_from_slice(self.verifying_key.vk_alpha_g1.as_slice());
        out.extend_from_slice(self.verifying_key.vk_beta_g2.as_slice());
        out
    }

    /// Reads the answer of the host that was given `pairing_input()`: its
    /// verdict where it gave one, and an error where its check failed to
    /// run, whatever the host's code for that was.
    pub fn verify(&self, pairing: Result<bool, u32>) -> (r: Result<bool, Groth16Error>)
        ensures
            r == match pairing {
                Ok(accepted) => Ok::<bool, Groth16Error>(accepted),
                Err(_) => Err::<bool, Groth16Error>(Groth16Error::PairingVerificationError),
            },
    {
        match pairing {
            Ok(accepted) => Ok(accepted),
            Err(_) => Err(Groth16Error::PairingVerificationError),
        }
    }
}

} // verus!
