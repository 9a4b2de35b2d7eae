//! The prover: checks of the inputs and keys, the proving call, and the
//! three packages in which a proof leaves the prover.

use crate::circuit::ConstraintSynthesizer;
use crate::field::bytes_to_field;
use crate::field::decoded_field;
use crate::field::FieldElement;
use crate::groth16::groth16_prepare_inputs;
use crate::groth16::groth16_prove;
use crate::groth16::key_populated;
use crate::groth16::prepared_inputs;
use crate::groth16::prepared_key;
use crate::groth16::proof_bytes;
use crate::groth16::proving_key_query_sizes;
use crate::groth16::values_of;
use crate::groth16::G1Point;
use crate::groth16::PreparedVerifyingKey;
use crate::groth16::Proof;
use crate::groth16::ProvingKey;
use crate::groth16::VerifyingKey;
use crate::groth16::PROOF_LEN;
use crate::r1cs::fresh_system;
use crate::r1cs::satisfied;
use crate::r1cs::ConstraintSystem;
use crate::r1cs::R1cs;
use vstd::prelude::*;
use vstd::string::StringExecFns;

verus! {

/// Why no proof package was made.
#[derive(Clone, Debug, PartialEq, Eq)]
pub enum ProofError {
    /// A public input is not a field element, or there are not as many as
    /// the circuit has public variables; the text says which.
    InvalidPublicInput(String),
    /// The proving key cannot be used: it does not decode, or a query vector
    /// that the prover needs is empty.
    InvalidProvingKey,
    /// The circuit cannot write its constraints.
    CircuitValidationFailed,
    /// The circuit's assignment does not satisfy its constraints, or the
    /// proof system gave no proof.
    ProofGenerationFailed,
}

/// The proof with the raw public inputs and the prepared verifying key, all
/// as bytes: for storage and transport.
#[derive(Clone, Debug, PartialEq, Eq)]
pub struct ProofPackageLite {
    pub proof: Vec<u8>,
    pub public_inputs: Vec<[u8; 32]>,
    pub verifying_key: Vec<u8>,
}

/// The proof with the prepared public input and the verifying key, all as
/// bytes: what a constrained verifier's input is built from.
#[derive(Clone, Debug, PartialEq, Eq)]
pub struct ProofPackagePrepared {
    pub proof: Vec<u8>,
    pub public_inputs: Vec<u8>,
    pub verifying_key: Vec<u8>,
}

/// The proof with the prepared public input and the prepared verifying key:
/// what the general verifier takes.
#[derive(Clone, Debug, PartialEq, Eq)]
pub struct ProofPackage {
    pub proof: Proof,
    pub public_inputs: G1Point,
    pub prepared_verifying_key: PreparedVerifyingKey,
}

/// Whether the circuit can write its constraints into a new system: its
/// values are set, and it fits.
pub open spec fn can_synthesize<C: ConstraintSynthesizer>(circuit: C) -> bool {
    circuit.is_assigned() && circuit.fits(fresh_system())
}

/// Whether every public input is the encoding of a field element.
pub open spec fn inputs_canonical(inputs: Seq<[u8; 32]>) -> bool {
    forall|i: int| 0 <= i < inputs.len() ==> decoded_field((#[trigger] inputs[i])@) is Some
}

/// The field elements that the public inputs encode.
pub open spec fn input_values(inputs: Seq<[u8; 32]>) -> Seq<nat> {
    Seq::new(inputs.len(), |i: int| decoded_field(inputs[i]@)->0)
}

/// The number of public inputs that a system expects: its public variables
/// without the constant one.
pub open spec fn expected_inputs(s: R1cs) -> nat {
    if s.instance.len() >= 1 {
        (s.instance.len() - 1) as nat
    } else {
        0
    }
}

/// Whether the three packages hold one proof and what belongs to it: the
/// same proof bytes in each, the public inputs as given, the prepared key
/// that the verifying key gives, and the prepared input that this key gives
/// for those inputs.
pub open spec fn packages_agree(
    lite: ProofPackageLite,
    prepared: ProofPackagePrepared,
    native: ProofPackage,
    vk: Seq<u8>,
    public_inputs: Seq<[u8; 32]>,
) -> bool {
    &&& lite.proof@ == proof_bytes(native.proof)
    &&& prepared.proof@ == proof_bytes(native.proof)
    &&& lite.public_inputs@ == public_inputs
    &&& prepared_key(vk) == Some(native.prepared_verifying_key@)
    &&& lite.verifying_key@ == native.prepared_verifying_key@
    &&& prepared.verifying_key@ == vk
    &&& prepared_inputs(native.prepared_verifying_key@, input_values(public_inputs)) == Some(
        native.public_inputs.bytes@,
    )
    &&& prepared.public_inputs@ == native.public_inputs.bytes@
}

/// Reads a public input as a field element.
pub fn validate_public_input(input: &[u8; 32]) -> (r: Result<FieldElement, ProofError>)
    ensures
        match decoded_field(input@) {
            Some(v) => r is Ok && r->Ok_0@ == v,
            None => r is Err && is_input_error(r->Err_0, not_canonical_text()),
        },
{
    match bytes_to_field(input.as_slice()) {
        Ok(field_element) => Ok(field_element),
        Err(_) => Err(
            ProofError::InvalidPublicInput("Failed to convert bytes to field element".to_string()),
        ),
    }
}

/// Checks that the circuit can write its constraints and that the proving
/// key has what the prover reads from it.
pub fn validate_proving_key<C: ConstraintSynthesizer>(proving_key: &ProvingKey, circuit: &C) -> (r:
    Result<(), ProofError>)
    ensures
        !can_synthesize(*circuit) ==> r is Err && r->Err_0 is CircuitValidationFailed,
        can_synthesize(*circuit) && !key_populated(proving_key.bytes@) ==> r is Err && r->Err_0 is InvalidProvingKey,
        can_synthesize(*circuit) && key_populated(proving_key.bytes@) ==> r is Ok,
{
    let mut cs = ConstraintSystem::new();
    if circuit.generate_constraints(&mut cs).is_err() {
        return Err(ProofError::CircuitValidationFailed);
    }
    match proving_key_query_sizes(proving_key.bytes.as_slice()) {
        Some(n) => {
            if n.a == 0 || n.b_g1 == 0 || n.b_g2 == 0 {
                Err(ProofError::InvalidProvingKey)
            } else {
                Ok(())
            }
        },
        None => Err(ProofError::InvalidProvingKey),
    }
}

/// Reads every public input as a field element; fails at the first that is
/// none.
pub fn validate_public_inputs(public_inputs: &Vec<[u8; 32]>) -> (r: Result<
    Vec<FieldElement>,
    ProofError,
>)
    ensures
        inputs_canonical(public_inputs@) ==> r is Ok && values_of(r->Ok_0@) == input_values(
            public_inputs@,
        ),
        !inputs_canonical(public_inputs@) ==> r is Err && is_input_error(
            r->Err_0,
            not_canonical_text(),
        ),
{
    let mut values: Vec<FieldElement> = Vec::new();
    let mut i: usize = 0;
    while i < public_inputs.len()
        invariant
            0 <= i <= public_inputs@.len(),
            values@.len() == i,
            forall|j: int| 0 <= j < i ==> decoded_field((#[trigger] public_inputs@[j])@) is Some,
            forall|j: int|
                0 <= j < i ==> (#[trigger] values@[j])@ == decoded_field(public_inputs@[j]@)->0,
        decreases public_inputs@.len() - i,
    {
        match validate_public_input(&public_inputs[i]) {
            Ok(v) => {
                values.push(v);
            },
            Err(e) => {
                return Err(e);
            },
        }
        i += 1;
    }
    assert(values_of(values@) =~= input_values(public_inputs@));
    Ok(values)
}

/// Puts the proof and what was prepared into the three packages. There is a
/// result where the proof system gave a proof of 256 bytes, a prepared key
/// and a prepared input; else the proof generation has failed.
pub fn assemble_packages(
    proof_data: Option<Vec<u8>>,
    prepared_verifying_key: Option<PreparedVerifyingKey>,
    prepared_public_input: Option<[u8; 64]>,
    verifying_key: &VerifyingKey,
    public_inputs: &Vec<[u8; 32]>,
) -> (r: Result<(ProofPackageLite, ProofPackagePrepared, ProofPackage), ProofError>)
    ensures
        r is Ok <==> (proof_data is Some && proof_data->0@.len() == PROOF_LEN && prepared_verifying_key is Some
            && prepared_public_input is Some),
        r is Err ==> r->Err_0 is ProofGenerationFailed,
        r matches Ok(p) ==> {
            &&& p.0.proof@ == proof_data->0@
            &&& p.0.public_inputs@ == public_inputs@
            &&& p.0.verifying_key@ == prepared_verifying_key->0@
            &&& p.1.proof@ == proof_data->0@
            &&& p.1.public_inputs@ == prepared_public_input->0@
            &&& p.1.verifying_key@ == verifying_key.bytes@
            &&& proof_bytes(p.2.proof) == proof_data->0@
            &&& p.2.public_inputs.bytes@ == prepared_public_input->0@
            &&& p.2.prepared_verifying_key@ == prepared_verifying_key->0@
        },
{
    let proof_bytes = match proof_data {
        Some(p) => p,
        None => { return Err(ProofError::ProofGenerationFailed); },
    };
    let parsed = match Proof::from_bytes(proof_bytes.as_slice()) {
        Some(p) => p,
        None => { return Err(ProofError::ProofGenerationFailed); },
    };
    let key = match prepared_verifying_key {
        Some(k) => k,
        None => { return Err(ProofError::ProofGenerationFailed); },
    };
    let input = match prepared_public_input {
        Some(p) => p,
        None => { return Err(ProofError::ProofGenerationFailed); },
    };
    let lite = ProofPackageLite {
        proof: vstd::slice::slice_to_vec(proof_bytes.as_slice()),
        public_inputs: vstd::slice::slice_to_vec(public_inputs.as_slice()),
        verifying_key: vstd::slice::slice_to_vec(key.as_bytes()),
    };
    let prepared = ProofPackagePrepared {
        proof: proof_bytes,
        public_inputs: vstd::slice::slice_to_vec(input.as_slice()),
        verifying_key: vstd::slice::slice_to_vec(verifying_key.bytes.as_slice()),
    };
    let native = ProofPackage {
        proof: parsed,
        public_inputs: G1Point { bytes: input },
        prepared_verifying_key: key,
    };
    Ok((lite, prepared, native))
}

/// Whether the public inputs are what the circuit asks for: each a field
/// element, and as many as the circuit has public variables.
pub open spec fn inputs_fit<C: ConstraintSynthesizer>(circuit: C, public_inputs: Seq<[u8; 32]>) -> bool {
    &&& inputs_canonical(public_inputs)
    &&& public_inputs.len() == expected_inputs(circuit.synthesized(fresh_system()))
}

/// The text of one decimal digit.
pub open spec fn digit_text(d: nat) -> Seq<char> {
    if d == 0 {
        "0"@
    } else if d == 1 {
        "1"@
    } else if d == 2 {
        "2"@
    } else if d == 3 {
        "3"@
    } else if d == 4 {
        "4"@
    } else if d == 5 {
        "5"@
    } else if d == 6 {
        "6"@
    } else if d == 7 {
        "7"@
    } else if d == 8 {
        "8"@
    } else {
        "9"@
    }
}

/// A number written in decimal, without leading zeros.
pub open spec fn decimal_text(n: nat) -> Seq<char>
    decreases n,
{
    if n < 10 {
        digit_text(n)
    } else {
        decimal_text(n / 10) + digit_text(n % 10)
    }
}

/// What is said of a public input that is no field element.
pub open spec fn not_canonical_text() -> Seq<char> {
    "Failed to convert bytes to field element"@
}

/// What is said where the number of public inputs is not the circuit's.
pub open spec fn count_mismatch_text(expected: nat, got: nat) -> Seq<char> {
    "Number of public inputs doesn't match circuit: expected "@ + decimal_text(expected)
        + ", got "@ + decimal_text(got)
}

/// Whether the error is an invalid public input with the given text.
pub open spec fn is_input_error(e: ProofError, text: Seq<char>) -> bool {
    e matches ProofError::InvalidPublicInput(m) && m@ == text
}

/// One decimal digit as text.
fn digit_str(d: usize) -> (r: &'static str)
    requires
        d < 10,
    ensures
        r@ == digit_text(d as nat),
{
    if d == 0 {
        "0"
    } else if d == 1 {
        "1"
    } else if d == 2 {
        "2"
    } else if d == 3 {
        "3"
    } else if d == 4 {
        "4"
    } else if d == 5 {
        "5"
    } else if d == 6 {
        "6"
    } else if d == 7 {
        "7"
    } else if d == 8 {
        "8"
    } else {
        "9"
    }
}

/// A number as decimal text.
pub fn decimal_string(n: usize) -> (r: String)
    ensures
        r@ == decimal_text(n as nat),
    decreases n,
{
    if n < 10 {
        String::from_str(digit_str(n))
    } else {
        decimal_string(n / 10).concat(digit_str(n % 10))
    }
}

/// The sentence that tells the two numbers of a mismatch.
fn count_mismatch_message(expected: usize, got: usize) -> (r: String)
    ensures
        r@ == count_mismatch_text(expected as nat, got as nat),
{
    let expected_text = decimal_string(expected);
    let got_text = decimal_string(got);
    String::from_str("Number of public inputs doesn't match circuit: expected ").concat(
        expected_text.as_str(),
    ).concat(", got ").concat(got_text.as_str())
}

impl ProofError {
    /// The error as a sentence.
    pub fn to_string(&self) -> (r: String)
        ensures
            r@ == match *self {
                ProofError::InvalidPublicInput(m) => "Invalid public input: "@ + m@,
                ProofError::InvalidProvingKey => "Invalid proving key"@,
                ProofError::CircuitValidationFailed => "Circuit validation failed"@,
                ProofError::ProofGenerationFailed => "Proof generation failed"@,
            },
    {
        match self {
            ProofError::InvalidPublicInput(m) => String::from_str("Invalid public input: ").concat(
                m.as_str(),
            ),
            ProofError::InvalidProvingKey => String::from_str("Invalid proving key"),
            ProofError::CircuitValidationFailed => String::from_str("Circuit validation failed"),
            ProofError::ProofGenerationFailed => String::from_str("Proof generation failed"),
        }
    }
}

/// Makes a proof that the circuit's constraints are satisfied and packs it in
/// three ways.
///
/// The checks come first, in this order: the circuit can write its
/// constraints; the proving key has what the prover needs; every public input
/// is a field element; there are as many as the circuit has public variables;
/// the circuit's own assignment satisfies its constraints. Only then is the
/// proof system asked for a proof, which it may still refuse.
pub fn generate_proof_package<C: ConstraintSynthesizer>(
    proving_key: &ProvingKey,
    verifying_key: &VerifyingKey,
    circuit: C,
    public_inputs: &Vec<[u8; 32]>,
) -> (r: Result<(ProofPackageLite, ProofPackagePrepared, ProofPackage), ProofError>)
    ensures
        !can_synthesize(circuit) ==> r is Err && r->Err_0 is CircuitValidationFailed,
        can_synthesize(circuit) && !key_populated(proving_key.bytes@) ==> r is Err && r->Err_0 is InvalidProvingKey,
        can_synthesize(circuit) && key_populated(proving_key.bytes@) && !inputs_canonical(
            public_inputs@,
        ) ==> r is Err && is_input_error(r->Err_0, not_canonical_text()),
        can_synthesize(circuit) && key_populated(proving_key.bytes@) && inputs_canonical(
            public_inputs@,
        ) && !inputs_fit(circuit, public_inputs@) ==> r is Err && is_input_error(
            r->Err_0,
            count_mismatch_text(
                expected_inputs(circuit.synthesized(fresh_system())),
                public_inputs@.len(),
            ),
        ),
        can_synthesize(circuit) && key_populated(proving_key.bytes@) && inputs_fit(
            circuit,
            public_inputs@,
        ) ==> (r is Err ==> r->Err_0 is ProofGenerationFailed),
        can_synthesize(circuit) && !satisfied(circuit.synthesized(fresh_system())) ==> r is Err,
        r matches Ok(p) ==> packages_agree(p.0, p.1, p.2, verifying_key.bytes@, public_inputs@),
{
    match validate_proving_key(proving_key, &circuit) {
        Ok(()) => {},
        Err(e) => {
            return Err(e);
        },
    }
    let inputs = match validate_public_inputs(public_inputs) {
        Ok(v) => v,
        Err(e) => {
            return Err(e);
        },
    };
    let mut cs = ConstraintSystem::new();
    if circuit.generate_constraints(&mut cs).is_err() {
        return Err(ProofError::CircuitValidationFailed);
    }
    let expected = cs.num_instance_variables().saturating_sub(1);
    assert(values_of(inputs@).len() == inputs@.len());
    assert(input_values(public_inputs@).len() == public_inputs@.len());
    assert(expected == expected_inputs(circuit.synthesized(fresh_system())));
    if inputs.len() != expected {
        return Err(ProofError::InvalidPublicInput(count_mismatch_message(expected, inputs.len())));
    }
    if !cs.is_satisfied() {
        return Err(ProofError::ProofGenerationFailed);
    }
    let proof_data = groth16_prove(proving_key.bytes.as_slice(), &cs);
    let prepared_verifying_key = verifying_key.prepare();
    let prepared_public_input = match &prepared_verifying_key {
        Some(key) => groth16_prepare_inputs(key.as_bytes(), &inputs),
        None => None,
    };
    assemble_packages(
        proof_data,
        prepared_verifying_key,
        prepared_public_input,
        verifying_key,
        public_inputs,
    )
}

} // verus!
