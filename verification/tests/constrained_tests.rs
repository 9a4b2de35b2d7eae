use ark_bn254::{Bn254, Fr, G1Affine, G2Affine};
use ark_ec::pairing::Pairing;
use ark_ec::{AffineRepr, CurveGroup};
use ark_ff::One;
use ark_groth16::Groth16;
use ark_relations::r1cs::{
    ConstraintSynthesizer as ArkSynthesizer, ConstraintSystemRef, LinearCombination,
    SynthesisError, Variable as ArkVariable,
};
use ark_serialize::{CanonicalDeserialize, CanonicalSerialize};
use ark_snark::SNARK;
use ark_std::UniformRand;
use rand::thread_rng;
use zk_inequality::byte_utils::{alt_bn128_pairing, convert_endianness};
use zk_inequality::circuit::{ConstraintSynthesizer, ExampleCircuit, TokenVerificationCircuit};
use zk_inequality::field::{field_to_bytes, FieldElement};
use zk_inequality::groth16::{ProvingKey, VerifyingKey};
use zk_inequality::prepared::{
    Groth16Error, Groth16VerifierPrepared, Groth16VerifyingKeyPrepared,
};
use zk_inequality::prove::{generate_proof_package, ProofPackagePrepared};
use zk_inequality::r1cs::{ConstraintMatrices, ConstraintSystem};

struct Replay {
    matrices: ConstraintMatrices,
}

fn to_fr(f: &FieldElement) -> Fr {
    Fr::deserialize_uncompressed(&field_to_bytes(f)[..]).unwrap()
}

fn to_lc(row: &Vec<(FieldElement, usize)>, num_instance: usize) -> LinearCombination<Fr> {
    LinearCombination(
        row.iter()
            .map(|(c, i)| {
                let var = if *i == 0 {
                    ArkVariable::One
                } else if *i < num_instance {
                    ArkVariable::Instance(*i)
                } else {
                    ArkVariable::Witness(*i - num_instance)
                };
                (to_fr(c), var)
            })
            .collect(),
    )
}

impl ArkSynthesizer<Fr> for Replay {
    fn generate_constraints(self, cs: ConstraintSystemRef<Fr>) -> Result<(), SynthesisError> {
        let m = self.matrices;
        for _ in 1..m.num_instance_variables {
            cs.new_input_variable(|| Err(SynthesisError::AssignmentMissing))?;
        }
        for _ in 0..m.num_witness_variables {
            cs.new_witness_variable(|| Err(SynthesisError::AssignmentMissing))?;
        }
        for i in 0..m.num_constraints {
            cs.enforce_constraint(
                to_lc(&m.a[i], m.num_instance_variables),
                to_lc(&m.b[i], m.num_instance_variables),
                to_lc(&m.c[i], m.num_instance_variables),
            )?;
        }
        Ok(())
    }
}

fn bytes_of<T: CanonicalSerialize>(value: &T) -> Vec<u8> {
    let mut out = Vec::new();
    value.serialize_uncompressed(&mut out).unwrap();
    out
}

fn setup<C: ConstraintSynthesizer>(circuit: &C) -> (ProvingKey, VerifyingKey) {
    let mut cs = ConstraintSystem::new();
    circuit.generate_constraints(&mut cs).unwrap();
    let replay = Replay { matrices: cs.to_matrices() };
    let (pk, vk) = Groth16::<Bn254>::circuit_specific_setup(replay, &mut thread_rng()).unwrap();
    (ProvingKey { bytes: bytes_of(&pk) }, VerifyingKey { bytes: bytes_of(&vk) })
}

/// A host in software: the product of the pairings of the buffer's pairs,
/// compared with one.
fn software_pairing(input: &[u8]) -> Result<bool, u32> {
    if input.len() % 192 != 0 {
        return Err(1);
    }
    let mut g1 = Vec::new();
    let mut g2 = Vec::new();
    for pair in input.chunks(192) {
        g1.push(G1Affine::deserialize_uncompressed(&pair[..64]).map_err(|_| 2u32)?);
        g2.push(G2Affine::deserialize_uncompressed(&pair[64..]).map_err(|_| 3u32)?);
    }
    Ok(Bn254::multi_pairing(g1, g2).0.is_one())
}

/// The same host behind the byte-order conversion: it is given the buffer
/// with every word converted and converts it back before it reads the points.
fn converting_host(input: &[u8]) -> Result<bool, u32> {
    let mut buffer = [0u8; 768];
    if input.len() != 768 {
        return Err(1);
    }
    buffer.copy_from_slice(input);
    let plain: [u8; 768] = convert_endianness::<768, 768>(&buffer).map_err(|_| 4u32)?;
    software_pairing(&plain)
}

/// The verifier's input for a package: the proof with A negated, so that the
/// four pairings multiply to one exactly when the proof holds.
fn build_verifier(package: &ProofPackagePrepared) -> Groth16VerifierPrepared {
    let proof =
        ark_groth16::Proof::<Bn254>::deserialize_uncompressed(&package.proof[..]).unwrap();
    let vk = ark_groth16::VerifyingKey::<Bn254>::deserialize_uncompressed(
        &package.verifying_key[..],
    )
    .unwrap();
    let neg_a: G1Affine = (-proof.a.into_group()).into();
    let mut key = Groth16VerifyingKeyPrepared {
        vk_alpha_g1: [0u8; 64],
        vk_beta_g2: [0u8; 128],
        vk_gamma_g2: [0u8; 128],
        vk_delta_g2: [0u8; 128],
    };
    key.vk_alpha_g1.copy_from_slice(&bytes_of(&vk.alpha_g1));
    key.vk_beta_g2.copy_from_slice(&bytes_of(&vk.beta_g2));
    key.vk_gamma_g2.copy_from_slice(&bytes_of(&vk.gamma_g2));
    key.vk_delta_g2.copy_from_slice(&bytes_of(&vk.delta_g2));
    Groth16VerifierPrepared::new(
        &bytes_of(&neg_a),
        &bytes_of(&proof.b),
        &bytes_of(&proof.c),
        &package.public_inputs,
        Box::new(key),
    )
    .unwrap()
}

#[test]
fn constrained_verifier_accepts_a_proof() {
    let circuit = ExampleCircuit::new(1000, 500).unwrap();
    let (pk, vk) = setup(&circuit);
    let (_, prepared, _) =
        generate_proof_package(&pk, &vk, circuit, &circuit.public_inputs().unwrap()).unwrap();
    let verifier = build_verifier(&prepared);
    let buffer = verifier.pairing_input();
    assert_eq!(buffer.len(), 768);
    assert_eq!(verifier.verify(software_pairing(&buffer)), Ok(true));
    assert_eq!(verifier.verified_public_input().to_vec(), prepared.public_inputs);
}

#[test]
fn constrained_verifier_accepts_equal_values() {
    let circuit = TokenVerificationCircuit::new(1000, 1000).unwrap();
    let (pk, vk) = setup(&circuit);
    let (_, prepared, _) =
        generate_proof_package(&pk, &vk, circuit, &circuit.public_inputs().unwrap()).unwrap();
    let verifier = build_verifier(&prepared);
    assert_eq!(verifier.verify(software_pairing(&verifier.pairing_input())), Ok(true));
}

#[test]
fn constrained_verifier_rejects_another_proof() {
    let circuit = ExampleCircuit::new(1000, 500).unwrap();
    let (pk, vk) = setup(&circuit);
    let (_, mut prepared, _) =
        generate_proof_package(&pk, &vk, circuit, &circuit.public_inputs().unwrap()).unwrap();
    // the same proof with another C
    let c = bytes_of(&G1Affine::rand(&mut thread_rng()));
    prepared.proof[192..].copy_from_slice(&c);
    let verifier = build_verifier(&prepared);
    assert_eq!(verifier.verify(software_pairing(&verifier.pairing_input())), Ok(false));
}

#[test]
fn constrained_verifier_reports_a_failed_check() {
    let key = Box::new(Groth16VerifyingKeyPrepared {
        vk_alpha_g1: [255u8; 64],
        vk_beta_g2: [255u8; 128],
        vk_gamma_g2: [255u8; 128],
        vk_delta_g2: [255u8; 128],
    });
    let verifier =
        Groth16VerifierPrepared::new(&[255u8; 64], &[255u8; 128], &[255u8; 64], &[255u8; 64], key)
            .unwrap();
    let answer = software_pairing(&verifier.pairing_input());
    assert!(answer.is_err());
    assert_eq!(verifier.verify(answer), Err(Groth16Error::PairingVerificationError));
}

#[test]
fn should_verify_basic_circuit_groth16() {
    let c = ExampleCircuit::new(100, 50).unwrap();
    let (pk, vk) = setup(&c);

    let c2 = ExampleCircuit::new(100, 50).unwrap();
    let public_input = c2.public_inputs().unwrap();
    let (_, prepared, _) = generate_proof_package(&pk, &vk, c2, &public_input).unwrap();

    let proof =
        ark_groth16::Proof::<Bn254>::deserialize_uncompressed(&prepared.proof[..]).unwrap();
    let proof_with_neg_a = ark_groth16::Proof::<Bn254> {
        a: (-proof.a.into_group()).into_affine(),
        b: proof.b,
        c: proof.c,
    };
    let proof_bytes = bytes_of(&proof_with_neg_a);

    let mut a = [0u8; 64];
    a.copy_from_slice(&proof_bytes[0..64]);
    let mut b = [0u8; 128];
    b.copy_from_slice(&proof_bytes[64..192]);
    let mut c = [0u8; 64];
    c.copy_from_slice(&proof_bytes[192..256]);
    let proof_a: [u8; 64] = convert_endianness::<64, 64>(&a).unwrap();
    let proof_b: [u8; 128] = convert_endianness::<128, 128>(&b).unwrap();
    let proof_c: [u8; 64] = convert_endianness::<64, 64>(&c).unwrap();
    assert_ne!(proof_a, a);

    let mut input = [0u8; 64];
    input.copy_from_slice(&prepared.public_inputs);
    let prepared_public_input = convert_endianness::<64, 64>(&input).unwrap();

    let ark_vk =
        ark_groth16::VerifyingKey::<Bn254>::deserialize_uncompressed(&prepared.verifying_key[..])
            .unwrap();
    let mut alpha = [0u8; 64];
    alpha.copy_from_slice(&bytes_of(&ark_vk.alpha_g1));
    let mut beta = [0u8; 128];
    beta.copy_from_slice(&bytes_of(&ark_vk.beta_g2));
    let mut gamma = [0u8; 128];
    gamma.copy_from_slice(&bytes_of(&ark_vk.gamma_g2));
    let mut delta = [0u8; 128];
    delta.copy_from_slice(&bytes_of(&ark_vk.delta_g2));
    let key = Groth16VerifyingKeyPrepared {
        vk_alpha_g1: convert_endianness::<64, 64>(&alpha).unwrap(),
        vk_beta_g2: convert_endianness::<128, 128>(&beta).unwrap(),
        vk_gamma_g2: convert_endianness::<128, 128>(&gamma).unwrap(),
        vk_delta_g2: convert_endianness::<128, 128>(&delta).unwrap(),
    };

    let verifier = Groth16VerifierPrepared::new(
        &proof_a,
        &proof_b,
        &proof_c,
        &prepared_public_input,
        Box::new(key),
    )
    .unwrap();

    assert_eq!(verifier.verify(converting_host(&verifier.pairing_input())), Ok(true));
    // a host that does not convert back cannot read the points
    assert_eq!(
        verifier.verify(software_pairing(&verifier.pairing_input())),
        Err(Groth16Error::PairingVerificationError)
    );
}

#[test]
fn test_alt_bn128_pairing_custom() {
    let mut rng = ark_std::test_rng();
    let s = Fr::rand(&mut rng);

    let p1 = G1Affine::generator();
    let q1 = G2Affine::generator();
    let p2 = (p1 * s).into_affine();
    let q2 = (q1 * s).into_affine();

    let mut input = Vec::new();
    input.extend_from_slice(&bytes_of(&p1));
    input.extend_from_slice(&bytes_of(&q1));
    input.extend_from_slice(&bytes_of(&p2));
    input.extend_from_slice(&bytes_of(&q2));
    assert_eq!(input.len(), 2 * 192);

    let mut converted_input: Vec<u8> = Vec::new();
    for chunk in input.chunks(192) {
        let mut first = [0u8; 64];
        first.copy_from_slice(&chunk[..64]);
        converted_input.extend_from_slice(&convert_endianness::<64, 128>(&first).unwrap());
        let mut second = [0u8; 64];
        second.copy_from_slice(&chunk[64..128]);
        converted_input.extend_from_slice(&convert_endianness::<64, 128>(&second).unwrap());
    }
    assert_eq!(converted_input.len(), 512);
    for k in 0..16 {
        for j in 0..4 {
            assert_eq!(converted_input[4 * k + j], input[4 * k + 3 - j]);
        }
    }
    assert_eq!(converted_input[64..128].to_vec(), vec![0u8; 64]);

    match alt_bn128_pairing(&converted_input) {
        Ok(_) => {}
        Err(e) => panic!("Pairing verification failed: {:?}", e),
    }

    let ark_result = Bn254::pairing(p1, q2) == Bn254::pairing(p2, q1);
    assert!(ark_result, "The arkworks pairing check should return true");
    // the same fact as one product of pairings
    let mut pairs = Vec::new();
    pairs.extend_from_slice(&bytes_of(&(-p1.into_group()).into_affine()));
    pairs.extend_from_slice(&bytes_of(&q2));
    pairs.extend_from_slice(&bytes_of(&p2));
    pairs.extend_from_slice(&bytes_of(&q1));
    assert_eq!(software_pairing(&pairs), Ok(true));
}
