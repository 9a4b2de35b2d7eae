use zk_inequality::byte_utils::alt_bn128_pairing;
use zk_inequality::prepared::{
    Groth16Error, Groth16VerifierPrepared, Groth16VerifyingKeyPrepared, VerificationState,
    PAIRING_INPUT_LEN,
};

fn zero_key() -> Box<Groth16VerifyingKeyPrepared> {
    Box::new(Groth16VerifyingKeyPrepared {
        vk_alpha_g1: [0u8; 64],
        vk_beta_g2: [0u8; 128],
        vk_gamma_g2: [0u8; 128],
        vk_delta_g2: [0u8; 128],
    })
}

#[test]
fn test_groth16_verifier_prepared_creation() {
    let proof_a = [0u8; 64];
    let proof_b = [0u8; 128];
    let proof_c = [0u8; 64];
    let prepared_public_inputs = [0u8; 64];
    let verifying_key = Box::new(Groth16VerifyingKeyPrepared {
        vk_alpha_g1: [0u8; 64],
        vk_beta_g2: [0u8; 128],
        vk_gamma_g2: [0u8; 128],
        vk_delta_g2: [0u8; 128],
    });

    let result = Groth16VerifierPrepared::new(
        &proof_a,
        &proof_b,
        &proof_c,
        &prepared_public_inputs,
        verifying_key,
    );

    assert!(result.is_ok());
}

#[test]
fn test_invalid_proof_lengths() {
    let short_proof_a = [0u8; 63];
    let proof_b = [0u8; 128];
    let proof_c = [0u8; 64];
    let prepared_public_inputs = [0u8; 64];
    let verifying_key = Box::new(Groth16VerifyingKeyPrepared {
        vk_alpha_g1: [0u8; 64],
        vk_beta_g2: [0u8; 128],
        vk_gamma_g2: [0u8; 128],
        vk_delta_g2: [0u8; 128],
    });

    let result = Groth16VerifierPrepared::new(
        &short_proof_a,
        &proof_b,
        &proof_c,
        &prepared_public_inputs,
        verifying_key,
    );

    assert!(result.is_err());
    assert_eq!(result.unwrap_err(), Groth16Error::InvalidG1Length);
}

#[test]
fn test_groth16_error_types() {
    assert_eq!(Groth16Error::InvalidG1Length.to_string(), "InvalidG1Length");
    assert_eq!(Groth16Error::InvalidG2Length.to_string(), "InvalidG2Length");
}

#[test]
fn every_error_has_its_name() {
    assert_eq!(
        Groth16Error::IncompatibleVerifyingKeyWithNrPublicInputs.to_string(),
        "Incompatible Verifying Key with number of public inputs"
    );
    assert_eq!(Groth16Error::ProofVerificationFailed.to_string(), "ProofVerificationFailed");
    assert_eq!(Groth16Error::PairingVerificationError.to_string(), "PairingVerificationError");
    assert_eq!(
        Groth16Error::PreparingInputsG1AdditionFailed.to_string(),
        "PreparingInputsG1AdditionFailed"
    );
    assert_eq!(Groth16Error::PreparingInputsG1MulFailed.to_string(), "PreparingInputsG1MulFailed");
    assert_eq!(Groth16Error::InvalidPublicInputsLength.to_string(), "InvalidPublicInputsLength");
    assert_eq!(Groth16Error::DecompressingG1Failed.to_string(), "DecompressingG1Failed");
    assert_eq!(Groth16Error::DecompressingG2Failed.to_string(), "DecompressingG2Failed");
    assert_eq!(
        Groth16Error::PublicInputGreaterThenFieldSize.to_string(),
        "PublicInputGreaterThenFieldSize"
    );
}

#[test]
fn each_wrong_length_gives_its_error() {
    let ok64 = [0u8; 64];
    let ok128 = [0u8; 128];
    let r = Groth16VerifierPrepared::new(&ok64, &[0u8; 127], &ok64, &ok64, zero_key());
    assert_eq!(r.unwrap_err(), Groth16Error::InvalidG2Length);
    let r = Groth16VerifierPrepared::new(&ok64, &ok128, &[0u8; 65], &ok64, zero_key());
    assert_eq!(r.unwrap_err(), Groth16Error::InvalidG1Length);
    let r = Groth16VerifierPrepared::new(&ok64, &ok128, &ok64, &[0u8; 32], zero_key());
    assert_eq!(r.unwrap_err(), Groth16Error::InvalidPublicInputsLength);
    let r = Groth16VerifierPrepared::new(&[], &[], &[], &[], zero_key());
    assert_eq!(r.unwrap_err(), Groth16Error::InvalidG1Length);
    // the first wrong length decides
    let r = Groth16VerifierPrepared::new(&ok64, &[0u8; 1], &[0u8; 1], &[0u8; 1], zero_key());
    assert_eq!(r.unwrap_err(), Groth16Error::InvalidG2Length);
}

#[test]
fn pairing_input_has_the_fixed_order() {
    let key = Box::new(Groth16VerifyingKeyPrepared {
        vk_alpha_g1: [7u8; 64],
        vk_beta_g2: [8u8; 128],
        vk_gamma_g2: [4u8; 128],
        vk_delta_g2: [6u8; 128],
    });
    let v = Groth16VerifierPrepared::new(&[1u8; 64], &[2u8; 128], &[5u8; 64], &[3u8; 64], key)
        .unwrap();
    let buffer = v.pairing_input();
    assert_eq!(buffer.len(), PAIRING_INPUT_LEN);
    assert_eq!(buffer.len(), 768);
    let mut expected: Vec<u8> = Vec::new();
    expected.extend_from_slice(&[1u8; 64]);
    expected.extend_from_slice(&[2u8; 128]);
    expected.extend_from_slice(&[3u8; 64]);
    expected.extend_from_slice(&[4u8; 128]);
    expected.extend_from_slice(&[5u8; 64]);
    expected.extend_from_slice(&[6u8; 128]);
    expected.extend_from_slice(&[7u8; 64]);
    expected.extend_from_slice(&[8u8; 128]);
    assert_eq!(buffer, expected);
    assert_eq!(v.verified_public_input(), [3u8; 64]);
    assert_eq!(v.prepared_public_inputs, [3u8; 64]);
}

#[test]
fn host_answer_is_read_as_given() {
    let v = Groth16VerifierPrepared::new(&[0u8; 64], &[0u8; 128], &[0u8; 64], &[0u8; 64], zero_key())
        .unwrap();
    assert_eq!(v.verify(Ok(true)), Ok(true));
    assert_eq!(v.verify(Ok(false)), Ok(false));
    assert_eq!(v.verify(Err(1)), Err(Groth16Error::PairingVerificationError));
    assert_eq!(v.verify(Err(u32::MAX)), Err(Groth16Error::PairingVerificationError));
}

#[test]
fn stand_in_pairing_answers_one() {
    let v = Groth16VerifierPrepared::new(&[0u8; 64], &[0u8; 128], &[0u8; 64], &[0u8; 64], zero_key())
        .unwrap();
    let answer = alt_bn128_pairing(&v.pairing_input()).unwrap();
    let mut one = [0u8; 32];
    one[31] = 1;
    assert_eq!(answer, one);
    assert_eq!(v.verify(Ok(answer == one)), Ok(true));
}

#[test]
fn verification_state_counts() {
    let mut state = VerificationState {
        total_verifications: 10,
        last_amount: [1u8; 32],
        last_timestamp: 1234567890,
    };
    assert_eq!(VerificationState::LEN, 48);
    let mut amount = [0u8; 64];
    for i in 0..64 {
        amount[i] = i as u8;
    }
    state.record(&amount, 1234567899);
    assert_eq!(state.total_verifications, 11);
    assert_eq!(state.last_timestamp, 1234567899);
    for i in 0..32 {
        assert_eq!(state.last_amount[i], i as u8);
    }
}
