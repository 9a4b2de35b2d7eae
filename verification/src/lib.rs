//! Zero-knowledge proofs that a private quantity is at least a public one:
//! the inequality circuit, proof packaging and the two verifiers, with the
//! BN254 arithmetic and the Groth16 proof system taken from arkworks.

pub mod byte_utils;
pub mod field;
pub mod r1cs;
pub mod circuit;
pub mod circuit_laws;
pub mod groth16;
pub mod prove;
pub mod verify;
pub mod prepared;
