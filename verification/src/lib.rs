//! Blind tokens over a pairing-friendly curve: key generation, blinding
//! factors, token issuance, blinding of tokens and timestamped proofs of
//! possession.
//!
//! Every value crosses the library's boundary as a fixed-length byte string,
//! and is decoded once, there.  The curve arithmetic itself is the `oberon`
//! crate's; this library states what it hands to that crate and what it makes
//! of the answers.

pub mod algebra;
pub mod blinding;
pub mod bytes;
pub mod clock;
pub mod error;
pub mod keys;
pub mod nonce;
pub mod prover;
pub mod randomness;
pub mod token;

pub use crate::blinding::{new_blinding, Blinding};
pub use crate::error::Error;
pub use crate::keys::{new_keys, KeyPair, PublicKey, SecretKey};
pub use crate::prover::{new_proof_timestamp, Proof, TimestampedProof};
pub use crate::randomness::Randomness;
pub use crate::token::{blind_token, new_token, Token};
