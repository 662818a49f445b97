//! Secret keys, the public keys that belong to them, and their generation.
use crate::algebra::{
    accepts_secret_key, derive_public_key, draw_secret_key, hash_secret_key,
    is_secret_key_encoding, public_key_of, secret_key_from_randomness, secret_key_from_seed,
};
use crate::bytes::to_fixed;
use crate::error::Error;
use crate::randomness::Randomness;
use vstd::prelude::*;

verus! {

/// An issuer's signing key: three scalars, held in their canonical encoding.
#[derive(Debug, PartialEq, Eq)]
pub struct SecretKey {
    bytes: [u8; 96],
}

/// The verification key that belongs to a secret key, held in its canonical
/// encoding.  It is only ever derived from a secret key.
#[derive(Clone, Copy, Debug, PartialEq, Eq)]
pub struct PublicKey {
    bytes: [u8; 288],
}

/// A secret key together with the public key that belongs to it.
#[derive(Debug, PartialEq, Eq)]
pub struct KeyPair {
    pub secret_key: SecretKey,
    pub public_key: PublicKey,
}

impl View for SecretKey {
    type V = Seq<u8>;

    /// The key's encoding.
    closed spec fn view(&self) -> Seq<u8> {
        self.bytes@
    }
}

impl View for PublicKey {
    type V = Seq<u8>;

    /// The key's encoding.
    closed spec fn view(&self) -> Seq<u8> {
        self.bytes@
    }
}

impl Clone for SecretKey {
    fn clone(&self) -> (copy: SecretKey)
        ensures
            copy@ == self@,
    {
        proof {
            use_type_invariant(self);
        }
        SecretKey { bytes: self.bytes }
    }
}

impl Clone for KeyPair {
    fn clone(&self) -> (copy: KeyPair)
        ensures
            copy.secret_key@ == self.secret_key@,
            copy.public_key == self.public_key,
    {
        KeyPair { secret_key: self.secret_key.clone(), public_key: self.public_key }
    }
}

impl SecretKey {
    /// The number of bytes in an encoded secret key.
    pub const BYTES: usize = 96;

    #[verifier::type_invariant]
    spec fn well_formed(self) -> bool {
        is_secret_key_encoding(self.bytes@)
    }

    /// The key derived from `seed`.  Equal seeds give equal keys.
    pub fn hash(seed: &[u8]) -> (key: SecretKey)
        ensures
            key@ == secret_key_from_seed(seed@),
            is_secret_key_encoding(key@),
    {
        SecretKey { bytes: hash_secret_key(seed) }
    }

    /// The key drawn from `randomness`.
    pub fn random(randomness: Randomness) -> (key: SecretKey)
        ensures
            key@ == secret_key_from_randomness(randomness@),
            is_secret_key_encoding(key@),
    {
        let drawn = randomness.into_bytes();
        SecretKey { bytes: draw_secret_key(&drawn) }
    }

    /// Decodes a secret key.  The buffer must hold exactly 96 bytes, and each
    /// third of it a number below the scalar field's order, least significant
    /// byte first; any other buffer is refused.
    pub fn from_bytes(bytes: &[u8]) -> (decoded: Result<SecretKey, Error>)
        ensures
            match decoded {
                Ok(key) => key@ == bytes@ && is_secret_key_encoding(bytes@),
                Err(e) => e == Error::Validation && !is_secret_key_encoding(bytes@),
            },
            bytes@.len() != 96 ==> decoded == Err::<SecretKey, Error>(Error::Validation),
    {
        match to_fixed::<96>(bytes) {
            None => Err(Error::Validation),
            Some(array) => {
                if accepts_secret_key(&array) {
                    Ok(SecretKey { bytes: array })
                } else {
                    Err(Error::Validation)
                }
            },
        }
    }

    /// The key's encoding, which `from_bytes` decodes to this key again.
    pub fn to_bytes(&self) -> (out: [u8; 96])
        ensures
            out@ == self@,
            is_secret_key_encoding(out@),
    {
        proof {
            use_type_invariant(self);
        }
        self.bytes
    }

    /// The public key that belongs to this key.
    pub fn public_key(&self) -> (public_key: PublicKey)
        ensures
            public_key@ == public_key_of(self@),
    {
        proof {
            use_type_invariant(self);
        }
        PublicKey { bytes: derive_public_key(&self.bytes) }
    }
}

impl PublicKey {
    /// The number of bytes in an encoded public key.
    pub const BYTES: usize = 288;

    /// The key's encoding.
    pub fn to_bytes(&self) -> (out: [u8; 288])
        ensures
            out@ == self@,
    {
        self.bytes
    }
}

/// Whether `pair` is the key pair that belongs to `seed`: the secret key
/// derived from the seed, with its public key.
pub open spec fn is_key_pair_of_seed(pair: KeyPair, seed: Seq<u8>) -> bool {
    &&& pair.secret_key@ == secret_key_from_seed(seed)
    &&& pair.public_key@ == public_key_of(secret_key_from_seed(seed))
}

/// Key generation from a seed is deterministic: two key pairs generated from
/// the same seed are the same pair.
pub proof fn lemma_seeded_keys_are_equal(seed: Seq<u8>, first: KeyPair, second: KeyPair)
    requires
        is_key_pair_of_seed(first, seed),
        is_key_pair_of_seed(second, seed),
    ensures
        first == second,
{
    assert(first.secret_key.bytes =~= second.secret_key.bytes);
    assert(first.public_key.bytes =~= second.public_key.bytes);
}

/// Whether `pair` is the key pair drawn from `randomness`: the secret key
/// drawn from it, with its public key.
pub open spec fn is_key_pair_of_randomness(pair: KeyPair, randomness: Seq<u8>) -> bool {
    &&& pair.secret_key@ == secret_key_from_randomness(randomness)
    &&& pair.public_key@ == public_key_of(secret_key_from_randomness(randomness))
}

/// The key pair that belongs to `secret_key`.
pub fn key_pair_of(secret_key: SecretKey) -> (pair: KeyPair)
    ensures
        pair.secret_key == secret_key,
        pair.public_key@ == public_key_of(secret_key@),
{
    let public_key = secret_key.public_key();
    KeyPair { secret_key, public_key }
}

/// Generates a key pair.  With a seed the secret key is derived from it, so
/// that equal seeds give equal pairs; without one it is drawn from fresh
/// randomness of the operating system.  The public key is always the one
/// that belongs to the secret key.
pub fn new_keys(seed: Option<&[u8]>) -> (pair: KeyPair)
    ensures
        is_secret_key_encoding(pair.secret_key@),
        pair.public_key@ == public_key_of(pair.secret_key@),
        match seed {
            Some(s) => is_key_pair_of_seed(pair, s@),
            None => exists|randomness: Seq<u8>|
                randomness.len() == 32 && #[trigger] is_key_pair_of_randomness(pair, randomness),
        },
{
    match seed {
        Some(s) => key_pair_of(SecretKey::hash(s)),
        None => {
            let randomness = Randomness::from_system();
            let ghost drawn = randomness@;
            let pair = key_pair_of(SecretKey::random(randomness));
            assert(is_key_pair_of_randomness(pair, drawn));
            pair
        },
    }
}

} // verus!
