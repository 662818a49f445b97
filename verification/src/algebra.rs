//! The group and field arithmetic that this library takes from the `oberon`
//! crate, as far as the library's contracts speak of it.
//!
//! Values cross this boundary as byte strings in the crate's canonical
//! encodings.  What the crate computes from them is named here, not defined:
//! the names stand for the crate's own functions, and the wrappers below are
//! believed to return what their contracts say.  Nothing in this file is
//! proved.
//!
//! Where the crate wants random numbers, it is handed the `rand` crate's
//! `StdRng`, seeded with 32 bytes that the caller supplies.  In the version
//! of `rand` that this library is built with, that generator's output is a
//! function of its seed, so what the crate computes with it can be named
//! too.  The one place where the operating system's generator is read is
//! `draw_randomness`.
use rand::rngs::{OsRng, StdRng};
use rand::{RngCore, SeedableRng};
use vstd::prelude::*;

verus! {

/// The order of the scalar field in which the three parts of a secret key lie.
pub open spec fn scalar_modulus() -> nat {
    0x73eda753299d7d483339d80809a1d80553bda402fffe5bfeffffffff00000001nat
}

/// The number that `bytes` denotes when read as a numeral in base 256 with
/// the least significant digit first.
pub open spec fn le_value(bytes: Seq<u8>) -> nat
    decreases bytes.len(),
{
    if bytes.len() == 0 {
        0
    } else {
        bytes.first() as nat + 256 * le_value(bytes.drop_first())
    }
}

/// Whether `bytes` is the canonical encoding of a scalar: 32 bytes, least
/// significant first, denoting a number below the field's order.
pub open spec fn is_scalar_encoding(bytes: Seq<u8>) -> bool {
    bytes.len() == 32 && le_value(bytes) < scalar_modulus()
}

/// Whether `bytes` is the encoding of a secret key: three scalar encodings,
/// one after the other.
pub open spec fn is_secret_key_encoding(bytes: Seq<u8>) -> bool {
    &&& bytes.len() == 96
    &&& is_scalar_encoding(bytes.subrange(0, 32))
    &&& is_scalar_encoding(bytes.subrange(32, 64))
    &&& is_scalar_encoding(bytes.subrange(64, 96))
}

/// The encoding of the secret key that `oberon::SecretKey::hash` derives from
/// `seed`.
pub uninterp spec fn secret_key_from_seed(seed: Seq<u8>) -> Seq<u8>;

/// The encoding of the secret key that `oberon::SecretKey::new` draws from
/// the generator `rand::rngs::StdRng` seeded with `randomness`.
pub uninterp spec fn secret_key_from_randomness(randomness: Seq<u8>) -> Seq<u8>;

/// The encoding of the public key that `oberon::PublicKey::from` derives
/// from the secret key encoded by `secret_key`.
pub uninterp spec fn public_key_of(secret_key: Seq<u8>) -> Seq<u8>;

/// The encoding of the blinding factor that `oberon::Blinding::new` derives
/// from `data`.
pub uninterp spec fn blinding_from_data(data: Seq<u8>) -> Seq<u8>;

/// Whether `oberon::Blinding::from_bytes` accepts `bytes`.
pub uninterp spec fn blinding_accepted(bytes: Seq<u8>) -> bool;

/// Whether `oberon::Token::from_bytes` accepts `bytes`.
pub uninterp spec fn token_accepted(bytes: Seq<u8>) -> bool;

/// The encoding of the token that `oberon::Token::new` issues for `id` under
/// the secret key encoded by `secret_key`, if it issues one.
pub uninterp spec fn issued_token(secret_key: Seq<u8>, id: Seq<u8>) -> Option<Seq<u8>>;

/// The encoding of the token encoded by `token` less the blinding factor
/// encoded by `blinding`, as the `Sub` impl of `oberon::Token` computes it.
pub uninterp spec fn token_minus(token: Seq<u8>, blinding: Seq<u8>) -> Seq<u8>;

/// Whether `oberon::Proof::new` constructs a proof for the identifier `id`.
pub uninterp spec fn admits_proof(id: Seq<u8>) -> bool;

/// The encoding of the proof that `oberon::Proof::new` constructs, if it
/// constructs one, from the token encoded by `token`, the blinding factors
/// encoded by `blindings`, in their order, the identifier `id`, the nonce
/// `nonce` and the generator `rand::rngs::StdRng` seeded with `randomness`.
pub uninterp spec fn constructed_proof(
    token: Seq<u8>,
    blindings: Seq<Seq<u8>>,
    id: Seq<u8>,
    nonce: Seq<u8>,
    randomness: Seq<u8>,
) -> Option<Seq<u8>>;

/// The byte strings that a list of 48-byte arrays holds, in order.
pub open spec fn array_contents(list: Seq<[u8; 48]>) -> Seq<Seq<u8>> {
    Seq::new(list.len(), |i: int| list[i]@)
}

/// Fills 32 bytes with `fill_bytes` of `rand::rngs::OsRng`, the operating
/// system's random number generator.  Nothing is said of what is drawn.
#[verifier::external_body]
pub(crate) fn draw_randomness() -> (out: [u8; 32]) {
    let mut out = [0u8; 32];
    OsRng.fill_bytes(&mut out);
    out
}

/// Calls `oberon::SecretKey::hash` on `seed` and encodes the key.
///
/// Believed: the key depends on the seed alone, and its encoding is one that
/// decodes again.
#[verifier::external_body]
pub(crate) fn hash_secret_key(seed: &[u8]) -> (out: [u8; 96])
    ensures
        out@ == secret_key_from_seed(seed@),
        is_secret_key_encoding(out@),
{
    oberon::SecretKey::hash(seed).to_bytes()
}

/// Calls `oberon::SecretKey::new` with the generator `rand::rngs::StdRng`,
/// seeded with `randomness` by `SeedableRng::from_seed`, and encodes the key.
///
/// Believed: the generator's output depends on its seed alone, so the key
/// does; and the key's encoding is one that decodes again.
#[verifier::external_body]
pub(crate) fn draw_secret_key(randomness: &[u8; 32]) -> (out: [u8; 96])
    ensures
        out@ == secret_key_from_randomness(randomness@),
        is_secret_key_encoding(out@),
{
    oberon::SecretKey::new(StdRng::from_seed(*randomness)).to_bytes()
}

/// Calls `oberon::SecretKey::from_bytes` and reports whether it accepted the
/// bytes.
///
/// Believed: it accepts exactly the strings in which each third is a number
/// below the scalar field's order, least significant byte first.
#[verifier::external_body]
pub(crate) fn accepts_secret_key(bytes: &[u8; 96]) -> (ok: bool)
    ensures
        ok == is_secret_key_encoding(bytes@),
{
    oberon::SecretKey::from_bytes(bytes).is_some().into()
}

/// Calls `PublicKey::from` on a reference to the decoded secret key and
/// encodes the public key.
///
/// Believed: the public key depends on the secret key alone.
#[verifier::external_body]
pub(crate) fn derive_public_key(secret_key: &[u8; 96]) -> (out: [u8; 288])
    requires
        is_secret_key_encoding(secret_key@),
    ensures
        out@ == public_key_of(secret_key@),
{
    let key = oberon::SecretKey::from_bytes(secret_key).unwrap();
    oberon::PublicKey::from(&key).to_bytes()
}

/// Calls `oberon::Blinding::new` on `data` and encodes the blinding factor.
///
/// Believed: the factor depends on the data alone, and its encoding is one
/// that decodes again.
#[verifier::external_body]
pub(crate) fn hash_blinding(data: &[u8]) -> (out: [u8; 48])
    ensures
        out@ == blinding_from_data(data@),
        blinding_accepted(out@),
{
    oberon::Blinding::new(data).to_bytes()
}

/// Calls `oberon::Blinding::from_bytes` and reports whether it accepted the
/// bytes.
#[verifier::external_body]
pub(crate) fn accepts_blinding(bytes: &[u8; 48]) -> (ok: bool)
    ensures
        ok == blinding_accepted(bytes@),
{
    oberon::Blinding::from_bytes(bytes).is_some().into()
}

/// Calls `oberon::Token::from_bytes` and reports whether it accepted the
/// bytes.
#[verifier::external_body]
pub(crate) fn accepts_token(bytes: &[u8; 48]) -> (ok: bool)
    ensures
        ok == token_accepted(bytes@),
{
    oberon::Token::from_bytes(bytes).is_some().into()
}

/// Calls `oberon::Token::new` with the decoded secret key and `id`, and
/// encodes the token if there is one.
///
/// Believed: the outcome depends on the key and the identifier alone; a token
/// that is issued has an encoding that decodes again; and a token is refused
/// in every case in which `oberon::Proof::new` refuses the identifier, since
/// both begin with the same three tests of it.
#[verifier::external_body]
pub(crate) fn issue_token(secret_key: &[u8; 96], id: &[u8]) -> (out: Option<[u8; 48]>)
    requires
        is_secret_key_encoding(secret_key@),
    ensures
        match out {
            Some(token) => issued_token(secret_key@, id@) == Some(token@),
            None => issued_token(secret_key@, id@) is None,
        },
        out matches Some(token) ==> token_accepted(token@),
        out is Some ==> admits_proof(id@),
{
    let key = oberon::SecretKey::from_bytes(secret_key).unwrap();
    match oberon::Token::new(&key, id) {
        Some(token) => Some(token.to_bytes()),
        None => None,
    }
}

/// Subtracts the decoded blinding factor from the decoded token with the
/// `Sub` impl of `oberon::Token`, and encodes the difference.
///
/// Believed: the difference depends on the two operands alone and has an
/// encoding that decodes again; and, the points of the curve being a
/// commutative group under addition, taking off a second factor after this
/// one gives what taking the two off in the other order gives.  The crate's
/// own documentation relies on the same, where it has blinding factors added
/// back in without regard to the order in which they were taken off.
#[verifier::external_body]
pub(crate) fn subtract_blinding(token: &[u8; 48], blinding: &[u8; 48]) -> (out: [u8; 48])
    requires
        token_accepted(token@),
        blinding_accepted(blinding@),
    ensures
        out@ == token_minus(token@, blinding@),
        token_accepted(out@),
        forall|other: Seq<u8>|
            #![trigger token_minus(out@, other)]
            other.len() == 48 && blinding_accepted(other) ==> token_minus(out@, other)
                == token_minus(
                token_minus(token@, other),
                blinding@,
            ),
{
    let minuend = oberon::Token::from_bytes(token).unwrap();
    let subtrahend = oberon::Blinding::from_bytes(blinding).unwrap();
    (minuend - subtrahend).to_bytes()
}

/// Calls `oberon::Proof::new` with the decoded token and blinding factors,
/// `id`, `nonce` and the generator `rand::rngs::StdRng`, seeded with
/// `randomness` by `SeedableRng::from_seed`, and encodes the proof if there
/// is one.
///
/// Believed: the generator's output depends on its seed alone, so the outcome
/// depends on the five arguments alone; and whether a proof comes back
/// depends on the identifier alone, the only refusals being three tests of
/// values computed from it.
#[verifier::external_body]
pub(crate) fn construct_proof(
    token: &[u8; 48],
    blindings: &Vec<[u8; 48]>,
    id: &[u8],
    nonce: &[u8],
    randomness: &[u8; 32],
) -> (out: Option<[u8; 96]>)
    requires
        token_accepted(token@),
        forall|i: int| 0 <= i < blindings@.len() ==> blinding_accepted(#[trigger] blindings@[i]@),
    ensures
        out.is_some() == admits_proof(id@),
        match out {
            Some(made) => constructed_proof(
                token@,
                array_contents(blindings@),
                id@,
                nonce@,
                randomness@,
            ) == Some(made@),
            None => constructed_proof(
                token@,
                array_contents(blindings@),
                id@,
                nonce@,
                randomness@,
            ) is None,
        },
{
    let token = oberon::Token::from_bytes(token).unwrap();
    let blindings: Vec<oberon::Blinding> =
        blindings.iter().map(|b| oberon::Blinding::from_bytes(b).unwrap()).collect();
    let generator = StdRng::from_seed(*randomness);
    match oberon::Proof::new(&token, &blindings, id, nonce, generator) {
        Some(made) => Some(made.to_bytes()),
        None => None,
    }
}

} // verus!
