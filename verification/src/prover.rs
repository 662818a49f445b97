//! Proofs of possession of a token, bound to a freshness nonce.
use crate::algebra::{admits_proof, array_contents, constructed_proof, construct_proof};
use crate::blinding::{
    are_blinding_encodings, blinding_encodings, buffer_contents, is_blinding_encoding, Blinding,
};
use crate::clock::now_micros;
use crate::error::Error;
use crate::nonce::{encode_nonce, nonce_encoding};
use crate::randomness::Randomness;
use crate::token::{is_token_encoding, Token};
use vstd::prelude::*;

verus! {

/// A zero-knowledge proof that its maker holds a token for an identifier,
/// held in its encoding.  A proof is made from a token, the blinding factors
/// taken off it, an identifier, a nonce and randomness, and is bound to all
/// of them.
#[derive(Clone, Copy, Debug, PartialEq, Eq)]
pub struct Proof {
    bytes: [u8; 96],
}

/// A proof together with the nonce that it was bound to: the time of its
/// making, in microseconds since the Unix epoch, as eight big-endian bytes.
#[derive(Clone, Copy, Debug, PartialEq, Eq)]
pub struct TimestampedProof {
    pub proof: Proof,
    pub timestamp: [u8; 8],
}

/// Why no proof is made from the given buffers, or `None` where one is made.
/// Malformed buffers are found before the identifier is looked at.
pub open spec fn proof_failure(token: Seq<u8>, id: Seq<u8>, blindings: Seq<Seq<u8>>) -> Option<
    Error,
> {
    if !is_token_encoding(token) || !are_blinding_encodings(blindings) {
        Some(Error::Validation)
    } else if !admits_proof(id) {
        Some(Error::ProofConstruction)
    } else {
        None
    }
}

impl View for Proof {
    type V = Seq<u8>;

    /// The proof's encoding.
    closed spec fn view(&self) -> Seq<u8> {
        self.bytes@
    }
}

impl Proof {
    /// The number of bytes in an encoded proof.
    pub const BYTES: usize = 96;

    /// What becomes of the curve arithmetic's answer to a request for a
    /// proof: the proof it gave, or `Error::ProofConstruction` where it gave
    /// none.  The error says nothing of why.
    pub fn from_construction(outcome: Option<[u8; 96]>) -> (made: Result<Proof, Error>)
        ensures
            match outcome {
                Some(bytes) => made matches Ok(proof) && proof@ == bytes@,
                None => made == Err::<Proof, Error>(Error::ProofConstruction),
            },
    {
        match outcome {
            Some(bytes) => Ok(Proof { bytes }),
            None => Err(Error::ProofConstruction),
        }
    }

    /// Constructs the proof that the holder of `token` holds a token for
    /// `id` from which exactly `blindings` were taken off, bound to `nonce`
    /// and made with `randomness`, which is used up.  Whether a proof can be
    /// made depends on the identifier alone; a proof made with other blinding
    /// factors than those taken off is made all the same, and is one that no
    /// verifier accepts.
    pub fn new(
        token: &Token,
        blindings: &[Blinding],
        id: &[u8],
        nonce: &[u8],
        randomness: Randomness,
    ) -> (made: Result<Proof, Error>)
        ensures
            made is Ok == admits_proof(id@),
            match made {
                Ok(proof) => constructed_proof(
                    token@,
                    blinding_encodings(blindings@),
                    id@,
                    nonce@,
                    randomness@,
                ) == Some(proof@),
                Err(e) => e == Error::ProofConstruction && constructed_proof(
                    token@,
                    blinding_encodings(blindings@),
                    id@,
                    nonce@,
                    randomness@,
                ) is None,
            },
    {
        let token_bytes = token.to_bytes();
        let mut factors: Vec<[u8; 48]> = Vec::new();
        let mut i: usize = 0;
        while i < blindings.len()
            invariant
                i <= blindings@.len(),
                factors@.len() == i,
                forall|j: int| 0 <= j < i ==> is_blinding_encoding(#[trigger] factors@[j]@),
                forall|j: int| 0 <= j < i ==> (#[trigger] factors@[j])@ == blindings@[j]@,
            decreases blindings@.len() - i,
        {
            factors.push(blindings[i].to_bytes());
            i = i + 1;
        }
        assert(array_contents(factors@) =~= blinding_encodings(blindings@));
        let drawn = randomness.into_bytes();
        Proof::from_construction(construct_proof(&token_bytes, &factors, id, nonce, &drawn))
    }

    /// The proof's encoding.
    pub fn to_bytes(&self) -> (out: [u8; 96])
        ensures
            out@ == self@,
    {
        self.bytes
    }
}

/// Decodes the token and the blinding factors that a proof is to be made
/// from.  One malformed buffer has the whole request refused.
pub fn decode_witness(token: &[u8], blindings: &[Vec<u8>]) -> (decoded: Result<
    (Token, Vec<Blinding>),
    Error,
>)
    ensures
        match decoded {
            Ok((t, bs)) => t@ == token@ && blinding_encodings(bs@) == buffer_contents(blindings@)
                && is_token_encoding(token@) && are_blinding_encodings(
                buffer_contents(blindings@),
            ),
            Err(e) => e == Error::Validation && !(is_token_encoding(token@)
                && are_blinding_encodings(buffer_contents(blindings@))),
        },
{
    let token = match Token::from_bytes(token) {
        Ok(token) => token,
        Err(e) => {
            return Err(e);
        },
    };
    match Blinding::from_bytes_list(blindings) {
        Ok(blindings) => Ok((token, blindings)),
        Err(e) => Err(e),
    }
}

/// What holds of a proof with its nonce that was made from the token encoded
/// by `token`, the blinding factors encoded by `blindings`, the identifier
/// `id`, the clock's count `micros` and `randomness`: the nonce encodes the
/// count, and the proof is the one constructed from all of these and the
/// nonce.
pub open spec fn is_proof_at(
    stamped: TimestampedProof,
    token: Seq<u8>,
    blindings: Seq<Seq<u8>>,
    id: Seq<u8>,
    micros: u64,
    randomness: Seq<u8>,
) -> bool {
    &&& stamped.timestamp@ == nonce_encoding(micros)
    &&& constructed_proof(token, blindings, id, nonce_encoding(micros), randomness) == Some(
        stamped.proof@,
    )
}

/// Constructs the proof bound to the nonce that encodes `micros`, made with
/// `randomness`, and returns it with that nonce.
pub fn prove_at(
    token: &Token,
    blindings: &[Blinding],
    id: &[u8],
    micros: u64,
    randomness: Randomness,
) -> (made: Result<TimestampedProof, Error>)
    ensures
        made is Ok == admits_proof(id@),
        match made {
            Ok(stamped) => is_proof_at(
                stamped,
                token@,
                blinding_encodings(blindings@),
                id@,
                micros,
                randomness@,
            ),
            Err(e) => e == Error::ProofConstruction,
        },
{
    let timestamp = encode_nonce(micros);
    match Proof::new(token, blindings, id, timestamp.as_slice(), randomness) {
        Ok(proof) => Ok(TimestampedProof { proof, timestamp }),
        Err(e) => Err(e),
    }
}

/// Constructs a proof for the token encoded in `token`, the identifier `id`
/// and the blinding factors encoded in `blindings`, which may be none, bound
/// to the time of the call.  The buffers are checked first; after that the
/// clock is read, once, and fresh randomness is drawn from the operating
/// system; and the proof made from all of these is returned with the nonce
/// made of the clock's reading.
pub fn new_proof_timestamp(token: &[u8], id: &[u8], blindings: &[Vec<u8>]) -> (made: Result<
    TimestampedProof,
    Error,
>)
    ensures
        match made {
            Ok(stamped) => proof_failure(token@, id@, buffer_contents(blindings@)) is None
                && exists|micros: u64, randomness: Seq<u8>|
                randomness.len() == 32 && #[trigger] is_proof_at(
                    stamped,
                    token@,
                    buffer_contents(blindings@),
                    id@,
                    micros,
                    randomness,
                ),
            Err(e) => proof_failure(token@, id@, buffer_contents(blindings@)) == Some(e),
        },
{
    match decode_witness(token, blindings) {
        Err(e) => Err(e),
        Ok((decoded_token, decoded_blindings)) => {
            let micros = now_micros();
            let randomness = Randomness::from_system();
            let ghost drawn = randomness@;
            let made = prove_at(
                &decoded_token,
                decoded_blindings.as_slice(),
                id,
                micros,
                randomness,
            );
            proof {
                if let Ok(stamped) = made {
                    assert(is_proof_at(
                        stamped,
                        token@,
                        buffer_contents(blindings@),
                        id@,
                        micros,
                        drawn,
                    ));
                }
            }
            made
        },
    }
}

} // verus!
