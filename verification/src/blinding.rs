//! Blinding factors: values that mask a token until they are supplied again.
use crate::algebra::{accepts_blinding, blinding_accepted, blinding_from_data, hash_blinding};
use crate::bytes::to_fixed;
use crate::error::Error;
use vstd::prelude::*;

verus! {

/// A blinding factor, held in its canonical encoding.
#[derive(Clone, Copy, Debug, PartialEq, Eq)]
pub struct Blinding {
    bytes: [u8; 48],
}

/// Whether `bytes` is the encoding of a blinding factor: 48 bytes that the
/// curve arithmetic accepts.
pub open spec fn is_blinding_encoding(bytes: Seq<u8>) -> bool {
    bytes.len() == 48 && blinding_accepted(bytes)
}

/// What decoding `bytes` as a blinding factor comes to: the factor's
/// encoding, which is `bytes` itself, or the refusal.
pub open spec fn blinding_decoding(bytes: Seq<u8>) -> Result<Seq<u8>, Error> {
    if is_blinding_encoding(bytes) {
        Ok(bytes)
    } else {
        Err(Error::Validation)
    }
}

/// Whether every entry of `list` is the encoding of a blinding factor.
pub open spec fn are_blinding_encodings(list: Seq<Seq<u8>>) -> bool {
    forall|i: int| 0 <= i < list.len() ==> is_blinding_encoding(#[trigger] list[i])
}

/// The byte strings that a list of buffers holds, in order.
pub open spec fn buffer_contents(list: Seq<Vec<u8>>) -> Seq<Seq<u8>> {
    Seq::new(list.len(), |i: int| list[i]@)
}

/// The encodings of a list of blinding factors, in order.
pub open spec fn blinding_encodings(list: Seq<Blinding>) -> Seq<Seq<u8>> {
    Seq::new(list.len(), |i: int| list[i]@)
}

impl View for Blinding {
    type V = Seq<u8>;

    /// The factor's encoding.
    closed spec fn view(&self) -> Seq<u8> {
        self.bytes@
    }
}

impl Blinding {
    /// The number of bytes in an encoded blinding factor.
    pub const BYTES: usize = 48;

    #[verifier::type_invariant]
    spec fn well_formed(self) -> bool {
        is_blinding_encoding(self.bytes@)
    }

    /// The blinding factor derived from `data`, which may have any length.
    /// Equal data give equal factors.
    pub fn new(data: &[u8]) -> (blinding: Blinding)
        ensures
            blinding@ == blinding_from_data(data@),
            is_blinding_encoding(blinding@),
    {
        Blinding { bytes: hash_blinding(data) }
    }

    /// Decodes a blinding factor.  The buffer must hold exactly 48 bytes that
    /// the curve arithmetic accepts; any other buffer is refused.
    pub fn from_bytes(bytes: &[u8]) -> (decoded: Result<Blinding, Error>)
        ensures
            match decoded {
                Ok(blinding) => blinding_decoding(bytes@) == Ok::<Seq<u8>, Error>(blinding@),
                Err(e) => blinding_decoding(bytes@) == Err::<Seq<u8>, Error>(e),
            },
            bytes@.len() != 48 ==> decoded == Err::<Blinding, Error>(Error::Validation),
    {
        match to_fixed::<48>(bytes) {
            None => Err(Error::Validation),
            Some(array) => {
                if accepts_blinding(&array) {
                    Ok(Blinding { bytes: array })
                } else {
                    Err(Error::Validation)
                }
            },
        }
    }

    /// The factor's encoding, which `from_bytes` decodes to this factor again.
    pub fn to_bytes(&self) -> (out: [u8; 48])
        ensures
            out@ == self@,
            blinding_decoding(out@) == Ok::<Seq<u8>, Error>(self@),
    {
        proof {
            use_type_invariant(self);
        }
        self.bytes
    }

    /// Decodes a list of blinding factors, keeping their order.  One entry
    /// that does not decode has the whole list refused.
    pub fn from_bytes_list(list: &[Vec<u8>]) -> (decoded: Result<Vec<Blinding>, Error>)
        ensures
            match decoded {
                Ok(blindings) => blinding_encodings(blindings@) == buffer_contents(list@)
                    && are_blinding_encodings(buffer_contents(list@)),
                Err(e) => e == Error::Validation && !are_blinding_encodings(
                    buffer_contents(list@),
                ),
            },
    {
        let ghost raw = buffer_contents(list@);
        let mut blindings: Vec<Blinding> = Vec::new();
        let mut i: usize = 0;
        while i < list.len()
            invariant
                i <= list@.len(),
                raw == buffer_contents(list@),
                blindings@.len() == i,
                forall|j: int| 0 <= j < i ==> is_blinding_encoding(#[trigger] raw[j]),
                forall|j: int| 0 <= j < i ==> (#[trigger] blindings@[j])@ == raw[j],
            decreases list@.len() - i,
        {
            match Blinding::from_bytes(list[i].as_slice()) {
                Ok(blinding) => {
                    blindings.push(blinding);
                },
                Err(_) => {
                    assert(!is_blinding_encoding(raw[i as int]));
                    return Err(Error::Validation);
                },
            }
            i = i + 1;
        }
        assert(blinding_encodings(blindings@) =~= raw);
        Ok(blindings)
    }
}

/// A blinding factor's encoding decodes to the factor it came from, and the
/// bytes that a factor was decoded from are the factor's encoding: decoding
/// and encoding again changes nothing.
pub proof fn lemma_blinding_round_trip(bytes: Seq<u8>)
    requires
        is_blinding_encoding(bytes),
    ensures
        blinding_decoding(bytes) == Ok::<Seq<u8>, Error>(bytes),
{
}

/// Derivation is deterministic: two blinding factors derived from the same
/// data are the same factor.
pub proof fn lemma_derived_blindings_are_equal(data: Seq<u8>, first: Blinding, second: Blinding)
    requires
        first@ == blinding_from_data(data),
        second@ == blinding_from_data(data),
    ensures
        first == second,
{
    assert(first.bytes =~= second.bytes);
}

/// Derives a blinding factor from arbitrary bytes.  The same bytes always
/// give the same factor.
pub fn new_blinding(data: &[u8]) -> (blinding: Blinding)
    ensures
        blinding@ == blinding_from_data(data@),
        is_blinding_encoding(blinding@),
{
    Blinding::new(data)
}

} // verus!
