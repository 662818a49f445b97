//! Tokens: their issuance under a secret key and their blinding.
use crate::algebra::{
    accepts_token, admits_proof, is_secret_key_encoding, issue_token, issued_token,
    subtract_blinding, token_accepted, token_minus,
};
use crate::blinding::{is_blinding_encoding, Blinding};
use crate::bytes::to_fixed;
use crate::error::Error;
use crate::keys::SecretKey;
use vstd::prelude::*;

verus! {

/// A credential bound to an identifier, as issued or with blinding factors
/// taken off, held in its canonical encoding.
#[derive(Clone, Copy, Debug, PartialEq, Eq)]
pub struct Token {
    bytes: [u8; 48],
}

/// Whether `bytes` is the encoding of a token: 48 bytes that the curve
/// arithmetic accepts.
pub open spec fn is_token_encoding(bytes: Seq<u8>) -> bool {
    bytes.len() == 48 && token_accepted(bytes)
}

/// What decoding `bytes` as a token comes to: the token's encoding, which is
/// `bytes` itself, or the refusal.
pub open spec fn token_decoding(bytes: Seq<u8>) -> Result<Seq<u8>, Error> {
    if is_token_encoding(bytes) {
        Ok(bytes)
    } else {
        Err(Error::Validation)
    }
}

/// What issuing a token for `id` under the key encoded by `secret_key` comes
/// to: the token's encoding, or the reason why there is none.
pub open spec fn issuance(id: Seq<u8>, secret_key: Seq<u8>) -> Result<Seq<u8>, Error> {
    if !is_secret_key_encoding(secret_key) {
        Err(Error::Validation)
    } else {
        match issued_token(secret_key, id) {
            Some(token) => Ok(token),
            None => Err(Error::Signing),
        }
    }
}

/// What holds of `out`, the encoding of the token that comes of taking the
/// blinding factor encoded by `blinding` off the token encoded by `token`: it
/// is their difference, it is the encoding of a token, and taking any other
/// blinding factor off it gives what taking the two off in the other order
/// gives.
pub open spec fn is_token_less(out: Seq<u8>, token: Seq<u8>, blinding: Seq<u8>) -> bool {
    &&& out == token_minus(token, blinding)
    &&& is_token_encoding(out)
    &&& forall|other: Seq<u8>|
        #![trigger token_minus(out, other)]
        is_blinding_encoding(other) ==> token_minus(out, other) == token_minus(
            token_minus(token, other),
            blinding,
        )
}

/// What blinding the token encoded by `token` with the factor encoded by
/// `blinding` comes to: the blinded token's encoding, or the reason why there
/// is none.
pub open spec fn blinded(token: Seq<u8>, blinding: Seq<u8>) -> Result<Seq<u8>, Error> {
    if is_token_encoding(token) && is_blinding_encoding(blinding) {
        Ok(token_minus(token, blinding))
    } else {
        Err(Error::Validation)
    }
}

impl View for Token {
    type V = Seq<u8>;

    /// The token's encoding.
    closed spec fn view(&self) -> Seq<u8> {
        self.bytes@
    }
}

impl Token {
    /// The number of bytes in an encoded token.
    pub const BYTES: usize = 48;

    #[verifier::type_invariant]
    spec fn well_formed(self) -> bool {
        is_token_encoding(self.bytes@)
    }

    /// Issues the token for `id` under `secret_key`.  The curve arithmetic
    /// refuses a few degenerate combinations of key and identifier; they are
    /// reported as `Error::Signing`.  Where a token is issued, a proof can
    /// later be constructed for the same identifier.
    pub fn new(secret_key: &SecretKey, id: &[u8]) -> (issued: Result<Token, Error>)
        ensures
            match issued {
                Ok(token) => issued_token(secret_key@, id@) == Some(token@)
                    && is_token_encoding(token@) && admits_proof(id@),
                Err(e) => e == Error::Signing && issued_token(secret_key@, id@) is None,
            },
    {
        let key = secret_key.to_bytes();
        match issue_token(&key, id) {
            Some(bytes) => Ok(Token { bytes }),
            None => Err(Error::Signing),
        }
    }

    /// Decodes a token.  The buffer must hold exactly 48 bytes that the curve
    /// arithmetic accepts; any other buffer is refused.
    pub fn from_bytes(bytes: &[u8]) -> (decoded: Result<Token, Error>)
        ensures
            match decoded {
                Ok(token) => token_decoding(bytes@) == Ok::<Seq<u8>, Error>(token@),
                Err(e) => token_decoding(bytes@) == Err::<Seq<u8>, Error>(e),
            },
            bytes@.len() != 48 ==> decoded == Err::<Token, Error>(Error::Validation),
    {
        match to_fixed::<48>(bytes) {
            None => Err(Error::Validation),
            Some(array) => {
                if accepts_token(&array) {
                    Ok(Token { bytes: array })
                } else {
                    Err(Error::Validation)
                }
            },
        }
    }

    /// The token's encoding, which `from_bytes` decodes to this token again.
    pub fn to_bytes(&self) -> (out: [u8; 48])
        ensures
            out@ == self@,
            token_decoding(out@) == Ok::<Seq<u8>, Error>(self@),
    {
        proof {
            use_type_invariant(self);
        }
        self.bytes
    }

    /// This token less `blinding`.  The operation cannot fail.  Blinding
    /// factors may be taken off in any order: taking off another one after
    /// `blinding` gives what taking off the two in the other order gives.
    pub fn blind(&self, blinding: &Blinding) -> (out: Token)
        ensures
            is_token_less(out@, self@, blinding@),
    {
        let subtrahend = blinding.to_bytes();
        proof {
            use_type_invariant(self);
        }
        Token { bytes: subtract_blinding(&self.bytes, &subtrahend) }
    }
}

/// A token's encoding decodes to the token it came from, and the bytes that
/// a token was decoded from are the token's encoding: decoding and encoding
/// again changes nothing.
pub proof fn lemma_token_round_trip(bytes: Seq<u8>)
    requires
        is_token_encoding(bytes),
    ensures
        token_decoding(bytes) == Ok::<Seq<u8>, Error>(bytes),
{
}

/// Blinding factors may be taken off in either order.  Let `first_only` come
/// of taking `first` off `token`, and `first_then_second` of taking `second`
/// off that; let `second_only` come of taking `second` off `token`, and
/// `second_then_first` of taking `first` off that.  Then the two ends are the
/// same token.
pub proof fn lemma_blinding_order_is_immaterial(
    token: Seq<u8>,
    first: Seq<u8>,
    second: Seq<u8>,
    first_only: Token,
    first_then_second: Token,
    second_only: Token,
    second_then_first: Token,
)
    requires
        is_blinding_encoding(first),
        is_blinding_encoding(second),
        is_token_less(first_only@, token, first),
        is_token_less(first_then_second@, first_only@, second),
        is_token_less(second_only@, token, second),
        is_token_less(second_then_first@, second_only@, first),
    ensures
        first_then_second == second_then_first,
{
    assert(token_minus(first_only@, second) == token_minus(token_minus(token, second), first));
    assert(first_then_second.bytes =~= second_then_first.bytes);
}

/// Issues the token for `id` under the secret key encoded in `secret_key`.
/// A buffer that is not the encoding of a secret key is refused before
/// anything is computed.
pub fn new_token(id: &[u8], secret_key: &[u8]) -> (issued: Result<Token, Error>)
    ensures
        match issued {
            Ok(token) => issuance(id@, secret_key@) == Ok::<Seq<u8>, Error>(token@)
                && is_token_encoding(token@) && admits_proof(id@),
            Err(e) => issuance(id@, secret_key@) == Err::<Seq<u8>, Error>(e),
        },
        secret_key@.len() != 96 ==> issued == Err::<Token, Error>(Error::Validation),
{
    match SecretKey::from_bytes(secret_key) {
        Err(e) => Err(e),
        Ok(key) => Token::new(&key, id),
    }
}

/// Blinds the token encoded in `token` with the blinding factor encoded in
/// `blinding`.  Either buffer is refused, before anything is computed, if it
/// is not the encoding of a value of its kind; given two that are, the
/// operation cannot fail.  The order in which blinding factors are taken off
/// does not matter: see `Token::blind`.
pub fn blind_token(token: &[u8], blinding: &[u8]) -> (out: Result<Token, Error>)
    ensures
        match out {
            Ok(blinded_token) => blinded(token@, blinding@) == Ok::<Seq<u8>, Error>(
                blinded_token@,
            ) && is_token_encoding(blinded_token@),
            Err(e) => blinded(token@, blinding@) == Err::<Seq<u8>, Error>(e),
        },
        out matches Ok(blinded_token) ==> is_token_less(blinded_token@, token@, blinding@),
        token@.len() != 48 ==> out == Err::<Token, Error>(Error::Validation),
        blinding@.len() != 48 ==> out == Err::<Token, Error>(Error::Validation),
{
    let token = match Token::from_bytes(token) {
        Ok(token) => token,
        Err(e) => {
            return Err(e);
        },
    };
    let blinding = match Blinding::from_bytes(blinding) {
        Ok(blinding) => blinding,
        Err(e) => {
            return Err(e);
        },
    };
    Ok(token.blind(&blinding))
}

} // verus!
