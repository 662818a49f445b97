//! Freshness nonces: a count of microseconds written as eight big-endian bytes.
use vstd::prelude::*;

verus! {

/// The number of bytes in an encoded nonce.
pub const NONCE_BYTES: usize = 8;

/// The number that `bytes` denotes when read as a numeral in base 256 with
/// the most significant digit first.
pub open spec fn be_value(bytes: Seq<u8>) -> nat
    decreases bytes.len(),
{
    if bytes.len() == 0 {
        0
    } else {
        256 * be_value(bytes.drop_last()) + bytes.last() as nat
    }
}

/// The last `len` base-256 digits of `value`, most significant first.
pub open spec fn be_digits(value: nat, len: nat) -> Seq<u8>
    decreases len,
{
    if len == 0 {
        Seq::empty()
    } else {
        be_digits(value / 256, (len - 1) as nat).push((value % 256) as u8)
    }
}

/// 256 to the power `len`: the number of byte strings of length `len`.
pub open spec fn radix_power(len: nat) -> nat
    decreases len,
{
    if len == 0 {
        1
    } else {
        256 * radix_power((len - 1) as nat)
    }
}

/// The encoding of a microsecond count as a nonce.
pub open spec fn nonce_encoding(micros: u64) -> Seq<u8> {
    be_digits(micros as nat, 8)
}

/// `be_digits` yields exactly `len` digits.
pub proof fn lemma_be_digits_len(value: nat, len: nat)
    ensures
        be_digits(value, len).len() == len,
    decreases len,
{
    if len > 0 {
        lemma_be_digits_len(value / 256, (len - 1) as nat);
    }
}

/// Reading back the digits of a number that fits in `len` digits gives the
/// number itself.
pub proof fn lemma_be_value_of_digits(value: nat, len: nat)
    requires
        value < radix_power(len),
    ensures
        be_value(be_digits(value, len)) == value,
    decreases len,
{
    if len > 0 {
        let shorter = be_digits(value / 256, (len - 1) as nat);
        let last = (value % 256) as u8;
        lemma_be_value_of_digits(value / 256, (len - 1) as nat);
        assert(shorter.push(last).drop_last() =~= shorter);
        assert(shorter.push(last).last() == last);
    }
}

/// Every 64-bit count is recovered from its nonce: the encoding loses nothing,
/// so distinct counts have distinct nonces.
pub proof fn lemma_nonce_round_trip(micros: u64)
    ensures
        nonce_encoding(micros).len() == NONCE_BYTES,
        be_value(nonce_encoding(micros)) == micros,
{
    lemma_be_digits_len(micros as nat, 8);
    assert(radix_power(8) == 0x1_0000_0000_0000_0000) by {
        reveal_with_fuel(radix_power, 9);
    }
    lemma_be_value_of_digits(micros as nat, 8);
}

/// Writes `micros` as eight bytes, most significant first.
pub fn encode_nonce(micros: u64) -> (out: [u8; 8])
    ensures
        out@ == nonce_encoding(micros),
{
    let mut out = [0u8; 8];
    let mut rest: u64 = micros;
    let mut i: usize = 8;
    while i > 0
        invariant
            i <= 8,
            nonce_encoding(micros) == be_digits(rest as nat, i as nat) + out@.subrange(
                i as int,
                8,
            ),
        decreases i,
    {
        let ghost before = out@;
        i = i - 1;
        out[i] = (rest % 256) as u8;
        proof {
            let head = be_digits((rest / 256) as nat, i as nat);
            assert(be_digits(rest as nat, (i + 1) as nat) == head.push((rest % 256) as u8));
            assert(head.push((rest % 256) as u8) + before.subrange(i + 1, 8) =~= head
                + out@.subrange(i as int, 8));
        }
        rest = rest / 256;
    }
    proof {
        assert(be_digits(rest as nat, 0) + out@.subrange(0, 8) =~= out@);
    }
    out
}

} // verus!
