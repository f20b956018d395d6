//! Hexadecimal text and the digest that composite slot names are made of.

use vstd::prelude::*;

verus! {

/// The lower-case hexadecimal digit for `n`, for `n` below sixteen.
pub open spec fn hex_digit(n: int) -> char {
    seq!['0', '1', '2', '3', '4', '5', '6', '7', '8', '9', 'a', 'b', 'c', 'd', 'e', 'f'][n]
}

/// The lower-case hexadecimal text of `bytes`: two digits for each byte, the
/// high half first.
pub open spec fn hex_lower(bytes: Seq<u8>) -> Seq<char> {
    Seq::new(
        2 * bytes.len(),
        |i: int|
            if i % 2 == 0 {
                hex_digit(bytes[i / 2] as int / 16)
            } else {
                hex_digit(bytes[i / 2] as int % 16)
            },
    )
}

/// The 32-byte BLAKE2b digest of `data`.
pub uninterp spec fn blake2b_digest(data: Seq<u8>) -> Seq<u8>;

/// Distinct digit values have distinct digits.
pub proof fn lemma_hex_digit_injective(m: int, n: int)
    requires
        0 <= m < 16,
        0 <= n < 16,
        hex_digit(m) == hex_digit(n),
    ensures
        m == n,
{
}

/// Byte strings with the same hexadecimal text are the same.
pub proof fn lemma_hex_lower_injective(a: Seq<u8>, b: Seq<u8>)
    requires
        hex_lower(a) == hex_lower(b),
    ensures
        a == b,
{
    assert(hex_lower(a).len() == 2 * a.len());
    assert(hex_lower(b).len() == 2 * b.len());
    assert(a.len() == b.len());
    assert forall|k: int| 0 <= k < a.len() implies a[k] == b[k] by {
        let hi = 2 * k;
        let lo = 2 * k + 1;
        assert(hi / 2 == k && hi % 2 == 0);
        assert(lo / 2 == k && lo % 2 == 1);
        assert(hex_lower(a)[hi] == hex_digit(a[k] as int / 16));
        assert(hex_lower(b)[hi] == hex_digit(b[k] as int / 16));
        assert(hex_lower(a)[lo] == hex_digit(a[k] as int % 16));
        assert(hex_lower(b)[lo] == hex_digit(b[k] as int % 16));
        lemma_hex_digit_injective(a[k] as int / 16, b[k] as int / 16);
        lemma_hex_digit_injective(a[k] as int % 16, b[k] as int % 16);
    }
    assert(a =~= b);
}

/// Calls `hex::encode` on the bytes. Claims that the result is their
/// lower-case hexadecimal text, two digits for each byte.
#[verifier::external_body]
pub(crate) fn outside_hex(bytes: &[u8]) -> (r: String)
    ensures
        r@ == hex_lower(bytes@),
{
    hex::encode(bytes)
}

/// Calls `casper_types::account::blake2b` on the bytes. Claims that the result
/// is the digest of the bytes and has 32 bytes.
#[verifier::external_body]
pub(crate) fn outside_blake2b(data: &[u8]) -> (r: [u8; 32])
    ensures
        r@ == blake2b_digest(data@),
{
    casper_types::account::blake2b(data)
}

} // verus!
