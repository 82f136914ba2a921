//! Password digests: SHA-256 from `ring`, written out in lower-case hex by
//! the `hex` crate.

use vstd::prelude::*;
use vstd::utf8::encode_utf8;

use crate::text::digit_char;

verus! {

/// The name of the SHA-256 digest of `data`, as `ring` computes it.
pub uninterp spec fn sha256_of(data: Seq<u8>) -> Seq<u8>;

/// The largest input, in bytes, that `ring` hashes: its length in bits must
/// fit in a `u64`.
pub open spec fn digest_input_limit() -> nat {
    0x2000_0000_0000_0000
}

/// Calls `ring::digest::digest(&SHA256, data)`. The contract names the digest
/// (`sha256_of`) and states its length, 32 bytes, which `ring` fixes for
/// SHA-256; `ring` panics when the input's length in bits overflows a `u64`,
/// which `requires` rules out.
#[verifier::external_body]
fn sha256(data: &[u8]) -> (d: Vec<u8>)
    requires
        data@.len() < digest_input_limit(),
    ensures
        d@ == sha256_of(data@),
        d@.len() == 32,
{
    ring::digest::digest(&ring::digest::SHA256, data).as_ref().to_vec()
}

/// The lower-case hex digit for `n < 16`.
pub open spec fn hex_digit(n: nat) -> char {
    if n < 10 {
        digit_char(n)
    } else if n == 10 {
        'a'
    } else if n == 11 {
        'b'
    } else if n == 12 {
        'c'
    } else if n == 13 {
        'd'
    } else if n == 14 {
        'e'
    } else {
        'f'
    }
}

/// Each byte as two lower-case hex digits, high nibble first.
pub open spec fn hex_lower(bytes: Seq<u8>) -> Seq<char>
    decreases bytes.len(),
{
    if bytes.len() == 0 {
        Seq::empty()
    } else {
        hex_lower(bytes.drop_last()) + seq![
            hex_digit((bytes.last() / 16) as nat),
            hex_digit((bytes.last() % 16) as nat),
        ]
    }
}

/// Calls `hex::encode`, which writes each byte as two digits from
/// `0123456789abcdef`, high nibble first; the contract states exactly that.
#[verifier::external_body]
fn hex_encode(data: &[u8]) -> (s: String)
    ensures
        s@ == hex_lower(data@),
{
    hex::encode(data)
}

proof fn lemma_hex_lower_len(bytes: Seq<u8>)
    ensures
        hex_lower(bytes).len() == 2 * bytes.len(),
    decreases bytes.len(),
{
    if bytes.len() > 0 {
        lemma_hex_lower_len(bytes.drop_last());
    }
}

/// Hex writes each byte as two digits, high nibble first: the text is twice
/// as long as the bytes, and byte `k` stands at positions `2k` and `2k + 1`.
pub proof fn lemma_hex_lower_digits(bytes: Seq<u8>, k: int)
    requires
        0 <= k < bytes.len(),
    ensures
        hex_lower(bytes).len() == 2 * bytes.len(),
        hex_lower(bytes)[2 * k] == hex_digit((bytes[k] / 16) as nat),
        hex_lower(bytes)[2 * k + 1] == hex_digit((bytes[k] % 16) as nat),
    decreases bytes.len(),
{
    lemma_hex_lower_len(bytes);
    let init = bytes.drop_last();
    lemma_hex_lower_len(init);
    if k < bytes.len() - 1 {
        lemma_hex_lower_digits(init, k);
        assert(hex_lower(bytes)[2 * k] == hex_lower(init)[2 * k]);
        assert(hex_lower(bytes)[2 * k + 1] == hex_lower(init)[2 * k + 1]);
    }
}

/// The hex digits are `0` to `9`, then `a` to `f`.
pub proof fn lemma_hex_digit_chars()
    ensures
        hex_digit(0) == '0' && hex_digit(9) == '9' && hex_digit(10) == 'a' && hex_digit(11) == 'b'
            && hex_digit(12) == 'c' && hex_digit(13) == 'd' && hex_digit(14) == 'e' && hex_digit(15)
            == 'f',
        forall|n: nat| n < 10 ==> #[trigger] hex_digit(n) == digit_char(n),
{
}

/// The digest under which a password is kept: the hex of the SHA-256 of its
/// UTF-8 bytes.
pub open spec fn password_digest(password: Seq<char>) -> Seq<char> {
    hex_lower(sha256_of(encode_utf8(password)))
}

/// Whether a text is short enough to be hashed.
pub open spec fn hashable(s: Seq<char>) -> bool {
    encode_utf8(s).len() < digest_input_limit()
}

/// Hashes a text: hex of the SHA-256 of its UTF-8 bytes.
pub fn hash_text(data: &str) -> (h: String)
    requires
        hashable(data@),
    ensures
        h@ == password_digest(data@),
        h@.len() == 64,
{
    let bytes = data.as_bytes();
    let d = sha256(bytes);
    proof {
        lemma_hex_lower_len(d@);
    }
    hex_encode(d.as_slice())
}

} // verus!
