//! One-way tokens for identifying strings.

use vstd::prelude::*;

verus! {

/// The hex text of the SHA-256 digest of a string's UTF-8 bytes.
pub uninterp spec fn sha256_hex(s: Seq<char>) -> Seq<char>;

/// A lowercase hexadecimal digit.
pub open spec fn is_hex_digit(c: char) -> bool {
    ('0' <= c && c <= '9') || ('a' <= c && c <= 'f')
}

/// A token as the anonymizer writes it: 64 lowercase hexadecimal digits.
pub open spec fn is_token(t: Seq<char>) -> bool {
    &&& t.len() == 64
    &&& forall|i: int| 0 <= i < t.len() ==> is_hex_digit(#[trigger] t[i])
}

/// Relies on sha256::digest, which hex-encodes the 32-byte SHA-256 digest of
/// the string's bytes: 64 lowercase hexadecimal digits.
#[verifier::external_body]
fn sha256_digest(s: &str) -> (r: String)
    ensures
        r@ == sha256_hex(s@),
        is_token(r@),
{
    sha256::digest(s)
}

/// The token that stands for `s` in the export. No salt is used, so the same
/// string gives the same token in every run.
pub fn anonymize(s: &str) -> (r: String)
    ensures
        r@ == sha256_hex(s@),
        is_token(r@),
        !is_token(s@) ==> r@ != s@,
{
    sha256_digest(s)
}

/// Equal strings are given equal tokens.
pub proof fn lemma_anonymize_deterministic(a: Seq<char>, b: Seq<char>)
    requires
        a == b,
    ensures
        sha256_hex(a) == sha256_hex(b),
{
}

} // verus!
