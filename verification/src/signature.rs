//! Webhook signature verification: an HMAC-SHA-256 tag over the raw request
//! body, carried in the signature header as `sha256=` followed by the tag in
//! lowercase hexadecimal.  The comparison against the expected value is
//! verified; only the MAC computation itself is delegated.

use vstd::prelude::*;
use hmac::Mac;

verus! {

/// The HMAC-SHA-256 tag of `msg` under `key`: a function of the two byte
/// sequences alone, computed by the outside MAC implementation.
pub uninterp spec fn hmac_sha256_of(key: Seq<u8>, msg: Seq<u8>) -> Seq<u8>;

/// Relies on hmac's `Hmac<Sha256>`: the tag depends on key and message
/// alone and is 32 bytes long; keys of any length are accepted.
#[verifier::external_body]
fn compute_hmac_sha256(key: &[u8], msg: &[u8]) -> (r: Vec<u8>)
    ensures
        r@ == hmac_sha256_of(key@, msg@),
        r@.len() == 32,
{
    let mut mac = <hmac::Hmac<sha2::Sha256> as hmac::KeyInit>::new_from_slice(key)
        .expect("HMAC accepts keys of any length");
    mac.update(msg);
    mac.finalize().into_bytes().to_vec()
}

/// Lowercase hexadecimal digit for a value below 16.
pub open spec fn spec_hex_digit(n: u8) -> char
    recommends
        n < 16,
{
    if n < 10 {
        ((n + 48) as char)
    } else {
        ((n + 87) as char)
    }
}

/// Lowercase hexadecimal rendering of a byte sequence, two digits per byte,
/// high nibble first.
pub open spec fn spec_hex(bytes: Seq<u8>) -> Seq<char> {
    Seq::new(
        bytes.len() * 2,
        |i: int|
            if i % 2 == 0 {
                spec_hex_digit(bytes[i / 2] / 16)
            } else {
                spec_hex_digit(bytes[i / 2] % 16)
            },
    )
}

/// The signature header value this relay expects for `body` under `secret`.
pub open spec fn spec_expected_signature(secret: Seq<u8>, body: Seq<u8>) -> Seq<char> {
    "sha256="@ + spec_hex(hmac_sha256_of(secret, body))
}

/// A supplied signature is accepted exactly when it equals the expected one.
pub open spec fn signature_accepted(secret: Seq<u8>, body: Seq<u8>, sig: Seq<char>) -> bool {
    sig == spec_expected_signature(secret, body)
}

/// Lowercase hexadecimal digit for a nibble.
fn hex_digit(n: u8) -> (c: char)
    requires
        n < 16,
    ensures
        c == spec_hex_digit(n),
{
    if n < 10 {
        (n + 48) as char
    } else {
        (n + 87) as char
    }
}

/// Decide whether `sig` is the correct signature for `body` under `secret`:
/// accepted exactly when it spells `sha256=` followed by the lowercase
/// hexadecimal HMAC-SHA-256 tag of the body under the secret.  Any deviation
/// — in the prefix, in a single digit, or in length — is refused.
pub fn verify_signature(secret: &[u8], body: &[u8], sig: &str) -> (r: bool)
    ensures
        r == signature_accepted(secret@, body@, sig@),
{
    proof {
        reveal_strlit("sha256=");
    }
    let ghost expected = spec_expected_signature(secret@, body@);
    let digest = compute_hmac_sha256(secret, body);
    let siglen = sig.unicode_len();
    if siglen != 71 {
        proof {
            assert(expected.len() == 71);
        }
        return false;
    }
    let prefix = "sha256=";
    for i in 0..7usize
        invariant
            siglen == sig@.len(),
            siglen == 71,
            prefix@ == "sha256="@,
            prefix@.len() == 7,
            expected == spec_expected_signature(secret@, body@),
            expected.len() == 71,
            forall|j: int| 0 <= j < i ==> sig@[j] == expected[j],
    {
        if sig.get_char(i) != prefix.get_char(i) {
            proof {
                assert(expected[i as int] == prefix@[i as int]);
            }
            return false;
        }
        proof {
            assert(expected[i as int] == prefix@[i as int]);
        }
    }
    for i in 0..32usize
        invariant
            siglen == sig@.len(),
            siglen == 71,
            digest@ == hmac_sha256_of(secret@, body@),
            digest@.len() == 32,
            expected == spec_expected_signature(secret@, body@),
            expected.len() == 71,
            forall|j: int| 0 <= j < 7 + 2 * i ==> sig@[j] == expected[j],
    {
        let b = digest[i];
        let hi = hex_digit(b / 16);
        let lo = hex_digit(b % 16);
        proof {
            assert(expected[7 + 2 * (i as int)] == spec_hex(digest@)[2 * (i as int)]);
            assert(expected[7 + 2 * (i as int) + 1] == spec_hex(digest@)[2 * (i as int) + 1]);
        }
        if sig.get_char(7 + 2 * i) != hi {
            return false;
        }
        if sig.get_char(7 + 2 * i + 1) != lo {
            return false;
        }
    }
    proof {
        assert(sig@ =~= expected);
    }
    true
}

/// A signature different from an accepted one is always refused: acceptance
/// pins the header value down to exactly one character sequence.
pub proof fn lemma_signature_mutation(
    secret: Seq<u8>,
    body: Seq<u8>,
    sig: Seq<char>,
    other: Seq<char>,
)
    requires
        signature_accepted(secret, body, sig),
        other != sig,
    ensures
        !signature_accepted(secret, body, other),
{
}

} // verus!
