//! SHA-256, HMAC-SHA256, hexadecimal text and random UUIDs, as the outside
//! crates `sha2`, `hmac`, `hex` and `uuid` compute them.
use vstd::prelude::*;

use hmac::Mac;
use sha2::Digest;

verus! {

/// The SHA-256 digest of `data`, as `sha2::Sha256` computes it.
pub uninterp spec fn sha256_digest(data: Seq<u8>) -> Seq<u8>;

/// The HMAC-SHA256 tag of `message` under `key`, as `hmac::Hmac<sha2::Sha256>`
/// computes it.
pub uninterp spec fn hmac_sha256_tag(key: Seq<u8>, message: Seq<u8>) -> Seq<u8>;

/// `sha2::Sha256::digest`: the digest of `data`, named by `sha256_digest`;
/// SHA-256 digests are always 32 bytes long.
#[verifier::external_body]
pub(crate) fn sha256(data: &[u8]) -> (digest: Vec<u8>)
    ensures
        digest@ == sha256_digest(data@),
        digest@.len() == 32,
{
    sha2::Sha256::digest(data).to_vec()
}

/// `hmac::Hmac::<sha2::Sha256>::new_from_slice`, `update` and `finalize`: the
/// tag of `message` under `key`, named by `hmac_sha256_tag`. The crate's
/// `new_from_slice` for HMAC accepts keys of every length (longer keys are
/// hashed first), so the result is always present. The tag has the SHA-256
/// output size, 32 bytes.
#[verifier::external_body]
pub(crate) fn hmac_sha256(key: &[u8], message: &[u8]) -> (tag: Option<Vec<u8>>)
    ensures
        match tag {
            Some(tag) => tag@ == hmac_sha256_tag(key@, message@) && tag@.len() == 32,
            None => false,
        },
{
    match hmac::Hmac::<sha2::Sha256>::new_from_slice(key) {
        Ok(mut mac) => {
            mac.update(message);
            Some(mac.finalize().into_bytes().to_vec())
        },
        Err(_) => None,
    }
}

/// `hmac::Hmac::<sha2::Sha256>::new_from_slice`, `update` and `verify_slice`:
/// whether `tag` is exactly the tag of `message` under `key`. `verify_slice`
/// refuses a tag of another length and compares the bytes in constant time.
#[verifier::external_body]
pub(crate) fn hmac_sha256_verify(key: &[u8], message: &[u8], tag: &[u8]) -> (valid: bool)
    ensures
        valid == (tag@ == hmac_sha256_tag(key@, message@)),
{
    match hmac::Hmac::<sha2::Sha256>::new_from_slice(key) {
        Ok(mut mac) => {
            mac.update(message);
            mac.verify_slice(tag).is_ok()
        },
        Err(_) => false,
    }
}

/// The lowercase hexadecimal digit of `v`.
pub open spec fn hex_digit(v: nat) -> char
    recommends
        v < 16,
{
    if v < 10 {
        (v + 48) as char
    } else {
        (v + 87) as char
    }
}

/// `bytes` as lowercase hexadecimal text, two digits per byte, high nibble first.
pub open spec fn hex_lower(bytes: Seq<u8>) -> Seq<char>
    decreases bytes.len(),
{
    if bytes.len() == 0 {
        Seq::empty()
    } else {
        hex_lower(bytes.drop_last()) + seq![
            hex_digit((bytes.last() / 16) as nat),
            hex_digit((bytes.last() % 16) as nat),
        ]
    }
}

/// The value of the hexadecimal digit `c`, in either case.
pub open spec fn hex_value(c: char) -> Option<nat> {
    if '0' <= c && c <= '9' {
        Some((c as nat - 48) as nat)
    } else if 'a' <= c && c <= 'f' {
        Some((c as nat - 87) as nat)
    } else if 'A' <= c && c <= 'F' {
        Some((c as nat - 55) as nat)
    } else {
        None
    }
}

/// The bytes that the hexadecimal text `s` denotes: two digits per byte, in
/// either case; `None` for an odd number of characters or a non-digit.
pub open spec fn hex_decoded(s: Seq<char>) -> Option<Seq<u8>>
    decreases s.len(),
{
    if s.len() == 0 {
        Some(Seq::empty())
    } else if s.len() == 1 {
        None
    } else {
        let n = s.len() as int;
        match (hex_decoded(s.subrange(0, n - 2)), hex_value(s[n - 2]), hex_value(s[n - 1])) {
            (Some(prefix), Some(high), Some(low)) => Some(prefix.push((high * 16 + low) as u8)),
            _ => None,
        }
    }
}

/// `hex::encode`: `bytes` as lowercase hexadecimal text.
#[verifier::external_body]
pub(crate) fn encode_hex(bytes: &[u8]) -> (text: String)
    ensures
        text@ == hex_lower(bytes@),
{
    hex::encode(bytes)
}

/// `hex::decode` of the UTF-8 bytes of `text`: the bytes it denotes, or `None`
/// when its length is odd or it holds a byte that is no hexadecimal digit.
/// Every byte of a non-ASCII character is such a byte.
#[verifier::external_body]
pub(crate) fn decode_hex(text: &str) -> (bytes: Option<Vec<u8>>)
    ensures
        match bytes {
            Some(bytes) => hex_decoded(text@) == Some(bytes@),
            None => hex_decoded(text@) is None,
        },
{
    match hex::decode(text) {
        Ok(bytes) => Some(bytes),
        Err(_) => None,
    }
}

/// `c` is a lowercase hexadecimal digit.
pub open spec fn is_hex_lower_char(c: char) -> bool {
    ('0' <= c && c <= '9') || ('a' <= c && c <= 'f')
}

/// `s` has the shape of a hyphenated lowercase UUID: 36 characters, hyphens
/// at positions 8, 13, 18 and 23 and lowercase hexadecimal digits elsewhere.
pub open spec fn is_uuid_text(s: Seq<char>) -> bool {
    &&& s.len() == 36
    &&& forall|i: int|
        0 <= i < 36 ==> (if i == 8 || i == 13 || i == 18 || i == 23 {
            #[trigger] s[i] == '-'
        } else {
            is_hex_lower_char(s[i])
        })
}

/// `uuid::Uuid::new_v4` written with `to_string`: a fresh random UUID in its
/// hyphenated lowercase form. Which UUID comes back is left open; the crate
/// panics only when the operating system cannot supply random bytes.
#[verifier::external_body]
pub(crate) fn new_uuid_text() -> (text: String)
    ensures
        is_uuid_text(text@),
{
    uuid::Uuid::new_v4().to_string()
}

/// Decoding the lowercase hexadecimal text of `bytes` gives `bytes` back.
pub proof fn lemma_hex_roundtrip(bytes: Seq<u8>)
    ensures
        hex_decoded(hex_lower(bytes)) == Some(bytes),
        hex_lower(bytes).len() == 2 * bytes.len(),
        forall|i: int| 0 <= i < hex_lower(bytes).len() ==> is_hex_lower_char(#[trigger] hex_lower(bytes)[i]),
    decreases bytes.len(),
{
    if bytes.len() > 0 {
        let rest = bytes.drop_last();
        lemma_hex_roundtrip(rest);
        let b = bytes.last();
        let high = (b / 16) as nat;
        let low = (b % 16) as nat;
        let text = hex_lower(bytes);
        let n = text.len() as int;
        assert(text.subrange(0, n - 2) =~= hex_lower(rest));
        lemma_hex_digit(high);
        lemma_hex_digit(low);
        assert(text[n - 2] == hex_digit(high));
        assert(text[n - 1] == hex_digit(low));
        assert((high * 16 + low) as u8 == b);
        assert(rest.push(b) =~= bytes);
        assert forall|i: int| 0 <= i < n implies is_hex_lower_char(#[trigger] text[i]) by {
            if i < n - 2 {
                assert(text[i] == hex_lower(rest)[i]);
            }
        }
    }
}

proof fn lemma_hex_digit(v: nat)
    requires
        v < 16,
    ensures
        hex_value(hex_digit(v)) == Some(v),
        is_hex_lower_char(hex_digit(v)),
{
}

} // verus!
