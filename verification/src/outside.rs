//! The calls into outside crates, each behind a contract that states what the crate's
//! documentation promises of it.
use vstd::prelude::*;
use base64::Engine as _;
use hmac::Mac as _;
use sha2::Digest as _;

verus! {

/// Standard (padded) Base64 text of the given bytes.
pub uninterp spec fn spec_base64_encode(bytes: Seq<u8>) -> Seq<char>;

/// The bytes that standard Base64 decoding gives for the text, or `None` when it is not
/// valid standard Base64.
pub uninterp spec fn spec_base64_decode(text: Seq<char>) -> Option<Seq<u8>>;

/// SHA-256 digest of the bytes.
pub uninterp spec fn spec_sha256(data: Seq<u8>) -> Seq<u8>;

/// HMAC-SHA256 tag over the UTF-8 bytes of `message` under `key`.
pub uninterp spec fn spec_hmac_sha256(key: Seq<u8>, message: Seq<char>) -> Seq<u8>;

/// The instant an RFC 3339 timestamp denotes, as Unix seconds and the nanoseconds past that
/// second, or `None` when the text is not RFC 3339.
pub uninterp spec fn spec_rfc3339_instant(text: Seq<char>) -> Option<(i64, u32)>;

/// The text that percent-decoding and then UTF-8 decoding give, or `None` when the decoded
/// bytes are not UTF-8.
pub uninterp spec fn spec_percent_decode_utf8(text: Seq<char>) -> Option<Seq<char>>;

/// `base64::engine::general_purpose::STANDARD.encode`: the padded standard Base64 text of
/// the bytes, named by `spec_base64_encode`. The same engine decodes that text back to the
/// bytes.
#[verifier::external_body]
pub(crate) fn base64_encode(bytes: &[u8]) -> (text: String)
    ensures
        text@ == spec_base64_encode(bytes@),
        spec_base64_decode(text@) == Some(bytes@),
{
    base64::engine::general_purpose::STANDARD.encode(bytes)
}

/// `base64::engine::general_purpose::STANDARD.decode`: the decoded bytes, named by
/// `spec_base64_decode`, or the crate's error message.
#[verifier::external_body]
pub(crate) fn base64_decode(text: &str) -> (bytes: Result<Vec<u8>, String>)
    ensures
        match bytes {
            Ok(b) => spec_base64_decode(text@) == Some(b@),
            Err(_) => spec_base64_decode(text@) is None,
        },
{
    base64::engine::general_purpose::STANDARD.decode(text).map_err(|error| error.to_string())
}

/// `sha2::Sha256::digest`: the 32-byte SHA-256 digest, named by `spec_sha256`.
#[verifier::external_body]
pub(crate) fn sha256(data: &[u8]) -> (digest: [u8; 32])
    ensures
        digest@ == spec_sha256(data@),
{
    sha2::Sha256::digest(data).into()
}

/// `hmac::Hmac::<sha2::Sha256>` over the UTF-8 bytes of `message`: `new_from_slice`,
/// `update` and `finalize`, which HMAC accepts for every key length; the tag is named by
/// `spec_hmac_sha256`.
#[verifier::external_body]
pub(crate) fn hmac_sha256(key: &[u8; 32], message: &str) -> (tag: [u8; 32])
    ensures
        tag@ == spec_hmac_sha256(key@, message@),
{
    let mut signer = hmac::Hmac::<sha2::Sha256>::new_from_slice(key).expect("any key length");
    signer.update(message.as_bytes());
    signer.finalize().into_bytes().into()
}

/// `hmac::Mac::verify_slice` for HMAC-SHA256 over the UTF-8 bytes of `message`: true exactly
/// when `tag` equals the tag that `spec_hmac_sha256` names.
#[verifier::external_body]
pub(crate) fn hmac_sha256_verify(key: &[u8; 32], message: &str, tag: &[u8; 32]) -> (valid: bool)
    ensures
        valid == (tag@ == spec_hmac_sha256(key@, message@)),
{
    let mut verifier = hmac::Hmac::<sha2::Sha256>::new_from_slice(key).expect("any key length");
    verifier.update(message.as_bytes());
    verifier.verify_slice(tag).is_ok()
}

/// `getrandom::fill` on 16 bytes; `None` when the operating system source fails. Nothing is
/// promised of the bytes.
#[verifier::external_body]
pub(crate) fn random_16() -> (bytes: Option<[u8; 16]>)
{
    let mut bytes = [0_u8; 16];
    getrandom::fill(&mut bytes).ok().map(|()| bytes)
}

/// `getrandom::fill` on 32 bytes; `None` when the operating system source fails. Nothing is
/// promised of the bytes.
#[verifier::external_body]
pub(crate) fn random_32() -> (bytes: Option<[u8; 32]>)
{
    let mut bytes = [0_u8; 32];
    getrandom::fill(&mut bytes).ok().map(|()| bytes)
}

/// `chrono::DateTime::parse_from_rfc3339`, then `timestamp` and `timestamp_subsec_nanos`;
/// named by `spec_rfc3339_instant`. The nanoseconds stay below two seconds' worth, the bound
/// chrono documents for a leap second.
#[verifier::external_body]
pub(crate) fn parse_rfc3339(text: &str) -> (instant: Option<(i64, u32)>)
    ensures
        instant == spec_rfc3339_instant(text@),
        instant matches Some(p) ==> p.1 < 2_000_000_000,
{
    chrono::DateTime::parse_from_rfc3339(text).ok().map(|value| (
        value.timestamp(),
        value.timestamp_subsec_nanos(),
    ))
}

/// The instant an RFC 2822 date denotes, as Unix seconds and the nanoseconds past that
/// second, or `None` when the text is not an RFC 2822 date.
pub uninterp spec fn spec_rfc2822_instant(text: Seq<char>) -> Option<(i64, u32)>;

/// `chrono::DateTime::parse_from_rfc2822`, then `timestamp` and `timestamp_subsec_nanos`;
/// named by `spec_rfc2822_instant`. A chrono date lies within years -262143 to 262142, so its
/// Unix seconds stay below 2^44 in size, and the nanoseconds below two seconds' worth.
#[verifier::external_body]
pub(crate) fn parse_rfc2822(text: &str) -> (instant: Option<(i64, u32)>)
    ensures
        instant == spec_rfc2822_instant(text@),
        instant matches Some(p) ==> -0x1000_0000_0000 < p.0 < 0x1000_0000_0000 && p.1 < 2_000_000_000,
{
    chrono::DateTime::parse_from_rfc2822(text).ok().map(|value| (
        value.timestamp(),
        value.timestamp_subsec_nanos(),
    ))
}

/// `percent_encoding::percent_decode_str` followed by `decode_utf8`; named by
/// `spec_percent_decode_utf8`.
#[verifier::external_body]
pub(crate) fn percent_decode_utf8(text: &str) -> (decoded: Option<String>)
    ensures
        match decoded {
            Some(d) => spec_percent_decode_utf8(text@) == Some(d@),
            None => spec_percent_decode_utf8(text@) is None,
        },
{
    percent_encoding::percent_decode_str(text).decode_utf8().ok().map(|value| value.into_owned())
}


/// The text that lossy UTF-8 decoding gives for the bytes: each invalid sequence becomes
/// U+FFFD.
pub uninterp spec fn spec_utf8_lossy(bytes: Seq<u8>) -> Seq<char>;

/// `String::from_utf8_lossy`, named by `spec_utf8_lossy`; on well-formed UTF-8 it gives
/// exactly the text the bytes encode, as its documentation says.
#[verifier::external_body]
pub(crate) fn utf8_lossy(bytes: &[u8]) -> (text: String)
    ensures
        text@ == spec_utf8_lossy(bytes@),
        vstd::utf8::valid_utf8(bytes@) ==> text@ == vstd::utf8::decode_utf8(bytes@),
{
    String::from_utf8_lossy(bytes).into_owned()
}


/// The text the bytes encode, or `None` when they are not well-formed UTF-8.
pub open spec fn spec_utf8_decode(bytes: Seq<u8>) -> Option<Seq<char>> {
    if vstd::utf8::valid_utf8(bytes) {
        Some(vstd::utf8::decode_utf8(bytes))
    } else {
        None
    }
}

/// `std::str::from_utf8`: accepts exactly the well-formed UTF-8 byte sequences and gives
/// the characters they encode.
#[verifier::external_body]
pub(crate) fn utf8_decode(bytes: &[u8]) -> (text: Option<String>)
    ensures
        match text {
            Some(t) => spec_utf8_decode(bytes@) == Some(t@),
            None => spec_utf8_decode(bytes@) is None,
        },
{
    std::str::from_utf8(bytes).ok().map(|value| value.to_string())
}


/// The text that Unicode lower-casing gives: each character replaced by its lowercase
/// mapping, which may be longer than one character.
pub uninterp spec fn spec_lowercase(text: Seq<char>) -> Seq<char>;

/// `str::to_lowercase`, named by `spec_lowercase`.
#[verifier::external_body]
pub(crate) fn lowercase(text: &str) -> (lower: String)
    ensures
        lower@ == spec_lowercase(text@),
{
    text.to_lowercase()
}


/// The text of the first capture group of the first match of the regular expression
/// `pattern` in `text`, or `None` when the pattern does not compile, does not match, or its
/// first group takes part in no match.
pub uninterp spec fn spec_regex_first_group(pattern: Seq<char>, text: Seq<char>) -> Option<Seq<char>>;

/// `regex::Regex::new(pattern)`, then `captures(text)` and the text of group 1; named by
/// `spec_regex_first_group`.
#[verifier::external_body]
pub(crate) fn regex_first_group(pattern: &str, text: &str) -> (group: Option<String>)
    ensures
        match group {
            Some(g) => spec_regex_first_group(pattern@, text@) == Some(g@),
            None => spec_regex_first_group(pattern@, text@) is None,
        },
{
    let compiled = regex::Regex::new(pattern).ok()?;
    compiled.captures(text).and_then(|captures| captures.get(1)).map(|group| group.as_str().to_string())
}

} // verus!
