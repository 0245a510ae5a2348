//! Authenticated operation reports: the envelope that carries a guest report, the HMAC that
//! binds it to one operation, and the tracker that rejects stale or reused sequences.
use vstd::prelude::*;
use crate::outside::{
    base64_decode, base64_encode, hmac_sha256, hmac_sha256_verify, random_16, random_32,
    spec_base64_decode, spec_base64_encode, spec_hmac_sha256,
};
use crate::scripts::{powershell_literal, powershell_literal_spec};
use crate::text::{
    ascii_hexdigit, decimal, decimal_chars, equals_str, is_ascii_hexdigit, is_lower_hex_digit,
    lower_hex_digit, push_all, push_str, string_from, string_of, to_chars,
};

verus! {

pub const ENVELOPE_SCHEMA_VERSION: u32 = 1;

pub const MAX_REPORT_BYTES: u64 = 131072;

pub const MAX_PAYLOAD_BYTES: usize = 98304;

/// The lower-case hexadecimal digit for `n < 16`.
pub open spec fn hex_char(n: int) -> char {
    if n == 0 { '0' } else if n == 1 { '1' } else if n == 2 { '2' } else if n == 3 { '3' }
    else if n == 4 { '4' } else if n == 5 { '5' } else if n == 6 { '6' } else if n == 7 { '7' }
    else if n == 8 { '8' } else if n == 9 { '9' } else if n == 10 { 'a' } else if n == 11 { 'b' }
    else if n == 12 { 'c' } else if n == 13 { 'd' } else if n == 14 { 'e' } else { 'f' }
}

/// The value of a hexadecimal digit of either case.
pub open spec fn hex_value(c: char) -> int {
    if '0' <= c && c <= '9' {
        c as int - '0' as int
    } else if 'a' <= c && c <= 'f' {
        c as int - 'a' as int + 10
    } else {
        c as int - 'A' as int + 10
    }
}

/// Two lower-case hexadecimal digits per byte, most significant first.
pub open spec fn hex_encode_spec(bytes: Seq<u8>) -> Seq<char> {
    Seq::new(
        2 * bytes.len(),
        |i: int|
            if i % 2 == 0 {
                hex_char(bytes[i / 2] as int / 16)
            } else {
                hex_char(bytes[i / 2] as int % 16)
            },
    )
}

/// The bytes of an even-length text of hexadecimal digits of either case.
pub open spec fn hex_decode_spec(text: Seq<char>) -> Option<Seq<u8>> {
    if text.len() % 2 == 0 && forall|i: int| 0 <= i < text.len() ==> is_ascii_hexdigit(#[trigger] text[i]) {
        Some(Seq::new(
            text.len() / 2,
            |i: int| (16 * hex_value(text[2 * i]) + hex_value(text[2 * i + 1])) as u8,
        ))
    } else {
        None
    }
}

/// Whether the text is exactly `length` lower-case hexadecimal digits.
pub open spec fn lower_hex_spec(text: Seq<char>, length: nat) -> bool {
    text.len() == length && forall|i: int| 0 <= i < text.len() ==> is_lower_hex_digit(#[trigger] text[i])
}

proof fn lemma_hex_char(n: int)
    requires
        0 <= n < 16,
    ensures
        hex_value(hex_char(n)) == n,
        is_lower_hex_digit(hex_char(n)),
        is_ascii_hexdigit(hex_char(n)),
{
}

/// Hex encoding gives only lower-case hexadecimal digits, two per byte.
pub proof fn lemma_hex_encode_is_lower_hex(bytes: Seq<u8>)
    ensures
        lower_hex_spec(hex_encode_spec(bytes), 2 * bytes.len()),
{
    let text = hex_encode_spec(bytes);
    assert forall|i: int| 0 <= i < text.len() implies is_lower_hex_digit(#[trigger] text[i]) by {
        if i % 2 == 0 {
            lemma_hex_char(bytes[i / 2] as int / 16);
        } else {
            lemma_hex_char(bytes[i / 2] as int % 16);
        }
    }
}

fn hex_digit(n: u8) -> (c: char)
    requires
        n < 16,
    ensures
        c == hex_char(n as int),
{
    match n {
        0 => '0',
        1 => '1',
        2 => '2',
        3 => '3',
        4 => '4',
        5 => '5',
        6 => '6',
        7 => '7',
        8 => '8',
        9 => '9',
        10 => 'a',
        11 => 'b',
        12 => 'c',
        13 => 'd',
        14 => 'e',
        _ => 'f',
    }
}

/// Lower-case hexadecimal text of the bytes.
pub fn hex_encode(bytes: &[u8]) -> (text: Vec<char>)
    ensures
        text@ == hex_encode_spec(bytes@),
{
    let mut text: Vec<char> = Vec::new();
    let mut i: usize = 0;
    while i < bytes.len()
        invariant
            i <= bytes.len(),
            text.len() == 2 * i,
            forall|j: int|
                0 <= j < 2 * i ==> #[trigger] text@[j] == hex_encode_spec(bytes@)[j],
        decreases bytes.len() - i,
    {
        let b = bytes[i];
        text.push(hex_digit(b / 16));
        text.push(hex_digit(b % 16));
        assert((2 * i) / 2 == i as int && (2 * i + 1) / 2 == i as int);
        assert((2 * i) % 2 == 0 && (2 * i + 1) % 2 == 1);
        i = i + 1;
    }
    assert(text@ =~= hex_encode_spec(bytes@));
    text
}

/// The decoded value of one hexadecimal digit.
fn hex_digit_value(c: char) -> (v: u8)
    requires
        is_ascii_hexdigit(c),
    ensures
        v as int == hex_value(c),
        v < 16,
{
    if '0' <= c && c <= '9' {
        (c as u32 - '0' as u32) as u8
    } else if 'a' <= c && c <= 'f' {
        (c as u32 - 'a' as u32 + 10) as u8
    } else {
        (c as u32 - 'A' as u32 + 10) as u8
    }
}

/// Bytes of an even-length text of hexadecimal digits of either case; `None` otherwise.
pub fn hex_decode(text: &[char]) -> (bytes: Option<Vec<u8>>)
    ensures
        match bytes {
            Some(b) => hex_decode_spec(text@) == Some(b@),
            None => hex_decode_spec(text@) is None,
        },
{
    if text.len() % 2 != 0 {
        return None;
    }
    let mut k: usize = 0;
    while k < text.len()
        invariant
            k <= text.len(),
            forall|j: int| 0 <= j < k ==> is_ascii_hexdigit(#[trigger] text@[j]),
        decreases text.len() - k,
    {
        if !ascii_hexdigit(text[k]) {
            assert(!is_ascii_hexdigit(text@[k as int]));
            return None;
        }
        k = k + 1;
    }
    let half = text.len() / 2;
    let mut bytes: Vec<u8> = Vec::new();
    let mut i: usize = 0;
    while i < half
        invariant
            i <= half,
            half * 2 == text.len(),
            forall|j: int| 0 <= j < text.len() ==> is_ascii_hexdigit(#[trigger] text@[j]),
            bytes.len() == i,
            forall|j: int|
                0 <= j < i ==> #[trigger] bytes@[j] == (16 * hex_value(text@[2 * j]) + hex_value(
                    text@[2 * j + 1],
                )) as u8,
        decreases half - i,
    {
        let high = hex_digit_value(text[2 * i]);
        let low = hex_digit_value(text[2 * i + 1]);
        bytes.push(high * 16 + low);
        i = i + 1;
    }
    proof {
        let spec = hex_decode_spec(text@);
        assert(spec is Some);
        assert(bytes@ =~= spec->0);
    }
    Some(bytes)
}

/// Whether the text is exactly `length` lower-case hexadecimal digits.
pub fn is_lower_hex(text: &[char], length: usize) -> (r: bool)
    ensures
        r == lower_hex_spec(text@, length as nat),
{
    if text.len() != length {
        return false;
    }
    let mut i: usize = 0;
    while i < text.len()
        invariant
            i <= text.len(),
            forall|j: int| 0 <= j < i ==> is_lower_hex_digit(#[trigger] text@[j]),
        decreases text.len() - i,
    {
        if !lower_hex_digit(text[i]) {
            assert(!is_lower_hex_digit(text@[i as int]));
            return false;
        }
        i = i + 1;
    }
    true
}

/// Decoding the lower-case hexadecimal text of any bytes gives the bytes back.
pub proof fn lemma_hex_round_trip(bytes: Seq<u8>)
    ensures
        hex_decode_spec(hex_encode_spec(bytes)) == Some(bytes),
        lower_hex_spec(hex_encode_spec(bytes), 2 * bytes.len()),
{
    let text = hex_encode_spec(bytes);
    assert forall|i: int| 0 <= i < text.len() implies is_ascii_hexdigit(#[trigger] text[i])
        && is_lower_hex_digit(text[i]) by {
        let b = bytes[i / 2];
        lemma_hex_char(b as int / 16);
        lemma_hex_char(b as int % 16);
    }
    assert(text.len() % 2 == 0);
    let decoded = hex_decode_spec(text)->0;
    assert forall|i: int| 0 <= i < bytes.len() implies #[trigger] decoded[i] == bytes[i] by {
        let b = bytes[i];
        assert((2 * i) / 2 == i && (2 * i + 1) / 2 == i);
        assert((2 * i) % 2 == 0 && (2 * i + 1) % 2 == 1);
        lemma_hex_char(b as int / 16);
        lemma_hex_char(b as int % 16);
        assert(16 * (b / 16) + b % 16 == b);
    }
    assert(decoded =~= bytes);
}

/// The message that the MAC of an envelope covers.
pub open spec fn authenticated_message_spec(
    request_id: Seq<char>,
    nonce: Seq<char>,
    sequence: u64,
    payload: Seq<char>,
) -> Seq<char> {
    request_id + seq!['\n'] + nonce + seq!['\n'] + decimal(sequence as nat) + seq!['\n'] + payload
}

/// The newline-joined request ID, nonce, decimal sequence and Base64 payload.
pub fn authenticated_message(request_id: &str, nonce: &str, sequence: u64, payload: &str) -> (r:
    String)
    ensures
        r@ == authenticated_message_spec(request_id@, nonce@, sequence, payload@),
{
    let mut out: Vec<char> = Vec::new();
    push_str(&mut out, request_id);
    out.push('\n');
    push_str(&mut out, nonce);
    out.push('\n');
    let digits = decimal_chars(sequence);
    push_all(&mut out, &digits);
    out.push('\n');
    push_str(&mut out, payload);
    assert(out@ =~= authenticated_message_spec(request_id@, nonce@, sequence, payload@));
    string_from(&out)
}

/// The per-operation secrets: a request ID and nonce the report must echo, the HMAC key,
/// and the digest of the script that the guest may run.
#[derive(Clone)]
pub struct OperationSecurity {
    request_id: String,
    nonce: String,
    key: [u8; 32],
    script_sha256: String,
}

impl OperationSecurity {
    pub closed spec fn request_id_view(&self) -> Seq<char> {
        self.request_id@
    }

    pub closed spec fn nonce_view(&self) -> Seq<char> {
        self.nonce@
    }

    pub closed spec fn key_view(&self) -> Seq<u8> {
        self.key@
    }

    pub closed spec fn script_sha256_view(&self) -> Seq<char> {
        self.script_sha256@
    }

    /// The secrets made of the given random bytes, for a script whose SHA-256 is the given
    /// lower-case hex digest: the request ID and nonce are the bytes in lower-case hex, the key
    /// is kept as it is. A digest that is not 64 lower-case hex digits is refused.
    pub fn from_secrets(script_sha256: &str, request_id: [u8; 16], nonce: [u8; 16], key: [u8; 32]) -> (r: Result<Self, String>)
        ensures
            lower_hex_spec(script_sha256@, 64) <==> r is Ok,
            r matches Err(e) ==> e@ == "the prepared script SHA-256 is invalid"@,
            r matches Ok(s) ==> {
                &&& s.script_sha256_view() == script_sha256@
                &&& s.request_id_view() == hex_encode_spec(request_id@)
                &&& s.nonce_view() == hex_encode_spec(nonce@)
                &&& s.key_view() == key@
                &&& lower_hex_spec(s.request_id_view(), 32)
                &&& lower_hex_spec(s.nonce_view(), 32)
            },
    {
        let digest = to_chars(script_sha256);
        if !is_lower_hex(&digest, 64) {
            return Err(string_of("the prepared script SHA-256 is invalid"));
        }
        let request_hex = hex_encode(&request_id);
        let nonce_hex = hex_encode(&nonce);
        proof {
            lemma_hex_round_trip(request_id@);
            lemma_hex_round_trip(nonce@);
        }
        Ok(OperationSecurity {
            request_id: string_from(&request_hex),
            nonce: string_from(&nonce_hex),
            key,
            script_sha256: string_of(script_sha256),
        })
    }

    /// Fresh random secrets for a script whose SHA-256 is the given lower-case hex digest.
    /// The digest is checked first; then the operating system's random source is asked for
    /// the request ID, the nonce and the key, and its failure is the only other error.
    pub fn generate(script_sha256: &str) -> (r: Result<Self, String>)
        ensures
            !lower_hex_spec(script_sha256@, 64) ==> (r matches Err(e)
                && e@ == "the prepared script SHA-256 is invalid"@),
            lower_hex_spec(script_sha256@, 64) ==> (r matches Err(e)
                ==> e@ == "the operating system random source failed"@),
            r matches Ok(s) ==> exists|request_id: Seq<u8>, nonce: Seq<u8>| {
                &&& request_id.len() == 16
                &&& nonce.len() == 16
                &&& s.request_id_view() == #[trigger] hex_encode_spec(request_id)
                &&& s.nonce_view() == #[trigger] hex_encode_spec(nonce)
            },
            r matches Ok(s) ==> {
                &&& s.script_sha256_view() == script_sha256@
                &&& lower_hex_spec(s.request_id_view(), 32)
                &&& lower_hex_spec(s.nonce_view(), 32)
                &&& s.key_view().len() == 32
            },
    {
        let digest = to_chars(script_sha256);
        if !is_lower_hex(&digest, 64) {
            return Err(string_of("the prepared script SHA-256 is invalid"));
        }
        let request_id = match random_16() {
            Some(bytes) => bytes,
            None => return Err(string_of("the operating system random source failed")),
        };
        let nonce = match random_16() {
            Some(bytes) => bytes,
            None => return Err(string_of("the operating system random source failed")),
        };
        let key = match random_32() {
            Some(bytes) => bytes,
            None => return Err(string_of("the operating system random source failed")),
        };
        let r = Self::from_secrets(script_sha256, request_id, nonce, key);
        assert(r matches Ok(s) ==> s.request_id_view() == hex_encode_spec(request_id@)
            && s.nonce_view() == hex_encode_spec(nonce@));
        r
    }

    /// The fixed secrets that the test suite signs its fixtures with.
    pub fn fixture() -> (s: Self)
        ensures
            s.key_view() == Seq::new(32, |i: int| 0x5a_u8),
    {
        let key = [0x5a_u8; 32];
        assert(key@ =~= Seq::new(32, |i: int| 0x5a_u8));
        let mut digest: Vec<char> = Vec::new();
        let mut i: usize = 0;
        while i < 32
            invariant
                i <= 32,
                digest.len() == 2 * i,
            decreases 32 - i,
        {
            digest.push('a');
            digest.push('b');
            i = i + 1;
        }
        OperationSecurity {
            request_id: string_of("00112233445566778899aabbccddeeff"),
            nonce: string_of("ffeeddccbbaa99887766554433221100"),
            key,
            script_sha256: string_from(&digest),
        }
    }

    pub fn request_id(&self) -> (r: &str)
        ensures
            r@ == self.request_id_view(),
    {
        self.request_id.as_str()
    }

    pub fn nonce(&self) -> (r: &str)
        ensures
            r@ == self.nonce_view(),
    {
        self.nonce.as_str()
    }

    pub fn script_sha256(&self) -> (r: &str)
        ensures
            r@ == self.script_sha256_view(),
    {
        self.script_sha256.as_str()
    }

    /// The Base64 text of the HMAC key, as the guest launcher receives it.
    pub fn key_base64(&self) -> (r: String)
        ensures
            r@ == spec_base64_encode(self.key_view()),
    {
        base64_encode(&self.key)
    }
}

/// A report whose MAC verified.
#[derive(Debug, Clone, PartialEq, Eq)]
pub struct AuthenticatedPayload {
    pub sequence: u64,
    pub payload: Vec<u8>,
    pub mac: [u8; 32],
}

#[derive(Debug, Clone, PartialEq, Eq)]
pub enum ReportAuthenticationError {
    Oversized,
    InvalidEnvelope(String),
    UnsupportedSchema(u32),
    RequestMismatch,
    NonceMismatch,
    InvalidSequence,
    InvalidPayload(String),
    InvalidMac,
    Replay,
    SequenceReuse,
}

/// A `ReportAuthenticationError` without the outside crates' messages.
pub enum AuthFailure {
    Oversized,
    InvalidEnvelope,
    UnsupportedSchema(u32),
    RequestMismatch,
    NonceMismatch,
    InvalidSequence,
    InvalidPayload,
    InvalidMac,
    Replay,
    SequenceReuse,
}

impl ReportAuthenticationError {
    pub open spec fn failure(&self) -> AuthFailure {
        match self {
            ReportAuthenticationError::Oversized => AuthFailure::Oversized,
            ReportAuthenticationError::InvalidEnvelope(_) => AuthFailure::InvalidEnvelope,
            ReportAuthenticationError::UnsupportedSchema(v) => AuthFailure::UnsupportedSchema(*v),
            ReportAuthenticationError::RequestMismatch => AuthFailure::RequestMismatch,
            ReportAuthenticationError::NonceMismatch => AuthFailure::NonceMismatch,
            ReportAuthenticationError::InvalidSequence => AuthFailure::InvalidSequence,
            ReportAuthenticationError::InvalidPayload(_) => AuthFailure::InvalidPayload,
            ReportAuthenticationError::InvalidMac => AuthFailure::InvalidMac,
            ReportAuthenticationError::Replay => AuthFailure::Replay,
            ReportAuthenticationError::SequenceReuse => AuthFailure::SequenceReuse,
        }
    }

    /// The text of the message this error is shown with.
    pub open spec fn message_spec(&self) -> Seq<char> {
        match self {
            ReportAuthenticationError::Oversized => "the operation report is too large"@,
            ReportAuthenticationError::InvalidEnvelope(error) => "invalid report envelope: "@ + error@,
            ReportAuthenticationError::UnsupportedSchema(version) =>
                "unsupported report schema version "@ + decimal(*version as nat),
            ReportAuthenticationError::RequestMismatch => "the report request ID does not match"@,
            ReportAuthenticationError::NonceMismatch => "the report nonce does not match"@,
            ReportAuthenticationError::InvalidSequence => "the report sequence is invalid"@,
            ReportAuthenticationError::InvalidPayload(error) => "invalid report payload: "@ + error@,
            ReportAuthenticationError::InvalidMac => "the report authentication code is invalid"@,
            ReportAuthenticationError::Replay => "a stale or replayed report sequence was detected"@,
            ReportAuthenticationError::SequenceReuse => "a report sequence was reused with different content"@,
        }
    }

    /// The message this error is shown with.
    pub fn message(&self) -> (r: String)
        ensures
            r@ == self.message_spec(),
    {
        match self {
            ReportAuthenticationError::Oversized => string_of("the operation report is too large"),
            ReportAuthenticationError::InvalidEnvelope(error) => {
                let mut out = to_chars("invalid report envelope: ");
                push_str(&mut out, error.as_str());
                string_from(&out)
            },
            ReportAuthenticationError::UnsupportedSchema(version) => {
                let mut out = to_chars("unsupported report schema version ");
                let digits = decimal_chars(*version as u64);
                push_all(&mut out, &digits);
                string_from(&out)
            },
            ReportAuthenticationError::RequestMismatch => string_of(
                "the report request ID does not match",
            ),
            ReportAuthenticationError::NonceMismatch => string_of("the report nonce does not match"),
            ReportAuthenticationError::InvalidSequence => string_of("the report sequence is invalid"),
            ReportAuthenticationError::InvalidPayload(error) => {
                let mut out = to_chars("invalid report payload: ");
                push_str(&mut out, error.as_str());
                string_from(&out)
            },
            ReportAuthenticationError::InvalidMac => string_of(
                "the report authentication code is invalid",
            ),
            ReportAuthenticationError::Replay => string_of(
                "a stale or replayed report sequence was detected",
            ),
            ReportAuthenticationError::SequenceReuse => string_of(
                "a report sequence was reused with different content",
            ),
        }
    }
}

/// The fields of a report envelope as the guest writes them.
#[derive(Debug, Clone, PartialEq, Eq)]
pub struct ReportEnvelope {
    pub schema_version: u32,
    pub request_id: String,
    pub nonce: String,
    pub sequence: u64,
    pub payload: String,
    pub mac: String,
}

/// What authenticating an envelope gives: the sequence, payload and MAC, or the failure.
pub enum AuthOutcome {
    Authenticated { sequence: u64, payload: Seq<u8>, mac: Seq<u8> },
    Failed(AuthFailure),
}

/// The checks, in order, that an envelope must pass under the given secrets.
pub open spec fn authenticate_spec(
    envelope: ReportEnvelope,
    security: OperationSecurity,
    max_payload: nat,
) -> AuthOutcome {
    if envelope.schema_version != ENVELOPE_SCHEMA_VERSION {
        AuthOutcome::Failed(AuthFailure::UnsupportedSchema(envelope.schema_version))
    } else if envelope.request_id@ != security.request_id_view() {
        AuthOutcome::Failed(AuthFailure::RequestMismatch)
    } else if envelope.nonce@ != security.nonce_view() {
        AuthOutcome::Failed(AuthFailure::NonceMismatch)
    } else if envelope.sequence == 0 {
        AuthOutcome::Failed(AuthFailure::InvalidSequence)
    } else {
        match spec_base64_decode(envelope.payload@) {
            None => AuthOutcome::Failed(AuthFailure::InvalidPayload),
            Some(payload) => if payload.len() > max_payload {
                AuthOutcome::Failed(AuthFailure::Oversized)
            } else {
                match hex_decode_spec(envelope.mac@) {
                    Some(mac) => if mac.len() == 32 && mac == spec_hmac_sha256(
                        security.key_view(),
                        authenticated_message_spec(
                            envelope.request_id@,
                            envelope.nonce@,
                            envelope.sequence,
                            envelope.payload@,
                        ),
                    ) {
                        AuthOutcome::Authenticated { sequence: envelope.sequence, payload, mac }
                    } else {
                        AuthOutcome::Failed(AuthFailure::InvalidMac)
                    },
                    None => AuthOutcome::Failed(AuthFailure::InvalidMac),
                }
            },
        }
    }
}

/// Whether an authentication result is the one `authenticate_spec` describes.
pub open spec fn matches_outcome(
    r: Result<AuthenticatedPayload, ReportAuthenticationError>,
    outcome: AuthOutcome,
) -> bool {
    match (r, outcome) {
        (Ok(p), AuthOutcome::Authenticated { sequence, payload, mac }) => p.sequence == sequence
            && p.payload@ == payload && p.mac@ == mac,
        (Err(e), AuthOutcome::Failed(f)) => e.failure() == f,
        _ => false,
    }
}

fn string_eq(a: &str, b: &str) -> (r: bool)
    ensures
        r == (a@ == b@),
{
    let av = to_chars(a);
    equals_str(&av, b)
}

/// Verifies an envelope that the guest wrote under `security`, allowing payloads of at most
/// `max_payload` bytes.
pub fn authenticate_envelope_bounded(
    envelope: &ReportEnvelope,
    security: &OperationSecurity,
    max_payload: usize,
) -> (r: Result<AuthenticatedPayload, ReportAuthenticationError>)
    ensures
        matches_outcome(r, authenticate_spec(*envelope, *security, max_payload as nat)),
{
    if envelope.schema_version != ENVELOPE_SCHEMA_VERSION {
        return Err(ReportAuthenticationError::UnsupportedSchema(envelope.schema_version));
    }
    if !string_eq(envelope.request_id.as_str(), security.request_id()) {
        return Err(ReportAuthenticationError::RequestMismatch);
    }
    if !string_eq(envelope.nonce.as_str(), security.nonce()) {
        return Err(ReportAuthenticationError::NonceMismatch);
    }
    if envelope.sequence == 0 {
        return Err(ReportAuthenticationError::InvalidSequence);
    }
    let payload = match base64_decode(envelope.payload.as_str()) {
        Ok(payload) => payload,
        Err(error) => return Err(ReportAuthenticationError::InvalidPayload(error)),
    };
    if payload.len() > max_payload {
        return Err(ReportAuthenticationError::Oversized);
    }
    let mac_text = to_chars(envelope.mac.as_str());
    let mac_bytes = match hex_decode(&mac_text) {
        Some(bytes) => bytes,
        None => return Err(ReportAuthenticationError::InvalidMac),
    };
    if mac_bytes.len() != 32 {
        return Err(ReportAuthenticationError::InvalidMac);
    }
    let mut mac = [0_u8; 32];
    let mut i: usize = 0;
    while i < 32
        invariant
            i <= 32,
            mac_bytes.len() == 32,
            forall|j: int| 0 <= j < i ==> mac@[j] == mac_bytes@[j],
        decreases 32 - i,
    {
        mac[i] = mac_bytes[i];
        i = i + 1;
    }
    assert(mac@ =~= mac_bytes@);
    let message = authenticated_message(
        envelope.request_id.as_str(),
        envelope.nonce.as_str(),
        envelope.sequence,
        envelope.payload.as_str(),
    );
    if !hmac_sha256_verify(&security.key, message.as_str(), &mac) {
        return Err(ReportAuthenticationError::InvalidMac);
    }
    Ok(AuthenticatedPayload { sequence: envelope.sequence, payload, mac })
}

/// Verifies an envelope with the operation reports' payload limit.
pub fn authenticate_envelope(envelope: &ReportEnvelope, security: &OperationSecurity) -> (r: Result<
    AuthenticatedPayload,
    ReportAuthenticationError,
>)
    ensures
        matches_outcome(r, authenticate_spec(*envelope, *security, MAX_PAYLOAD_BYTES as nat)),
{
    authenticate_envelope_bounded(envelope, security, MAX_PAYLOAD_BYTES)
}

/// Rejects a report file longer than `limit` bytes before anything else reads it.
pub fn check_report_size(length: usize, limit: u64) -> (r: Result<(), ReportAuthenticationError>)
    ensures
        r is Ok <==> length as int <= limit as int,
        r matches Err(e) ==> e == ReportAuthenticationError::Oversized,
{
    if length as u64 > limit {
        Err(ReportAuthenticationError::Oversized)
    } else {
        Ok(())
    }
}

/// Signs `payload` as report `sequence` under `security`. An envelope made here always
/// authenticates under the same secrets to the same sequence and payload.
pub fn authenticated_envelope(security: &OperationSecurity, sequence: u64, payload: &[u8]) -> (r:
    Result<ReportEnvelope, String>)
    ensures
        r is Ok <==> (sequence != 0 && payload.len() <= MAX_PAYLOAD_BYTES),
        r matches Ok(envelope) ==> {
            &&& envelope.schema_version == ENVELOPE_SCHEMA_VERSION
            &&& envelope.request_id@ == security.request_id_view()
            &&& envelope.nonce@ == security.nonce_view()
            &&& envelope.sequence == sequence
            &&& envelope.payload@ == spec_base64_encode(payload@)
            &&& envelope.mac@ == hex_encode_spec(
                spec_hmac_sha256(
                    security.key_view(),
                    authenticated_message_spec(
                        security.request_id_view(),
                        security.nonce_view(),
                        sequence,
                        spec_base64_encode(payload@),
                    ),
                ),
            )
            &&& authenticate_spec(
                envelope,
                *security,
                MAX_PAYLOAD_BYTES as nat,
            ) == (AuthOutcome::Authenticated {
                sequence,
                payload: payload@,
                mac: spec_hmac_sha256(
                    security.key_view(),
                    authenticated_message_spec(
                        security.request_id_view(),
                        security.nonce_view(),
                        sequence,
                        spec_base64_encode(payload@),
                    ),
                ),
            })
        },
{
    if sequence == 0 {
        return Err(string_of("the authenticated payload sequence must be positive"));
    }
    if payload.len() > MAX_PAYLOAD_BYTES {
        return Err(string_of("the authenticated payload is too large"));
    }
    let encoded = base64_encode(payload);
    let message = authenticated_message(
        security.request_id(),
        security.nonce(),
        sequence,
        encoded.as_str(),
    );
    let tag = hmac_sha256(&security.key, message.as_str());
    let mac = hex_encode(&tag);
    proof {
        lemma_hex_round_trip(tag@);
    }
    Ok(ReportEnvelope {
        schema_version: ENVELOPE_SCHEMA_VERSION,
        request_id: string_of(security.request_id()),
        nonce: string_of(security.nonce()),
        sequence,
        payload: encoded,
        mac: string_from(&mac),
    })
}


/// What `ReportSequenceTracker::accept` answers for a report.
pub enum SequenceDecision {
    /// A new, higher sequence: the report is fresh.
    Fresh,
    /// The sequence last accepted, with the same MAC: the guest has not written anything new.
    Unchanged,
    /// A sequence lower than the last accepted one.
    Replay,
    /// The sequence last accepted, with another MAC.
    Reuse,
}

/// The decision for a report with `sequence` and `mac` when `last` was the last accepted
/// sequence and MAC.
pub open spec fn sequence_decision(last: Option<(u64, Seq<u8>)>, sequence: u64, mac: Seq<u8>)
    -> SequenceDecision {
    match last {
        None => SequenceDecision::Fresh,
        Some((last_sequence, last_mac)) => if sequence < last_sequence {
            SequenceDecision::Replay
        } else if sequence == last_sequence {
            if mac == last_mac {
                SequenceDecision::Unchanged
            } else {
                SequenceDecision::Reuse
            }
        } else {
            SequenceDecision::Fresh
        },
    }
}

/// The last accepted sequence and MAC after a report with `sequence` and `mac` was offered.
pub open spec fn sequence_after(last: Option<(u64, Seq<u8>)>, sequence: u64, mac: Seq<u8>)
    -> Option<(u64, Seq<u8>)> {
    match sequence_decision(last, sequence, mac) {
        SequenceDecision::Fresh => Some((sequence, mac)),
        _ => last,
    }
}

/// Remembers the last report accepted for one operation, so that an older report or another
/// report under the same sequence is refused.
pub struct ReportSequenceTracker {
    last: Option<(u64, [u8; 32])>,
}

impl ReportSequenceTracker {
    /// The last accepted sequence and MAC.
    pub closed spec fn last_view(&self) -> Option<(u64, Seq<u8>)> {
        match self.last {
            None => None,
            Some((sequence, mac)) => Some((sequence, mac@)),
        }
    }

    /// A tracker that has accepted nothing.
    pub fn new() -> (t: Self)
        ensures
            t.last_view() is None,
    {
        ReportSequenceTracker { last: None }
    }

    /// A tracker that has accepted `report` last.
    pub fn after(report: &AuthenticatedPayload) -> (t: Self)
        ensures
            t.last_view() == Some((report.sequence, report.mac@)),
    {
        ReportSequenceTracker { last: Some((report.sequence, report.mac)) }
    }

    /// `Ok(true)` for a fresh report, which becomes the last accepted one; `Ok(false)` when
    /// the last accepted report is offered again; `Replay` for an older sequence and
    /// `SequenceReuse` for the last sequence under another MAC, which leave the tracker as it
    /// was.
    pub fn accept(&mut self, report: &AuthenticatedPayload) -> (r: Result<
        bool,
        ReportAuthenticationError,
    >)
        ensures
            final(self).last_view() == sequence_after(old(self).last_view(), report.sequence, report.mac@),
            match sequence_decision(old(self).last_view(), report.sequence, report.mac@) {
                SequenceDecision::Fresh => r == Ok::<bool, ReportAuthenticationError>(true),
                SequenceDecision::Unchanged => r == Ok::<bool, ReportAuthenticationError>(false),
                SequenceDecision::Replay => r == Err::<bool, ReportAuthenticationError>(
                    ReportAuthenticationError::Replay,
                ),
                SequenceDecision::Reuse => r == Err::<bool, ReportAuthenticationError>(
                    ReportAuthenticationError::SequenceReuse,
                ),
            },
    {
        if let Some((sequence, mac)) = self.last {
            if report.sequence < sequence {
                return Err(ReportAuthenticationError::Replay);
            }
            if report.sequence == sequence {
                let mut same = true;
                let mut i: usize = 0;
                while i < 32
                    invariant
                        i <= 32,
                        same == (forall|j: int| 0 <= j < i ==> mac@[j] == report.mac@[j]),
                    decreases 32 - i,
                {
                    if mac[i] != report.mac[i] {
                        same = false;
                    }
                    i = i + 1;
                }
                proof {
                    if same {
                        assert(mac@ =~= report.mac@);
                    }
                }
                return if same {
                    Ok(false)
                } else {
                    Err(ReportAuthenticationError::SequenceReuse)
                };
            }
        }
        self.last = Some((report.sequence, report.mac));
        Ok(true)
    }
}

/// Once a report was accepted, a report with a lower sequence is refused as a replay, and
/// after any further offers the last accepted sequence is still at least its sequence.
pub proof fn lemma_replay_refused(
    last: Option<(u64, Seq<u8>)>,
    accepted: (u64, Seq<u8>),
    stale: (u64, Seq<u8>),
)
    requires
        sequence_decision(last, accepted.0, accepted.1) is Fresh,
        stale.0 < accepted.0,
    ensures
        sequence_decision(sequence_after(last, accepted.0, accepted.1), stale.0, stale.1) is Replay,
        sequence_after(sequence_after(last, accepted.0, accepted.1), stale.0, stale.1)
            == sequence_after(last, accepted.0, accepted.1),
{
}

/// Offering the report that was accepted last again changes nothing and is answered as
/// unchanged, however often it is polled.
pub proof fn lemma_polling_is_idempotent(last: Option<(u64, Seq<u8>)>, sequence: u64, mac: Seq<u8>)
    requires
        sequence_decision(last, sequence, mac) is Fresh || sequence_decision(last, sequence, mac) is Unchanged,
    ensures
        sequence_decision(sequence_after(last, sequence, mac), sequence, mac) is Unchanged,
        sequence_after(sequence_after(last, sequence, mac), sequence, mac) == sequence_after(
            last,
            sequence,
            mac,
        ),
{
}

/// The last accepted sequence never decreases, whatever is offered.
pub proof fn lemma_sequence_monotonic(last: Option<(u64, Seq<u8>)>, sequence: u64, mac: Seq<u8>)
    ensures
        last matches Some(previous) ==> sequence_after(last, sequence, mac) matches Some(next)
            && previous.0 <= next.0,
{
}

pub const LAUNCHER_HEAD: &'static str = "$ErrorActionPreference='Stop'\n$source='";

pub const LAUNCHER_EXPECTED: &'static str = "'\n$expected='";

pub const LAUNCHER_REQUEST_ID: &'static str = "'\n$requestId='";

pub const LAUNCHER_NONCE: &'static str = "'\n$nonce='";

pub const LAUNCHER_KEY: &'static str = "'\n$key='";

pub const LAUNCHER_BODY: &'static str = r#"'
$applicationRoot=Join-Path $env:ProgramData 'Mendimaru'
$commandRoot=Join-Path $env:ProgramData 'Mendimaru\Commands'
$exitCode=1
try {
  $programDataItem=Get-Item -LiteralPath $env:ProgramData -Force
  if (($programDataItem.Attributes -band [IO.FileAttributes]::ReparsePoint) -ne 0) { throw 'MENDIMARU_COMMAND_REPARSE_POINT' }
  foreach ($directory in @($applicationRoot,$commandRoot)) {
    if (Test-Path -LiteralPath $directory) {
      $directoryItem=Get-Item -LiteralPath $directory -Force
      if (-not $directoryItem.PSIsContainer -or ($directoryItem.Attributes -band [IO.FileAttributes]::ReparsePoint) -ne 0) { throw 'MENDIMARU_COMMAND_REPARSE_POINT' }
    } else {
      New-Item -ItemType Directory -Path $directory | Out-Null
    }
  }
  $sourceItem=Get-Item -LiteralPath $source -Force
  if (($sourceItem.Attributes -band [IO.FileAttributes]::ReparsePoint) -ne 0) { throw 'MENDIMARU_COMMAND_REPARSE_POINT' }
  $before=(Get-FileHash -LiteralPath $source -Algorithm SHA256).Hash.ToLowerInvariant()
  if ($before -ne $expected) { throw 'MENDIMARU_COMMAND_HASH_MISMATCH' }
  $destination=Join-Path $commandRoot ($requestId + '.ps1')
  if (Test-Path -LiteralPath $destination) { throw 'MENDIMARU_COMMAND_DESTINATION_EXISTS' }
  Copy-Item -LiteralPath $source -Destination $destination
  $after=(Get-FileHash -LiteralPath $source -Algorithm SHA256).Hash.ToLowerInvariant()
  $copied=(Get-FileHash -LiteralPath $destination -Algorithm SHA256).Hash.ToLowerInvariant()
  if ($after -ne $expected -or $copied -ne $expected) { throw 'MENDIMARU_COMMAND_HASH_MISMATCH' }
  $env:MENDIMARU_REQUEST_ID=$requestId
  $env:MENDIMARU_OPERATION_NONCE=$nonce
  $env:MENDIMARU_OPERATION_KEY=$key
  & $destination
  $exitCode=if ($null -eq $LASTEXITCODE) { 0 } else { [int]$LASTEXITCODE }
} catch {
  [Console]::Error.WriteLine($_.Exception.Message)
  $exitCode=1
} finally {
  Remove-Item Env:MENDIMARU_REQUEST_ID -ErrorAction SilentlyContinue
  Remove-Item Env:MENDIMARU_OPERATION_NONCE -ErrorAction SilentlyContinue
  Remove-Item Env:MENDIMARU_OPERATION_KEY -ErrorAction SilentlyContinue
  if ($null -ne $destination) { Remove-Item -LiteralPath $destination -Force -ErrorAction SilentlyContinue }
}
exit $exitCode"#;

/// The launcher text for a script at `source`, whose digest, request ID, nonce and key the
/// launcher carries.
pub open spec fn launcher_spec(
    source: Seq<char>,
    script_sha256: Seq<char>,
    request_id: Seq<char>,
    nonce: Seq<char>,
    key: Seq<char>,
) -> Seq<char> {
    LAUNCHER_HEAD@ + powershell_literal_spec(source) + LAUNCHER_EXPECTED@ + script_sha256
        + LAUNCHER_REQUEST_ID@ + request_id + LAUNCHER_NONCE@ + nonce + LAUNCHER_KEY@ + key
        + LAUNCHER_BODY@
}

/// The PowerShell launcher that copies the script at `windows_script_path` into a private
/// guest directory, checks its SHA-256 before and after the copy, and runs the copy with the
/// operation's request ID, nonce and Base64 key in its environment.
pub fn secure_powershell_launcher(windows_script_path: &str, security: &OperationSecurity) -> (r:
    String)
    ensures
        r@ == launcher_spec(
            windows_script_path@,
            security.script_sha256_view(),
            security.request_id_view(),
            security.nonce_view(),
            spec_base64_encode(security.key_view()),
        ),
{
    let source = powershell_literal(windows_script_path);
    let key = security.key_base64();
    let mut out: Vec<char> = Vec::new();
    push_str(&mut out, LAUNCHER_HEAD);
    push_str(&mut out, source.as_str());
    push_str(&mut out, LAUNCHER_EXPECTED);
    push_str(&mut out, security.script_sha256());
    push_str(&mut out, LAUNCHER_REQUEST_ID);
    push_str(&mut out, security.request_id());
    push_str(&mut out, LAUNCHER_NONCE);
    push_str(&mut out, security.nonce());
    push_str(&mut out, LAUNCHER_KEY);
    push_str(&mut out, key.as_str());
    push_str(&mut out, LAUNCHER_BODY);
    string_from(&out)
}

} // verus!
