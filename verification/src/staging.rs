//! Staging an installer in the shared directory: the copy is bounded, and both the copy and
//! the staged file must carry the size and SHA-256 digest the installer was verified with.
use vstd::prelude::*;
use crate::outside::spec_sha256;
use crate::security::{hex_encode, hex_encode_spec};
use crate::text::{
    ascii_lower, ascii_lower_spec, decimal, decimal_chars, is_ascii_hexdigit, push_all, push_str,
    string_from, string_of, to_chars,
};

verus! {

/// Where installers are staged, below the shared directory.
pub const STAGING_DIRECTORY: &'static str = ".mendimaru/installers";
/// How much is copied at a time.
pub const COPY_BUFFER_SIZE: usize = 131072;

/// A running `sha2::Sha256` computation. Verus refuses a declaration of the crate's type
/// (an alias of a generic wrapper), so it is held here, opaque.
#[verifier::external_body]
pub struct RunningSha256 {
    hasher: sha2::Sha256,
}

/// The bytes a running SHA-256 computation has been fed, in order.
pub uninterp spec fn sha256_input(hasher: RunningSha256) -> Seq<u8>;

/// `sha2::Sha256::new` (through `Digest::new`): a computation that has been fed nothing.
#[verifier::external_body]
fn sha256_start() -> (hasher: RunningSha256)
    ensures
        sha256_input(hasher) == Seq::<u8>::empty(),
{
    RunningSha256 { hasher: <sha2::Sha256 as sha2::Digest>::new() }
}

/// `Digest::update`: feeds the bytes after everything fed before.
#[verifier::external_body]
fn sha256_feed(hasher: &mut RunningSha256, data: &[u8])
    ensures
        sha256_input(*final(hasher)) == sha256_input(*old(hasher)) + data@,
{
    sha2::Digest::update(&mut hasher.hasher, data);
}

/// `Digest::finalize`: the SHA-256 digest of everything fed.
#[verifier::external_body]
fn sha256_finish(hasher: RunningSha256) -> (digest: [u8; 32])
    ensures
        digest@ == spec_sha256(sha256_input(hasher)),
{
    sha2::Digest::finalize(hasher.hasher).into()
}

/// A SHA-256 digest as 64 hexadecimal digits, in either case.
pub open spec fn sha256_text_valid(value: Seq<char>) -> bool {
    value.len() == 64 && forall|i: int| 0 <= i < 64 ==> is_ascii_hexdigit(#[trigger] value[i])
}

/// Accepts a SHA-256 digest of 64 hexadecimal digits in either case.
pub fn validate_expected_sha256(value: &str) -> (r: Result<(), String>)
    ensures
        r is Ok <==> sha256_text_valid(value@),
        r matches Err(e) ==> e@ == "the expected installer SHA-256 is invalid"@,
{
    let chars = to_chars(value);
    if chars.len() != 64 {
        return Err(string_of("the expected installer SHA-256 is invalid"));
    }
    let mut i: usize = 0;
    while i < 64
        invariant
            i <= 64,
            chars@ == value@,
            chars@.len() == 64,
            forall|j: int| 0 <= j < i ==> is_ascii_hexdigit(#[trigger] chars@[j]),
        decreases 64 - i,
    {
        if !crate::text::ascii_hexdigit(chars[i]) {
            return Err(string_of("the expected installer SHA-256 is invalid"));
        }
        i = i + 1;
    }
    Ok(())
}

/// The refusal of an installer larger than the limit.
pub open spec fn too_large_text(limit: u64) -> Seq<char> {
    "the private installer exceeds the "@ + decimal(limit as nat) + "-byte limit"@
}

fn too_large(limit: u64) -> (r: String)
    ensures
        r@ == too_large_text(limit),
{
    let mut out = to_chars("the private installer exceeds the ");
    push_all(&mut out, &decimal_chars(limit));
    push_str(&mut out, "-byte limit");
    string_from(&out)
}

/// The digest matches the expected one, ignoring ASCII case.
pub open spec fn digest_matches(data: Seq<u8>, expected: Seq<char>) -> bool {
    hex_encode_spec(spec_sha256(data)) == ascii_lower_spec(expected)
}

fn digest_equals(hasher: RunningSha256, expected: &str) -> (r: bool)
    ensures
        r == digest_matches(sha256_input(hasher), expected@),
{
    let digest = sha256_finish(hasher);
    let text = hex_encode(&digest);
    let lower = ascii_lower(&to_chars(expected));
    crate::text::chars_equal(&text, &lower)
}

/// Copying an installer into the staging file: the bytes copied so far and their running
/// digest, checked against the source's size and the expected digest.
pub struct StagingCopy {
    limit: u64,
    source_size: u64,
    copied: u64,
    hasher: RunningSha256,
}

impl StagingCopy {
    pub closed spec fn limit_spec(&self) -> u64 {
        self.limit
    }

    pub closed spec fn source_size_spec(&self) -> u64 {
        self.source_size
    }

    /// The bytes copied so far.
    pub closed spec fn copied_bytes(&self) -> Seq<u8> {
        sha256_input(self.hasher)
    }

    pub closed spec fn wf(&self) -> bool {
        &&& self.copied == sha256_input(self.hasher).len()
        &&& self.copied <= self.limit
    }

    /// Starts a copy: the expected digest must be well formed and the source no larger than
    /// the limit.
    pub fn begin(expected_sha256: &str, source_size: u64, limit: u64) -> (r: Result<StagingCopy, String>)
        ensures
            !sha256_text_valid(expected_sha256@) ==> (r matches Err(e) && e@ == "the expected installer SHA-256 is invalid"@),
            sha256_text_valid(expected_sha256@) && source_size > limit ==> (r matches Err(e) && e@ == too_large_text(limit)),
            sha256_text_valid(expected_sha256@) && source_size <= limit ==> (r matches Ok(c) && c.wf()
                && c.copied_bytes().len() == 0 && c.limit_spec() == limit && c.source_size_spec() == source_size),
    {
        match validate_expected_sha256(expected_sha256) {
            Ok(()) => {},
            Err(e) => {
                return Err(e);
            },
        }
        if source_size > limit {
            return Err(too_large(limit));
        }
        Ok(StagingCopy { limit, source_size, copied: 0, hasher: sha256_start() })
    }

    /// Takes the next chunk read from the source (to be written to the staging file when
    /// this succeeds); a copy that would pass the limit is refused.
    pub fn absorb(&mut self, chunk: &[u8]) -> (r: Result<(), String>)
        requires
            old(self).wf(),
        ensures
            final(self).wf(),
            final(self).limit_spec() == old(self).limit_spec(),
            final(self).source_size_spec() == old(self).source_size_spec(),
            r is Ok <==> old(self).copied_bytes().len() + chunk@.len() <= old(self).limit_spec(),
            r is Ok ==> final(self).copied_bytes() == old(self).copied_bytes() + chunk@,
            r matches Err(e) ==> e@ == too_large_text(old(self).limit_spec()),
    {
        if chunk.len() as u64 > self.limit - self.copied {
            return Err(too_large(self.limit));
        }
        self.copied = self.copied + chunk.len() as u64;
        sha256_feed(&mut self.hasher, chunk);
        Ok(())
    }

    /// Ends the copy: the whole source must have been copied, with the expected digest; the
    /// size copied is handed back for the check of the staged file.
    pub fn finish(self, expected_sha256: &str) -> (r: Result<u64, String>)
        requires
            self.wf(),
        ensures
            self.copied_bytes().len() != self.source_size_spec() ==> (r matches Err(e)
                && e@ == "the private installer changed size while it was staged"@),
            self.copied_bytes().len() == self.source_size_spec() && !digest_matches(self.copied_bytes(), expected_sha256@)
                ==> (r matches Err(e) && e@ == "the private installer SHA-256 changed before staging"@),
            self.copied_bytes().len() == self.source_size_spec() && digest_matches(self.copied_bytes(), expected_sha256@)
                ==> r == Ok::<u64, String>(self.source_size_spec()),
    {
        if self.copied != self.source_size {
            return Err(string_of("the private installer changed size while it was staged"));
        }
        let size = self.copied;
        if !digest_equals(self.hasher, expected_sha256) {
            return Err(string_of("the private installer SHA-256 changed before staging"));
        }
        Ok(size)
    }
}

/// Reading the staged file back: its size and digest must be those of the copy.
pub struct StagedCheck {
    limit: u64,
    size: u64,
    hasher: RunningSha256,
}

impl StagedCheck {
    pub closed spec fn limit_spec(&self) -> u64 {
        self.limit
    }

    /// The bytes read back so far.
    pub closed spec fn read_bytes(&self) -> Seq<u8> {
        sha256_input(self.hasher)
    }

    pub closed spec fn wf(&self) -> bool {
        &&& self.size == sha256_input(self.hasher).len()
        &&& self.size <= self.limit
    }

    /// Starts reading the staged file back.
    pub fn begin(limit: u64) -> (r: StagedCheck)
        ensures
            r.wf(),
            r.read_bytes().len() == 0,
            r.limit_spec() == limit,
    {
        StagedCheck { limit, size: 0, hasher: sha256_start() }
    }

    /// Takes the next chunk read back; a file that passes the limit is refused.
    pub fn absorb(&mut self, chunk: &[u8]) -> (r: Result<(), String>)
        requires
            old(self).wf(),
        ensures
            final(self).wf(),
            final(self).limit_spec() == old(self).limit_spec(),
            r is Ok <==> old(self).read_bytes().len() + chunk@.len() <= old(self).limit_spec(),
            r is Ok ==> final(self).read_bytes() == old(self).read_bytes() + chunk@,
            r matches Err(e) ==> e@ == "the shared installer staging file exceeded its limit"@,
    {
        if chunk.len() as u64 > self.limit - self.size {
            return Err(string_of("the shared installer staging file exceeded its limit"));
        }
        self.size = self.size + chunk.len() as u64;
        sha256_feed(&mut self.hasher, chunk);
        Ok(())
    }

    /// The staged file passes when it has the copied size and the expected digest.
    pub fn finish(self, expected_size: u64, expected_sha256: &str) -> (r: Result<(), String>)
        requires
            self.wf(),
        ensures
            r is Ok <==> self.read_bytes().len() == expected_size && digest_matches(self.read_bytes(), expected_sha256@),
            r matches Err(e) ==> e@ == "the shared installer staging file failed its host integrity check"@,
    {
        let size = self.size;
        let same_digest = digest_equals(self.hasher, expected_sha256);
        if size != expected_size || !same_digest {
            return Err(string_of("the shared installer staging file failed its host integrity check"));
        }
        Ok(())
    }
}

} // verus!
