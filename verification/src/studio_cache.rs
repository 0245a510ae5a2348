//! The cache of installed Studio Pro versions: which records are accepted back, and the
//! identity of the environment a record belongs to.
use vstd::prelude::*;
use crate::outside::{parse_rfc3339, sha256, spec_rfc3339_instant, spec_sha256};
use crate::security::{hex_encode, hex_encode_spec};
use crate::studio_ops::StudioVersion;
use crate::studio_sessions::{validate_version, version_text_valid};
use crate::text::{contains_char, equals_str, string_from, string_of, to_chars, utf8_len, utf8_length_within};

verus! {

/// The cache file's name in the cache directory.
pub const CACHE_FILE_NAME: &'static str = "installed-studio-versions.json";
/// The record format this application writes and reads.
pub const CACHE_SCHEMA_VERSION: &'static str = "1.0.0";
/// The largest cache file read or written.
pub const MAX_CACHE_BYTES: u64 = 524288;
/// The most versions a cache holds.
pub const MAX_VERSIONS: usize = 256;
/// The longest text field of a cached version, in bytes.
pub const MAX_FIELD_BYTES: usize = 8192;

/// A text field of a cached version: at most 8 KiB, without NUL.
pub open spec fn cache_field_valid(field: Seq<char>) -> bool {
    utf8_len(field) <= MAX_FIELD_BYTES && !field.contains('\0')
}

/// Why one cached version is refused, given the versions before it.
pub open spec fn entry_error(earlier: Seq<Seq<char>>, version: StudioVersion) -> Option<Seq<char>> {
    if !version_text_valid(version.version@) {
        Some("installed-version cache contains an invalid version"@)
    } else if earlier.contains(version.version@) {
        Some("installed-version cache contains duplicate versions"@)
    } else if !(cache_field_valid(version.display_name@) && cache_field_valid(version.executable_path@)
        && cache_field_valid(version.install_root@) && cache_field_valid(version.source@)) {
        Some("installed-version cache contains an invalid field"@)
    } else {
        None
    }
}

/// The version texts of cached versions.
pub open spec fn version_texts(versions: Seq<StudioVersion>) -> Seq<Seq<char>> {
    versions.map_values(|v: StudioVersion| v.version@)
}

/// The refusal of the first refused version among the first `n`, if any.
pub open spec fn first_entry_error(versions: Seq<StudioVersion>, n: nat) -> Option<Seq<char>>
    decreases n,
{
    if n == 0 {
        None
    } else {
        match first_entry_error(versions, (n - 1) as nat) {
            Some(e) => Some(e),
            None => entry_error(version_texts(versions.take(n - 1)), versions[n - 1]),
        }
    }
}

/// Why a list of cached versions is refused, if it is.
pub open spec fn versions_error(versions: Seq<StudioVersion>) -> Option<Seq<char>> {
    if versions.len() > MAX_VERSIONS {
        Some("installed-version cache contains too many versions"@)
    } else {
        first_entry_error(versions, versions.len())
    }
}

fn field_ok(field: &String) -> (r: bool)
    ensures
        r == cache_field_valid(field@),
{
    let chars = to_chars(field.as_str());
    utf8_length_within(&chars, MAX_FIELD_BYTES).is_some() && !contains_char(&chars, '\0')
}

fn seen_before(seen: &Vec<String>, version: &String) -> (r: bool)
    ensures
        r == crate::studio_sessions::ids(seen@).contains(version@),
{
    let wanted = to_chars(version.as_str());
    let mut i: usize = 0;
    while i < seen.len()
        invariant
            i <= seen@.len(),
            wanted@ == version@,
            forall|j: int| 0 <= j < i ==> (#[trigger] seen@[j])@ != version@,
        decreases seen@.len() - i,
    {
        if equals_str(&wanted, seen[i].as_str()) {
            assert(crate::studio_sessions::ids(seen@)[i as int] == version@);
            return true;
        }
        i = i + 1;
    }
    proof {
        let ids = crate::studio_sessions::ids(seen@);
        if ids.contains(version@) {
            let k = choose|k: int| 0 <= k < ids.len() && ids[k] == version@;
            assert(seen@[k]@ == version@);
        }
    }
    false
}

proof fn lemma_first_entry_error_stays(versions: Seq<StudioVersion>, i: nat, n: nat)
    requires
        i < n,
        first_entry_error(versions, i) is None,
        entry_error(version_texts(versions.take(i as int)), versions[i as int]) is Some,
    ensures
        first_entry_error(versions, n) == entry_error(version_texts(versions.take(i as int)), versions[i as int]),
    decreases n,
{
    if n > i + 1 {
        lemma_first_entry_error_stays(versions, i, (n - 1) as nat);
    }
}

/// Accepts at most 256 cached versions, each valid, none twice, with bounded fields; the
/// first refused one decides the refusal.
pub fn validate_versions(versions: &Vec<StudioVersion>) -> (r: Result<(), String>)
    ensures
        match versions_error(versions@) {
            Some(e) => r matches Err(m) && m@ == e,
            None => r is Ok,
        },
{
    if versions.len() > MAX_VERSIONS {
        return Err(string_of("installed-version cache contains too many versions"));
    }
    let mut seen: Vec<String> = Vec::new();
    let mut i: usize = 0;
    while i < versions.len()
        invariant
            i <= versions@.len(),
            versions@.len() <= MAX_VERSIONS,
            first_entry_error(versions@, i as nat) is None,
            crate::studio_sessions::ids(seen@) == version_texts(versions@.take(i as int)),
            seen@.len() == i,
        decreases versions@.len() - i,
    {
        let entry = &versions[i];
        let ghost earlier = version_texts(versions@.take(i as int));
        let failure: Option<&str> = if validate_version(entry.version.as_str()).is_err() {
            Some("installed-version cache contains an invalid version")
        } else if seen_before(&seen, &entry.version) {
            Some("installed-version cache contains duplicate versions")
        } else if !(field_ok(&entry.display_name) && field_ok(&entry.executable_path)
            && field_ok(&entry.install_root) && field_ok(&entry.source)) {
            Some("installed-version cache contains an invalid field")
        } else {
            None
        };
        match failure {
            Some(message) => {
                proof {
                    lemma_first_entry_error_stays(versions@, i as nat, versions@.len());
                }
                return Err(string_of(message));
            },
            None => {},
        }
        let ghost previous = seen@;
        seen.push(entry.version.clone());
        proof {
            assert(versions@.take(i + 1).drop_last() =~= versions@.take(i as int));
            let now = crate::studio_sessions::ids(seen@);
            let target = version_texts(versions@.take(i + 1));
            assert(now.len() == target.len());
            assert forall|j: int| 0 <= j < now.len() implies now[j] == target[j] by {
                if j < i {
                    assert(seen@[j] == previous[j]);
                    assert(crate::studio_sessions::ids(previous)[j] == version_texts(versions@.take(i as int))[j]);
                } else {
                    assert(seen@[j]@ == versions@[i as int].version@);
                }
            }
            assert(now =~= target);
        }
        i = i + 1;
    }
    proof {
        assert(versions@.take(versions@.len() as int) =~= versions@);
    }
    Ok(())
}

/// What the identity of a cache's environment is made of: the host operating system, the
/// container runtime and name, the guest API, the Mendix roots and the configured Studio
/// paths.
#[derive(Debug, Clone, PartialEq, Eq)]
pub struct SourceFields {
    pub os: String,
    pub container_runtime: String,
    pub container_name: String,
    pub api_url: String,
    pub mendix_install_root: String,
    pub mendix_data_root: String,
    pub windows_studio_paths: Vec<String>,
}

/// Texts as UTF-8, each followed by a NUL byte.
pub open spec fn nul_terminated(texts: Seq<Seq<char>>) -> Seq<u8>
    decreases texts.len(),
{
    if texts.len() == 0 {
        Seq::empty()
    } else {
        nul_terminated(texts.drop_last()) + vstd::utf8::encode_utf8(texts.last()) + seq![0u8]
    }
}

/// The fields in the order the identity takes them.
pub open spec fn identity_texts(fields: SourceFields) -> Seq<Seq<char>> {
    seq![
        fields.os@,
        fields.container_runtime@,
        fields.container_name@,
        fields.api_url@,
        fields.mendix_install_root@,
        fields.mendix_data_root@,
    ] + crate::studio_sessions::ids(fields.windows_studio_paths@)
}

/// The identity of an environment: the lower-case hexadecimal SHA-256 of its fields, each
/// as UTF-8 followed by a NUL byte.
pub open spec fn source_identity_spec(fields: SourceFields) -> Seq<char> {
    hex_encode_spec(spec_sha256(nul_terminated(identity_texts(fields))))
}

fn append_terminated(out: &mut Vec<u8>, text: &str)
    ensures
        final(out)@ == old(out)@ + vstd::utf8::encode_utf8(text@) + seq![0u8],
{
    let bytes = text.as_bytes();
    let mut i: usize = 0;
    let ghost start = out@;
    while i < bytes.len()
        invariant
            i <= bytes@.len(),
            bytes@ == vstd::utf8::encode_utf8(text@),
            out@ == start + bytes@.take(i as int),
        decreases bytes@.len() - i,
    {
        out.push(bytes[i]);
        assert(out@ =~= start + bytes@.take(i + 1));
        i = i + 1;
    }
    assert(bytes@.take(bytes@.len() as int) =~= bytes@);
    out.push(0u8);
    assert(out@ =~= start + vstd::utf8::encode_utf8(text@) + seq![0u8]);
}

/// The identity of an environment.
pub fn source_identity(fields: &SourceFields) -> (r: String)
    ensures
        r@ == source_identity_spec(*fields),
{
    let ghost head = seq![
        fields.os@,
        fields.container_runtime@,
        fields.container_name@,
        fields.api_url@,
        fields.mendix_install_root@,
        fields.mendix_data_root@,
    ];
    let mut all: Vec<String> = Vec::new();
    all.push(fields.os.clone());
    all.push(fields.container_runtime.clone());
    all.push(fields.container_name.clone());
    all.push(fields.api_url.clone());
    all.push(fields.mendix_install_root.clone());
    all.push(fields.mendix_data_root.clone());
    assert(crate::studio_sessions::ids(all@) =~= head);
    let mut p: usize = 0;
    while p < fields.windows_studio_paths.len()
        invariant
            p <= fields.windows_studio_paths@.len(),
            crate::studio_sessions::ids(all@) == head + crate::studio_sessions::ids(fields.windows_studio_paths@.take(p as int)),
        decreases fields.windows_studio_paths@.len() - p,
    {
        let ghost before = all@;
        all.push(fields.windows_studio_paths[p].clone());
        proof {
            assert(crate::studio_sessions::ids(all@) =~= crate::studio_sessions::ids(before).push(fields.windows_studio_paths@[p as int]@));
            assert(crate::studio_sessions::ids(fields.windows_studio_paths@.take(p + 1)) =~= crate::studio_sessions::ids(fields.windows_studio_paths@.take(p as int)).push(fields.windows_studio_paths@[p as int]@));
        }
        p = p + 1;
    }
    proof {
        assert(fields.windows_studio_paths@.take(fields.windows_studio_paths@.len() as int) =~= fields.windows_studio_paths@);
    }
    let ghost texts = crate::studio_sessions::ids(all@);
    assert(texts == identity_texts(*fields));
    let mut data: Vec<u8> = Vec::new();
    let mut i: usize = 0;
    while i < all.len()
        invariant
            i <= all@.len(),
            texts == crate::studio_sessions::ids(all@),
            data@ == nul_terminated(texts.take(i as int)),
        decreases all@.len() - i,
    {
        append_terminated(&mut data, all[i].as_str());
        proof {
            assert(texts.take(i + 1).drop_last() =~= texts.take(i as int));
            assert(texts[i as int] == all@[i as int]@);
        }
        i = i + 1;
    }
    proof {
        assert(texts.take(texts.len() as int) =~= texts);
    }
    let digest = sha256(&data);
    string_from(&hex_encode(&digest))
}

/// A cache record as read back.
#[derive(Debug, Clone, PartialEq, Eq)]
pub struct CacheRecord {
    pub schema_version: String,
    pub source_identity: String,
    pub captured_at: String,
    pub versions: Vec<StudioVersion>,
}

/// The versions a cache holds, and when they were captured.
#[derive(Debug, Clone, PartialEq, Eq)]
pub struct InstalledVersionsCache {
    pub versions: Vec<StudioVersion>,
    pub captured_at: Option<String>,
}

/// A record belongs to the active environment: this format, the environment's identity, and
/// an RFC 3339 capture time.
pub open spec fn record_matches(record: CacheRecord, identity: Seq<char>) -> bool {
    &&& record.schema_version@ == CACHE_SCHEMA_VERSION@
    &&& record.source_identity@ == identity
    &&& spec_rfc3339_instant(record.captured_at@) is Some
}

/// Accepts a cache record read back for the environment with `identity`: it must belong to
/// it and hold acceptable versions.
pub fn accept_cache_record(record: CacheRecord, identity: &str) -> (r: Result<InstalledVersionsCache, String>)
    ensures
        !record_matches(record, identity@) ==> (r matches Err(m)
            && m@ == "installed-version cache does not match the active environment"@),
        record_matches(record, identity@) ==> match versions_error(record.versions@) {
            Some(e) => r matches Err(m) && m@ == e,
            None => r matches Ok(cache) && cache.versions@ == record.versions@
                && cache.captured_at == Some(record.captured_at),
        },
{
    let schema = to_chars(record.schema_version.as_str());
    let source = to_chars(record.source_identity.as_str());
    if !equals_str(&schema, CACHE_SCHEMA_VERSION) || !equals_str(&source, identity)
        || parse_rfc3339(record.captured_at.as_str()).is_none() {
        return Err(string_of("installed-version cache does not match the active environment"));
    }
    match validate_versions(&record.versions) {
        Ok(()) => {},
        Err(e) => {
            return Err(e);
        },
    }
    Ok(InstalledVersionsCache { versions: record.versions, captured_at: Some(record.captured_at) })
}

/// The cache file may be read: a regular file, not a link, of at most 512 KiB.
pub fn check_cache_file(is_regular_file: bool, is_symlink: bool, length: u64) -> (r: Result<(), String>)
    ensures
        !(is_regular_file && !is_symlink) ==> (r matches Err(m) && m@ == "installed-version cache must be a regular file"@),
        (is_regular_file && !is_symlink) && length > MAX_CACHE_BYTES ==> (r matches Err(m)
            && m@ == "installed-version cache exceeds the safe size limit"@),
        (is_regular_file && !is_symlink) && length <= MAX_CACHE_BYTES ==> r is Ok,
{
    if !is_regular_file || is_symlink {
        return Err(string_of("installed-version cache must be a regular file"));
    }
    if length > MAX_CACHE_BYTES {
        return Err(string_of("installed-version cache exceeds the safe size limit"));
    }
    Ok(())
}

/// The cache written or read holds at most 512 KiB.
pub fn check_cache_size(length: usize) -> (r: Result<(), String>)
    ensures
        r is Ok <==> length <= MAX_CACHE_BYTES,
        r matches Err(m) ==> m@ == "installed-version cache exceeds the safe size limit"@,
{
    if length as u64 > MAX_CACHE_BYTES {
        return Err(string_of("installed-version cache exceeds the safe size limit"));
    }
    Ok(())
}

} // verus!
