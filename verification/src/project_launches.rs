//! Remembered launch preferences of projects: each project is known only by the digest of
//! its canonical path, with the Studio Pro version chosen for it and whether a launch is
//! pending; the store is bounded and checked whenever it is read or written.
use vstd::prelude::*;
use crate::outside::{sha256, spec_sha256};
use crate::projects::MendixProject;
use crate::security::{hex_encode, hex_encode_spec};
use crate::studio_sessions::{is_session_order, session_order, validate_version, version_text_valid};
use crate::text::{string_from, string_of, to_chars, trim, trim_spec};

verus! {

/// The store's file name in the configuration directory.
pub const STORE_FILE_NAME: &'static str = "project-launches.json";
/// The store format this application reads and writes.
pub const STORE_SCHEMA_VERSION: &'static str = "1.0.0";
/// The largest store read or written.
pub const MAX_STORE_BYTES: u64 = 131072;
/// The most projects remembered.
pub const MAX_RECORDS: usize = 256;

/// The key a project is remembered by: the lower-case hexadecimal SHA-256 digest of its
/// canonical project file path.
pub open spec fn project_digest_spec(canonical_mpr_path: Seq<char>) -> Seq<char> {
    hex_encode_spec(spec_sha256(vstd::utf8::encode_utf8(canonical_mpr_path)))
}

/// The key a project is remembered by.
pub fn project_digest(canonical_mpr_path: &str) -> (r: String)
    ensures
        r@ == project_digest_spec(canonical_mpr_path@),
{
    let digest = sha256(canonical_mpr_path.as_bytes());
    string_from(&hex_encode(&digest))
}

/// One remembered project.
#[derive(Debug, PartialEq, Eq)]
pub struct LaunchRecord {
    pub project_key: String,
    pub selected_version: Option<String>,
    pub pending: bool,
    /// When it was remembered, as Unix seconds and nanoseconds.
    pub updated_at: (i64, u32),
}

/// The store of remembered projects.
#[derive(Debug, PartialEq, Eq)]
pub struct LaunchStore {
    pub schema_version: String,
    pub records: Vec<LaunchRecord>,
}

fn copy_record(record: &LaunchRecord) -> (r: LaunchRecord)
    ensures
        r == *record,
{
    LaunchRecord {
        project_key: record.project_key.clone(),
        selected_version: match &record.selected_version {
            Some(v) => Some(v.clone()),
            None => None,
        },
        pending: record.pending,
        updated_at: record.updated_at,
    }
}

/// Whether a byte is an ASCII hexadecimal digit.
pub open spec fn hex_byte(b: u8) -> bool {
    (0x30 <= b <= 0x39) || (0x41 <= b <= 0x46) || (0x61 <= b <= 0x66)
}

/// A project key: 64 hexadecimal digits.
pub open spec fn key_valid(key: Seq<char>) -> bool {
    let bytes = vstd::utf8::encode_utf8(key);
    bytes.len() == 64 && forall|i: int| 0 <= i < 64 ==> hex_byte(#[trigger] bytes[i])
}

/// The keys of records.
pub open spec fn record_keys(records: Seq<LaunchRecord>) -> Seq<Seq<char>> {
    records.map_values(|r: LaunchRecord| r.project_key@)
}

/// Why one record is refused, given the keys before it.
pub open spec fn record_error(earlier: Seq<Seq<char>>, record: LaunchRecord) -> Option<Seq<char>> {
    if !key_valid(record.project_key@) || earlier.contains(record.project_key@) {
        Some("project launch preferences contain an invalid project key"@)
    } else if record.selected_version matches Some(v) && !version_text_valid(v@) {
        Some("the Studio Pro version is invalid"@)
    } else {
        None
    }
}

/// The refusal of the first refused record among the first `n`, if any.
pub open spec fn first_record_error(records: Seq<LaunchRecord>, n: nat) -> Option<Seq<char>>
    decreases n,
{
    if n == 0 {
        None
    } else {
        match first_record_error(records, (n - 1) as nat) {
            Some(e) => Some(e),
            None => record_error(record_keys(records.take(n - 1)), records[n - 1]),
        }
    }
}

/// Why a store is refused, if it is: another format or too many records, or the first
/// refused record.
pub open spec fn store_error(store: LaunchStore) -> Option<Seq<char>> {
    if store.schema_version@ != STORE_SCHEMA_VERSION@ || store.records@.len() > MAX_RECORDS {
        Some("project launch preferences use an unsupported shape"@)
    } else {
        first_record_error(store.records@, store.records@.len())
    }
}

fn key_ok(key: &String) -> (r: bool)
    ensures
        r == key_valid(key@),
{
    let bytes = key.as_str().as_bytes();
    if bytes.len() != 64 {
        return false;
    }
    let mut i: usize = 0;
    while i < 64
        invariant
            i <= 64,
            bytes@ == vstd::utf8::encode_utf8(key@),
            bytes@.len() == 64,
            forall|j: int| 0 <= j < i ==> hex_byte(#[trigger] bytes@[j]),
        decreases 64 - i,
    {
        let b = bytes[i];
        if !((0x30u8 <= b && b <= 0x39u8) || (0x41u8 <= b && b <= 0x46u8) || (0x61u8 <= b && b <= 0x66u8)) {
            return false;
        }
        i = i + 1;
    }
    true
}

fn key_seen(seen: &Vec<String>, key: &String) -> (r: bool)
    ensures
        r == crate::studio_sessions::ids(seen@).contains(key@),
{
    let wanted = to_chars(key.as_str());
    let mut i: usize = 0;
    while i < seen.len()
        invariant
            i <= seen@.len(),
            wanted@ == key@,
            forall|j: int| 0 <= j < i ==> (#[trigger] seen@[j])@ != key@,
        decreases seen@.len() - i,
    {
        if crate::text::equals_str(&wanted, seen[i].as_str()) {
            assert(crate::studio_sessions::ids(seen@)[i as int] == key@);
            return true;
        }
        i = i + 1;
    }
    proof {
        let ids = crate::studio_sessions::ids(seen@);
        if ids.contains(key@) {
            let k = choose|k: int| 0 <= k < ids.len() && ids[k] == key@;
            assert(seen@[k]@ == key@);
        }
    }
    false
}

proof fn lemma_first_record_error_stays(records: Seq<LaunchRecord>, i: nat, n: nat)
    requires
        i < n,
        first_record_error(records, i) is None,
        record_error(record_keys(records.take(i as int)), records[i as int]) is Some,
    ensures
        first_record_error(records, n) == record_error(record_keys(records.take(i as int)), records[i as int]),
    decreases n,
{
    if n > i + 1 {
        lemma_first_record_error_stays(records, i, (n - 1) as nat);
    }
}

/// Accepts a store of this format with at most 256 records, each with a well-formed key
/// that no earlier record has and a valid chosen version; the first refused record decides
/// the refusal.
pub fn validate_store(store: &LaunchStore) -> (r: Result<(), String>)
    ensures
        match store_error(*store) {
            Some(e) => r matches Err(m) && m@ == e,
            None => r is Ok,
        },
{
    let schema = to_chars(store.schema_version.as_str());
    if !crate::text::equals_str(&schema, STORE_SCHEMA_VERSION) || store.records.len() > MAX_RECORDS {
        return Err(string_of("project launch preferences use an unsupported shape"));
    }
    let mut seen: Vec<String> = Vec::new();
    let mut i: usize = 0;
    while i < store.records.len()
        invariant
            i <= store.records@.len(),
            store.schema_version@ == STORE_SCHEMA_VERSION@,
            store.records@.len() <= MAX_RECORDS,
            first_record_error(store.records@, i as nat) is None,
            crate::studio_sessions::ids(seen@) == record_keys(store.records@.take(i as int)),
            seen@.len() == i,
        decreases store.records@.len() - i,
    {
        let record = &store.records[i];
        let failure: Option<&str> = if !key_ok(&record.project_key) || key_seen(&seen, &record.project_key) {
            Some("project launch preferences contain an invalid project key")
        } else {
            match &record.selected_version {
                Some(v) => if validate_version(v.as_str()).is_err() {
                    Some("the Studio Pro version is invalid")
                } else {
                    None
                },
                None => None,
            }
        };
        match failure {
            Some(message) => {
                proof {
                    lemma_first_record_error_stays(store.records@, i as nat, store.records@.len());
                }
                return Err(string_of(message));
            },
            None => {},
        }
        let ghost previous = seen@;
        seen.push(record.project_key.clone());
        proof {
            assert(store.records@.take(i + 1).drop_last() =~= store.records@.take(i as int));
            let now = crate::studio_sessions::ids(seen@);
            let target = record_keys(store.records@.take(i + 1));
            assert forall|j: int| 0 <= j < now.len() implies now[j] == target[j] by {
                if j < i {
                    assert(seen@[j] == previous[j]);
                    assert(crate::studio_sessions::ids(previous)[j] == record_keys(store.records@.take(i as int))[j]);
                }
            }
            assert(now =~= target);
        }
        i = i + 1;
    }
    proof {
        assert(store.records@.take(store.records@.len() as int) =~= store.records@);
    }
    Ok(())
}

/// The version chosen for a launch: trimmed, and none when empty; a non-empty one must be
/// valid.
pub fn normalize_selected_version(selected: Option<&str>) -> (r: Result<Option<String>, String>)
    ensures
        match selected {
            None => r == Ok::<Option<String>, String>(None),
            Some(v) => if trim_spec(v@).len() == 0 {
                r == Ok::<Option<String>, String>(None)
            } else if version_text_valid(trim_spec(v@)) {
                r matches Ok(Some(t)) && t@ == trim_spec(v@)
            } else {
                r is Err
            },
        },
{
    match selected {
        None => Ok(None),
        Some(v) => {
            let chars = trim(&to_chars(v));
            if chars.len() == 0 {
                return Ok(None);
            }
            let trimmed = string_from(&chars);
            match validate_version(trimmed.as_str()) {
                Ok(()) => Ok(Some(trimmed)),
                Err(e) => Err(e),
            }
        },
    }
}

/// The records other than the one with `key`, in order.
pub open spec fn without_key(records: Seq<LaunchRecord>, key: Seq<char>) -> Seq<LaunchRecord>
    decreases records.len(),
{
    if records.len() == 0 {
        records
    } else {
        let r = without_key(records.drop_last(), key);
        if records.last().project_key@ == key {
            r
        } else {
            r.push(records.last())
        }
    }
}

/// The instants of records.
pub open spec fn record_starts(records: Seq<LaunchRecord>) -> Seq<Option<(i64, u32)>> {
    records.map_values(|r: LaunchRecord| Some(r.updated_at))
}

/// The records after remembering `record`: the old one for its key is dropped, and the rest,
/// with the new record last, are kept latest first, at most 256 of them.
pub open spec fn remembered_records(old: Seq<LaunchRecord>, record: LaunchRecord, result: Seq<LaunchRecord>) -> bool {
    let candidates = without_key(old, record.project_key@).push(record);
    exists|order: Seq<usize>| #![trigger is_session_order(record_starts(candidates), order)]
        is_session_order(record_starts(candidates), order)
        && result.len() == if order.len() < MAX_RECORDS { order.len() } else { MAX_RECORDS as nat }
        && forall|k: int| 0 <= k < result.len() ==> result[k] == candidates[order[k] as int]
}

/// Remembers a project's chosen version and pending launch at `now`.
pub fn remember_record(store: LaunchStore, record: LaunchRecord) -> (r: LaunchStore)
    ensures
        r.schema_version == store.schema_version,
        remembered_records(store.records@, record, r.records@),
{
    let LaunchStore { schema_version, records } = store;
    let ghost old_records = records@;
    let key = to_chars(record.project_key.as_str());
    let mut kept: Vec<LaunchRecord> = Vec::new();
    let mut i: usize = 0;
    while i < records.len()
        invariant
            i <= records@.len(),
            records@ == old_records,
            key@ == record.project_key@,
            kept@ == without_key(records@.take(i as int), record.project_key@),
        decreases records@.len() - i,
    {
        proof {
            assert(records@.take(i + 1).drop_last() =~= records@.take(i as int));
        }
        if !crate::text::equals_str(&key, records[i].project_key.as_str()) {
            kept.push(copy_record(&records[i]));
        }
        i = i + 1;
    }
    proof {
        assert(records@.take(records@.len() as int) =~= records@);
    }
    kept.push(record);
    let ghost candidates = kept@;
    let mut starts: Vec<Option<(i64, u32)>> = Vec::new();
    let mut m: usize = 0;
    while m < kept.len()
        invariant
            m <= kept@.len(),
            starts@ == record_starts(kept@).take(m as int),
        decreases kept@.len() - m,
    {
        starts.push(Some(kept[m].updated_at));
        proof {
            assert(starts@ =~= record_starts(kept@).take(m + 1));
        }
        m = m + 1;
    }
    proof {
        assert(record_starts(kept@).take(kept@.len() as int) =~= record_starts(kept@));
    }
    let order = session_order(&starts);
    let mut result: Vec<LaunchRecord> = Vec::new();
    let mut k: usize = 0;
    while k < order.len() && k < MAX_RECORDS
        invariant
            k <= order@.len(),
            k <= MAX_RECORDS,
            is_session_order(starts@, order@),
            starts@ == record_starts(kept@),
            result@.len() == k,
            forall|q: int| 0 <= q < k ==> result@[q] == kept@[order@[q] as int],
        decreases order@.len() - k,
    {
        result.push(copy_record(&kept[order[k]]));
        k = k + 1;
    }
    proof {
        assert(is_session_order(record_starts(candidates), order@));
    }
    LaunchStore { schema_version, records: result }
}

/// The record remembered for a key, if any: the first with it.
pub open spec fn preference_for(records: Seq<LaunchRecord>, key: Seq<char>) -> Option<LaunchRecord> {
    if exists|i: int| 0 <= i < records.len() && (#[trigger] records[i]).project_key@ == key {
        let i = choose|i: int| 0 <= i < records.len() && (#[trigger] records[i]).project_key@ == key
            && forall|j: int| 0 <= j < i ==> records[j].project_key@ != key;
        Some(records[i])
    } else {
        None
    }
}

fn find_preference(records: &Vec<LaunchRecord>, key: &String) -> (r: Option<usize>)
    ensures
        match r {
            Some(i) => i < records@.len() && preference_for(records@, key@) == Some(records@[i as int]),
            None => preference_for(records@, key@) is None,
        },
{
    let wanted = to_chars(key.as_str());
    let mut i: usize = 0;
    while i < records.len()
        invariant
            i <= records@.len(),
            wanted@ == key@,
            forall|j: int| 0 <= j < i ==> records@[j].project_key@ != key@,
        decreases records@.len() - i,
    {
        if crate::text::equals_str(&wanted, records[i].project_key.as_str()) {
            proof {
                let c = choose|c: int| 0 <= c < records@.len() && (#[trigger] records@[c]).project_key@ == key@
                    && forall|j: int| 0 <= j < c ==> records@[j].project_key@ != key@;
                assert(records@[i as int].project_key@ == key@);
                if c < i {
                    assert(records@[c].project_key@ != key@);
                }
                if i < c {
                    assert(records@[i as int].project_key@ != key@);
                }
            }
            return Some(i);
        }
        i = i + 1;
    }
    None
}

/// The projects with their remembered preferences: a project whose key (`keys` holds them in
/// order) is remembered takes its chosen version and pending launch; the others are left as
/// they are.
pub fn apply_preferences(store: &LaunchStore, projects: Vec<MendixProject>, keys: &Vec<String>) -> (r: Vec<MendixProject>)
    requires
        keys@.len() == projects@.len(),
    ensures
        r@.len() == projects@.len(),
        forall|i: int| 0 <= i < r@.len() ==> match preference_for(store.records@, keys@[i]@) {
            Some(record) => (#[trigger] r@[i]) == (MendixProject {
                preferred_version: record.selected_version,
                launch_pending: record.pending,
                ..projects@[i]
            }),
            None => r@[i] == projects@[i],
        },
{
    let ghost original = projects@;
    let mut rest = projects;
    let mut out: Vec<MendixProject> = Vec::new();
    let mut i: usize = 0;
    while i < keys.len()
        invariant
            i + rest@.len() == original.len(),
            keys@.len() == original.len(),
            rest@ == original.skip(i as int),
            out@.len() == i,
            forall|q: int| 0 <= q < i ==> match preference_for(store.records@, keys@[q]@) {
                Some(record) => (#[trigger] out@[q]) == (MendixProject {
                    preferred_version: record.selected_version,
                    launch_pending: record.pending,
                    ..original[q]
                }),
                None => out@[q] == original[q],
            },
        decreases rest@.len(),
    {
        let mut project = rest.remove(0);
        proof {
            assert(project == original[i as int]);
            assert(rest@ =~= original.skip(i + 1));
        }
        match find_preference(&store.records, &keys[i]) {
            Some(index) => {
                let record = &store.records[index];
                project.preferred_version = match &record.selected_version {
                    Some(v) => Some(v.clone()),
                    None => None,
                };
                project.launch_pending = record.pending;
            },
            None => {},
        }
        out.push(project);
        i = i + 1;
    }
    out
}

/// The store file may be read: a regular file, not a link, of at most 128 KiB.
pub fn check_store_file(is_regular_file: bool, is_symlink: bool, length: u64) -> (r: Result<(), String>)
    ensures
        !(is_regular_file && !is_symlink) ==> (r matches Err(m) && m@ == "project launch preferences must be a regular file"@),
        (is_regular_file && !is_symlink) && length > MAX_STORE_BYTES ==> (r matches Err(m)
            && m@ == "project launch preferences exceed the safe size limit"@),
        (is_regular_file && !is_symlink) && length <= MAX_STORE_BYTES ==> r is Ok,
{
    if !is_regular_file || is_symlink {
        return Err(string_of("project launch preferences must be a regular file"));
    }
    if length > MAX_STORE_BYTES {
        return Err(string_of("project launch preferences exceed the safe size limit"));
    }
    Ok(())
}

/// Remembering keeps the store within its bound of 256 projects.
pub proof fn lemma_remember_keeps_the_store_bounded(old: Seq<LaunchRecord>, record: LaunchRecord, result: Seq<LaunchRecord>)
    requires
        remembered_records(old, record, result),
    ensures
        result.len() <= MAX_RECORDS,
{
}

} // verus!
