//! The preconditions of recovering an erased OVMF variable store: which stores count as
//! erased, and which containers are eligible.
//!
//! The container runtime's inspection is read by the caller into `ContainerFacts`; the
//! decisions are made here.
use vstd::prelude::*;
use crate::container::ContainerStatus;
use crate::text::{
    ascii_hexdigit, equals_str, has_prefix, is_ascii_hexdigit, split_once, split_once_spec,
    starts_with_str, string_of, to_chars,
};

verus! {

pub const TARGET: &'static str = "windows.vars";
pub const VARS_BYTES: usize = 540672;
pub const PREVIEW_LIFETIME_SECONDS: u64 = 300;
pub const EVIDENCE: &'static str = "erased-ovmf-variable-store";

/// A variable store counts as erased when it has the OVMF size and every byte is zero, or
/// every byte is `0xff`.
pub open spec fn erased_store_spec(bytes: Seq<u8>) -> bool {
    &&& bytes.len() == VARS_BYTES
    &&& ((forall|i: int| 0 <= i < bytes.len() ==> bytes[i] == 0u8) || (forall|i: int| 0 <= i < bytes.len() ==> bytes[i] == 0xffu8))
}

pub fn erased_store(bytes: &[u8]) -> (b: bool)
    ensures
        b == erased_store_spec(bytes@),
{
    if bytes.len() != VARS_BYTES {
        return false;
    }
    let mut zeros = true;
    let mut ones = true;
    let mut i: usize = 0;
    while i < bytes.len()
        invariant
            i <= bytes@.len(),
            zeros == (forall|k: int| 0 <= k < i ==> bytes@[k] == 0u8),
            ones == (forall|k: int| 0 <= k < i ==> bytes@[k] == 0xffu8),
        decreases bytes@.len() - i,
    {
        if bytes[i] != 0 {
            zeros = false;
        }
        if bytes[i] != 0xff {
            ones = false;
        }
        i = i + 1;
    }
    zeros || ones
}

/// The Compose service, image and storage directory a recovery is planned for.
#[derive(Debug)]
pub struct NvramMount {
    pub service: String,
    pub image: String,
    /// The storage directory as text, when it has a text form.
    pub directory: Option<String>,
}

/// One mount as the inspection lists it; a field is absent when it is missing or of another
/// JSON type.
#[derive(Debug)]
pub struct MountFacts {
    pub destination: Option<String>,
    pub mount_type: Option<String>,
    pub read_write: Option<bool>,
    pub source: Option<String>,
}

/// What the container inspection says, as the eligibility checks read it; a field is absent
/// when it is missing or of another JSON type.
#[derive(Debug)]
pub struct ContainerFacts {
    /// `State.Status`.
    pub status: Option<String>,
    /// `State.Running`, `State.Restarting` and `State.Paused`.
    pub running: Option<bool>,
    pub restarting: Option<bool>,
    pub paused: Option<bool>,
    /// The `com.docker.compose.service` label.
    pub service: Option<String>,
    /// `Config.Image`.
    pub config_image: Option<String>,
    /// `Mounts`, when it is an array.
    pub mounts: Option<Vec<MountFacts>>,
    /// `Config.Env`, when it is an array: each entry when it is a string.
    pub environment: Option<Vec<Option<String>>>,
    /// `Id` and `Image`.
    pub id: Option<String>,
    pub image: Option<String>,
}

/// Why a container is not eligible.
#[derive(Debug, Clone, Copy, PartialEq, Eq, Structural)]
pub enum NvramRejection {
    /// The container is not stopped.
    NotStopped,
    /// Anything else about it is not the planned, supported setup.
    Unsupported,
}

pub open spec fn text_is(value: Option<String>, expected: Seq<char>) -> bool {
    value matches Some(v) && v@ == expected
}

pub open spec fn opt_text(value: Option<String>) -> Option<Seq<char>> {
    match value {
        Some(v) => Some(v@),
        None => None,
    }
}

/// A mount targets the storage: `/storage` or below it.
pub open spec fn storage_target(mount: MountFacts) -> bool {
    mount.destination matches Some(d) && (d@ == "/storage"@ || has_prefix(d@, "/storage/"@))
}

/// The mounts that target the storage, in order.
pub open spec fn storage_mounts(mounts: Seq<MountFacts>) -> Seq<MountFacts>
    decreases mounts.len(),
{
    if mounts.len() == 0 {
        Seq::empty()
    } else {
        let rest = storage_mounts(mounts.drop_last());
        if storage_target(mounts.last()) { rest.push(mounts.last()) } else { rest }
    }
}

/// The values an environment gives `key`, in order.
pub open spec fn env_values(environment: Seq<Seq<char>>, key: Seq<char>) -> Seq<Seq<char>>
    decreases environment.len(),
{
    if environment.len() == 0 {
        Seq::empty()
    } else {
        let rest = env_values(environment.drop_last(), key);
        match split_once_spec(environment.last(), '=') {
            Some((name, value)) => if name == key { rest.push(value) } else { rest },
            None => rest,
        }
    }
}

/// The value a key may have: the default Windows boot, the standard storage, no clearing,
/// and no BIOS override.
pub open spec fn env_value_allowed(key: Seq<char>, value: Seq<char>) -> bool {
    if key == "BOOT_MODE"@ {
        value.len() == 0 || value == "windows"@
    } else if key == "STORAGE"@ {
        value.len() == 0 || value == "/storage"@
    } else if key == "CLEAR"@ {
        value.len() == 0 || value == "N"@ || value == "0"@ || value == "false"@
    } else {
        value.len() == 0
    }
}

/// The key is set at most once, to an allowed value.
pub open spec fn env_key_ok(environment: Seq<Seq<char>>, key: Seq<char>) -> bool {
    let values = env_values(environment, key);
    values.len() <= 1 && env_value_allowed(key, if values.len() == 0 { Seq::empty() } else { values[0] })
}

/// The environment entries when every one is a string.
pub open spec fn env_texts(environment: Seq<Option<String>>) -> Option<Seq<Seq<char>>> {
    if forall|i: int| 0 <= i < environment.len() ==> (#[trigger] environment[i]) is Some {
        Some(environment.map_values(|e: Option<String>| e->Some_0@))
    } else {
        None
    }
}

/// `n` hexadecimal digits of either case.
pub open spec fn hex_of_length(value: Seq<char>, n: nat) -> bool {
    value.len() == n && forall|i: int| 0 <= i < value.len() ==> is_ascii_hexdigit(#[trigger] value[i])
}

/// A content-addressed image ID: `sha256:` and 64 hexadecimal digits.
pub open spec fn image_id_valid(value: Seq<char>) -> bool {
    has_prefix(value, "sha256:"@) && value.len() == 71 && forall|i: int| 7 <= i < 71 ==> is_ascii_hexdigit(#[trigger] value[i])
}

/// The container is stopped: exited or created, and not running, restarting or paused.
pub open spec fn stopped(facts: ContainerFacts) -> bool {
    &&& facts.status matches Some(s) && (ContainerStatus::from_runtime_spec(s@) == ContainerStatus::Exited
        || ContainerStatus::from_runtime_spec(s@) == ContainerStatus::Created)
    &&& facts.running == Some(false)
    &&& facts.restarting == Some(false)
    &&& facts.paused == Some(false)
}

/// The container is the planned service on the planned image, with exactly one storage
/// mount, a read-write bind of the planned directory, and an environment that keeps the
/// default boot, storage, clearing and BIOS settings.
pub open spec fn eligible_setup(facts: ContainerFacts, mount: NvramMount) -> bool {
    &&& text_is(facts.service, mount.service@)
    &&& text_is(facts.config_image, mount.image@)
    &&& facts.mounts matches Some(mounts) && {
        let storage = storage_mounts(mounts@);
        &&& storage.len() == 1
        &&& text_is(storage[0].mount_type, "bind"@)
        &&& storage[0].read_write == Some(true)
        &&& opt_text(storage[0].source) == opt_text(mount.directory)
    }
    &&& facts.environment matches Some(env) && (env_texts(env@) matches Some(texts) && {
        &&& env_key_ok(texts, "BOOT_MODE"@)
        &&& env_key_ok(texts, "STORAGE"@)
        &&& env_key_ok(texts, "BIOS"@)
        &&& env_key_ok(texts, "CLEAR"@)
    })
    &&& facts.id matches Some(id) && hex_of_length(id@, 64)
    &&& facts.image matches Some(image) && image_id_valid(image@)
}

/// What the eligibility check answers: the container and image IDs of an eligible
/// container; not stopped when a stop was required and it is not stopped; unsupported
/// otherwise.
pub open spec fn validate_container_spec(facts: ContainerFacts, mount: NvramMount, require_stopped: bool) -> Result<(Seq<char>, Seq<char>), NvramRejection> {
    if facts.status is None {
        Err(NvramRejection::Unsupported)
    } else if require_stopped && !stopped(facts) {
        Err(NvramRejection::NotStopped)
    } else if !eligible_setup(facts, mount) {
        Err(NvramRejection::Unsupported)
    } else {
        Ok((facts.id->Some_0@, facts.image->Some_0@))
    }
}

fn same_text(value: &Option<String>, expected: &str) -> (b: bool)
    ensures
        b == text_is(*value, expected@),
{
    match value {
        Some(v) => {
            let c = to_chars(v);
            equals_str(&c, expected)
        },
        None => false,
    }
}

fn storage_mount_index(mounts: &Vec<MountFacts>) -> (r: Option<usize>)
    ensures
        storage_mounts(mounts@).len() == 1 <==> r is Some,
        r matches Some(i) ==> (i < mounts@.len() && storage_mounts(mounts@)[0] == mounts@[i as int]),
{
    let mut found: Option<usize> = None;
    let mut count: usize = 0;
    let mut i: usize = 0;
    while i < mounts.len()
        invariant
            i <= mounts@.len(),
            count == storage_mounts(mounts@.take(i as int)).len(),
            count <= i,
            count == 1 ==> (found matches Some(f) && f < i && storage_mounts(mounts@.take(i as int))[0] == mounts@[f as int]),
        decreases mounts@.len() - i,
    {
        proof {
            assert(mounts@.take(i + 1).drop_last() =~= mounts@.take(i as int));
            assert(mounts@.take(i + 1).last() == mounts@[i as int]);
        }
        let target = match &mounts[i].destination {
            Some(d) => {
                let c = to_chars(d);
                equals_str(&c, "/storage") || starts_with_str(&c, "/storage/")
            },
            None => false,
        };
        if target {
            if count == 0 {
                found = Some(i);
            }
            count = count + 1;
        }
        i = i + 1;
    }
    proof {
        assert(mounts@.take(mounts@.len() as int) =~= mounts@);
    }
    if count == 1 { found } else { None }
}

fn env_key_check(texts: &Vec<Vec<char>>, key: &str) -> (ok: bool)
    ensures
        ok == env_key_ok(texts@.map_values(|t: Vec<char>| t@), key@),
{
    let ghost all = texts@.map_values(|t: Vec<char>| t@);
    let mut first: Option<Vec<char>> = None;
    let mut count: usize = 0;
    let mut i: usize = 0;
    let k = to_chars(key);
    while i < texts.len()
        invariant
            i <= texts@.len(),
            k@ == key@,
            all == texts@.map_values(|t: Vec<char>| t@),
            count == env_values(all.take(i as int), key@).len(),
            count <= i,
            count >= 1 ==> (first matches Some(f) && f@ == env_values(all.take(i as int), key@)[0]),
        decreases texts@.len() - i,
    {
        proof {
            assert(all.take(i + 1).drop_last() =~= all.take(i as int));
            assert(all.take(i + 1).last() == texts@[i as int]@);
        }
        match split_once(&texts[i], '=') {
            Some((name, value)) => {
                if crate::text::chars_equal(&name, &k) {
                    if count == 0 {
                        first = Some(value);
                    }
                    count = count + 1;
                }
            },
            None => {},
        }
        i = i + 1;
    }
    proof {
        assert(all.take(texts@.len() as int) =~= all);
    }
    if count > 1 {
        return false;
    }
    let value: Vec<char> = match first {
        Some(v) if count == 1 => v,
        _ => Vec::new(),
    };
    proof {
        reveal_strlit("BOOT_MODE");
        reveal_strlit("STORAGE");
        reveal_strlit("CLEAR");
    }
    if equals_str(&k, "BOOT_MODE") {
        value.len() == 0 || equals_str(&value, "windows")
    } else if equals_str(&k, "STORAGE") {
        value.len() == 0 || equals_str(&value, "/storage")
    } else if equals_str(&k, "CLEAR") {
        value.len() == 0 || equals_str(&value, "N") || equals_str(&value, "0") || equals_str(&value, "false")
    } else {
        value.len() == 0
    }
}

fn all_hex(value: &[char], from: usize) -> (b: bool)
    requires
        from <= value@.len(),
    ensures
        b == forall|i: int| from <= i < value@.len() ==> is_ascii_hexdigit(#[trigger] value@[i]),
{
    let mut i: usize = from;
    while i < value.len()
        invariant
            from <= i <= value@.len(),
            forall|j: int| from <= j < i ==> is_ascii_hexdigit(#[trigger] value@[j]),
        decreases value@.len() - i,
    {
        if !ascii_hexdigit(value[i]) {
            return false;
        }
        i = i + 1;
    }
    true
}

fn env_entries(environment: &Vec<Option<String>>) -> (r: Option<Vec<Vec<char>>>)
    ensures
        match env_texts(environment@) {
            Some(t) => r matches Some(v) && v@.map_values(|x: Vec<char>| x@) == t,
            None => r is None,
        },
{
    let mut texts: Vec<Vec<char>> = Vec::new();
    let mut i: usize = 0;
    while i < environment.len()
        invariant
            i <= environment@.len(),
            texts@.len() == i,
            forall|j: int| 0 <= j < i ==> (#[trigger] environment@[j]) is Some,
            forall|j: int| 0 <= j < i ==> (#[trigger] texts@[j])@ == environment@[j]->Some_0@,
        decreases environment@.len() - i,
    {
        match &environment[i] {
            Some(entry) => {
                texts.push(to_chars(entry));
            },
            None => {
                proof {
                    assert(environment@[i as int] is None);
                }
                return None;
            },
        }
        i = i + 1;
    }
    proof {
        assert(texts@.map_values(|t: Vec<char>| t@) =~= environment@.map_values(|e: Option<String>| e->Some_0@));
    }
    Some(texts)
}

/// Checks that a container is eligible for recovering its variable store, and gives its
/// container and image IDs.
pub fn validate_container(facts: &ContainerFacts, mount: &NvramMount, require_stopped: bool) -> (r: Result<(String, String), NvramRejection>)
    ensures
        match validate_container_spec(*facts, *mount, require_stopped) {
            Ok((id, image)) => r matches Ok(p) && p.0@ == id && p.1@ == image,
            Err(e) => r == Err::<(String, String), NvramRejection>(e),
        },
{
    let status = match &facts.status {
        Some(s) => ContainerStatus::from_runtime(s),
        None => {
            return Err(NvramRejection::Unsupported);
        },
    };
    if require_stopped {
        let stopped_status = status == ContainerStatus::Exited || status == ContainerStatus::Created;
        if !stopped_status || facts.running != Some(false) || facts.restarting != Some(false) || facts.paused != Some(false) {
            return Err(NvramRejection::NotStopped);
        }
    }
    if !same_text(&facts.service, &mount.service) || !same_text(&facts.config_image, &mount.image) {
        return Err(NvramRejection::Unsupported);
    }
    let mounts = match &facts.mounts {
        Some(m) => m,
        None => {
            return Err(NvramRejection::Unsupported);
        },
    };
    let index = match storage_mount_index(mounts) {
        Some(i) => i,
        None => {
            return Err(NvramRejection::Unsupported);
        },
    };
    let storage = &mounts[index];
    let source_matches = match (&storage.source, &mount.directory) {
        (Some(a), Some(b)) => *a == *b,
        (None, None) => true,
        _ => false,
    };
    if !same_text(&storage.mount_type, "bind") || storage.read_write != Some(true) || !source_matches {
        return Err(NvramRejection::Unsupported);
    }
    let environment = match &facts.environment {
        Some(e) => e,
        None => {
            return Err(NvramRejection::Unsupported);
        },
    };
    let texts = match env_entries(environment) {
        Some(t) => t,
        None => {
            return Err(NvramRejection::Unsupported);
        },
    };
    if !env_key_check(&texts, "BOOT_MODE") || !env_key_check(&texts, "STORAGE") || !env_key_check(&texts, "BIOS")
        || !env_key_check(&texts, "CLEAR") {
        return Err(NvramRejection::Unsupported);
    }
    let id = match &facts.id {
        Some(id) => to_chars(id),
        None => {
            return Err(NvramRejection::Unsupported);
        },
    };
    if id.len() != 64 || !all_hex(&id, 0) {
        return Err(NvramRejection::Unsupported);
    }
    let image = match &facts.image {
        Some(image) => to_chars(image),
        None => {
            return Err(NvramRejection::Unsupported);
        },
    };
    if !starts_with_str(&image, "sha256:") || image.len() != 71 || !all_hex(&image, 7) {
        return Err(NvramRejection::Unsupported);
    }
    Ok((crate::text::string_from(&id), crate::text::string_from(&image)))
}

} // verus!
