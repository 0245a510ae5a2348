//! Mendix projects in the shared workspace: which entries a scan visits, the bounded scan
//! itself, the version a project's settings name, and the checks on a project chosen
//! outside the workspace.
use vstd::prelude::*;
use vstd::string::StringSliceAdditionalSpecFns;
use crate::text::{
    ascii_digit, chars_equal, equals_str, has_prefix, is_ascii_digit, slice, string_from,
    string_of, to_chars,
};

verus! {

/// The length of the run of digits at `i` in `s`.
pub open spec fn digit_run(s: Seq<char>, i: int) -> nat
    decreases s.len() - i,
{
    if 0 <= i < s.len() && is_ascii_digit(s[i]) {
        1 + digit_run(s, i + 1)
    } else {
        0
    }
}

/// The capture of `Version=(\\d+\\.\\d+\\.\\d+)` when the match starts at `i`.
pub open spec fn version_at(s: Seq<char>, i: int) -> Option<Seq<char>> {
    let tag = "Version="@;
    let a = i + tag.len();
    let n1 = digit_run(s, a);
    let b = a + n1 + 1;
    let n2 = digit_run(s, b);
    let c = b + n2 + 1;
    let n3 = digit_run(s, c);
    if 0 <= i && a <= s.len() && s.subrange(i, a) == tag && n1 > 0 && a + n1 < s.len() && s[a + n1] == '.'
        && n2 > 0 && b + n2 < s.len() && s[b + n2] == '.' && n3 > 0 {
        Some(s.subrange(a, c + n3))
    } else {
        None
    }
}

/// The capture of the leftmost match at or after `i`.
pub open spec fn first_version_from(s: Seq<char>, i: int) -> Option<Seq<char>>
    decreases s.len() - i,
{
    if i < 0 || i >= s.len() {
        None
    } else {
        match version_at(s, i) {
            Some(v) => Some(v),
            None => first_version_from(s, i + 1),
        }
    }
}

/// The version `Version=1.2.3` names in a settings part's type name, as the leftmost match
/// of `Version=(\\d+\\.\\d+\\.\\d+)(?:\\.\\d+)?` captures it.
pub open spec fn type_version(s: Seq<char>) -> Option<Seq<char>> {
    first_version_from(s, 0)
}

proof fn lemma_digit_run_bound(s: Seq<char>, i: int)
    requires
        0 <= i,
    ensures
        i + digit_run(s, i) <= if i <= s.len() { s.len() as int } else { i },
        forall|k: int| i <= k < i + digit_run(s, i) ==> is_ascii_digit(#[trigger] s[k]),
        i + digit_run(s, i) < s.len() ==> !is_ascii_digit(s[i + digit_run(s, i)]),
    decreases s.len() - i,
{
    if 0 <= i < s.len() && is_ascii_digit(s[i]) {
        lemma_digit_run_bound(s, i + 1);
    }
}

fn digit_run_exec(s: &[char], i: usize) -> (n: usize)
    requires
        i <= s.len(),
    ensures
        n == digit_run(s@, i as int),
        i + n <= s.len(),
{
    let mut k: usize = i;
    while k < s.len() && ascii_digit(s[k])
        invariant
            i <= k <= s.len(),
            digit_run(s@, i as int) == (k - i) + digit_run(s@, k as int),
        decreases s.len() - k,
    {
        k = k + 1;
    }
    proof {
        lemma_digit_run_bound(s@, i as int);
    }
    k - i
}

fn version_at_exec(s: &[char], i: usize) -> (r: Option<Vec<char>>)
    requires
        i <= s.len(),
    ensures
        match version_at(s@, i as int) {
            Some(v) => r matches Some(x) && x@ == v,
            None => r is None,
        },
{
    proof {
        reveal_strlit("Version=");
    }
    let tag = to_chars("Version=");
    if s.len() - i < tag.len() {
        return None;
    }
    let here = slice(s, i, i + tag.len());
    if !chars_equal(&here, &tag) {
        return None;
    }
    let a = i + tag.len();
    let n1 = digit_run_exec(s, a);
    if n1 == 0 || a + n1 >= s.len() || s[a + n1] != '.' {
        return None;
    }
    let b = a + n1 + 1;
    let n2 = digit_run_exec(s, b);
    if n2 == 0 || b + n2 >= s.len() || s[b + n2] != '.' {
        return None;
    }
    let c = b + n2 + 1;
    let n3 = digit_run_exec(s, c);
    if n3 == 0 {
        return None;
    }
    Some(slice(s, a, c + n3))
}

/// The version a settings part's type name carries.
pub fn type_version_exec(s: &[char]) -> (r: Option<Vec<char>>)
    ensures
        match type_version(s@) {
            Some(v) => r matches Some(x) && x@ == v,
            None => r is None,
        },
{
    let mut i: usize = 0;
    while i < s.len()
        invariant
            i <= s.len(),
            type_version(s@) == first_version_from(s@, i as int),
        decreases s.len() - i,
    {
        match version_at_exec(s, i) {
            Some(v) => {
                return Some(v);
            },
            None => {},
        }
        i = i + 1;
    }
    None
}

/// The one version that every versioned settings part names, when there is exactly one
/// distinct version among them.
pub open spec fn distinct_version_spec(types: Seq<Seq<char>>) -> Option<Seq<char>> {
    if exists|i: int| 0 <= i < types.len() && type_version(#[trigger] types[i]) is Some {
        let v = type_version(types[choose|i: int| 0 <= i < types.len() && type_version(#[trigger] types[i]) is Some]).unwrap();
        if forall|j: int| 0 <= j < types.len() && type_version(#[trigger] types[j]) is Some ==> type_version(types[j]) == Some(v) {
            Some(v)
        } else {
            None
        }
    } else {
        None
    }
}

/// The project's Studio Pro version from the `type` names of its settings parts: the one
/// distinct `Version=` they carry, or nothing when none or several differ.
pub fn distinct_project_version(types: &[String]) -> (r: Option<String>)
    ensures
        match distinct_version_spec(types@.map_values(|t: String| t@)) {
            Some(v) => r matches Some(x) && x@ == v,
            None => r is None,
        },
{
    let ghost ts = types@.map_values(|t: String| t@);
    let mut found: Option<Vec<char>> = None;
    let mut found_at: usize = 0;
    let mut i: usize = 0;
    while i < types.len()
        invariant
            i <= types@.len(),
            ts == types@.map_values(|t: String| t@),
            found is None ==> forall|j: int| 0 <= j < i ==> type_version(#[trigger] ts[j]) is None,
            found matches Some(v) ==> found_at < i && type_version(ts[found_at as int]) == Some(v@)
                && forall|j: int| 0 <= j < i && type_version(#[trigger] ts[j]) is Some ==> type_version(ts[j]) == Some(v@),
        decreases types.len() - i,
    {
        let chars = to_chars(types[i].as_str());
        assert(chars@ == ts[i as int]);
        match type_version_exec(&chars) {
            Some(v) => {
                match &found {
                    Some(existing) => {
                        if !chars_equal(existing, &v) {
                            proof {
                                let w = choose|k: int| 0 <= k < ts.len() && type_version(#[trigger] ts[k]) is Some;
                                assert(type_version(ts[found_at as int]) is Some);
                                assert(type_version(ts[i as int]) is Some);
                                if type_version(ts[w]) == Some(existing@) {
                                    assert(type_version(ts[i as int]) != Some(existing@));
                                } else {
                                    assert(type_version(ts[found_at as int]) != type_version(ts[w]));
                                }
                            }
                            return None;
                        }
                    },
                    None => {
                        found = Some(v);
                        found_at = i;
                    },
                }
            },
            None => {},
        }
        i = i + 1;
    }
    match found {
        Some(v) => {
            proof {
                let w = choose|k: int| 0 <= k < ts.len() && type_version(#[trigger] ts[k]) is Some;
                assert(type_version(ts[found_at as int]) is Some);
                assert(type_version(ts[w]) == Some(v@));
            }
            Some(string_from(&v))
        },
        None => None,
    }
}


/// The directories a workspace scan never enters: version control, build output and this
/// application's own data.
pub open spec fn excluded_name(name: Seq<char>) -> bool {
    ||| name == ".git"@
    ||| name == ".svn"@
    ||| name == ".hg"@
    ||| name == ".mendimaru"@
    ||| name == ".mendix-cache"@
    ||| name == "node_modules"@
    ||| name == "deployment"@
    ||| name == "theme-cache"@
    ||| name == "dist"@
    ||| name == "target"@
}

/// Whether a scan enters an entry: the workspace itself always, anything else unless its
/// name is excluded.
pub fn should_visit(depth: usize, name: &str) -> (b: bool)
    ensures
        b == (depth == 0 || !excluded_name(name@)),
{
    if depth == 0 {
        return true;
    }
    let n = to_chars(name);
    !(equals_str(&n, ".git") || equals_str(&n, ".svn") || equals_str(&n, ".hg") || equals_str(&n, ".mendimaru") || equals_str(&n, ".mendix-cache") || equals_str(&n, "node_modules") || equals_str(&n, "deployment") || equals_str(&n, "theme-cache") || equals_str(&n, "dist") || equals_str(&n, "target"))
}

/// `str::eq_ignore_ascii_case`.
pub open spec fn eq_ignore_ascii_case(a: Seq<char>, b: Seq<char>) -> bool {
    crate::text::ascii_lower_spec(a) == crate::text::ascii_lower_spec(b)
}

pub fn eq_ignore_case(a: &[char], b: &str) -> (r: bool)
    ensures
        r == eq_ignore_ascii_case(a@, b@),
{
    let la = crate::text::ascii_lower(a);
    let bc = to_chars(b);
    let lb = crate::text::ascii_lower(&bc);
    chars_equal(&la, &lb)
}

/// Whether the path's extension is `mpr`, in any ASCII case.
pub open spec fn mpr_extension_spec(path: Seq<char>) -> bool {
    match crate::paths::extension_spec(path) {
        Some(e) => eq_ignore_ascii_case(e, "mpr"@),
        None => false,
    }
}

pub fn has_mpr_extension(path: &str) -> (b: bool)
    ensures
        b == mpr_extension_spec(path@),
{
    match crate::paths::extension(path) {
        Some(e) => eq_ignore_case(&e, "mpr"),
        None => false,
    }
}

/// A project's display name: the file's stem, except that a project file named `App`
/// is named after its directory.
pub open spec fn project_name_spec(directory: Seq<char>, mpr_path: Seq<char>) -> Seq<char> {
    let stem = match crate::paths::file_stem_spec(mpr_path) { Some(s) => s, None => "Mendix project"@ };
    if eq_ignore_ascii_case(stem, "app"@) {
        match crate::paths::file_name_spec(directory) { Some(d) => d, None => stem }
    } else {
        stem
    }
}

pub fn project_name(directory: &str, mpr_path: &str) -> (r: String)
    ensures
        r@ == project_name_spec(directory@, mpr_path@),
{
    let stem = match crate::paths::file_stem(mpr_path) {
        Some(s) => s,
        None => to_chars("Mendix project"),
    };
    if eq_ignore_case(&stem, "app") {
        match crate::paths::file_name(directory) {
            Some(d) => string_from(&d),
            None => string_from(&stem),
        }
    } else {
        string_from(&stem)
    }
}

/// Characters Windows does not allow in a file name.
pub open spec fn reserved_file_char(c: char) -> bool {
    c == '<' || c == '>' || c == ':' || c == '"' || c == '/' || c == '\\' || c == '|' || c == '?' || c == '*'
}

/// A device name Windows reserves: CON, PRN, AUX, NUL, and COM or LPT with a digit from
/// 1 to 9.
pub open spec fn reserved_device_stem(upper: Seq<char>) -> bool {
    ||| upper == "CON"@
    ||| upper == "PRN"@
    ||| upper == "AUX"@
    ||| upper == "NUL"@
    ||| (upper.len() == 4 && (upper.take(3) == "COM"@ || upper.take(3) == "LPT"@) && is_ascii_digit(upper[3]) && upper[3] != '0')
}

/// `char::to_ascii_uppercase` over the text.
pub open spec fn ascii_upper_spec(s: Seq<char>) -> Seq<char> {
    Seq::new(s.len(), |i: int| if crate::text::is_ascii_lowercase(s[i]) { ((s[i] as u32) - 32) as char } else { s[i] })
}

fn ascii_upper(s: &[char]) -> (r: Vec<char>)
    ensures
        r@ == ascii_upper_spec(s@),
{
    let mut out: Vec<char> = Vec::new();
    let mut i: usize = 0;
    while i < s.len()
        invariant
            i <= s.len(),
            out@.len() == i,
            forall|j: int| 0 <= j < i ==> out@[j] == (if crate::text::is_ascii_lowercase(#[trigger] s@[j]) { ((s@[j] as u32) - 32) as char } else { s@[j] }),
        decreases s.len() - i,
    {
        let c = s[i];
        let u = if 'a' <= c && c <= 'z' {
            let code: u8 = ((c as u32) - 32) as u8;
            code as char
        } else {
            c
        };
        out.push(u);
        i = i + 1;
    }
    assert(out@ =~= ascii_upper_spec(s@));
    out
}

/// Why a project file cannot be opened from the guest.
#[derive(Debug, Clone, Copy, PartialEq, Eq, Structural)]
pub enum ProjectPathError {
    Encoding,
    Unsupported,
}

/// A project file name the guest can open: present, not ending in a space or dot, free of
/// control and reserved characters, and not a reserved device name.
pub open spec fn guest_file_name_spec(path: Seq<char>) -> Result<(), ProjectPathError> {
    match crate::paths::file_name_spec(path) {
        None => Err(ProjectPathError::Encoding),
        Some(name) => if name.len() == 0 {
            Err(ProjectPathError::Encoding)
        } else if name.last() == ' ' || name.last() == '.'
            || exists|i: int| 0 <= i < name.len() && (crate::text::is_control(#[trigger] name[i]) || reserved_file_char(name[i])) {
            Err(ProjectPathError::Unsupported)
        } else {
            let stem = match crate::paths::file_stem_spec(path) { Some(s) => s, None => Seq::empty() };
            if reserved_device_stem(ascii_upper_spec(stem)) {
                Err(ProjectPathError::Unsupported)
            } else {
                Ok(())
            }
        },
    }
}

pub fn validate_windows_guest_file_name(path: &str) -> (r: Result<(), ProjectPathError>)
    ensures
        r == guest_file_name_spec(path@),
{
    proof {
        reveal_strlit("COM");
        reveal_strlit("LPT");
    }
    let name = match crate::paths::file_name(path) {
        Some(name) => name,
        None => {
            return Err(ProjectPathError::Encoding);
        },
    };
    if name.len() == 0 {
        return Err(ProjectPathError::Encoding);
    }
    let last = name[name.len() - 1];
    if last == ' ' || last == '.' {
        return Err(ProjectPathError::Unsupported);
    }
    let mut i: usize = 0;
    while i < name.len()
        invariant
            i <= name.len(),
            crate::paths::file_name_spec(path@) == Some(name@),
            name@.len() > 0,
            name@.last() != ' ' && name@.last() != '.',
            forall|j: int| 0 <= j < i ==> !(crate::text::is_control(#[trigger] name@[j]) || reserved_file_char(name@[j])),
        decreases name.len() - i,
    {
        let c = name[i];
        if crate::text::control(c) || c == '<' || c == '>' || c == ':' || c == '"' || c == '/' || c == '\\' || c == '|' || c == '?' || c == '*' {
            assert(crate::text::is_control(name@[i as int]) || reserved_file_char(name@[i as int]));
            return Err(ProjectPathError::Unsupported);
        }
        i = i + 1;
    }
    let stem = match crate::paths::file_stem(path) {
        Some(s) => s,
        None => Vec::new(),
    };
    let upper = ascii_upper(&stem);
    let reserved = equals_str(&upper, "CON") || equals_str(&upper, "PRN") || equals_str(&upper, "AUX")
        || equals_str(&upper, "NUL") || (upper.len() == 4 && ({
            let head = slice(&upper, 0, 3);
            equals_str(&head, "COM") || equals_str(&head, "LPT")
        }) && ascii_digit(upper[3]) && upper[3] != '0');
    if reserved {
        Err(ProjectPathError::Unsupported)
    } else {
        Ok(())
    }
}

/// A project directory FreeRDP can redirect: at most 4096 bytes, without `,`, `\\`,
/// `"`, NUL, carriage return or line feed.
pub open spec fn freerdp_host_path_valid(value: Seq<char>) -> bool {
    &&& crate::text::utf8_len(value) <= 4096
    &&& !value.contains(',')
    &&& !value.contains('\\')
    &&& !value.contains('"')
    &&& !value.contains('\0')
    &&& !value.contains('\r')
    &&& !value.contains('\n')
}

pub fn validate_freerdp_host_path(value: &str) -> (r: Result<(), ProjectPathError>)
    ensures
        r is Ok <==> freerdp_host_path_valid(value@),
        r is Err ==> r == Err::<(), ProjectPathError>(ProjectPathError::Unsupported),
{
    let chars = to_chars(value);
    if crate::text::utf8_length_within(&chars, 4096).is_none() || crate::text::contains_char(&chars, ',')
        || crate::text::contains_char(&chars, '\\') || crate::text::contains_char(&chars, '"')
        || crate::text::contains_char(&chars, '\0') || crate::text::contains_char(&chars, '\r')
        || crate::text::contains_char(&chars, '\n') {
        Err(ProjectPathError::Unsupported)
    } else {
        Ok(())
    }
}

pub const EXTERNAL_PROJECT_TOKEN_PREFIX: &'static str = "external-project_";

/// `external-project_` and a lower-case hexadecimal SHA-256 digest.
pub open spec fn external_token_spec(value: Seq<char>) -> bool {
    has_prefix(value, EXTERNAL_PROJECT_TOKEN_PREFIX@)
        && crate::security::lower_hex_spec(value.skip(EXTERNAL_PROJECT_TOKEN_PREFIX@.len() as int), 64)
}

pub fn is_external_project_token(value: &str) -> (b: bool)
    ensures
        b == external_token_spec(value@),
{
    let chars = to_chars(value);
    match crate::text::strip_prefix_str(&chars, EXTERNAL_PROJECT_TOKEN_PREFIX) {
        Some(digest) => crate::security::is_lower_hex(&digest, 64),
        None => false,
    }
}


/// Where a project was found: under the configured shared workspace, or chosen explicitly on
/// the host outside it.
#[derive(Debug, Clone, Copy, PartialEq, Eq, Structural)]
pub enum ProjectLocation {
    ConfiguredWorkspace,
    ExplicitHostSelection,
}

/// A Mendix project as the application lists it.
#[derive(Debug)]
pub struct MendixProject {
    pub name: String,
    pub directory: String,
    pub mpr_path: String,
    pub windows_path: String,
    pub location: ProjectLocation,
    pub version: Option<String>,
    pub preferred_version: Option<String>,
    pub launch_pending: bool,
    pub favorite: bool,
    pub last_launched_at: Option<String>,
    pub last_modified: Option<String>,
}

/// How deep below the workspace a scan looks for project files.
pub const MAX_WORKSPACE_DEPTH: usize = 8;

/// The record of a project file that the workspace scan found: located in the configured
/// workspace, named after the file or its directory, shared at the file's Windows share
/// path, and with no launch preference or pending launch yet.
pub fn scanned_project(workspace: &str, windows_root: &str, directory: String, mpr_path: &str, version: Option<String>, last_modified: String) -> (r: Result<MendixProject, String>)
    ensures
        match crate::paths::windows_share_path(workspace@, mpr_path@, windows_root@) {
            None => r matches Err(e) && e@ == "error-project-outside-workspace"@,
            Some(mapped) => r matches Ok(p) && {
                &&& p.windows_path@ == mapped
                &&& p.name@ == project_name_spec(directory@, mpr_path@)
                &&& p.directory == directory
                &&& p.mpr_path@ == mpr_path@
                &&& p.location == ProjectLocation::ConfiguredWorkspace
                &&& p.version == version
                &&& p.preferred_version is None
                &&& !p.launch_pending
                &&& !p.favorite
                &&& p.last_launched_at is None
                &&& p.last_modified == Some(last_modified)
            },
        },
{
    let windows_path = match crate::paths::linux_path_to_windows_share(workspace, mpr_path, windows_root) {
        Ok(mapped) => mapped,
        Err(e) => return Err(e),
    };
    let name = project_name(directory.as_str(), mpr_path);
    Ok(MendixProject {
        name,
        directory,
        mpr_path: string_of(mpr_path),
        windows_path,
        location: ProjectLocation::ConfiguredWorkspace,
        version,
        preferred_version: None,
        launch_pending: false,
        favorite: false,
        last_launched_at: None,
        last_modified: Some(last_modified),
    })
}

fn copy_text(value: &Option<String>) -> (r: Option<String>)
    ensures
        r == *value,
{
    match value {
        Some(text) => Some(text.clone()),
        None => None,
    }
}

impl MendixProject {
    /// An equal, separately owned project.
    pub fn duplicate(&self) -> (r: MendixProject)
        ensures
            r == *self,
    {
        MendixProject {
            name: self.name.clone(),
            directory: self.directory.clone(),
            mpr_path: self.mpr_path.clone(),
            windows_path: self.windows_path.clone(),
            location: self.location,
            version: copy_text(&self.version),
            preferred_version: copy_text(&self.preferred_version),
            launch_pending: self.launch_pending,
            favorite: self.favorite,
            last_launched_at: copy_text(&self.last_launched_at),
            last_modified: copy_text(&self.last_modified),
        }
    }
}


pub const MAX_EXTERNAL_SELECTIONS: usize = 8;

/// The token that stands for an explicitly selected project file: the prefix and the
/// lower-case hexadecimal SHA-256 digest of the file's path.
pub open spec fn selection_token_spec(mpr_path: Seq<u8>) -> Seq<char> {
    EXTERNAL_PROJECT_TOKEN_PREFIX@ + crate::security::hex_encode_spec(crate::outside::spec_sha256(mpr_path))
}

/// The token for the selected project file at `mpr_path`; it is always a well-formed token.
pub fn selection_token(mpr_path: &str) -> (token: String)
    ensures
        token@ == selection_token_spec(mpr_path.spec_bytes()),
        external_token_spec(token@),
{
    let digest = crate::outside::sha256(mpr_path.as_bytes());
    let hex = crate::security::hex_encode(&digest);
    let mut text = to_chars(EXTERNAL_PROJECT_TOKEN_PREFIX);
    crate::text::push_all(&mut text, &hex);
    proof {
        crate::security::lemma_hex_encode_is_lower_hex(digest@);
        let p = EXTERNAL_PROJECT_TOKEN_PREFIX@;
        assert(text@.take(p.len() as int) =~= p);
        assert(text@.skip(p.len() as int) =~= hex@);
    }
    crate::text::string_from(&text)
}

/// The entries of a selection store without the one for `token`, in order.
pub open spec fn without_token(entries: Seq<(Seq<char>, Seq<char>)>, token: Seq<char>) -> Seq<(Seq<char>, Seq<char>)>
    decreases entries.len(),
{
    if entries.len() == 0 {
        entries
    } else {
        let rest = without_token(entries.drop_last(), token);
        if entries.last().0 == token { rest } else { rest.push(entries.last()) }
    }
}

/// The entries after remembering `path` under `token`: any older entry for the token goes,
/// the new one comes last, and only the newest `MAX_EXTERNAL_SELECTIONS` stay.
pub open spec fn remembered(entries: Seq<(Seq<char>, Seq<char>)>, token: Seq<char>, path: Seq<char>) -> Seq<(Seq<char>, Seq<char>)> {
    let kept = without_token(entries, token).push((token, path));
    if kept.len() > MAX_EXTERNAL_SELECTIONS { kept.skip(kept.len() - MAX_EXTERNAL_SELECTIONS) } else { kept }
}

/// The path remembered under `token`, if any.
pub open spec fn looked_up(entries: Seq<(Seq<char>, Seq<char>)>, token: Seq<char>) -> Option<Seq<char>> {
    if exists|i: int| 0 <= i < entries.len() && (#[trigger] entries[i]).0 == token {
        Some(entries[choose|i: int| 0 <= i < entries.len() && (#[trigger] entries[i]).0 == token].1)
    } else {
        None
    }
}

/// No token occurs twice.
pub open spec fn distinct_tokens(entries: Seq<(Seq<char>, Seq<char>)>) -> bool {
    forall|i: int, j: int| 0 <= i < j < entries.len() ==> (#[trigger] entries[i]).0 != (#[trigger] entries[j]).0
}

proof fn lemma_without_token(entries: Seq<(Seq<char>, Seq<char>)>, token: Seq<char>)
    requires
        distinct_tokens(entries),
    ensures
        distinct_tokens(without_token(entries, token)),
        without_token(entries, token).len() <= entries.len(),
        forall|i: int| 0 <= i < without_token(entries, token).len()
            ==> (#[trigger] without_token(entries, token)[i]).0 != token,
        forall|e: (Seq<char>, Seq<char>)| #[trigger] without_token(entries, token).contains(e)
            <==> (entries.contains(e) && e.0 != token),
    decreases entries.len(),
{
    if entries.len() > 0 {
        let front = entries.drop_last();
        assert(distinct_tokens(front)) by {
            assert forall|i: int, j: int| 0 <= i < j < front.len() implies (#[trigger] front[i]).0 != (#[trigger] front[j]).0 by {
                assert(front[i] == entries[i] && front[j] == entries[j]);
            }
        }
        lemma_without_token(front, token);
        let rest = without_token(front, token);
        assert forall|e: (Seq<char>, Seq<char>)| entries.contains(e) <==> (front.contains(e) || e == entries.last()) by {
            if entries.contains(e) {
                let k = choose|k: int| 0 <= k < entries.len() && entries[k] == e;
                if k < entries.len() - 1 {
                    assert(front[k] == e);
                }
            }
            if front.contains(e) {
                let k = choose|k: int| 0 <= k < front.len() && front[k] == e;
                assert(entries[k] == e);
            }
        }
        if entries.last().0 != token {
            let out = rest.push(entries.last());
            assert forall|e: (Seq<char>, Seq<char>)| out.contains(e) <==> (rest.contains(e) || e == entries.last()) by {
                if out.contains(e) {
                    let k = choose|k: int| 0 <= k < out.len() && out[k] == e;
                    if k < rest.len() {
                        assert(rest[k] == e);
                    }
                }
                if rest.contains(e) {
                    let k = choose|k: int| 0 <= k < rest.len() && rest[k] == e;
                    assert(out[k] == e);
                }
                if e == entries.last() {
                    assert(out[rest.len() as int] == e);
                }
            }
            assert forall|i: int, j: int| 0 <= i < j < out.len() implies (#[trigger] out[i]).0 != (#[trigger] out[j]).0 by {
                if j == rest.len() {
                    assert(rest.contains(out[i]));
                    assert(front.contains(out[i]));
                    let k = choose|k: int| 0 <= k < front.len() && front[k] == out[i];
                    assert(entries[k] == out[i]);
                    assert(entries[entries.len() - 1] == out[j]);
                }
            }
        }
    }
}

/// The projects chosen explicitly on the host in this process, by token, oldest first.
pub struct ExternalSelections {
    entries: Vec<(String, String)>,
}

impl ExternalSelections {
    /// The remembered tokens and paths, oldest first.
    pub closed spec fn view(&self) -> Seq<(Seq<char>, Seq<char>)> {
        self.entries@.map_values(|e: (String, String)| (e.0@, e.1@))
    }

    /// At most `MAX_EXTERNAL_SELECTIONS` entries, no token twice.
    pub open spec fn wf(&self) -> bool {
        &&& self.view().len() <= MAX_EXTERNAL_SELECTIONS
        &&& distinct_tokens(self.view())
    }

    pub fn new() -> (store: ExternalSelections)
        ensures
            store.wf(),
            store.view().len() == 0,
    {
        let store = ExternalSelections { entries: Vec::new() };
        assert(store.view() =~= Seq::<(Seq<char>, Seq<char>)>::empty());
        store
    }

    /// Remembers `path` under `token`, replacing what the token stood for and dropping the
    /// oldest entries beyond `MAX_EXTERNAL_SELECTIONS`.
    pub fn remember(&mut self, token: String, path: String)
        requires
            old(self).wf(),
        ensures
            final(self).wf(),
            final(self).view() == remembered(old(self).view(), token@, path@),
    {
        let ghost before = self.view();
        let mut kept: Vec<(String, String)> = Vec::new();
        let mut i: usize = 0;
        while i < self.entries.len()
            invariant
                i <= self.entries@.len(),
                before == self.view(),
                kept@.map_values(|e: (String, String)| (e.0@, e.1@)) == without_token(before.take(i as int), token@),
            decreases self.entries@.len() - i,
        {
            let entry = &self.entries[i];
            proof {
                assert(before.take(i + 1).drop_last() =~= before.take(i as int));
                assert(before[i as int] == (entry.0@, entry.1@));
            }
            if entry.0 != token {
                kept.push((entry.0.clone(), entry.1.clone()));
            }
            proof {
                assert(kept@.map_values(|e: (String, String)| (e.0@, e.1@)) =~= without_token(before.take(i + 1), token@));
            }
            i = i + 1;
        }
        proof {
            assert(before.take(self.entries@.len() as int) =~= before);
            lemma_without_token(before, token@);
        }
        kept.push((token, path));
        let ghost pushed = kept@.map_values(|e: (String, String)| (e.0@, e.1@));
        assert(pushed =~= without_token(before, token@).push((token@, path@)));
        if kept.len() > MAX_EXTERNAL_SELECTIONS {
            let overflow = kept.len() - MAX_EXTERNAL_SELECTIONS;
            let mut newest: Vec<(String, String)> = Vec::new();
            let mut j: usize = overflow;
            while j < kept.len()
                invariant
                    overflow <= j <= kept@.len(),
                    pushed == kept@.map_values(|e: (String, String)| (e.0@, e.1@)),
                    pushed.len() == kept@.len(),
                    newest@.len() == j - overflow,
                    newest@.map_values(|e: (String, String)| (e.0@, e.1@)) == pushed.subrange(overflow as int, j as int),
                decreases kept@.len() - j,
            {
                let entry = &kept[j];
                assert(pushed[j as int] == (entry.0@, entry.1@));
                let ghost prev = newest@;
                newest.push((entry.0.clone(), entry.1.clone()));
                proof {
                    let target = pushed.subrange(overflow as int, j + 1);
                    let now = newest@.map_values(|e: (String, String)| (e.0@, e.1@));
                    assert(now.len() == target.len());
                    assert forall|k: int| 0 <= k < now.len() implies now[k] == target[k] by {
                        if k < prev.len() {
                            assert(newest@[k] == prev[k]);
                            assert(prev.map_values(|e: (String, String)| (e.0@, e.1@))[k] == pushed.subrange(overflow as int, j as int)[k]);
                        }
                    }
                    assert(now =~= target);
                }
                j = j + 1;
            }
            self.entries = newest;
            proof {
                assert(pushed.subrange(overflow as int, pushed.len() as int) =~= pushed.skip(overflow as int));
            }
        } else {
            self.entries = kept;
        }
        proof {
            let w = without_token(before, token@);
            let after = self.view();
            assert forall|a: int, b: int| 0 <= a < b < after.len() implies (#[trigger] after[a]).0 != (#[trigger] after[b]).0 by {
                let off = pushed.len() - after.len();
                assert(after[a] == pushed[a + off] && after[b] == pushed[b + off]);
                if b + off < w.len() {
                    assert(w[a + off] == pushed[a + off] && w[b + off] == pushed[b + off]);
                } else {
                    assert(w[a + off] == pushed[a + off]);
                }
            }
        }
    }

    /// The path remembered under `reference`, when it is a well-formed token.
    pub fn path_of(&self, reference: &str) -> (path: Option<String>)
        requires
            self.wf(),
        ensures
            !external_token_spec(reference@) ==> path is None,
            external_token_spec(reference@) ==> match looked_up(self.view(), reference@) {
                Some(p) => path matches Some(x) && x@ == p,
                None => path is None,
            },
    {
        if !is_external_project_token(reference) {
            return None;
        }
        let wanted = crate::text::string_of(reference);
        let mut i: usize = 0;
        while i < self.entries.len()
            invariant
                i <= self.entries@.len(),
                wanted@ == reference@,
                external_token_spec(reference@),
                self.wf(),
                forall|j: int| 0 <= j < i ==> (#[trigger] self.view()[j]).0 != reference@,
            decreases self.entries@.len() - i,
        {
            assert(self.view()[i as int] == (self.entries@[i as int].0@, self.entries@[i as int].1@));
            if self.entries[i].0 == wanted {
                let found = self.entries[i].1.clone();
                proof {
                    let v = self.view();
                    assert(v[i as int].0 == reference@);
                    let k = choose|k: int| 0 <= k < v.len() && (#[trigger] v[k]).0 == reference@;
                    assert(k == i);
                }
                return Some(found);
            }
            i = i + 1;
        }
        None
    }
}

/// Remembering a path under a token makes the token look it up, keeps the store bounded and
/// free of repeated tokens, and never changes what another token stands for: at most it is
/// forgotten as one of the oldest.
pub proof fn lemma_remember_then_look_up(entries: Seq<(Seq<char>, Seq<char>)>, token: Seq<char>, path: Seq<char>, other: Seq<char>)
    requires
        distinct_tokens(entries),
        entries.len() <= MAX_EXTERNAL_SELECTIONS,
        other != token,
    ensures
        looked_up(remembered(entries, token, path), token) == Some(path),
        remembered(entries, token, path).len() <= MAX_EXTERNAL_SELECTIONS,
        looked_up(remembered(entries, token, path), other) is Some
            ==> looked_up(remembered(entries, token, path), other) == looked_up(entries, other),
{
    lemma_without_token(entries, token);
    let w = without_token(entries, token);
    let pushed = w.push((token, path));
    let after = remembered(entries, token, path);
    let off = pushed.len() - after.len();
    assert(after.len() > 0);
    let last = after.len() - 1;
    assert(after[last] == pushed[pushed.len() - 1]);
    assert(after[last].0 == token);
    assert forall|k: int| 0 <= k < after.len() && (#[trigger] after[k]).0 == token implies k == last by {
        assert(after[k] == pushed[k + off]);
        if k + off < w.len() {
            assert(w[k + off] == pushed[k + off]);
        }
    }
    if looked_up(after, other) is Some {
        let k = choose|k: int| 0 <= k < after.len() && (#[trigger] after[k]).0 == other;
        assert(after[k] == pushed[k + off]);
        assert(k + off < w.len());
        assert(w[k + off] == pushed[k + off]);
        assert(w.contains(w[k + off]));
        assert(entries.contains(w[k + off]));
        let m = choose|m: int| 0 <= m < entries.len() && entries[m] == w[k + off];
        assert(entries[m].0 == other);
        let m2 = choose|m: int| 0 <= m < entries.len() && (#[trigger] entries[m]).0 == other;
        assert(m2 == m);
    }
}


/// The longest project path accepted, in bytes.
pub const MAX_PROJECT_PATH_BYTES: usize = 4096;

/// Why a requested project path is refused before the file system is asked.
#[derive(Debug, Clone, Copy, PartialEq, Eq, Structural)]
pub enum SelectionTextError {
    NotAbsolute,
    TooLong,
    Unsupported,
}

impl SelectionTextError {
    /// The key of the message shown.
    pub fn message_key(&self) -> (r: &'static str)
        ensures
            r@ == match *self {
                SelectionTextError::NotAbsolute => "error-project-path-absolute"@,
                SelectionTextError::TooLong => "error-project-path-too-long"@,
                SelectionTextError::Unsupported => "error-project-path-unsupported"@,
            },
    {
        match self {
            SelectionTextError::NotAbsolute => "error-project-path-absolute",
            SelectionTextError::TooLong => "error-project-path-too-long",
            SelectionTextError::Unsupported => "error-project-path-unsupported",
        }
    }
}

/// The checks of a requested project path before the file system is asked: absolute
/// (`/` first), at most 4096 bytes, and without NUL, CR or LF.
pub open spec fn selection_text_error(path: Seq<char>) -> Option<SelectionTextError> {
    if !(path.len() > 0 && path[0] == '/') {
        Some(SelectionTextError::NotAbsolute)
    } else if crate::text::utf8_len(path) > MAX_PROJECT_PATH_BYTES {
        Some(SelectionTextError::TooLong)
    } else if path.contains('\0') || path.contains('\r') || path.contains('\n') {
        Some(SelectionTextError::Unsupported)
    } else {
        None
    }
}

/// Checks a requested project path's text.
pub fn check_selection_text(path: &str) -> (r: Result<(), SelectionTextError>)
    ensures
        match selection_text_error(path@) {
            Some(e) => r == Err::<(), SelectionTextError>(e),
            None => r is Ok,
        },
{
    let chars = to_chars(path);
    if chars.len() == 0 || chars[0] != '/' {
        return Err(SelectionTextError::NotAbsolute);
    }
    if crate::text::utf8_length_within(&chars, MAX_PROJECT_PATH_BYTES).is_none() {
        return Err(SelectionTextError::TooLong);
    }
    if crate::text::contains_char(&chars, '\0') || crate::text::contains_char(&chars, '\r')
        || crate::text::contains_char(&chars, '\n') {
        return Err(SelectionTextError::Unsupported);
    }
    Ok(())
}

/// A path lies within a root, as `Path::starts_with` compares whole components: both
/// absolute, and the root's components a prefix of the path's.
pub open spec fn path_within_spec(path: Seq<char>, root: Seq<char>) -> bool {
    &&& path.len() > 0 && path[0] == '/'
    &&& root.len() > 0 && root[0] == '/'
    &&& crate::asset_mirror::path_pieces(root).len() <= crate::asset_mirror::path_pieces(path).len()
    &&& crate::asset_mirror::path_pieces(path).take(crate::asset_mirror::path_pieces(root).len() as int)
        == crate::asset_mirror::path_pieces(root)
}

fn pieces_of(path: &str) -> (r: Vec<Vec<char>>)
    ensures
        crate::asset_mirror::char_views(r@) == crate::asset_mirror::path_pieces(path@),
{
    let chars = to_chars(path);
    let pieces = crate::text::split_char(&chars, '/');
    assert(crate::asset_mirror::char_views(pieces@) =~= crate::text::split_spec(path@, '/'));
    crate::asset_mirror::keep_pieces(&pieces)
}

/// Whether a canonical absolute path lies within a canonical absolute root.
pub fn path_within(path: &str, root: &str) -> (r: bool)
    ensures
        r == path_within_spec(path@, root@),
{
    let p = to_chars(path);
    let q = to_chars(root);
    if p.len() == 0 || p[0] != '/' || q.len() == 0 || q[0] != '/' {
        return false;
    }
    let a = pieces_of(path);
    let b = pieces_of(root);
    let ghost av = crate::asset_mirror::char_views(a@);
    let ghost bv = crate::asset_mirror::char_views(b@);
    if b.len() > a.len() {
        return false;
    }
    let mut i: usize = 0;
    while i < b.len()
        invariant
            i <= b@.len(),
            b@.len() <= a@.len(),
            av == crate::asset_mirror::char_views(a@),
            bv == crate::asset_mirror::char_views(b@),
            forall|j: int| 0 <= j < i ==> av[j] == bv[j],
            av.len() == a@.len(),
            bv.len() == b@.len(),
            av == crate::asset_mirror::path_pieces(path@),
            bv == crate::asset_mirror::path_pieces(root@),
        decreases b@.len() - i,
    {
        if !chars_equal(&a[i], &b[i]) {
            assert(av[i as int] == a@[i as int]@);
            assert(bv[i as int] == b@[i as int]@);
            assert(av.take(bv.len() as int)[i as int] != bv[i as int]);
            assert(av.take(bv.len() as int) != bv);
            return false;
        }
        assert(av[i as int] == a@[i as int]@);
        assert(bv[i as int] == b@[i as int]@);
        i = i + 1;
    }
    assert(av.take(bv.len() as int) =~= bv);
    true
}

/// Where a selected project lies: in the configured workspace when its canonical path is
/// within the canonical workspace, else outside it.
pub fn selection_location(canonical_mpr_path: &str, canonical_workspace: &str) -> (r: ProjectLocation)
    ensures
        r == (if path_within_spec(canonical_mpr_path@, canonical_workspace@) {
            ProjectLocation::ConfiguredWorkspace
        } else {
            ProjectLocation::ExplicitHostSelection
        }),
{
    if path_within(canonical_mpr_path, canonical_workspace) {
        ProjectLocation::ConfiguredWorkspace
    } else {
        ProjectLocation::ExplicitHostSelection
    }
}

/// Why a directory outside the workspace may not be shared: the file system root or the
/// home directory is too broad, and a read-only one cannot be used.
pub fn external_share_root_error(is_filesystem_root: bool, is_home: bool, read_only: bool) -> (r: Option<&'static str>)
    ensures
        (is_filesystem_root || is_home) ==> (r matches Some(k) && k@ == "error-project-share-too-broad"@),
        !(is_filesystem_root || is_home) && read_only ==> (r matches Some(k) && k@ == "error-project-share-read-only"@),
        !(is_filesystem_root || is_home) && !read_only ==> r is None,
{
    if is_filesystem_root || is_home {
        Some("error-project-share-too-broad")
    } else if read_only {
        Some("error-project-share-read-only")
    } else {
        None
    }
}

} // verus!
