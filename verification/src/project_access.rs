//! How the guest reaches a project: through the configured workspace share, or through a
//! FreeRDP drive redirection of the project's own directory.
use vstd::prelude::*;
use crate::text::{
    ascii_digit, ascii_lowercase, contains_char, is_ascii_digit, is_ascii_lowercase, push_all,
    push_str, string_from, string_of, to_chars,
};

verus! {

pub const SHARE_PREFIX: &'static str = "mpr-";

pub const SHARE_DIGEST_CHARS: usize = 16;

pub const MAX_SHARE_NAME_BYTES: usize = 20;

pub const PROJECT_READY_TIMEOUT_SECONDS: u64 = 30;

#[derive(Debug, Clone, Copy, PartialEq, Eq, Structural)]
pub enum ProjectAccessProviderKind {
    ConfiguredWorkspace,
    FreeRdpDrive,
}

/// A redirected drive's share name: 1 to 20 lower-case ASCII letters, digits or `-`.
pub open spec fn share_name_valid(s: Seq<char>) -> bool {
    &&& s.len() > 0
    &&& s.len() <= MAX_SHARE_NAME_BYTES
    &&& forall|i: int| 0 <= i < s.len() ==> (is_ascii_lowercase(#[trigger] s[i]) || is_ascii_digit(s[i]) || s[i] == '-')
}

pub fn validate_share_name(value: &str) -> (r: Result<(), String>)
    ensures
        r is Ok <==> share_name_valid(value@),
        r matches Err(e) ==> e@ == "error-project-share-identity"@,
{
    let chars = to_chars(value);
    if chars.len() == 0 || chars.len() > MAX_SHARE_NAME_BYTES {
        return Err(string_of("error-project-share-identity"));
    }
    let mut i: usize = 0;
    while i < chars.len()
        invariant
            i <= chars.len(),
            chars@ == value@,
            forall|j: int| 0 <= j < i ==> (is_ascii_lowercase(#[trigger] chars@[j]) || is_ascii_digit(chars@[j]) || chars@[j] == '-'),
        decreases chars.len() - i,
    {
        let c = chars[i];
        if !(ascii_lowercase(c) || ascii_digit(c) || c == '-') {
            return Err(string_of("error-project-share-identity"));
        }
        i = i + 1;
    }
    Ok(())
}

/// A host directory FreeRDP can redirect: not empty, and free of `,`, `\\`, `"`, NUL,
/// carriage returns and line feeds, which would end the argument or its stdin line.
pub open spec fn host_root_valid(s: Seq<char>) -> bool {
    &&& s.len() > 0
    &&& !s.contains(',')
    &&& !s.contains('\\')
    &&& !s.contains('"')
    &&& !s.contains('\0')
    &&& !s.contains('\r')
    &&& !s.contains('\n')
}

pub fn validate_host_root_argument(value: &str) -> (r: Result<(), String>)
    ensures
        r is Ok <==> host_root_valid(value@),
        r matches Err(e) ==> e@ == "error-project-path-unsupported"@,
{
    let chars = to_chars(value);
    if chars.len() == 0 || contains_char(&chars, ',') || contains_char(&chars, '\\') || contains_char(&chars, '"')
        || contains_char(&chars, '\0') || contains_char(&chars, '\r') || contains_char(&chars, '\n') {
        return Err(string_of("error-project-path-unsupported"));
    }
    Ok(())
}

/// The FreeRDP option that redirects `host_root` as the share `share_name`.
pub fn drive_argument(share_name: &str, host_root: &str) -> (r: Result<String, String>)
    ensures
        !share_name_valid(share_name@) ==> (r matches Err(e) && e@ == "error-project-share-identity"@),
        share_name_valid(share_name@) && !host_root_valid(host_root@) ==> (r matches Err(e) && e@ == "error-project-path-unsupported"@),
        share_name_valid(share_name@) && host_root_valid(host_root@) ==> (r matches Ok(a) && a@ == "/drive:"@ + share_name@ + ","@ + host_root@),
{
    validate_share_name(share_name)?;
    validate_host_root_argument(host_root)?;
    let mut out = to_chars("/drive:");
    push_str(&mut out, share_name);
    push_str(&mut out, ",");
    push_str(&mut out, host_root);
    Ok(string_from(&out))
}

/// A character Windows forbids in a file name.
pub open spec fn windows_reserved_char(c: char) -> bool {
    c == '<' || c == '>' || c == ':' || c == '"' || c == '/' || c == '\\' || c == '|' || c == '?' || c == '*'
}

/// The redirected share for a project, named after the first 16 characters of its
/// digest, and the project's path as the guest sees it through that share.
pub open spec fn drive_share_spec(project_digest: Seq<char>, file_name: Seq<char>) -> Option<(Seq<char>, Seq<char>)> {
    let share = SHARE_PREFIX@ + project_digest.take(SHARE_DIGEST_CHARS as int);
    if project_digest.len() < SHARE_DIGEST_CHARS || !share_name_valid(share) || file_name.len() == 0
        || exists|i: int| 0 <= i < file_name.len() && windows_reserved_char(#[trigger] file_name[i]) {
        None
    } else {
        Some((share, "\\\\tsclient\\"@ + share + seq!['\\'] + file_name))
    }
}

pub fn drive_share(project_digest: &str, file_name: &str) -> (r: Option<(String, String)>)
    ensures
        match drive_share_spec(project_digest@, file_name@) {
            Some((share, path)) => r matches Some((s, p)) && s@ == share && p@ == path,
            None => r is None,
        },
{
    let digest = to_chars(project_digest);
    if digest.len() < SHARE_DIGEST_CHARS {
        return None;
    }
    let mut share = to_chars(SHARE_PREFIX);
    let head = crate::text::slice(&digest, 0, SHARE_DIGEST_CHARS);
    push_all(&mut share, &head);
    let share_text = string_from(&share);
    if validate_share_name(share_text.as_str()).is_err() {
        return None;
    }
    let name = to_chars(file_name);
    if name.len() == 0 {
        return None;
    }
    let mut i: usize = 0;
    while i < name.len()
        invariant
            i <= name.len(),
            name@ == file_name@,
            forall|j: int| 0 <= j < i ==> !windows_reserved_char(#[trigger] name@[j]),
        decreases name.len() - i,
    {
        let c = name[i];
        if c == '<' || c == '>' || c == ':' || c == '"' || c == '/' || c == '\\' || c == '|' || c == '?' || c == '*' {
            return None;
        }
        i = i + 1;
    }
    let mut path = to_chars("\\\\tsclient\\");
    push_all(&mut path, &share);
    path.push('\\');
    push_all(&mut path, &name);
    assert(path@ =~= "\\\\tsclient\\"@ + share@ + seq!['\\'] + file_name@);
    Some((share_text, string_from(&path)))
}

} // verus!
