//! The loopback asset mirror: which HTTP requests it answers, which files under the shared
//! workspace a request may name, and the response heads it writes.
use vstd::prelude::*;
use crate::outside::{percent_decode_utf8, spec_percent_decode_utf8};
use crate::text::{
    decimal, decimal_chars, push_all, push_str,
    after_last, lemma_after_last, lemma_piece_char, lemma_split_pieces, ascii_lower, ascii_lower_spec, contains_char, equals_str,
    has_prefix, is_ascii_uppercase, split_char, split_once, split_once_spec, split_spec,
    starts_with_str, slice, string_from, to_chars, trim, trim_spec, utf8_len,
    utf8_length_within, words, words_spec,
};

verus! {

/// The largest request head read from a connection.
pub const MAX_REQUEST_HEADER_BYTES: usize = 16384;
/// The longest request target accepted, in bytes.
pub const MAX_PATH_BYTES: usize = 2048;
/// The largest asset served.
pub const MAX_ASSET_BYTES: u64 = 67108864;

/// The texts of a list of character vectors.
pub open spec fn char_views(v: Seq<Vec<char>>) -> Seq<Seq<char>> {
    v.map_values(|x: Vec<char>| x@)
}

/// The texts of a list of strings.
pub open spec fn string_views(v: Seq<String>) -> Seq<Seq<char>> {
    v.map_values(|x: String| x@)
}

/// An empty line (`\r\n\r\n`) starts at `i`.
pub open spec fn blank_line_at(s: Seq<char>, i: int) -> bool {
    0 <= i && i + 4 <= s.len() && s[i] == '\r' && s[i + 1] == '\n' && s[i + 2] == '\r' && s[i
        + 3] == '\n'
}

/// Where the request head ends: the first empty line.
pub open spec fn head_end(s: Seq<char>) -> Option<int> {
    if exists|i: int| blank_line_at(s, i) {
        Some(
            choose|i: int|
                blank_line_at(s, i) && forall|j: int| 0 <= j < i ==> !blank_line_at(s, j),
        )
    } else {
        None
    }
}

proof fn lemma_head_end(s: Seq<char>, i: int)
    requires
        blank_line_at(s, i),
        forall|j: int| 0 <= j < i ==> !blank_line_at(s, j),
    ensures
        head_end(s) == Some(i),
{
    let k = choose|k: int| blank_line_at(s, k) && forall|j: int| 0 <= j < k ==> !blank_line_at(s, j);
    assert(blank_line_at(s, k) && forall|j: int| 0 <= j < k ==> !blank_line_at(s, j));
    if k < i {
        assert(!blank_line_at(s, k));
    }
    if i < k {
        assert(!blank_line_at(s, i));
    }
}

/// The lines of `s` from `start`, scanning from `i`, as `str::split("\r\n")` gives them.
pub open spec fn lines_from(s: Seq<char>, i: int, start: int) -> Seq<Seq<char>>
    decreases s.len() - i,
{
    if i + 1 >= s.len() {
        seq![s.subrange(start, s.len() as int)]
    } else if s[i] == '\r' && s[i + 1] == '\n' {
        seq![s.subrange(start, i)] + lines_from(s, i + 2, i + 2)
    } else {
        lines_from(s, i + 1, start)
    }
}

/// The lines of `s`, split at every `\r\n`.
pub open spec fn crlf_lines_spec(s: Seq<char>) -> Seq<Seq<char>> {
    lines_from(s, 0, 0)
}

fn crlf_lines(s: &[char]) -> (r: Vec<Vec<char>>)
    ensures
        char_views(r@) == crlf_lines_spec(s@),
{
    let mut out: Vec<Vec<char>> = Vec::new();
    let mut i: usize = 0;
    let mut start: usize = 0;
    while i < s.len() && s.len() - i >= 2
        invariant
            start <= i <= s.len(),
            char_views(out@) + lines_from(s@, i as int, start as int) == crlf_lines_spec(s@),
        decreases s.len() - i,
    {
        if s[i] == '\r' && s[i + 1] == '\n' {
            let line = slice(s, start, i);
            let ghost before = char_views(out@);
            out.push(line);
            proof {
                assert(char_views(out@) =~= before.push(line@));
                assert(before + lines_from(s@, i as int, start as int) =~= before.push(line@)
                    + lines_from(s@, i + 2, i + 2));
            }
            i = i + 2;
            start = i;
        } else {
            i = i + 1;
        }
    }
    let line = slice(s, start, s.len());
    let ghost before = char_views(out@);
    out.push(line);
    proof {
        assert(char_views(out@) =~= before + lines_from(s@, i as int, start as int));
    }
    out
}

/// Why a request head is refused.
#[derive(Debug, Clone, Copy, PartialEq, Eq, Structural)]
pub enum RequestHeadError {
    Malformed,
    UnsupportedBody,
}

/// The text of a refusal.
pub open spec fn request_error_text(e: RequestHeadError) -> Seq<char> {
    match e {
        RequestHeadError::Malformed => "the asset mirror request is malformed"@,
        RequestHeadError::UnsupportedBody => "the asset mirror request has an unsupported body"@,
    }
}

/// What is wrong with one header line, if anything: it has no colon, or it declares a
/// body (a `Content-Length` other than `0`).
#[verifier::opaque]
pub open spec fn header_check(h: Seq<char>) -> Option<RequestHeadError> {
    match split_once_spec(h, ':') {
        None => Some(RequestHeadError::Malformed),
        Some((name, _)) => if ascii_lower_spec(trim_spec(name)) == "content-length"@ && trim_spec(
            after_last(h, ':'),
        ) != "0"@ {
            Some(RequestHeadError::UnsupportedBody)
        } else {
            None
        },
    }
}

/// The first header line (from the second line on) that fails its check.
pub open spec fn first_bad_header(lines: Seq<Seq<char>>) -> Option<int> {
    if exists|k: int| 1 <= k < lines.len() && #[trigger] header_check(lines[k]) is Some {
        Some(
            choose|k: int|
                1 <= k < lines.len() && #[trigger] header_check(lines[k]) is Some && forall|
                    j: int,
                | 1 <= j < k ==> header_check(lines[j]) is None,
        )
    } else {
        None
    }
}

proof fn lemma_first_bad_header(lines: Seq<Seq<char>>, k: int)
    requires
        1 <= k < lines.len(),
        header_check(lines[k]) is Some,
        forall|j: int| 1 <= j < k ==> header_check(lines[j]) is None,
    ensures
        first_bad_header(lines) == Some(k),
{
    let c = choose|c: int|
        1 <= c < lines.len() && #[trigger] header_check(lines[c]) is Some && forall|j: int|
            1 <= j < c ==> header_check(lines[j]) is None;
    assert(1 <= c < lines.len() && header_check(lines[c]) is Some && forall|j: int|
        1 <= j < c ==> header_check(lines[j]) is None);
    if c < k {
        assert(header_check(lines[c]) is None);
    }
    if k < c {
        assert(header_check(lines[k]) is None);
    }
}

/// The method and target of a request head: its first line must be exactly three words,
/// the last `HTTP/1.1`, and no header may lack a colon or announce a body.
pub open spec fn request_line_spec(request: Seq<char>) -> Result<
    (Seq<char>, Seq<char>),
    RequestHeadError,
> {
    match head_end(request) {
        None => Err(RequestHeadError::Malformed),
        Some(end) => {
            let lines = crlf_lines_spec(request.take(end));
            let words = words_spec(lines[0]);
            if words.len() != 3 || words[2] != "HTTP/1.1"@ {
                Err(RequestHeadError::Malformed)
            } else {
                match first_bad_header(lines) {
                    Some(k) => Err(header_check(lines[k])->0),
                    None => Ok((words[0], words[1])),
                }
            }
        },
    }
}

fn find_head_end(s: &[char]) -> (r: Option<usize>)
    ensures
        match r {
            Some(i) => head_end(s@) == Some(i as int) && i + 4 <= s.len(),
            None => head_end(s@) is None,
        },
{
    let mut i: usize = 0;
    while s.len() >= 4 && i <= s.len() - 4
        invariant
            i <= s.len(),
            forall|j: int| 0 <= j < i ==> !blank_line_at(s@, j),
        decreases s.len() - i,
    {
        if s[i] == '\r' && s[i + 1] == '\n' && s[i + 2] == '\r' && s[i + 3] == '\n' {
            proof {
                lemma_head_end(s@, i as int);
            }
            return Some(i);
        }
        i = i + 1;
    }
    assert forall|j: int| !blank_line_at(s@, j) by {
        if 0 <= j && j < i {
        }
    }
    None
}

fn last_piece_after(s: &[char], c: char) -> (r: Vec<char>)
    ensures
        r@ == after_last(s@, c),
{
    let mut j: usize = s.len();
    while j > 0 && s[j - 1] != c
        invariant
            j <= s.len(),
            forall|k: int| j <= k < s.len() ==> s@[k] != c,
        decreases j,
    {
        j = j - 1;
    }
    proof {
        lemma_after_last(s@, c, j as int);
    }
    slice(s, j, s.len())
}

fn check_header(h: &[char]) -> (r: Option<RequestHeadError>)
    ensures
        r == header_check(h@),
{
    proof {
        reveal_strlit("content-length");
        reveal_strlit("0");
        reveal(header_check);
    }
    match split_once(h, ':') {
        None => Some(RequestHeadError::Malformed),
        Some((name, _)) => {
            let trimmed = trim(&name);
            let lower = ascii_lower(&trimmed);
            if equals_str(&lower, "content-length") {
                let value = last_piece_after(h, ':');
                let value = trim(&value);
                if !equals_str(&value, "0") {
                    return Some(RequestHeadError::UnsupportedBody);
                }
            }
            None
        },
    }
}

fn head_error(e: RequestHeadError) -> (s: String)
    ensures
        s@ == request_error_text(e),
{
    match e {
        RequestHeadError::Malformed => string_from(&to_chars("the asset mirror request is malformed")),
        RequestHeadError::UnsupportedBody => string_from(
            &to_chars("the asset mirror request has an unsupported body"),
        ),
    }
}

fn header_problem(lines: &Vec<Vec<char>>) -> (r: Option<RequestHeadError>)
    ensures
        r == (match first_bad_header(char_views(lines@)) {
            Some(k) => Some(header_check(char_views(lines@)[k])->0),
            None => None,
        }),
{
    let ghost views = char_views(lines@);
    let mut k: usize = 1;
    while k < lines.len()
        invariant
            1 <= k,
            views == char_views(lines@),
            views.len() == lines@.len(),
            forall|j: int| 1 <= j < k ==> header_check(views[j]) is None,
        decreases lines.len() - k,
    {
        assert(views[k as int] == lines@[k as int]@);
        match check_header(&lines[k]) {
            Some(e) => {
                proof {
                    lemma_first_bad_header(views, k as int);
                }
                return Some(e);
            },
            None => {},
        }
        k = k + 1;
    }
    proof {
        lemma_no_bad_header(views);
    }
    None
}

/// The method and target of a request head, or why it is refused.
pub fn parse_request_line(request: &str) -> (r: Result<(String, String), String>)
    ensures
        match request_line_spec(request@) {
            Ok((method, target)) => r matches Ok((m, t)) && m@ == method && t@ == target,
            Err(e) => r matches Err(message) && message@ == request_error_text(e),
        },
{
    proof {
        reveal_strlit("HTTP/1.1");
    }
    let s = to_chars(request);
    let end = match find_head_end(&s) {
        Some(end) => end,
        None => {
            return Err(head_error(RequestHeadError::Malformed));
        },
    };
    let head = slice(&s, 0, end);
    assert(head@ =~= s@.take(end as int));
    let lines = crlf_lines(&head);
    proof {
        assert(char_views(lines@).len() == lines@.len());
        assert(lines@.len() >= 1) by {
            lemma_lines_nonempty(head@, 0, 0);
        }
        assert(char_views(lines@)[0] == lines@[0]@);
    }
    let request_words = words(&lines[0]);
    if request_words.len() != 3 || !equals_str(&request_words[2], "HTTP/1.1") {
        return Err(head_error(RequestHeadError::Malformed));
    }
    match header_problem(&lines) {
        Some(e) => {
            return Err(head_error(e));
        },
        None => {},
    }
    let method = string_from(&request_words[0]);
    let target = string_from(&request_words[1]);
    Ok((method, target))
}

proof fn lemma_no_bad_header(lines: Seq<Seq<char>>)
    requires
        forall|j: int| 1 <= j < lines.len() ==> header_check(lines[j]) is None,
    ensures
        first_bad_header(lines) is None,
{
    if exists|c: int| 1 <= c < lines.len() && #[trigger] header_check(lines[c]) is Some {
        let c = choose|c: int| 1 <= c < lines.len() && #[trigger] header_check(lines[c]) is Some;
        assert(header_check(lines[c]) is None);
    }
}

proof fn lemma_lines_nonempty(s: Seq<char>, i: int, start: int)
    ensures
        lines_from(s, i, start).len() >= 1,
    decreases s.len() - i,
{
    if i + 1 >= s.len() {
    } else if s[i] == '\r' && s[i + 1] == '\n' {
    } else {
        lemma_lines_nonempty(s, i + 1, start);
    }
}

/// The pieces that `Path::components` keeps of the text between slashes: empty pieces and
/// `.` are dropped.
pub open spec fn kept_pieces(p: Seq<Seq<char>>) -> Seq<Seq<char>>
    decreases p.len(),
{
    if p.len() == 0 {
        p
    } else {
        let r = kept_pieces(p.drop_last());
        if p.last().len() == 0 || p.last() == "."@ {
            r
        } else {
            r.push(p.last())
        }
    }
}

/// The components of an absolute path after its root.
pub open spec fn path_pieces(d: Seq<char>) -> Seq<Seq<char>> {
    kept_pieces(split_spec(d, '/'))
}

/// The components below `/Data/` of a decoded path, when it names something in a project's
/// `deployment/web` directory and holds no `..`.
pub open spec fn relative_web_path(d: Seq<char>) -> Option<Seq<Seq<char>>> {
    let p = path_pieces(d);
    if d.len() == 0 || d[0] != '/' || p.len() == 0 || p[0] != "Data"@ {
        None
    } else {
        let rel = p.skip(1);
        if rel.contains(".."@) || rel.len() < 4 || rel[1] != "deployment"@ || rel[2] != "web"@ {
            None
        } else {
            Some(rel)
        }
    }
}

/// The components below the shared workspace that a request target names: no query or
/// fragment, at most 2 KiB, under `/Data/`, percent-decoding to UTF-8 without a backslash
/// or NUL, and inside a project's `deployment/web` directory.
pub open spec fn mirror_components_spec(target: Seq<char>) -> Option<Seq<Seq<char>>> {
    if target.contains('?') || target.contains('#') || utf8_len(target) > MAX_PATH_BYTES
        || !has_prefix(target, "/Data/"@) {
        None
    } else {
        match spec_percent_decode_utf8(target) {
            None => None,
            Some(d) => if d.contains('\\') || d.contains('\0') {
                None
            } else {
                relative_web_path(d)
            },
        }
    }
}

pub(crate) fn keep_pieces(pieces: &Vec<Vec<char>>) -> (r: Vec<Vec<char>>)
    ensures
        char_views(r@) == kept_pieces(char_views(pieces@)),
{
    let ghost all = char_views(pieces@);
    let mut out: Vec<Vec<char>> = Vec::new();
    let mut i: usize = 0;
    while i < pieces.len()
        invariant
            i <= pieces.len(),
            all == char_views(pieces@),
            char_views(out@) == kept_pieces(all.take(i as int)),
        decreases pieces.len() - i,
    {
        proof {
            assert(all.take(i + 1).drop_last() =~= all.take(i as int));
            assert(all.take(i + 1).last() == pieces@[i as int]@);
        }
        let piece = &pieces[i];
        if piece.len() == 0 || equals_str(piece, ".") {
        } else {
            let ghost before = char_views(out@);
            out.push(piece.clone());
            proof {
                assert(char_views(out@) =~= before.push(piece@));
            }
        }
        i = i + 1;
    }
    assert(all.take(pieces.len() as int) =~= all);
    out
}

/// The components below the shared workspace that a request target names, when it may be
/// served.
pub fn mirror_components(target: &str) -> (r: Option<Vec<String>>)
    ensures
        match mirror_components_spec(target@) {
            None => r is None,
            Some(c) => r matches Some(v) && string_views(v@) == c,
        },
{
    let t = to_chars(target);
    if contains_char(&t, '?') || contains_char(&t, '#') {
        return None;
    }
    if utf8_length_within(&t, MAX_PATH_BYTES).is_none() {
        return None;
    }
    if !starts_with_str(&t, "/Data/") {
        return None;
    }
    let decoded = match percent_decode_utf8(target) {
        Some(d) => d,
        None => {
            return None;
        },
    };
    let d = to_chars(decoded.as_str());
    if contains_char(&d, '\\') || contains_char(&d, '\0') {
        return None;
    }
    relative_components(&d)
}

fn relative_components(d: &[char]) -> (r: Option<Vec<String>>)
    ensures
        match relative_web_path(d@) {
            None => r is None,
            Some(c) => r matches Some(v) && string_views(v@) == c,
        },
{
    if d.len() == 0 || d[0] != '/' {
        return None;
    }
    let pieces = split_char(&d, '/');
    assert(char_views(pieces@) =~= split_spec(d@, '/'));
    let kept = keep_pieces(&pieces);
    let ghost p = char_views(kept@);
    if kept.len() == 0 || !equals_str(&kept[0], "Data") {
        assert(p.len() > 0 ==> p[0] == kept@[0]@);
        return None;
    }
    assert(p[0] == kept@[0]@);
    let mut out: Vec<String> = Vec::new();
    let mut i: usize = 1;
    while i < kept.len()
        invariant
            1 <= i <= kept.len(),
            p == char_views(kept@),
            p == path_pieces(d@),
            d@.len() > 0 && d@[0] == '/',
            p.len() > 0 && p[0] == "Data"@,
            p.len() == kept@.len(),
            string_views(out@) == p.skip(1).take(i - 1),
            forall|j: int| 1 <= j < i ==> p[j] != ".."@,
        decreases kept.len() - i,
    {
        assert(p[i as int] == kept@[i as int]@);
        if equals_str(&kept[i], "..") {
            assert(p.skip(1)[i - 1] == p[i as int]);
            assert(p.skip(1).contains(".."@));
            return None;
        }
        let ghost before = string_views(out@);
        out.push(string_from(&kept[i]));
        proof {
            assert(string_views(out@) =~= before.push(p[i as int]));
            assert(p.skip(1).take(i as int) =~= p.skip(1).take(i - 1).push(p[i as int]));
        }
        i = i + 1;
    }
    let ghost rel = p.skip(1);
    assert(rel.take(kept.len() - 1) =~= rel);
    assert(!rel.contains(".."@)) by {
        if rel.contains(".."@) {
            let j = choose|j: int| 0 <= j < rel.len() && rel[j] == ".."@;
            assert(p[j + 1] != ".."@);
        }
    }
    if out.len() < 4 {
        return None;
    }
    assert(rel[1] == kept@[2]@ && rel[2] == kept@[3]@);
    if !equals_str(&kept[2], "deployment") || !equals_str(&kept[3], "web") {
        return None;
    }
    Some(out)
}

/// Every component of a served path is a plain name inside a project's `deployment/web`
/// directory: none is empty, `.` or `..`, and none holds a slash, backslash or NUL, so the
/// path cannot leave the shared workspace.
pub proof fn lemma_served_paths_stay_in_web(target: Seq<char>)
    ensures
        mirror_components_spec(target) matches Some(c) ==> {
            &&& c.len() >= 4
            &&& c[1] == "deployment"@
            &&& c[2] == "web"@
            &&& forall|i: int|
                0 <= i < c.len() ==> {
                    &&& (#[trigger] c[i]).len() > 0
                    &&& c[i] != "."@
                    &&& c[i] != ".."@
                    &&& !c[i].contains('/')
                    &&& !c[i].contains('\\')
                    &&& !c[i].contains('\0')
                }
        },
{
    if let Some(c) = mirror_components_spec(target) {
        let d = spec_percent_decode_utf8(target)->0;
        let parts = split_spec(d, '/');
        lemma_split_pieces(d, '/');
        lemma_kept_pieces(parts);
        let p = path_pieces(d);
        assert forall|i: int| 0 <= i < c.len() implies {
            &&& (#[trigger] c[i]).len() > 0
            &&& c[i] != "."@
            &&& c[i] != ".."@
            &&& !c[i].contains('/')
            &&& !c[i].contains('\\')
            &&& !c[i].contains('\0')
        } by {
            assert(c[i] == p[i + 1]);
            let k = choose|k: int| 0 <= k < parts.len() && parts[k] == p[i + 1];
            assert(!c.contains(".."@));
            if c[i] == ".."@ {
                assert(c.contains(".."@));
            }
            if c[i].contains('\\') {
                let j = choose|j: int| 0 <= j < c[i].len() && c[i][j] == '\\';
                lemma_piece_char(d, '/', k, j);
            }
            if c[i].contains('\0') {
                let j = choose|j: int| 0 <= j < c[i].len() && c[i][j] == '\0';
                lemma_piece_char(d, '/', k, j);
            }
        }
    }
}

proof fn lemma_kept_pieces(p: Seq<Seq<char>>)
    ensures
        forall|i: int|
            0 <= i < kept_pieces(p).len() ==> {
                &&& (#[trigger] kept_pieces(p)[i]).len() > 0
                &&& kept_pieces(p)[i] != "."@
                &&& exists|k: int| 0 <= k < p.len() && p[k] == kept_pieces(p)[i]
            },
    decreases p.len(),
{
    if p.len() > 0 {
        lemma_kept_pieces(p.drop_last());
        let r = kept_pieces(p.drop_last());
        assert forall|i: int| 0 <= i < kept_pieces(p).len() implies {
            &&& (#[trigger] kept_pieces(p)[i]).len() > 0
            &&& kept_pieces(p)[i] != "."@
            &&& exists|k: int| 0 <= k < p.len() && p[k] == kept_pieces(p)[i]
        } by {
            if i < r.len() {
                assert(kept_pieces(p)[i] == r[i]);
                let k = choose|k: int| 0 <= k < p.drop_last().len() && p.drop_last()[k] == r[i];
                assert(p[k] == r[i]);
            } else {
                assert(p[p.len() - 1] == kept_pieces(p)[i]);
            }
        }
    }
}

/// The position of the last `.` in a file name.
pub open spec fn last_dot(s: Seq<char>) -> Option<int>
    decreases s.len(),
{
    if s.len() == 0 {
        None
    } else if s.last() == '.' {
        Some(s.len() - 1)
    } else {
        last_dot(s.drop_last())
    }
}

proof fn lemma_last_dot(s: Seq<char>, j: int)
    requires
        0 <= j <= s.len(),
        forall|k: int| j <= k < s.len() ==> s[k] != '.',
        j == 0 || s[j - 1] == '.',
    ensures
        last_dot(s) == (if j == 0 { None::<int> } else { Some(j - 1) }),
    decreases s.len(),
{
    if s.len() > j {
        lemma_last_dot(s.drop_last(), j);
    }
}

/// `Path::extension` of a file name: what follows its last `.`, unless there is none, the
/// only dot starts the name, or the name is `..`.
pub open spec fn extension_spec(name: Seq<char>) -> Option<Seq<char>> {
    if name == ".."@ {
        None
    } else {
        match last_dot(name) {
            None => None,
            Some(k) => if k == 0 {
                None
            } else {
                Some(name.skip(k + 1))
            },
        }
    }
}

/// The media type served for a lower-case extension.
pub open spec fn media_type_of(ext: Seq<char>) -> Seq<char> {
    if ext == "css"@ {
        "text/css; charset=utf-8"@
    } else if ext == "gif"@ {
        "image/gif"@
    } else if ext == "ico"@ {
        "image/x-icon"@
    } else if ext == "jpg"@ || ext == "jpeg"@ {
        "image/jpeg"@
    } else if ext == "js"@ || ext == "mjs"@ {
        "text/javascript; charset=utf-8"@
    } else if ext == "json"@ || ext == "map"@ {
        "application/json; charset=utf-8"@
    } else if ext == "png"@ {
        "image/png"@
    } else if ext == "svg"@ {
        "image/svg+xml"@
    } else if ext == "wasm"@ {
        "application/wasm"@
    } else if ext == "woff"@ {
        "font/woff"@
    } else if ext == "woff2"@ {
        "font/woff2"@
    } else {
        "application/octet-stream"@
    }
}

/// The media type served for a file name, by its extension in ASCII lower case.
pub open spec fn mime_type_spec(file_name: Seq<char>) -> Seq<char> {
    media_type_of(
        ascii_lower_spec(
            match extension_spec(file_name) {
                Some(e) => e,
                None => Seq::empty(),
            },
        ),
    )
}

/// The media type served for a file named `stem.ext`, with a non-empty stem and a lower-case
/// extension, is fixed by the extension: CSS, GIF, icon, JPEG, JavaScript, JSON and source
/// maps, PNG, SVG, WebAssembly and the WOFF fonts each have their own type, and any other
/// extension is served as `application/octet-stream`.
pub proof fn lemma_served_media_types(stem: Seq<char>, ext: Seq<char>)
    requires
        stem.len() > 0,
        forall|i: int| 0 <= i < ext.len() ==> #[trigger] ext[i] != '.' && !is_ascii_uppercase(ext[i]),
    ensures
        ext == "css"@ ==> mime_type_spec(stem + seq!['.'] + ext) == "text/css; charset=utf-8"@,
        ext == "gif"@ ==> mime_type_spec(stem + seq!['.'] + ext) == "image/gif"@,
        ext == "ico"@ ==> mime_type_spec(stem + seq!['.'] + ext) == "image/x-icon"@,
        ext == "jpg"@ ==> mime_type_spec(stem + seq!['.'] + ext) == "image/jpeg"@,
        ext == "jpeg"@ ==> mime_type_spec(stem + seq!['.'] + ext) == "image/jpeg"@,
        ext == "js"@ ==> mime_type_spec(stem + seq!['.'] + ext) == "text/javascript; charset=utf-8"@,
        ext == "mjs"@ ==> mime_type_spec(stem + seq!['.'] + ext) == "text/javascript; charset=utf-8"@,
        ext == "json"@ ==> mime_type_spec(stem + seq!['.'] + ext) == "application/json; charset=utf-8"@,
        ext == "map"@ ==> mime_type_spec(stem + seq!['.'] + ext) == "application/json; charset=utf-8"@,
        ext == "png"@ ==> mime_type_spec(stem + seq!['.'] + ext) == "image/png"@,
        ext == "svg"@ ==> mime_type_spec(stem + seq!['.'] + ext) == "image/svg+xml"@,
        ext == "wasm"@ ==> mime_type_spec(stem + seq!['.'] + ext) == "application/wasm"@,
        ext == "woff"@ ==> mime_type_spec(stem + seq!['.'] + ext) == "font/woff"@,
        ext == "woff2"@ ==> mime_type_spec(stem + seq!['.'] + ext) == "font/woff2"@,
        !(ext == "css"@ || ext == "gif"@ || ext == "ico"@ || ext == "jpg"@ || ext == "jpeg"@ || ext == "js"@ || ext == "mjs"@ || ext == "json"@ || ext == "map"@ || ext == "png"@ || ext == "svg"@ || ext == "wasm"@ || ext == "woff"@ || ext == "woff2"@) ==> mime_type_spec(stem + seq!['.'] + ext) == "application/octet-stream"@,
{
    let name = stem + seq!['.'] + ext;
    let k = stem.len() as int;
    assert(name[k] == '.');
    assert forall|j: int| k + 1 <= j < name.len() implies name[j] != '.' by {
        assert(name[j] == ext[j - k - 1]);
    }
    lemma_last_dot(name, k + 1);
    assert(ascii_lower_spec(ext) =~= ext);
    if name != ".."@ {
        assert(name.skip(k + 1) =~= ext);
    } else {
        reveal_strlit("..");
        assert(ext.len() == 0);
        assert(ascii_lower_spec(Seq::<char>::empty()) =~= Seq::<char>::empty());
    }
    reveal_strlit("css");
    reveal_strlit("gif");
    reveal_strlit("ico");
    reveal_strlit("jpg");
    reveal_strlit("jpeg");
    reveal_strlit("js");
    reveal_strlit("mjs");
    reveal_strlit("json");
    reveal_strlit("map");
    reveal_strlit("png");
    reveal_strlit("svg");
    reveal_strlit("wasm");
    reveal_strlit("woff");
    reveal_strlit("woff2");
    assert("css"@.len() == 3 && "css"@[0] == 'c' && "css"@[1] == 's');
    assert("gif"@.len() == 3 && "gif"@[0] == 'g' && "gif"@[1] == 'i');
    assert("ico"@.len() == 3 && "ico"@[0] == 'i' && "ico"@[1] == 'c');
    assert("jpg"@.len() == 3 && "jpg"@[0] == 'j' && "jpg"@[1] == 'p');
    assert("jpeg"@.len() == 4 && "jpeg"@[0] == 'j' && "jpeg"@[1] == 'p');
    assert("js"@.len() == 2 && "js"@[0] == 'j' && "js"@[1] == 's');
    assert("mjs"@.len() == 3 && "mjs"@[0] == 'm' && "mjs"@[1] == 'j');
    assert("json"@.len() == 4 && "json"@[0] == 'j' && "json"@[1] == 's');
    assert("map"@.len() == 3 && "map"@[0] == 'm' && "map"@[1] == 'a');
    assert("png"@.len() == 3 && "png"@[0] == 'p' && "png"@[1] == 'n');
    assert("svg"@.len() == 3 && "svg"@[0] == 's' && "svg"@[1] == 'v');
    assert("wasm"@.len() == 4 && "wasm"@[0] == 'w' && "wasm"@[1] == 'a');
    assert("woff"@.len() == 4 && "woff"@[0] == 'w' && "woff"@[1] == 'o');
    assert("woff2"@.len() == 5 && "woff2"@[0] == 'w' && "woff2"@[1] == 'o');
}

/// The media type served for a file name.
pub fn mime_type(file_name: &str) -> (r: &'static str)
    ensures
        r@ == mime_type_spec(file_name@),
{
    let name = to_chars(file_name);
    let mut j: usize = name.len();
    while j > 0 && name[j - 1] != '.'
        invariant
            j <= name.len(),
            forall|k: int| j <= k < name.len() ==> name@[k] != '.',
        decreases j,
    {
        j = j - 1;
    }
    proof {
        lemma_last_dot(name@, j as int);
    }
    let ext = if equals_str(&name, "..") || j <= 1 {
        Vec::new()
    } else {
        slice(&name, j, name.len())
    };
    assert(ext@ == match extension_spec(name@) {
        Some(e) => e,
        None => Seq::<char>::empty(),
    });
    let e = ascii_lower(&ext);
    if equals_str(&e, "css") {
        "text/css; charset=utf-8"
    } else if equals_str(&e, "gif") {
        "image/gif"
    } else if equals_str(&e, "ico") {
        "image/x-icon"
    } else if equals_str(&e, "jpg") || equals_str(&e, "jpeg") {
        "image/jpeg"
    } else if equals_str(&e, "js") || equals_str(&e, "mjs") {
        "text/javascript; charset=utf-8"
    } else if equals_str(&e, "json") || equals_str(&e, "map") {
        "application/json; charset=utf-8"
    } else if equals_str(&e, "png") {
        "image/png"
    } else if equals_str(&e, "svg") {
        "image/svg+xml"
    } else if equals_str(&e, "wasm") {
        "application/wasm"
    } else if equals_str(&e, "woff") {
        "font/woff"
    } else if equals_str(&e, "woff2") {
        "font/woff2"
    } else {
        "application/octet-stream"
    }
}

/// The methods the mirror answers.
pub open spec fn method_served(method: Seq<char>) -> bool {
    method == "GET"@ || method == "HEAD"@
}

/// What the mirror does with a parsed request before it looks at the disk.
#[derive(Debug)]
pub enum MirrorRoute {
    MethodNotAllowed,
    NotFound,
    /// Look up these components below the shared workspace.
    Lookup(Vec<String>),
}

/// Routes a request: only `GET` and `HEAD` are answered, and only for targets that name a
/// project web asset.
pub fn route_request(method: &str, target: &str) -> (r: MirrorRoute)
    ensures
        !method_served(method@) ==> r is MethodNotAllowed,
        method_served(method@) ==> match mirror_components_spec(target@) {
            None => r is NotFound,
            Some(c) => r matches MirrorRoute::Lookup(v) && string_views(v@) == c,
        },
{
    let m = to_chars(method);
    if !equals_str(&m, "GET") && !equals_str(&m, "HEAD") {
        return MirrorRoute::MethodNotAllowed;
    }
    match mirror_components(target) {
        Some(v) => MirrorRoute::Lookup(v),
        None => MirrorRoute::NotFound,
    }
}

/// The reply the mirror writes.
#[derive(Debug, Clone, Copy, PartialEq, Eq)]
pub enum MirrorReply {
    MethodNotAllowed,
    NotFound,
    Asset { content_type: &'static str, length: u64, with_body: bool },
}

/// The reply for a looked-up asset: its length when it is a regular file that could be read
/// whole (`None` otherwise). Larger than 64 MiB or unreadable is not found; a `HEAD`
/// request gets the head alone.
pub fn asset_reply(method: &str, file_name: &str, length: Option<u64>) -> (r: MirrorReply)
    ensures
        match length {
            Some(n) => if n <= MAX_ASSET_BYTES {
                r matches MirrorReply::Asset { content_type, length, with_body } && content_type@
                    == mime_type_spec(file_name@) && length == n && with_body == (method@
                    != "HEAD"@)
            } else {
                r is NotFound
            },
            None => r is NotFound,
        },
{
    match length {
        Some(n) => {
            if n > MAX_ASSET_BYTES {
                return MirrorReply::NotFound;
            }
            let m = to_chars(method);
            MirrorReply::Asset {
                content_type: mime_type(file_name),
                length: n,
                with_body: !equals_str(&m, "HEAD"),
            }
        },
        None => MirrorReply::NotFound,
    }
}

/// The head of a plain reply without a body.
pub open spec fn simple_head(status: Seq<char>, reason: Seq<char>) -> Seq<char> {
    "HTTP/1.1 "@ + status + " "@ + reason
        + "\r\nContent-Type: text/plain; charset=utf-8\r\nContent-Length: 0\r\nCache-Control: no-store\r\nConnection: close\r\n\r\n"@
}

/// The response head written for a reply.
pub open spec fn reply_head_spec(reply: MirrorReply) -> Seq<char> {
    match reply {
        MirrorReply::MethodNotAllowed => simple_head("405"@, "Method Not Allowed"@),
        MirrorReply::NotFound => simple_head("404"@, "Not Found"@),
        MirrorReply::Asset { content_type, length, .. } => "HTTP/1.1 200 OK\r\nContent-Type: "@
            + content_type@ + "\r\nContent-Length: "@ + decimal(length as nat)
            + "\r\nCache-Control: no-store\r\nAccess-Control-Allow-Origin: *\r\nCross-Origin-Resource-Policy: cross-origin\r\nConnection: close\r\n\r\n"@,
    }
}

/// The response head written for a reply.
pub fn reply_head(reply: &MirrorReply) -> (r: String)
    ensures
        r@ == reply_head_spec(*reply),
{
    let mut out: Vec<char> = Vec::new();
    match reply {
        MirrorReply::MethodNotAllowed => {
            push_str(&mut out, "HTTP/1.1 ");
            push_str(&mut out, "405");
            push_str(&mut out, " ");
            push_str(&mut out, "Method Not Allowed");
            push_str(
                &mut out,
                "\r\nContent-Type: text/plain; charset=utf-8\r\nContent-Length: 0\r\nCache-Control: no-store\r\nConnection: close\r\n\r\n",
            );
        },
        MirrorReply::NotFound => {
            push_str(&mut out, "HTTP/1.1 ");
            push_str(&mut out, "404");
            push_str(&mut out, " ");
            push_str(&mut out, "Not Found");
            push_str(
                &mut out,
                "\r\nContent-Type: text/plain; charset=utf-8\r\nContent-Length: 0\r\nCache-Control: no-store\r\nConnection: close\r\n\r\n",
            );
        },
        MirrorReply::Asset { content_type, length, .. } => {
            push_str(&mut out, "HTTP/1.1 200 OK\r\nContent-Type: ");
            push_str(&mut out, content_type);
            push_str(&mut out, "\r\nContent-Length: ");
            let digits = decimal_chars(*length);
            push_all(&mut out, &digits);
            push_str(
                &mut out,
                "\r\nCache-Control: no-store\r\nAccess-Control-Allow-Origin: *\r\nCross-Origin-Resource-Policy: cross-origin\r\nConnection: close\r\n\r\n",
            );
        },
    }
    string_from(&out)
}

} // verus!
