//! Unix path text as `std::path::Path` reads it: components, prefixes and file names.
use vstd::prelude::*;
use crate::text::{chars_equal, string_from};

verus! {

/// One component of a Unix path.
pub enum Comp {
    Root,
    Cur,
    Parent,
    Normal(Seq<char>),
}

/// The text split at every `/`, empty pieces included.
pub open spec fn segments(s: Seq<char>) -> Seq<Seq<char>>
    decreases s.len(),
{
    if s.len() == 0 {
        seq![Seq::empty()]
    } else {
        let p = segments(s.drop_last());
        if s.last() == '/' {
            p.push(Seq::empty())
        } else {
            p.update(p.len() - 1, p.last().push(s.last()))
        }
    }
}

pub proof fn lemma_segments_nonempty(s: Seq<char>)
    ensures
        segments(s).len() >= 1,
    decreases s.len(),
{
    if s.len() > 0 {
        lemma_segments_nonempty(s.drop_last());
    }
}

/// The components that the piece at `index` contributes: empty pieces and `.` pieces are
/// dropped, except a `.` that begins a relative path.
pub open spec fn piece_comps(index: int, piece: Seq<char>, rooted: bool) -> Seq<Comp> {
    if piece.len() == 0 {
        Seq::empty()
    } else if piece == seq!['.'] {
        if index == 0 && !rooted { seq![Comp::Cur] } else { Seq::empty() }
    } else if piece == seq!['.', '.'] {
        seq![Comp::Parent]
    } else {
        seq![Comp::Normal(piece)]
    }
}

/// The components of the first `n` pieces.
pub open spec fn comps_upto(pieces: Seq<Seq<char>>, n: int, rooted: bool) -> Seq<Comp>
    decreases n,
{
    if n <= 0 {
        if rooted { seq![Comp::Root] } else { Seq::empty() }
    } else {
        comps_upto(pieces, n - 1, rooted) + piece_comps(n - 1, pieces[n - 1], rooted)
    }
}

/// `Path::components` of a Unix path.
pub open spec fn components(s: Seq<char>) -> Seq<Comp> {
    let rooted = s.len() > 0 && s[0] == '/';
    comps_upto(segments(s), segments(s).len() as int, rooted)
}

/// An executable path component.
pub enum PathPart {
    Root,
    Cur,
    Parent,
    Normal(Vec<char>),
}

pub open spec fn part_view(p: PathPart) -> Comp {
    match p {
        PathPart::Root => Comp::Root,
        PathPart::Cur => Comp::Cur,
        PathPart::Parent => Comp::Parent,
        PathPart::Normal(name) => Comp::Normal(name@),
    }
}

pub open spec fn parts_view(parts: Seq<PathPart>) -> Seq<Comp> {
    Seq::new(parts.len(), |i: int| part_view(parts[i]))
}

fn split_segments(s: &[char]) -> (r: Vec<Vec<char>>)
    ensures
        r@.len() == segments(s@).len(),
        forall|i: int| 0 <= i < r@.len() ==> (#[trigger] r@[i])@ == segments(s@)[i],
{
    let mut out: Vec<Vec<char>> = Vec::new();
    let mut current: Vec<char> = Vec::new();
    let mut i: usize = 0;
    proof {
        assert(s@.take(0) =~= Seq::<char>::empty());
    }
    while i < s.len()
        invariant
            i <= s.len(),
            out@.len() + 1 == segments(s@.take(i as int)).len(),
            forall|j: int| 0 <= j < out@.len() ==> (#[trigger] out@[j])@ == segments(s@.take(i as int))[j],
            current@ == segments(s@.take(i as int)).last(),
        decreases s.len() - i,
    {
        proof {
            assert(s@.take(i as int + 1).drop_last() =~= s@.take(i as int));
            lemma_segments_nonempty(s@.take(i as int));
        }
        if s[i] == '/' {
            out.push(current);
            current = Vec::new();
            proof {
                assert(current@ =~= Seq::<char>::empty());
            }
        } else {
            current.push(s[i]);
        }
        i = i + 1;
    }
    proof {
        assert(s@.take(s.len() as int) =~= s@);
        lemma_segments_nonempty(s@);
    }
    out.push(current);
    out
}

fn is_dot(piece: &[char]) -> (b: bool)
    ensures
        b == (piece@ == seq!['.']),
{
    if piece.len() == 1 && piece[0] == '.' {
        assert(piece@ =~= seq!['.']);
        true
    } else {
        false
    }
}

fn is_dot_dot(piece: &[char]) -> (b: bool)
    ensures
        b == (piece@ == seq!['.', '.']),
{
    if piece.len() == 2 && piece[0] == '.' && piece[1] == '.' {
        assert(piece@ =~= seq!['.', '.']);
        true
    } else {
        false
    }
}

/// The components of a Unix path, as `Path::components` gives them.
pub fn path_components(s: &[char]) -> (r: Vec<PathPart>)
    ensures
        parts_view(r@) == components(s@),
{
    let pieces = split_segments(s);
    let rooted = s.len() > 0 && s[0] == '/';
    let mut out: Vec<PathPart> = Vec::new();
    if rooted {
        out.push(PathPart::Root);
    }
    proof {
        assert(parts_view(out@) =~= comps_upto(segments(s@), 0, rooted));
    }
    let mut i: usize = 0;
    while i < pieces.len()
        invariant
            i <= pieces.len(),
            pieces@.len() == segments(s@).len(),
            forall|j: int| 0 <= j < pieces@.len() ==> (#[trigger] pieces@[j])@ == segments(s@)[j],
            rooted == (s@.len() > 0 && s@[0] == '/'),
            parts_view(out@) == comps_upto(segments(s@), i as int, rooted),
        decreases pieces.len() - i,
    {
        let piece = &pieces[i];
        let ghost before = out@;
        assert(piece@ == segments(s@)[i as int]);
        if piece.len() == 0 {
        } else if is_dot(piece) {
            if i == 0 && !rooted {
                out.push(PathPart::Cur);
            }
        } else if is_dot_dot(piece) {
            out.push(PathPart::Parent);
        } else {
            let mut copy: Vec<char> = Vec::new();
            let mut k: usize = 0;
            while k < piece.len()
                invariant
                    k <= piece.len(),
                    copy@ == piece@.take(k as int),
                decreases piece.len() - k,
            {
                copy.push(piece[k]);
                assert(piece@.take(k as int).push(piece@[k as int]) =~= piece@.take(k as int + 1));
                k = k + 1;
            }
            assert(piece@.take(piece.len() as int) =~= piece@);
            out.push(PathPart::Normal(copy));
        }
        proof {
            assert(parts_view(out@) =~= parts_view(before) + piece_comps(i as int, segments(s@)[i as int], rooted));
        }
        i = i + 1;
    }
    out
}


/// `Path::strip_prefix`: the components after `base`'s, when `base`'s components begin
/// `path`'s.
pub open spec fn strip_prefix_spec(path: Seq<Comp>, base: Seq<Comp>) -> Option<Seq<Comp>> {
    if base.len() <= path.len() && path.take(base.len() as int) == base {
        Some(path.skip(base.len() as int))
    } else {
        None
    }
}

/// The names of the normal components, in order.
pub open spec fn normal_names(comps: Seq<Comp>) -> Seq<Seq<char>>
    decreases comps.len(),
{
    if comps.len() == 0 {
        Seq::empty()
    } else {
        let init = normal_names(comps.drop_last());
        match comps.last() {
            Comp::Normal(name) => init.push(name),
            _ => init,
        }
    }
}

/// The names joined with `sep` between neighbours.
pub open spec fn join_with(names: Seq<Seq<char>>, sep: char) -> Seq<char>
    decreases names.len(),
{
    if names.len() == 0 {
        Seq::empty()
    } else if names.len() == 1 {
        names[0]
    } else {
        join_with(names.drop_last(), sep).push(sep) + names.last()
    }
}

/// The text without its trailing `\` and `/` characters.
pub open spec fn trim_end_separators(s: Seq<char>) -> Seq<char>
    decreases s.len(),
{
    if s.len() > 0 && (s.last() == '\\' || s.last() == '/') {
        trim_end_separators(s.drop_last())
    } else {
        s
    }
}

fn same_part(a: &PathPart, b: &PathPart) -> (r: bool)
    ensures
        r == (part_view(*a) == part_view(*b)),
{
    match (a, b) {
        (PathPart::Root, PathPart::Root) => true,
        (PathPart::Cur, PathPart::Cur) => true,
        (PathPart::Parent, PathPart::Parent) => true,
        (PathPart::Normal(x), PathPart::Normal(y)) => chars_equal(x, y),
        _ => false,
    }
}

/// The components of `path` after those of `base`, when `base` is a component prefix of
/// `path`.
pub fn strip_components(path: &[PathPart], base: &[PathPart]) -> (r: Option<usize>)
    ensures
        match strip_prefix_spec(parts_view(path@), parts_view(base@)) {
            Some(rest) => r == Some(base@.len() as usize) && rest == parts_view(path@).skip(base@.len() as int),
            None => r is None,
        },
{
    if base.len() > path.len() {
        return None;
    }
    let mut i: usize = 0;
    while i < base.len()
        invariant
            i <= base.len() <= path.len(),
            forall|j: int| 0 <= j < i ==> part_view(#[trigger] path@[j]) == part_view(base@[j]),
        decreases base.len() - i,
    {
        if !same_part(&path[i], &base[i]) {
            assert(parts_view(path@).take(base@.len() as int)[i as int] != parts_view(base@)[i as int]);
            return None;
        }
        i = i + 1;
    }
    assert(parts_view(path@).take(base@.len() as int) =~= parts_view(base@));
    Some(base.len())
}

fn trim_end_separators_exec(s: &[char]) -> (r: Vec<char>)
    ensures
        r@ == trim_end_separators(s@),
{
    let mut end: usize = s.len();
    assert(s@.take(end as int) =~= s@);
    while end > 0 && (s[end - 1] == '\\' || s[end - 1] == '/')
        invariant
            end <= s.len(),
            trim_end_separators(s@.take(end as int)) == trim_end_separators(s@),
        decreases end,
    {
        assert(s@.take(end as int).drop_last() =~= s@.take(end as int - 1));
        end = end - 1;
    }
    let mut out: Vec<char> = Vec::new();
    let mut k: usize = 0;
    while k < end
        invariant
            k <= end <= s.len(),
            out@ == s@.take(k as int),
        decreases end - k,
    {
        out.push(s[k]);
        assert(s@.take(k as int).push(s@[k as int]) =~= s@.take(k as int + 1));
        k = k + 1;
    }
    proof {
        assert(trim_end_separators(s@.take(end as int)) == s@.take(end as int));
    }
    out
}

/// `workspace`'s Windows share path for `path` inside `workspace`: the share root without
/// trailing separators, then every normal component of the relative path, joined by `\`.
pub open spec fn windows_share_path(workspace: Seq<char>, path: Seq<char>, windows_root: Seq<char>) -> Option<Seq<char>> {
    match strip_prefix_spec(components(path), components(workspace)) {
        None => None,
        Some(rest) => {
            let relative = join_with(normal_names(rest), '\\');
            let root = trim_end_separators(windows_root);
            if relative.len() == 0 {
                Some(root)
            } else {
                Some(root.push('\\') + relative)
            }
        },
    }
}

/// Every normal component names something.
pub open spec fn normal_comps_named(comps: Seq<Comp>) -> bool {
    forall|i: int| 0 <= i < comps.len() ==> (#[trigger] comps[i] matches Comp::Normal(name) ==> name.len() > 0)
}

proof fn lemma_comps_upto_named(pieces: Seq<Seq<char>>, n: int, rooted: bool)
    ensures
        normal_comps_named(comps_upto(pieces, n, rooted)),
    decreases n,
{
    if n > 0 {
        lemma_comps_upto_named(pieces, n - 1, rooted);
        let a = comps_upto(pieces, n - 1, rooted);
        let b = piece_comps(n - 1, pieces[n - 1], rooted);
        assert forall|i: int| 0 <= i < (a + b).len() implies
            ((#[trigger] (a + b)[i]) matches Comp::Normal(name) ==> name.len() > 0) by {
            if i >= a.len() {
                assert((a + b)[i] == b[i - a.len()]);
            } else {
                assert((a + b)[i] == a[i]);
            }
        }
    }
}

proof fn lemma_normal_names_named(comps: Seq<Comp>)
    requires
        normal_comps_named(comps),
    ensures
        forall|i: int| 0 <= i < normal_names(comps).len() ==> (#[trigger] normal_names(comps)[i]).len() > 0,
    decreases comps.len(),
{
    if comps.len() > 0 {
        let init = comps.drop_last();
        assert(normal_comps_named(init)) by {
            assert forall|i: int| 0 <= i < init.len() implies
                ((#[trigger] init[i]) matches Comp::Normal(name) ==> name.len() > 0) by {
                assert(init[i] == comps[i]);
            }
        }
        lemma_normal_names_named(init);
        assert(comps[comps.len() - 1] == comps.last());
        let names = normal_names(comps);
        let init_names = normal_names(init);
        match comps.last() {
            Comp::Normal(name) => {
                assert(names == init_names.push(name));
                assert forall|i: int| 0 <= i < names.len() implies (#[trigger] names[i]).len() > 0 by {
                    if i < init_names.len() {
                        assert(names[i] == init_names[i]);
                    }
                }
            },
            _ => {
                assert(names == init_names);
            },
        }
    }
}

proof fn lemma_join_empty(names: Seq<Seq<char>>, sep: char)
    requires
        forall|i: int| 0 <= i < names.len() ==> (#[trigger] names[i]).len() > 0,
    ensures
        (join_with(names, sep).len() == 0) == (names.len() == 0),
    decreases names.len(),
{
    if names.len() > 1 {
        assert(names[names.len() - 1] == names.last());
    } else if names.len() == 1 {
        assert(names[0].len() > 0);
    }
}

/// The share path as the normal components below the workspace give it: the root without
/// its trailing separators when there are none, else the root, `\` and the components
/// joined by `\`.
pub open spec fn windows_share_path_by_parts(workspace: Seq<char>, path: Seq<char>, windows_root: Seq<char>) -> Option<Seq<char>> {
    match strip_prefix_spec(components(path), components(workspace)) {
        None => None,
        Some(rest) => {
            let parts = normal_names(rest);
            let root = trim_end_separators(windows_root);
            if parts.len() == 0 {
                Some(root)
            } else {
                Some(root.push('\\') + join_with(parts, '\\'))
            }
        },
    }
}

/// A path below the workspace maps to the share root when no normal component lies below
/// the workspace, and otherwise to the root and those components joined by `\`; trailing
/// separators on the root never change the result.
pub proof fn lemma_share_path_by_parts(workspace: Seq<char>, path: Seq<char>, windows_root: Seq<char>)
    ensures
        windows_share_path(workspace, path, windows_root) == windows_share_path_by_parts(workspace, path, windows_root),
        windows_share_path(workspace, path, windows_root)
            == windows_share_path(workspace, path, trim_end_separators(windows_root)),
{
    let all = components(path);
    lemma_comps_upto_named(segments(path), segments(path).len() as int, path.len() > 0 && path[0] == '/');
    if let Some(rest) = strip_prefix_spec(all, components(workspace)) {
        let k = components(workspace).len() as int;
        assert(normal_comps_named(rest)) by {
            assert forall|i: int| 0 <= i < rest.len() implies
                ((#[trigger] rest[i]) matches Comp::Normal(name) ==> name.len() > 0) by {
                assert(rest[i] == all[i + k]);
            }
        }
        lemma_normal_names_named(rest);
        lemma_join_empty(normal_names(rest), '\\');
    }
    lemma_trim_end_separators_idempotent(windows_root);
}

proof fn lemma_trim_end_separators_idempotent(s: Seq<char>)
    ensures
        trim_end_separators(trim_end_separators(s)) == trim_end_separators(s),
    decreases s.len(),
{
    if s.len() > 0 && (s.last() == '\\' || s.last() == '/') {
        lemma_trim_end_separators_idempotent(s.drop_last());
    }
}

proof fn lemma_join_push(names: Seq<Seq<char>>, name: Seq<char>, sep: char)
    ensures
        join_with(names.push(name), sep) == (if names.len() == 0 { name } else { join_with(names, sep).push(sep) + name }),
{
    assert(names.push(name).drop_last() =~= names);
}

proof fn lemma_normal_names_skip(comps: Seq<Comp>, k: int)
    requires
        0 <= k < comps.len(),
    ensures
        normal_names(comps.take(k + 1)) == match comps[k] {
            Comp::Normal(name) => normal_names(comps.take(k)).push(name),
            _ => normal_names(comps.take(k)),
        },
{
    assert(comps.take(k + 1).drop_last() =~= comps.take(k));
}

/// Maps a project path in the Linux workspace to the same file on the guest's share.
pub fn linux_path_to_windows_share(workspace: &str, path: &str, windows_root: &str) -> (r: Result<String, String>)
    ensures
        match windows_share_path(workspace@, path@, windows_root@) {
            Some(mapped) => r matches Ok(m) && m@ == mapped,
            None => r matches Err(e) && e@ == "error-project-outside-workspace"@,
        },
{
    let path_chars = crate::text::to_chars(path);
    let workspace_chars = crate::text::to_chars(workspace);
    let path_parts = path_components(&path_chars);
    let base_parts = path_components(&workspace_chars);
    let start = match strip_components(&path_parts, &base_parts) {
        Some(start) => start,
        None => {
            return Err(crate::text::string_of("error-project-outside-workspace"));
        },
    };
    let ghost rest = parts_view(path_parts@).skip(start as int);
    let mut relative: Vec<char> = Vec::new();
    let mut count: usize = 0;
    let mut k: usize = start;
    while k < path_parts.len()
        invariant
            start <= k <= path_parts.len(),
            rest == parts_view(path_parts@).skip(start as int),
            relative@ == join_with(normal_names(rest.take(k - start)), '\\'),
            count == normal_names(rest.take(k - start)).len(),
            count <= k - start,
        decreases path_parts.len() - k,
    {
        proof {
            lemma_normal_names_skip(rest, k - start);
            assert(rest[k - start] == part_view(path_parts@[k as int]));
        }
        match &path_parts[k] {
            PathPart::Normal(name) => {
                proof {
                    lemma_join_push(normal_names(rest.take(k - start)), name@, '\\');
                }
                if count > 0 {
                    relative.push('\\');
                }
                crate::text::push_all(&mut relative, name);
                count = count + 1;
            },
            _ => {},
        }
        k = k + 1;
    }
    proof {
        assert(rest.take(path_parts@.len() - start) =~= rest);
    }
    let root_chars = crate::text::to_chars(windows_root);
    let root = trim_end_separators_exec(&root_chars);
    if relative.len() == 0 {
        Ok(string_from(&root))
    } else {
        let mut out = root;
        out.push('\\');
        crate::text::push_all(&mut out, &relative);
        Ok(string_from(&out))
    }
}


/// `Path::file_name`: the last component when it is a normal one.
pub open spec fn file_name_spec(path: Seq<char>) -> Option<Seq<char>> {
    let comps = components(path);
    if comps.len() > 0 {
        match comps.last() {
            Comp::Normal(name) => Some(name),
            _ => None,
        }
    } else {
        None
    }
}

pub fn file_name(path: &str) -> (r: Option<Vec<char>>)
    ensures
        match file_name_spec(path@) {
            Some(n) => r matches Some(x) && x@ == n,
            None => r is None,
        },
{
    let chars = crate::text::to_chars(path);
    let parts = path_components(&chars);
    if parts.len() == 0 {
        return None;
    }
    let last = parts.len() - 1;
    assert(parts_view(parts@).last() == part_view(parts@[last as int]));
    match &parts[last] {
        PathPart::Normal(name) => Some(crate::text::slice(name, 0, name.len())),
        _ => None,
    }
}

/// The position of the last `.` in `s`, if any.
pub open spec fn last_dot(s: Seq<char>) -> Option<int>
    decreases s.len(),
{
    if s.len() == 0 {
        None
    } else if s.last() == '.' {
        Some(s.len() - 1)
    } else {
        last_dot(s.drop_last())
    }
}

proof fn lemma_last_dot(s: Seq<char>)
    ensures
        last_dot(s) matches Some(i) ==> 0 <= i < s.len() && s[i] == '.' && forall|k: int| i < k < s.len() ==> s[k] != '.',
        last_dot(s) is None ==> forall|k: int| 0 <= k < s.len() ==> s[k] != '.',
    decreases s.len(),
{
    if s.len() > 0 && s.last() != '.' {
        let t = s.drop_last();
        lemma_last_dot(t);
        assert forall|k: int| 0 <= k < t.len() implies t[k] == s[k] by {}
        if last_dot(t) is None {
            assert forall|k: int| 0 <= k < s.len() implies s[k] != '.' by {
                if k < t.len() {
                    assert(t[k] == s[k]);
                }
            }
        } else {
            let i = last_dot(t).unwrap();
            assert forall|k: int| i < k < s.len() implies s[k] != '.' by {
                if k < t.len() {
                    assert(t[k] == s[k]);
                }
            }
        }
    }
}

/// How `Path` splits a file name at its last dot: the stem, and the extension when the
/// name has a dot that does not begin it (and the name is not `..`).
pub open spec fn split_at_dot(name: Seq<char>) -> (Seq<char>, Option<Seq<char>>) {
    if name == seq!['.', '.'] {
        (name, None)
    } else {
        match last_dot(name) {
            Some(i) => if i == 0 { (name, None) } else { (name.take(i), Some(name.skip(i + 1))) },
            None => (name, None),
        }
    }
}

/// `Path::extension`.
pub open spec fn extension_spec(path: Seq<char>) -> Option<Seq<char>> {
    match file_name_spec(path) {
        Some(name) => split_at_dot(name).1,
        None => None,
    }
}

/// `Path::file_stem`.
pub open spec fn file_stem_spec(path: Seq<char>) -> Option<Seq<char>> {
    match file_name_spec(path) {
        Some(name) => Some(split_at_dot(name).0),
        None => None,
    }
}

fn split_name_at_dot(name: &[char]) -> (r: (Vec<char>, Option<Vec<char>>))
    ensures
        r.0@ == split_at_dot(name@).0,
        match split_at_dot(name@).1 {
            Some(e) => r.1 matches Some(x) && x@ == e,
            None => r.1 is None,
        },
{
    proof {
        lemma_last_dot(name@);
    }
    if name.len() == 2 && name[0] == '.' && name[1] == '.' {
        assert(name@ =~= seq!['.', '.']);
        return (crate::text::slice(name, 0, name.len()), None);
    }
    let mut i: usize = name.len();
    assert(name@.take(i as int) =~= name@);
    while i > 0 && name[i - 1] != '.'
        invariant
            i <= name.len(),
            last_dot(name@) == last_dot(name@.take(i as int)),
        decreases i,
    {
        assert(name@.take(i as int).drop_last() =~= name@.take(i as int - 1));
        i = i - 1;
    }
    proof {
        if i > 0 {
            assert(name@.take(i as int).last() == '.');
        } else {
            assert(name@.take(0) =~= Seq::<char>::empty());
        }
    }
    if i <= 1 {
        let whole = crate::text::slice(name, 0, name.len());
        assert(whole@ =~= name@);
        (whole, None)
    } else {
        (crate::text::slice(name, 0, i - 1), Some(crate::text::slice(name, i, name.len())))
    }
}

/// `Path::extension`.
pub fn extension(path: &str) -> (r: Option<Vec<char>>)
    ensures
        match extension_spec(path@) {
            Some(e) => r matches Some(x) && x@ == e,
            None => r is None,
        },
{
    match file_name(path) {
        Some(name) => split_name_at_dot(&name).1,
        None => None,
    }
}

/// `Path::file_stem`.
pub fn file_stem(path: &str) -> (r: Option<Vec<char>>)
    ensures
        match file_stem_spec(path@) {
            Some(e) => r matches Some(x) && x@ == e,
            None => r is None,
        },
{
    match file_name(path) {
        Some(name) => Some(split_name_at_dot(&name).0),
        None => None,
    }
}

} // verus!
