//! The Studio Pro releases installed in the guest, read from the applications it lists:
//! each release folder under the install root with a Studio Pro executable, once per
//! version, newest version first.
use vstd::prelude::*;
use crate::guest_apps::{trim_trailing_backslashes, windows_separators, WinApp, STUDIO_EXECUTABLE_SUFFIX};
use crate::outside::{lowercase, regex_first_group, spec_lowercase, spec_regex_first_group};
use crate::studio_ops::StudioVersion;
use crate::text::{
    has_prefix, has_suffix, parse_u32, parse_u32_spec, split_char, split_once, split_once_spec,
    split_spec, to_chars, utf8_len, utf8_width,
};

verus! {

/// The number of characters of `s` that take `bytes` bytes of UTF-8, if the text has a
/// character boundary there.
pub open spec fn byte_boundary(s: Seq<char>, bytes: nat) -> Option<int> {
    if exists|k: int| 0 <= k <= s.len() && #[trigger] utf8_len(s.take(k)) == bytes {
        Some(choose|k: int| 0 <= k <= s.len() && #[trigger] utf8_len(s.take(k)) == bytes)
    } else {
        None
    }
}

proof fn lemma_utf8_prefix_step(s: Seq<char>, k: int)
    requires
        0 <= k < s.len(),
    ensures
        utf8_len(s.take(k + 1)) == utf8_len(s.take(k)) + utf8_width(s[k]),
{
    assert(s.take(k + 1).drop_last() =~= s.take(k));
}

proof fn lemma_utf8_prefix_increasing(s: Seq<char>, k1: int, k2: int)
    requires
        0 <= k1 < k2 <= s.len(),
    ensures
        utf8_len(s.take(k1)) < utf8_len(s.take(k2)),
    decreases k2 - k1,
{
    lemma_utf8_prefix_step(s, k2 - 1);
    if k1 < k2 - 1 {
        lemma_utf8_prefix_increasing(s, k1, k2 - 1);
    }
}

fn char_width(c: char) -> (w: u128)
    ensures
        w == utf8_width(c),
{
    if (c as u32) < 0x80 {
        1
    } else if (c as u32) < 0x800 {
        2
    } else if (c as u32) < 0x10000 {
        3
    } else {
        4
    }
}

fn utf8_count(s: &[char]) -> (n: u128)
    ensures
        n == utf8_len(s@),
{
    let mut n: u128 = 0;
    let mut i: usize = 0;
    while i < s.len()
        invariant
            i <= s@.len(),
            n == utf8_len(s@.take(i as int)),
            n <= 4 * i,
        decreases s@.len() - i,
    {
        proof {
            lemma_utf8_prefix_step(s@, i as int);
        }
        n = n + char_width(s[i]);
        i = i + 1;
    }
    assert(s@.take(s@.len() as int) =~= s@);
    n
}

/// The character position `bytes` bytes into the text, when that is a character boundary.
fn boundary_at(s: &[char], bytes: u128) -> (r: Option<usize>)
    ensures
        match r {
            Some(k) => byte_boundary(s@, bytes as nat) == Some(k as int) && k <= s@.len(),
            None => byte_boundary(s@, bytes as nat) is None,
        },
{
    let mut k: usize = 0;
    let mut acc: u128 = 0;
    while k < s.len() && acc < bytes
        invariant
            k <= s@.len(),
            acc == utf8_len(s@.take(k as int)),
            acc <= 4 * k,
            k > 0 ==> utf8_len(s@.take(k - 1)) < bytes,
        decreases s@.len() - k,
    {
        proof {
            lemma_utf8_prefix_step(s@, k as int);
        }
        acc = acc + char_width(s[k]);
        k = k + 1;
    }
    if acc == bytes {
        proof {
            let c = choose|c: int| 0 <= c <= s@.len() && #[trigger] utf8_len(s@.take(c)) == bytes;
            if c < k {
                lemma_utf8_prefix_increasing(s@, c, k as int);
            }
            if k < c {
                lemma_utf8_prefix_increasing(s@, k as int, c);
            }
        }
        Some(k)
    } else {
        proof {
            assert forall|c: int| 0 <= c <= s@.len() implies #[trigger] utf8_len(s@.take(c)) != bytes by {
                if c < k {
                    if c < k - 1 {
                        lemma_utf8_prefix_increasing(s@, c, k - 1);
                    }
                } else if c > k {
                    lemma_utf8_prefix_increasing(s@, k as int, c);
                }
            }
        }
        None
    }
}

/// The numeric parts of a version: each `.`-separated part as `u32`, 0 where it does not
/// parse.
pub open spec fn version_parts_spec(version: Seq<char>) -> Seq<u32> {
    split_spec(version, '.').map_values(|part: Seq<char>| match parse_u32_spec(part) {
        Some(n) => n,
        None => 0u32,
    })
}

fn version_parts(version: &[char]) -> (r: Vec<u32>)
    ensures
        r@ == version_parts_spec(version@),
{
    let pieces = split_char(version, '.');
    let ghost all = split_spec(version@, '.');
    let mut out: Vec<u32> = Vec::new();
    let mut i: usize = 0;
    while i < pieces.len()
        invariant
            i <= pieces@.len(),
            pieces@.len() == all.len(),
            all == split_spec(version@, '.'),
            forall|j: int| 0 <= j < pieces@.len() ==> (#[trigger] pieces@[j])@ == all[j],
            out@ == version_parts_spec(version@).take(i as int),
        decreases pieces@.len() - i,
    {
        let n = match parse_u32(&pieces[i]) {
            Some(n) => n,
            None => 0,
        };
        out.push(n);
        assert(out@ =~= version_parts_spec(version@).take(i + 1));
        i = i + 1;
    }
    assert(version_parts_spec(version@).take(pieces@.len() as int) =~= version_parts_spec(version@));
    out
}

/// The parts compare as `Vec<u32>` does, and `a` is the greater: at the first difference
/// its part is larger, or `b` is a proper prefix of it.
pub open spec fn parts_after(a: Seq<u32>, b: Seq<u32>) -> bool {
    exists|k: int| #![trigger a.take(k), b.take(k)]
        0 <= k <= a.len() && k <= b.len() && a.take(k) == b.take(k)
        && ((k == b.len() && k < a.len()) || (k < a.len() && k < b.len() && a[k] > b[k]))
}

proof fn lemma_parts_difference(a: Seq<u32>, b: Seq<u32>, i: int)
    requires
        0 <= i <= a.len(),
        i <= b.len(),
        a.take(i) == b.take(i),
        i == a.len() || i == b.len() || a[i] != b[i],
    ensures
        parts_after(a, b) <==> ((i == b.len() && i < a.len()) || (i < a.len() && i < b.len() && a[i] > b[i])),
{
    if (i == b.len() && i < a.len()) || (i < a.len() && i < b.len() && a[i] > b[i]) {
        assert(parts_after(a, b));
    }
    if parts_after(a, b) {
        let k = choose|k: int| #![trigger a.take(k), b.take(k)]
            0 <= k <= a.len() && k <= b.len() && a.take(k) == b.take(k)
            && ((k == b.len() && k < a.len()) || (k < a.len() && k < b.len() && a[k] > b[k]));
        if k < i {
            assert(a.take(i)[k] == a[k]);
            assert(b.take(i)[k] == b[k]);
            assert(false);
        } else if k > i {
            assert(a.take(k)[i] == a[i]);
            assert(b.take(k)[i] == b[i]);
            assert(false);
        }
    }
}

fn compare_parts(a: &Vec<u32>, b: &Vec<u32>) -> (order: crate::workspace_scan::Precedence)
    ensures
        order is After <==> parts_after(a@, b@),
        order is Before <==> parts_after(b@, a@),
        order is Same <==> a@ == b@,
{
    let mut i: usize = 0;
    while i < a.len() && i < b.len() && a[i] == b[i]
        invariant
            i <= a@.len(),
            i <= b@.len(),
            a@.take(i as int) == b@.take(i as int),
        decreases a.len() - i,
    {
        assert(a@.take(i + 1) == a@.take(i as int).push(a@[i as int]));
        assert(b@.take(i + 1) == b@.take(i as int).push(b@[i as int]));
        i = i + 1;
    }
    proof {
        lemma_parts_difference(a@, b@, i as int);
        lemma_parts_difference(b@, a@, i as int);
        if i == a.len() && i == b.len() {
            assert(a@ == a@.take(i as int));
            assert(b@ == b@.take(i as int));
        }
        if a@ == b@ {
            assert(i == a.len() && i == b.len());
        }
    }
    if i < a.len() && i < b.len() {
        if a[i] > b[i] {
            crate::workspace_scan::Precedence::After
        } else {
            crate::workspace_scan::Precedence::Before
        }
    } else if i < a.len() {
        crate::workspace_scan::Precedence::After
    } else if i < b.len() {
        crate::workspace_scan::Precedence::Before
    } else {
        crate::workspace_scan::Precedence::Same
    }
}

/// Version `a` is listed before version `b`: its numeric parts are greater, or they are the
/// same and `a` comes first as text (the order of the versions' map).
pub open spec fn version_before(a: Seq<char>, b: Seq<char>) -> bool {
    ||| parts_after(version_parts_spec(a), version_parts_spec(b))
    ||| (version_parts_spec(a) == version_parts_spec(b) && crate::workspace_scan::text_before(a, b))
}

fn version_order(a: &String, b: &String) -> (order: crate::workspace_scan::Precedence)
    ensures
        order is Before <==> version_before(a@, b@),
        order is After <==> version_before(b@, a@),
        order is Same <==> a@ == b@,
{
    let pa = version_parts(&to_chars(a.as_str()));
    let pb = version_parts(&to_chars(b.as_str()));
    match compare_parts(&pa, &pb) {
        crate::workspace_scan::Precedence::After => crate::workspace_scan::Precedence::Before,
        crate::workspace_scan::Precedence::Before => crate::workspace_scan::Precedence::After,
        crate::workspace_scan::Precedence::Same => crate::workspace_scan::compare_text(a.as_str(), b.as_str()),
    }
}

/// The install root as executable paths are matched against it: Windows separators, no
/// trailing backslash, lower-cased, then one backslash.
pub open spec fn root_prefix(install_root: Seq<char>) -> Seq<char> {
    spec_lowercase(trim_trailing_backslashes(windows_separators(install_root))).push('\\')
}

/// A path names a Studio Pro executable below the install root, compared lower-cased.
pub open spec fn studio_path(path: Seq<char>, prefix: Seq<char>) -> bool {
    let lower = spec_lowercase(windows_separators(path));
    has_prefix(lower, prefix) && has_suffix(lower, STUDIO_EXECUTABLE_SUFFIX@)
}

/// The text before the first backslash.
pub open spec fn first_component(s: Seq<char>) -> Seq<char> {
    match split_once_spec(s, '\\') {
        Some((head, _)) => head,
        None => s,
    }
}

/// The release folder of a Studio Pro path: its first component after as many bytes as the
/// prefix takes, when the path has a character boundary there.
pub open spec fn release_folder(path: Seq<char>, prefix: Seq<char>) -> Option<Seq<char>> {
    let normalized = windows_separators(path);
    match byte_boundary(normalized, utf8_len(prefix)) {
        Some(k) => Some(first_component(normalized.skip(k))),
        None => None,
    }
}

/// A Studio Pro path that cannot be cut after the prefix's bytes (lower-casing changed their
/// number), where listing it would fail.
pub open spec fn uncuttable(app: WinApp, prefix: Seq<char>) -> bool {
    studio_path(app.path@, prefix) && release_folder(app.path@, prefix) is None
}

/// The pattern a Studio Pro version folder matches: three dot-separated numbers, with an
/// optional fourth, where a number is any run of Unicode decimal digits; its first group is
/// the release.
pub const STUDIO_VERSION_PATTERN: &'static str = r"^(\d+\.\d+\.\d+)(?:\.\d+)?$";

/// The release an application installs: the version its folder names, and the folder.
pub open spec fn app_release(app: WinApp, prefix: Seq<char>) -> Option<(Seq<char>, Seq<char>)> {
    if studio_path(app.path@, prefix) {
        match release_folder(app.path@, prefix) {
            Some(folder) => match spec_regex_first_group(STUDIO_VERSION_PATTERN@, folder) {
                Some(version) => Some((version, folder)),
                None => None,
            },
            None => None,
        }
    } else {
        None
    }
}

/// The folder of the release an application installs.
pub open spec fn installed_folder(app: WinApp, prefix: Seq<char>) -> Seq<char> {
    match app_release(app, prefix) {
        Some((_, folder)) => folder,
        None => Seq::empty(),
    }
}

/// The application at `m` is the first to install `version`.
pub open spec fn first_release(apps: Seq<WinApp>, m: int, version: Seq<char>, prefix: Seq<char>) -> bool {
    &&& 0 <= m < apps.len()
    &&& app_release(apps[m], prefix) matches Some((v, _)) && v == version
    &&& forall|n: int| 0 <= n < m ==> !(#[trigger] app_release(apps[n], prefix) matches Some((w, _)) && w == version)
}

/// The record listed for a release installed by `app` in `folder`.
pub open spec fn release_record(app: WinApp, version: Seq<char>, folder: Seq<char>, install_root: Seq<char>, record: StudioVersion) -> bool {
    &&& record.version@ == version
    &&& record.display_name@ == if app.name@.len() == 0 { "Studio Pro "@ + version } else { app.name@ }
    &&& record.executable_path@ == app.path@
    &&& record.install_root@ == trim_trailing_backslashes(install_root) + seq!['\\'] + folder
    &&& record.source@ == if app.source@.len() == 0 { "WinBoat Guest Server"@ } else { app.source@ }
    &&& record.removable
}

/// The versions of records.
pub open spec fn record_versions(records: Seq<StudioVersion>) -> Seq<Seq<char>> {
    records.map_values(|r: StudioVersion| r.version@)
}

/// A record comes from the first of the first `n` applications that installs its version.
pub open spec fn record_from_first(apps: Seq<WinApp>, n: int, install_root: Seq<char>, record: StudioVersion) -> bool {
    let prefix = root_prefix(install_root);
    exists|m: int| #![trigger first_release(apps, m, record.version@, prefix)]
        m < n && first_release(apps, m, record.version@, prefix)
        && release_record(apps[m], record.version@, installed_folder(apps[m], prefix), install_root, record)
}

/// The release an application installs, if any, is listed.
pub open spec fn release_listed(app: WinApp, prefix: Seq<char>, list: Seq<StudioVersion>) -> bool {
    match app_release(app, prefix) {
        Some((v, _)) => record_versions(list).contains(v),
        None => true,
    }
}

/// `list` is the listing of the releases the first `n` applications install: once per
/// version, from the first application that installs it, newest first.
pub open spec fn releases_listed(apps: Seq<WinApp>, n: int, install_root: Seq<char>, list: Seq<StudioVersion>) -> bool {
    &&& versions_in_order(list)
    &&& forall|i: int| 0 <= i < list.len() ==> record_from_first(apps, n, install_root, #[trigger] list[i])
    &&& forall|m: int| 0 <= m < n ==> release_listed(#[trigger] apps[m], root_prefix(install_root), list)
}

/// The versions are listed newest first, each once.
pub open spec fn versions_in_order(list: Seq<StudioVersion>) -> bool {
    &&& forall|i: int| 0 <= i < list.len() - 1 ==> version_before(#[trigger] list[i].version@, list[i + 1].version@)
    &&& forall|i: int, j: int| 0 <= i < j < list.len() ==> list[i].version@ != list[j].version@
}

fn name_or(value: &String, fallback: Vec<char>) -> (r: String)
    ensures
        r@ == if value@.len() == 0 { fallback@ } else { value@ },
{
    let chars = to_chars(value.as_str());
    if chars.len() == 0 {
        crate::text::string_from(&fallback)
    } else {
        value.clone()
    }
}

fn listed_version_index(list: &Vec<StudioVersion>, version: &String) -> (r: Option<usize>)
    ensures
        r is Some <==> record_versions(list@).contains(version@),
{
    let wanted = to_chars(version.as_str());
    let mut i: usize = 0;
    while i < list.len()
        invariant
            i <= list@.len(),
            wanted@ == version@,
            forall|j: int| 0 <= j < i ==> list@[j].version@ != version@,
        decreases list@.len() - i,
    {
        if crate::text::equals_str(&wanted, list[i].version.as_str()) {
            assert(record_versions(list@)[i as int] == version@);
            return Some(i);
        }
        i = i + 1;
    }
    proof {
        let vs = record_versions(list@);
        if vs.contains(version@) {
            let k = choose|k: int| 0 <= k < vs.len() && vs[k] == version@;
            assert(list@[k].version@ == version@);
        }
    }
    None
}

proof fn lemma_insert_in_order(before: Seq<StudioVersion>, placed: int, record: StudioVersion)
    requires
        versions_in_order(before),
        !record_versions(before).contains(record.version@),
        0 <= placed <= before.len(),
        placed > 0 ==> version_before(before[placed - 1].version@, record.version@),
        placed < before.len() ==> version_before(record.version@, before[placed].version@),
    ensures
        versions_in_order(before.insert(placed, record)),
{
    let after = before.insert(placed, record);
    assert forall|i: int| 0 <= i < after.len() - 1 implies version_before(#[trigger] after[i].version@, after[i + 1].version@) by {
        if i + 1 < placed {
            assert(after[i] == before[i] && after[i + 1] == before[i + 1]);
        } else if i + 1 == placed {
            assert(after[i] == before[i] && after[i + 1] == record);
        } else if i == placed {
            assert(after[i] == record && after[i + 1] == before[i]);
        } else {
            assert(after[i] == before[i - 1] && after[i + 1] == before[i]);
        }
    }
    assert forall|i: int, j: int| 0 <= i < j < after.len() implies after[i].version@ != after[j].version@ by {
        let a = if i < placed { i } else if i == placed { -1 } else { i - 1 };
        let b = if j < placed { j } else if j == placed { -1 } else { j - 1 };
        if a >= 0 && b >= 0 {
            assert(after[i] == before[a] && after[j] == before[b]);
        } else if a < 0 {
            assert(after[i] == record && after[j] == before[b]);
            assert(record_versions(before)[b] == before[b].version@);
        } else {
            assert(after[j] == record && after[i] == before[a]);
            assert(record_versions(before)[a] == before[a].version@);
        }
    }
}

fn insert_in_order(list: &mut Vec<StudioVersion>, record: StudioVersion)
    requires
        versions_in_order(old(list)@),
        !record_versions(old(list)@).contains(record.version@),
    ensures
        versions_in_order(final(list)@),
        exists|p: int| 0 <= p <= old(list)@.len() && final(list)@ == old(list)@.insert(p, record),
{
    let mut p: usize = 0;
    let mut found = false;
    while !found && p < list.len()
        invariant
            p <= list@.len(),
            list@ == old(list)@,
            !record_versions(list@).contains(record.version@),
            p > 0 ==> version_before(list@[p - 1].version@, record.version@),
            found ==> p < list@.len() && version_before(record.version@, list@[p as int].version@),
        decreases list@.len() - p + (if found { 0int } else { 1int }),
    {
        match version_order(&list[p].version, &record.version) {
            crate::workspace_scan::Precedence::Before => {
                p = p + 1;
            },
            crate::workspace_scan::Precedence::Same => {
                assert(record_versions(list@)[p as int] == record.version@);
                assert(false);
                p = p + 1;
            },
            crate::workspace_scan::Precedence::After => {
                found = true;
            },
        }
    }
    let ghost before = list@;
    list.insert(p, record);
    proof {
        lemma_insert_in_order(before, p as int, record);
    }
}

proof fn lemma_insert_keeps_listing(
    apps: Seq<WinApp>,
    m: int,
    install_root: Seq<char>,
    before: Seq<StudioVersion>,
    after: Seq<StudioVersion>,
    p: int,
    record: StudioVersion,
)
    requires
        0 <= m < apps.len(),
        releases_listed(apps, m, install_root, before),
        0 <= p <= before.len(),
        after == before.insert(p, record),
        versions_in_order(after),
        first_release(apps, m, record.version@, root_prefix(install_root)),
        release_record(apps[m], record.version@, installed_folder(apps[m], root_prefix(install_root)), install_root, record),
        app_release(apps[m], root_prefix(install_root)) matches Some((v, _)) && v == record.version@,
    ensures
        releases_listed(apps, m + 1, install_root, after),
{
    let prefix = root_prefix(install_root);
    assert forall|i: int| 0 <= i < after.len() implies record_from_first(apps, m + 1, install_root, #[trigger] after[i]) by {
        if i == p {
            assert(after[i] == record);
        } else {
            let j = if i < p { i } else { i - 1 };
            assert(after[i] == before[j]);
            assert(record_from_first(apps, m, install_root, before[j]));
            let q = choose|q: int| #![trigger first_release(apps, q, before[j].version@, prefix)]
                q < m && first_release(apps, q, before[j].version@, prefix)
                && release_record(apps[q], before[j].version@, installed_folder(apps[q], prefix), install_root, before[j]);
            assert(first_release(apps, q, after[i].version@, prefix));
        }
    }
    assert forall|n: int| 0 <= n < m + 1 implies release_listed(#[trigger] apps[n], prefix, after) by {
        if n < m {
            assert(release_listed(apps[n], prefix, before));
            if let Some((v, _)) = app_release(apps[n], prefix) {
                let i = choose|i: int| 0 <= i < record_versions(before).len() && record_versions(before)[i] == v;
                let j = if i < p { i } else { i + 1 };
                assert(after[j] == before[i]);
                assert(record_versions(after)[j] == v);
            }
        } else {
            assert(after[p] == record);
            assert(record_versions(after)[p] == record.version@);
        }
    }
}

proof fn lemma_listing_extends(apps: Seq<WinApp>, m: int, install_root: Seq<char>, list: Seq<StudioVersion>)
    requires
        0 <= m < apps.len(),
        releases_listed(apps, m, install_root, list),
        release_listed(apps[m], root_prefix(install_root), list),
    ensures
        releases_listed(apps, m + 1, install_root, list),
{
    let prefix = root_prefix(install_root);
    assert forall|i: int| 0 <= i < list.len() implies record_from_first(apps, m + 1, install_root, #[trigger] list[i]) by {
        assert(record_from_first(apps, m, install_root, list[i]));
        let q = choose|q: int| #![trigger first_release(apps, q, list[i].version@, prefix)]
            q < m && first_release(apps, q, list[i].version@, prefix)
            && release_record(apps[q], list[i].version@, installed_folder(apps[q], prefix), install_root, list[i]);
        assert(first_release(apps, q, list[i].version@, prefix));
    }
    assert forall|n: int| 0 <= n < m + 1 implies release_listed(#[trigger] apps[n], prefix, list) by {
        if n < m {
            assert(release_listed(apps[n], prefix, list));
        }
    }
}

/// Takes the application at `m` into the listing; false when its path cannot be cut.
fn consider_app(
    Ghost(apps): Ghost<Seq<WinApp>>,
    Ghost(m): Ghost<int>,
    Ghost(install_root): Ghost<Seq<char>>,
    app: &WinApp,
    prefix: &Vec<char>,
    prefix_bytes: u128,
    raw_root: &Vec<char>,
    list: &mut Vec<StudioVersion>,
) -> (cut: bool)
    requires
        0 <= m < apps.len(),
        *app == apps[m],
        prefix@ == root_prefix(install_root),
        prefix_bytes == utf8_len(prefix@),
        raw_root@ == trim_trailing_backslashes(install_root),
        releases_listed(apps, m, install_root, old(list)@),
    ensures
        cut <==> !uncuttable(apps[m], root_prefix(install_root)),
        cut ==> releases_listed(apps, m + 1, install_root, final(list)@),
{
    let ghost prefix_view = prefix@;
    let normalized = crate::guest_apps::with_windows_separators(app.path.as_str());
    let lower = to_chars(lowercase(crate::text::string_from(&normalized).as_str()).as_str());
    let is_studio = crate::text::starts_with(&lower, prefix) && crate::text::ends_with_str(&lower, STUDIO_EXECUTABLE_SUFFIX);
    if !is_studio {
        assert(!studio_path(apps[m].path@, prefix_view));
        proof {
            lemma_listing_extends(apps, m, install_root, list@);
        }
        return true;
    }
    let k = match boundary_at(&normalized, prefix_bytes) {
        Some(k) => k,
        None => {
            assert(uncuttable(apps[m], prefix_view));
            return false;
        },
    };
    let rest = crate::text::slice(&normalized, k, normalized.len());
    assert(rest@ == normalized@.skip(k as int));
    let folder = match split_once(&rest, '\\') {
        Some((head, _)) => head,
        None => rest,
    };
    assert(folder@ == first_component(normalized@.skip(k as int)));
    let folder_text = crate::text::string_from(&folder);
    let version = match regex_first_group(STUDIO_VERSION_PATTERN, folder_text.as_str()) {
        Some(version) => version,
        None => {
            assert(app_release(apps[m], prefix_view) is None);
            proof {
                lemma_listing_extends(apps, m, install_root, list@);
            }
            return true;
        },
    };
    assert(app_release(apps[m], prefix_view) == Some((version@, folder@)));
    if listed_version_index(list, &version).is_some() {
        proof {
            lemma_listing_extends(apps, m, install_root, list@);
        }
        return true;
    }
    proof {
        assert forall|n: int| 0 <= n < m implies !(#[trigger] app_release(apps[n], prefix_view) matches Some((w, _)) && w == version@) by {
            if app_release(apps[n], prefix_view) matches Some((w, _)) && w == version@ {
                assert(release_listed(apps[n], prefix_view, list@));
            }
        }
    }
    let mut display = to_chars("Studio Pro ");
    crate::text::push_str(&mut display, version.as_str());
    let mut root_text = raw_root.clone();
    root_text.push('\\');
    crate::text::push_all(&mut root_text, &folder);
    let record = StudioVersion {
        version: version,
        display_name: name_or(&app.name, display),
        executable_path: app.path.clone(),
        install_root: crate::text::string_from(&root_text),
        source: name_or(&app.source, to_chars("WinBoat Guest Server")),
        removable: true,
    };
    let ghost before = list@;
    proof {
        assert(installed_folder(apps[m], prefix_view) == folder@);
        assert(root_text@ =~= trim_trailing_backslashes(install_root) + seq!['\\'] + folder@);
    }
    insert_in_order(list, record);
    proof {
        let p = choose|p: int| 0 <= p <= before.len() && list@ == before.insert(p, record);
        lemma_insert_keeps_listing(apps, m, install_root, before, list@, p, record);
    }
    true
}

/// The installed Studio Pro releases the guest's applications show: every application whose
/// path (with Windows separators, compared lower-cased) is a Studio Pro executable below the
/// install root names its release by the first folder after the root; a folder that the
/// version pattern matches gives one release, recorded from the first application with that
/// version, and the releases are listed newest version first. `None` when some Studio Pro
/// path cannot be cut after the root's bytes, because lower-casing changed their number.
pub fn parse_studio_versions(apps: Vec<WinApp>, install_root: &str) -> (r: Option<Vec<StudioVersion>>)
    ensures
        r is None <==> exists|m: int| 0 <= m < apps@.len() && #[trigger] uncuttable(apps@[m], root_prefix(install_root@)),
        r matches Some(list) ==> releases_listed(apps@, apps@.len() as int, install_root@, list@),
{
    let separated = crate::guest_apps::with_windows_separators(install_root);
    let trimmed = crate::guest_apps::without_trailing_backslashes(&separated);
    let lowered = lowercase(crate::text::string_from(&trimmed).as_str());
    let mut prefix = to_chars(lowered.as_str());
    prefix.push('\\');
    let ghost prefix_view = root_prefix(install_root@);
    assert(prefix@ == prefix_view);
    let prefix_bytes = utf8_count(&prefix);
    let raw_root = crate::guest_apps::without_trailing_backslashes(&to_chars(install_root));
    let mut list: Vec<StudioVersion> = Vec::new();
    let mut m: usize = 0;
    while m < apps.len()
        invariant
            m <= apps@.len(),
            prefix@ == prefix_view,
            prefix_view == root_prefix(install_root@),
            prefix_bytes == utf8_len(prefix_view),
            raw_root@ == trim_trailing_backslashes(install_root@),
            forall|n: int| 0 <= n < m ==> !#[trigger] uncuttable(apps@[n], prefix_view),
            releases_listed(apps@, m as int, install_root@, list@),
        decreases apps@.len() - m,
    {
        if !consider_app(Ghost(apps@), Ghost(m as int), Ghost(install_root@), &apps[m], &prefix, prefix_bytes, &raw_root, &mut list) {
            return None;
        }
        m = m + 1;
    }
    Some(list)
}


} // verus!
