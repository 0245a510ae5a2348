//! The rewriting of generated JavaScript inputs of Studio Pro's web build: static widget
//! imports that name the project through the guest's share become relative imports, and
//! generated nanoflow action requires name the action file through the share's UNC path.
//!
//! Only whole generated lines are rewritten, and only where they stand in code: not inside
//! a string or a comment, and nothing once a template literal starts.
use vstd::prelude::*;
use crate::text::{is_ascii_alphanumeric, ascii_alphanumeric, push_all, push_str, string_from, to_chars, split_char, split_spec};

verus! {

/// Where the lexer stands: in code, in a quoted string, in a template literal, or in a
/// comment.
#[derive(Debug, Clone, Copy, PartialEq, Eq, Structural)]
pub enum LexState {
    Code,
    SingleQuoted,
    DoubleQuoted,
    Template,
    LineComment,
    BlockComment,
}

/// The cursor two characters on, kept at the end of the text.
pub open spec fn two_on(s: Seq<char>, cursor: int) -> int {
    if cursor + 2 <= s.len() { cursor + 2 } else { s.len() as int }
}

/// One lexer step at `cursor`: the next cursor and state.
pub open spec fn lex_step(s: Seq<char>, cursor: int, state: LexState) -> (int, LexState) {
    let current = s[cursor];
    let next: Option<char> = if cursor + 1 < s.len() { Some(s[cursor + 1]) } else { None };
    match state {
        LexState::SingleQuoted | LexState::DoubleQuoted => {
            let closing = if state == LexState::SingleQuoted { '\'' } else { '"' };
            if current == '\\' {
                (two_on(s, cursor), state)
            } else if current == closing {
                (cursor + 1, LexState::Code)
            } else {
                (cursor + 1, state)
            }
        },
        LexState::LineComment => if current == '\n' { (cursor + 1, LexState::Code) } else { (cursor + 1, state) },
        LexState::BlockComment => if current == '*' && next == Some('/') {
            (two_on(s, cursor), LexState::Code)
        } else {
            (cursor + 1, state)
        },
        _ => if current == '\'' {
            (cursor + 1, LexState::SingleQuoted)
        } else if current == '"' {
            (cursor + 1, LexState::DoubleQuoted)
        } else if current == '`' {
            (cursor + 1, LexState::Template)
        } else if current == '/' && next == Some('/') {
            (two_on(s, cursor), LexState::LineComment)
        } else if current == '/' && next == Some('*') {
            (two_on(s, cursor), LexState::BlockComment)
        } else {
            (cursor + 1, state)
        },
    }
}

/// Each lexer step moves the cursor forward by one or two characters.
pub proof fn lemma_lex_step_advances(s: Seq<char>, cursor: int, state: LexState)
    requires
        0 <= cursor < s.len(),
    ensures
        cursor < lex_step(s, cursor, state).0 <= cursor + 2,
{
}

/// Lexing from `cursor` in `state` until the cursor reaches `end`; a template literal stops
/// the lexer for good.
pub open spec fn lex_run(s: Seq<char>, cursor: int, state: LexState, end: int) -> (int, LexState)
    decreases s.len() + 1 - cursor,
{
    if state == LexState::Template || cursor >= end || cursor < 0 || cursor >= s.len() {
        (cursor, state)
    } else {
        proof {
            lemma_lex_step_advances(s, cursor, state);
        }
        let (c, st) = lex_step(s, cursor, state);
        lex_run(s, c, st, end)
    }
}

/// The lexer over one text, moved forward to each position it is asked about.
#[derive(Debug)]
pub struct CodeLexer {
    pub cursor: usize,
    pub state: LexState,
}

impl CodeLexer {
    pub fn new() -> (lexer: CodeLexer)
        ensures
            lexer.cursor == 0,
            lexer.state == LexState::Code,
    {
        CodeLexer { cursor: 0, state: LexState::Code }
    }

    /// Moves the lexer to `end` and tells whether that position is in code.
    pub fn is_code_at(&mut self, s: &Vec<char>, end: usize) -> (code: bool)
        requires
            end <= s@.len(),
            old(self).cursor <= s@.len(),
        ensures
            (final(self).cursor as int, final(self).state) == lex_run(s@, old(self).cursor as int, old(self).state, end as int),
            final(self).cursor <= s@.len(),
            code == (final(self).state == LexState::Code),
    {
        while self.cursor < end
            invariant
                end <= s@.len(),
                self.cursor <= s@.len(),
                lex_run(s@, self.cursor as int, self.state, end as int) == lex_run(s@, old(self).cursor as int, old(self).state, end as int),
            decreases s@.len() - self.cursor,
        {
            if self.state == LexState::Template {
                return false;
            }
            let cursor = self.cursor;
            let current = s[cursor];
            let next: Option<char> = if cursor + 1 < s.len() { Some(s[cursor + 1]) } else { None };
            let two: usize = if cursor + 1 < s.len() { 2 } else { 1 };
            let (advance, state): (usize, LexState) = match self.state {
                LexState::SingleQuoted | LexState::DoubleQuoted => {
                    let closing = if self.state == LexState::SingleQuoted { '\'' } else { '"' };
                    if current == '\\' {
                        (two, self.state)
                    } else if current == closing {
                        (1, LexState::Code)
                    } else {
                        (1, self.state)
                    }
                },
                LexState::LineComment => if current == '\n' { (1, LexState::Code) } else { (1, self.state) },
                LexState::BlockComment => if current == '*' && next == Some('/') {
                    (two, LexState::Code)
                } else {
                    (1, self.state)
                },
                _ => if current == '\'' {
                    (1, LexState::SingleQuoted)
                } else if current == '"' {
                    (1, LexState::DoubleQuoted)
                } else if current == '`' {
                    (1, LexState::Template)
                } else if current == '/' && next == Some('/') {
                    (two, LexState::LineComment)
                } else if current == '/' && next == Some('*') {
                    (two, LexState::BlockComment)
                } else {
                    (1, self.state)
                },
            };
            assert((cursor + advance, state) == lex_step(s@, cursor as int, self.state));
            self.cursor = cursor + advance;
            self.state = state;
        }
        self.state == LexState::Code
    }
}


pub open spec fn is_blank(c: char) -> bool {
    c == ' ' || c == '\t'
}

/// A character of the binding list of an `import ... from` clause.
pub open spec fn is_clause_char(c: char) -> bool {
    is_ascii_alphanumeric(c) || c == '_' || c == '*' || c == '$' || c == ',' || c == '{' || c == '}' || is_blank(c)
}

/// A character of a generated asset path: anything but a quote or a line break.
pub open spec fn is_asset_char(c: char) -> bool {
    c != '"' && c != '\'' && c != '\r' && c != '\n'
}

pub open spec fn is_ident_start(c: char) -> bool {
    ('a' <= c && c <= 'z') || ('A' <= c && c <= 'Z') || c == '_' || c == '$'
}

pub open spec fn is_ident_char(c: char) -> bool {
    is_ident_start(c) || ('0' <= c && c <= '9')
}

pub open spec fn is_quote(c: char) -> bool {
    c == '"' || c == '\''
}

/// The kinds of character runs the matchers read.
#[derive(Debug, Clone, Copy, PartialEq, Eq, Structural)]
pub enum RunKind {
    Blank,
    Clause,
    Asset,
    Ident,
}

pub open spec fn in_run(kind: RunKind, c: char) -> bool {
    match kind {
        RunKind::Blank => is_blank(c),
        RunKind::Clause => is_clause_char(c),
        RunKind::Asset => is_asset_char(c),
        RunKind::Ident => is_ident_char(c),
    }
}

/// How many characters of the kind follow from `i` on.
pub open spec fn run_len(line: Seq<char>, i: int, kind: RunKind) -> int
    decreases line.len() - i,
{
    if 0 <= i < line.len() && in_run(kind, line[i]) { 1 + run_len(line, i + 1, kind) } else { 0 }
}

pub proof fn lemma_run_len(line: Seq<char>, i: int, kind: RunKind)
    requires
        0 <= i <= line.len(),
    ensures
        0 <= run_len(line, i, kind) <= line.len() - i,
        forall|k: int| i <= k < i + run_len(line, i, kind) ==> in_run(kind, #[trigger] line[k]),
        i + run_len(line, i, kind) < line.len() ==> !in_run(kind, line[i + run_len(line, i, kind)]),
    decreases line.len() - i,
{
    if i < line.len() && in_run(kind, line[i]) {
        lemma_run_len(line, i + 1, kind);
    }
}

fn char_in_run(kind: RunKind, c: char) -> (b: bool)
    ensures
        b == in_run(kind, c),
{
    match kind {
        RunKind::Blank => c == ' ' || c == '\t',
        RunKind::Clause => ascii_alphanumeric(c) || c == '_' || c == '*' || c == '$' || c == ',' || c == '{' || c == '}' || c == ' ' || c == '\t',
        RunKind::Asset => c != '"' && c != '\'' && c != '\r' && c != '\n',
        RunKind::Ident => ('a' <= c && c <= 'z') || ('A' <= c && c <= 'Z') || c == '_' || c == '$' || ('0' <= c && c <= '9'),
    }
}

/// The index just past the run of the kind that starts at `i`.
fn skip_run(line: &Vec<char>, i: usize, kind: RunKind) -> (j: usize)
    requires
        i <= line@.len(),
    ensures
        j == i + run_len(line@, i as int, kind),
        i <= j <= line@.len(),
{
    let mut j = i;
    proof {
        lemma_run_len(line@, i as int, kind);
    }
    while j < line.len() && char_in_run(kind, line[j])
        invariant
            i <= j <= line@.len(),
            run_len(line@, i as int, kind) == (j - i) + run_len(line@, j as int, kind),
        decreases line@.len() - j,
    {
        j = j + 1;
    }
    j
}

/// `line` holds `word` at `at`.
pub open spec fn word_at(line: Seq<char>, at: int, word: Seq<char>) -> bool {
    0 <= at && at + word.len() <= line.len() && line.subrange(at, at + word.len()) == word
}

fn has_word_at(line: &Vec<char>, at: usize, word: &str) -> (b: bool)
    ensures
        b == word_at(line@, at as int, word@),
{
    let w = to_chars(word);
    has_seq_at(line, at, &w)
}

fn has_seq_at(line: &Vec<char>, at: usize, w: &Vec<char>) -> (b: bool)
    ensures
        b == word_at(line@, at as int, w@),
{
    if at > line.len() || w.len() > line.len() - at {
        return false;
    }
    let mut k: usize = 0;
    while k < w.len()
        invariant
            at + w@.len() <= line@.len(),
            line@.len() <= usize::MAX,
            k <= w@.len(),
            forall|m: int| 0 <= m < k ==> line@[at + m] == w@[m],
        decreases w@.len() - k,
    {
        if line[at + k] != w[k] {
            proof {
                assert(line@.subrange(at as int, at + w@.len())[k as int] != w@[k as int]);
            }
            return false;
        }
        k = k + 1;
    }
    proof {
        assert(line@.subrange(at as int, at + w@.len()) =~= w@);
    }
    true
}

/// The line ends here: nothing, or a carriage return alone, is left.
pub open spec fn line_end_at(line: Seq<char>, at: int) -> bool {
    at == line.len() || (at + 1 == line.len() && line[at] == '\r')
}

/// Where a generated line matched: its opening quote, and where its asset path starts and
/// ends; the closing part runs from the asset's end to the end of the line.
#[derive(Debug, Clone, Copy, PartialEq, Eq, Structural)]
pub struct LineMatch {
    pub quote_at: usize,
    pub asset_start: usize,
    pub asset_end: usize,
}

/// Where the run of blanks that ends at `hi` starts, not before `lo`.
pub open spec fn blanks_back(line: Seq<char>, lo: int, hi: int) -> int
    decreases hi - lo,
{
    if hi > lo && is_blank(line[hi - 1]) { blanks_back(line, lo, hi - 1) } else { hi }
}

/// The text between `import` and the opening quote, `line[b..p]`, is blanks, or blanks, a
/// binding list, blanks, `from` and blanks.
pub open spec fn import_clause_ok(line: Seq<char>, b: int, p: int) -> bool {
    let f = blanks_back(line, b, p);
    ||| f == b
    ||| (f < p && f - b >= 7 && word_at(line, f - 4, "from"@) && is_blank(line[f - 5]))
}

/// A static import of a widget asset through the share: leading blanks, `import`, an
/// optional `... from` clause, a quoted path that starts with `prefix`, and `;` closing the
/// line.
pub open spec fn import_match(line: Seq<char>, prefix: Seq<char>) -> Option<LineMatch> {
    let a = run_len(line, 0, RunKind::Blank);
    let b = a + 6;
    if !word_at(line, a, "import"@) || !(b < line.len() && is_blank(line[b])) {
        None
    } else {
        let p = b + run_len(line, b, RunKind::Clause);
        let start = p + 1 + prefix.len();
        let n = run_len(line, start, RunKind::Asset);
        let e = start + n;
        if p < line.len() && is_quote(line[p]) && import_clause_ok(line, b, p) && word_at(line, p + 1, prefix)
            && n >= 1 && e + 1 < line.len() && is_quote(line[e]) && line[e + 1] == ';'
            && line_end_at(line, e + 2 + run_len(line, e + 2, RunKind::Blank)) {
            Some(LineMatch { quote_at: p as usize, asset_start: start as usize, asset_end: e as usize })
        } else {
            None
        }
    }
}

fn back_over_blanks(line: &Vec<char>, lo: usize, hi: usize) -> (f: usize)
    requires
        lo <= hi <= line@.len(),
    ensures
        f == blanks_back(line@, lo as int, hi as int),
        lo <= f <= hi,
{
    let mut f = hi;
    while f > lo && (line[f - 1] == ' ' || line[f - 1] == '\t')
        invariant
            lo <= f <= hi,
            hi <= line@.len(),
            blanks_back(line@, lo as int, hi as int) == blanks_back(line@, lo as int, f as int),
        decreases f,
    {
        f = f - 1;
    }
    f
}

/// Matches a static widget import line; `prefix` is the share path of the project's
/// widgets.
pub fn match_import(line: &Vec<char>, prefix: &Vec<char>) -> (r: Option<LineMatch>)
    ensures
        r == import_match(line@, prefix@),
        r matches Some(m) ==> m.quote_at < m.asset_start <= m.asset_end < line@.len(),
{
    let len = line.len();
    assert(line@.len() == len);
    proof {
        reveal_strlit("import");
        reveal_strlit("from");
    }
    let a = skip_run(line, 0, RunKind::Blank);
    if !has_word_at(line, a, "import") {
        return None;
    }
    assert("import"@.len() == 6);
    let b = a + 6;
    if !(b < line.len() && (line[b] == ' ' || line[b] == '\t')) {
        return None;
    }
    let p = skip_run(line, b, RunKind::Clause);
    if !(p < line.len() && (line[p] == '"' || line[p] == '\'')) {
        return None;
    }
    let f = back_over_blanks(line, b, p);
    let clause = f == b || (f < p && f - b >= 7 && has_word_at(line, f - 4, "from") && (line[f - 5] == ' ' || line[f - 5] == '\t'));
    if !clause {
        return None;
    }
    if !has_seq_at(line, p + 1, prefix) {
        return None;
    }
    let start = p + 1 + prefix.len();
    let e = skip_run(line, start, RunKind::Asset);
    if e == start || !(e < line.len() && line.len() - e > 1) || !(line[e] == '"' || line[e] == '\'') || line[e + 1] != ';' {
        return None;
    }
    let w = skip_run(line, e + 2, RunKind::Blank);
    if !(w == line.len() || (w + 1 == line.len() && line[w] == '\r')) {
        return None;
    }
    Some(LineMatch { quote_at: p, asset_start: start, asset_end: e })
}


/// Where the `()` of a generated action entry starts: after leading blanks and an optional
/// `"action":` key; `-1` when the key is there but not followed by `:`.
pub open spec fn arrow_start(line: Seq<char>) -> int {
    let a = run_len(line, 0, RunKind::Blank);
    if word_at(line, a, "\"action\""@) {
        let c = a + 8 + run_len(line, a + 8, RunKind::Blank);
        if c < line.len() && line[c] == ':' { c + 1 + run_len(line, c + 1, RunKind::Blank) } else { -1 }
    } else {
        a
    }
}

/// A generated nanoflow action entry: `() => require(` with a quoted path that starts with
/// `prefix`, then `).` and the action's name, an optional `,`, and the end of the line.
pub open spec fn require_match(line: Seq<char>, prefix: Seq<char>) -> Option<LineMatch> {
    let b = arrow_start(line);
    let c = b + 2 + run_len(line, b + 2, RunKind::Blank);
    let d = c + 2 + run_len(line, c + 2, RunKind::Blank);
    let p = d + 8;
    let start = p + 1 + prefix.len();
    let n = run_len(line, start, RunKind::Asset);
    let e = start + n;
    let j = e + 4 + run_len(line, e + 4, RunKind::Ident);
    let k = if j < line.len() && line[j] == ',' { j + 1 } else { j };
    if b >= 0 && word_at(line, b, "()"@) && word_at(line, c, "=>"@) && word_at(line, d, "require("@)
        && p < line.len() && is_quote(line[p]) && word_at(line, p + 1, prefix) && n >= 1
        && e + 3 < line.len() && is_quote(line[e]) && line[e + 1] == ')' && line[e + 2] == '.' && is_ident_start(line[e + 3])
        && line_end_at(line, k + run_len(line, k, RunKind::Blank)) {
        Some(LineMatch { quote_at: p as usize, asset_start: start as usize, asset_end: e as usize })
    } else {
        None
    }
}

/// Matches a generated nanoflow action line; `prefix` is the share path of the project's
/// JavaScript sources.
pub fn match_require(line: &Vec<char>, prefix: &Vec<char>) -> (r: Option<LineMatch>)
    ensures
        r == require_match(line@, prefix@),
        r matches Some(m) ==> m.quote_at < m.asset_start <= m.asset_end < line@.len(),
{
    let len = line.len();
    assert(line@.len() == len);
    proof {
        reveal_strlit("\"action\"");
        reveal_strlit("()");
        reveal_strlit("=>");
        reveal_strlit("require(");
    }
    let a = skip_run(line, 0, RunKind::Blank);
    let b = if has_word_at(line, a, "\"action\"") {
        assert("\"action\""@.len() == 8);
        let c = skip_run(line, a + 8, RunKind::Blank);
        if c < line.len() && line[c] == ':' {
            skip_run(line, c + 1, RunKind::Blank)
        } else {
            return None;
        }
    } else {
        a
    };
    assert(b as int == arrow_start(line@));
    if !has_word_at(line, b, "()") {
        return None;
    }
    let c = skip_run(line, b + 2, RunKind::Blank);
    if !has_word_at(line, c, "=>") {
        return None;
    }
    let d = skip_run(line, c + 2, RunKind::Blank);
    if !has_word_at(line, d, "require(") {
        return None;
    }
    let p = d + 8;
    if !(p < line.len() && (line[p] == '"' || line[p] == '\'')) {
        return None;
    }
    if !has_seq_at(line, p + 1, prefix) {
        return None;
    }
    let start = p + 1 + prefix.len();
    let e = skip_run(line, start, RunKind::Asset);
    if e == start || !(e < line.len() && line.len() - e > 3) || !(line[e] == '"' || line[e] == '\'') || line[e + 1] != ')' || line[e + 2] != '.' {
        return None;
    }
    let first = line[e + 3];
    if !(('a' <= first && first <= 'z') || ('A' <= first && first <= 'Z') || first == '_' || first == '$') {
        return None;
    }
    let j = skip_run(line, e + 4, RunKind::Ident);
    let k = if j < line.len() && line[j] == ',' { j + 1 } else { j };
    let w = skip_run(line, k, RunKind::Blank);
    if !(w == line.len() || (w + 1 == line.len() && line[w] == '\r')) {
        return None;
    }
    Some(LineMatch { quote_at: p, asset_start: start, asset_end: e })
}


/// The asset path holds none of `\`, `%`, `?`, `#` or NUL.
pub open spec fn plain_asset(asset: Seq<char>) -> bool {
    !asset.contains('\\') && !asset.contains('%') && !asset.contains('?') && !asset.contains('#') && !asset.contains('\0')
}

/// Every `/`-separated part of the path is a real name: not empty, `.` or `..`.
pub open spec fn direct_parts(asset: Seq<char>) -> bool {
    forall|i: int| 0 <= i < split_spec(asset, '/').len() ==> {
        let part = #[trigger] split_spec(asset, '/')[i];
        part.len() > 0 && part != "."@ && part != ".."@
    }
}

/// A widget asset the rewrite accepts: a plain, direct path to a `.js`, `.mjs` or `.css`
/// file.
pub open spec fn widget_asset_ok(asset: Seq<char>) -> bool {
    &&& plain_asset(asset)
    &&& direct_parts(asset)
    &&& (crate::paths::extension_spec(asset) == Some("js"@) || crate::paths::extension_spec(asset) == Some("mjs"@)
        || crate::paths::extension_spec(asset) == Some("css"@))
}

/// An action path the rewrite accepts: a plain, direct module path without `.js`.
pub open spec fn action_asset_ok(asset: Seq<char>) -> bool {
    &&& plain_asset(asset)
    &&& asset.len() > 0
    &&& !crate::text::has_suffix(asset, ".js"@)
    &&& direct_parts(asset)
}

fn is_plain_asset(asset: &Vec<char>) -> (b: bool)
    ensures
        b == plain_asset(asset@),
{
    !crate::text::contains_char(asset, '\\') && !crate::text::contains_char(asset, '%') && !crate::text::contains_char(asset, '?')
        && !crate::text::contains_char(asset, '#') && !crate::text::contains_char(asset, '\0')
}

fn has_direct_parts(asset: &Vec<char>) -> (b: bool)
    ensures
        b == direct_parts(asset@),
{
    proof {
        reveal_strlit(".");
        reveal_strlit("..");
    }
    let parts = split_char(asset, '/');
    let mut i: usize = 0;
    while i < parts.len()
        invariant
            i <= parts@.len(),
            parts@.len() == split_spec(asset@, '/').len(),
            forall|j: int| 0 <= j < parts@.len() ==> (#[trigger] parts@[j])@ == split_spec(asset@, '/')[j],
            forall|j: int| 0 <= j < i ==> {
                let part = #[trigger] split_spec(asset@, '/')[j];
                part.len() > 0 && part != "."@ && part != ".."@
            },
        decreases parts@.len() - i,
    {
        let part = &parts[i];
        if part.len() == 0 || crate::text::equals_str(part, ".") || crate::text::equals_str(part, "..") {
            return false;
        }
        i = i + 1;
    }
    true
}

fn is_widget_asset(asset: &Vec<char>) -> (b: bool)
    ensures
        b == widget_asset_ok(asset@),
{
    if !is_plain_asset(asset) || !has_direct_parts(asset) {
        return false;
    }
    let text = string_from(asset);
    match crate::paths::extension(&text) {
        Some(e) => crate::text::equals_str(&e, "js") || crate::text::equals_str(&e, "mjs") || crate::text::equals_str(&e, "css"),
        None => false,
    }
}

fn is_action_asset(asset: &Vec<char>) -> (b: bool)
    ensures
        b == action_asset_ok(asset@),
{
    is_plain_asset(asset) && asset.len() > 0 && !crate::text::ends_with_str(asset, ".js") && has_direct_parts(asset)
}

/// `depth` times `../`.
pub open spec fn up_levels(depth: nat) -> Seq<char>
    decreases depth,
{
    if depth == 0 { Seq::empty() } else { up_levels((depth - 1) as nat) + "../"@ }
}

/// The path with every `/` written as the two characters `\\`.
pub open spec fn escaped_backslashes(asset: Seq<char>) -> Seq<char>
    decreases asset.len(),
{
    if asset.len() == 0 {
        Seq::empty()
    } else {
        escaped_backslashes(asset.drop_last()) + (if asset.last() == '/' { seq!['\\', '\\'] } else { seq![asset.last()] })
    }
}

/// The import rewritten to the widget `depth` levels up, keeping its quotes and closing.
pub open spec fn widget_rewrite(line: Seq<char>, m: LineMatch, depth: nat) -> Seq<char> {
    line.take(m.quote_at as int) + seq![line[m.quote_at as int]] + up_levels(depth) + "widgets/"@
        + line.subrange(m.asset_start as int, m.asset_end as int) + line.skip(m.asset_end as int)
}

/// The action entry rewritten to the UNC path of its `.js` file.
pub open spec fn action_rewrite(line: Seq<char>, m: LineMatch, action_unc: Seq<char>) -> Seq<char> {
    line.take(m.quote_at as int) + seq![line[m.quote_at as int]] + action_unc
        + escaped_backslashes(line.subrange(m.asset_start as int, m.asset_end as int)) + ".js"@ + line.skip(m.asset_end as int)
}

fn push_range(out: &mut Vec<char>, line: &Vec<char>, from: usize, to: usize)
    requires
        from <= to <= line@.len(),
    ensures
        final(out)@ == old(out)@ + line@.subrange(from as int, to as int),
{
    let mut i = from;
    while i < to
        invariant
            from <= i <= to,
            to <= line@.len(),
            out@ == old(out)@ + line@.subrange(from as int, i as int),
        decreases to - i,
    {
        out.push(line[i]);
        assert(line@.subrange(from as int, i + 1) =~= line@.subrange(from as int, i as int).push(line@[i as int]));
        i = i + 1;
    }
}

fn rewrite_widget(line: &Vec<char>, m: LineMatch, depth: usize) -> (r: Vec<char>)
    requires
        m.quote_at < m.asset_start <= m.asset_end <= line@.len(),
    ensures
        r@ == widget_rewrite(line@, m, depth as nat),
{
    let mut out: Vec<char> = Vec::new();
    push_range(&mut out, line, 0, m.quote_at);
    out.push(line[m.quote_at]);
    let mut d: usize = 0;
    while d < depth
        invariant
            d <= depth,
            m.quote_at < line@.len(),
            out@ == line@.subrange(0, m.quote_at as int) + seq![line@[m.quote_at as int]] + up_levels(d as nat),
        decreases depth - d,
    {
        push_str(&mut out, "../");
        d = d + 1;
    }
    push_str(&mut out, "widgets/");
    push_range(&mut out, line, m.asset_start, m.asset_end);
    push_range(&mut out, line, m.asset_end, line.len());
    proof {
        assert(line@.subrange(0, m.quote_at as int) =~= line@.take(m.quote_at as int));
        assert(line@.subrange(m.asset_end as int, line@.len() as int) =~= line@.skip(m.asset_end as int));
    }
    out
}

fn rewrite_action(line: &Vec<char>, m: LineMatch, action_unc: &Vec<char>) -> (r: Vec<char>)
    requires
        m.quote_at < m.asset_start <= m.asset_end <= line@.len(),
    ensures
        r@ == action_rewrite(line@, m, action_unc@),
{
    let mut out: Vec<char> = Vec::new();
    push_range(&mut out, line, 0, m.quote_at);
    out.push(line[m.quote_at]);
    push_all(&mut out, action_unc);
    let ghost head = out@;
    let mut i = m.asset_start;
    while i < m.asset_end
        invariant
            m.asset_start <= i <= m.asset_end,
            m.asset_end <= line@.len(),
            out@ == head + escaped_backslashes(line@.subrange(m.asset_start as int, i as int)),
        decreases m.asset_end - i,
    {
        proof {
            assert(line@.subrange(m.asset_start as int, i + 1).drop_last() =~= line@.subrange(m.asset_start as int, i as int));
        }
        if line[i] == '/' {
            out.push('\\');
            out.push('\\');
            proof {
                assert(head + escaped_backslashes(line@.subrange(m.asset_start as int, i + 1))
                    =~= head + escaped_backslashes(line@.subrange(m.asset_start as int, i as int)) + seq!['\\', '\\']);
            }
        } else {
            out.push(line[i]);
            proof {
                assert(head + escaped_backslashes(line@.subrange(m.asset_start as int, i + 1))
                    =~= head + escaped_backslashes(line@.subrange(m.asset_start as int, i as int)) + seq![line@[i as int]]);
            }
        }
        i = i + 1;
    }
    push_str(&mut out, ".js");
    push_range(&mut out, line, m.asset_end, line.len());
    proof {
        assert(line@.subrange(0, m.quote_at as int) =~= line@.take(m.quote_at as int));
        assert(line@.subrange(m.asset_end as int, line@.len() as int) =~= line@.skip(m.asset_end as int));
    }
    out
}


/// Where line `k` of `lines` starts in the text they were split from.
pub open spec fn line_start(lines: Seq<Seq<char>>, k: int) -> int
    decreases k,
{
    if k <= 0 { 0 } else { line_start(lines, k - 1) + lines[k - 1].len() + 1 }
}

proof fn lemma_line_start_prefix(p: Seq<Seq<char>>, q: Seq<Seq<char>>, k: int)
    requires
        0 <= k <= p.len(),
        k <= q.len(),
        forall|i: int| 0 <= i < k ==> (#[trigger] q[i]).len() == p[i].len(),
    ensures
        line_start(q, k) == line_start(p, k),
    decreases k,
{
    if k > 0 {
        lemma_line_start_prefix(p, q, k - 1);
    }
}

/// The lines of a text split at line feeds start and end inside it; the last ends at its
/// end.
pub proof fn lemma_split_lines_fit(s: Seq<char>)
    ensures
        forall|k: int| 0 <= k < split_spec(s, '\n').len()
            ==> line_start(split_spec(s, '\n'), k) + (#[trigger] split_spec(s, '\n')[k]).len() <= s.len(),
        line_start(split_spec(s, '\n'), split_spec(s, '\n').len() - 1) + split_spec(s, '\n').last().len() == s.len(),
    decreases s.len(),
{
    crate::text::lemma_split_nonempty(s, '\n');
    if s.len() > 0 {
        let p = split_spec(s.drop_last(), '\n');
        lemma_split_lines_fit(s.drop_last());
        crate::text::lemma_split_nonempty(s.drop_last(), '\n');
        let q = split_spec(s, '\n');
        if s.last() == '\n' {
            assert forall|k: int| 0 <= k < q.len() implies line_start(q, k) + (#[trigger] q[k]).len() <= s.len() by {
                lemma_line_start_prefix(p, q, if k < p.len() { k } else { p.len() as int });
                if k == p.len() {
                    lemma_line_start_prefix(p, q, p.len() - 1);
                }
            }
            lemma_line_start_prefix(p, q, p.len() - 1);
        } else {
            assert forall|k: int| 0 <= k < q.len() implies line_start(q, k) + (#[trigger] q[k]).len() <= s.len() by {
                lemma_line_start_prefix(p, q, k);
            }
            lemma_line_start_prefix(p, q, p.len() - 1);
        }
    }
}

/// The lines joined with line feeds.
pub open spec fn join_lines(lines: Seq<Seq<char>>) -> Seq<char>
    decreases lines.len(),
{
    if lines.len() == 0 {
        Seq::empty()
    } else if lines.len() == 1 {
        lines[0]
    } else {
        join_lines(lines.drop_last()) + seq!['\n'] + lines.last()
    }
}

/// Which generated references a pass rewrites: widget imports `depth` levels below the web
/// root, or action requires to their UNC path.
pub enum PassRule {
    Widget { prefix: Seq<char>, depth: nat },
    Action { prefix: Seq<char>, unc: Seq<char> },
}

/// What a pass over the lines produced so far: the lines out, how many were rewritten, the
/// lexer, and whether an unsupported reference stopped it.
pub struct PassView {
    pub out: Seq<Seq<char>>,
    pub count: nat,
    pub cursor: int,
    pub state: LexState,
    pub failed: bool,
}

pub open spec fn rule_match(rule: PassRule, line: Seq<char>) -> Option<LineMatch> {
    match rule {
        PassRule::Widget { prefix, .. } => import_match(line, prefix),
        PassRule::Action { prefix, .. } => require_match(line, prefix),
    }
}

pub open spec fn rule_accepts(rule: PassRule, asset: Seq<char>) -> bool {
    match rule {
        PassRule::Widget { .. } => widget_asset_ok(asset),
        PassRule::Action { .. } => action_asset_ok(asset),
    }
}

pub open spec fn rule_rewrite(rule: PassRule, line: Seq<char>, m: LineMatch) -> Seq<char> {
    match rule {
        PassRule::Widget { depth, .. } => widget_rewrite(line, m, depth),
        PassRule::Action { unc, .. } => action_rewrite(line, m, unc),
    }
}

/// One line of a pass: a matching line that stands in code is rewritten, or stops the pass
/// when its reference is unsupported; any other line is kept.
pub open spec fn pass_step(text: Seq<char>, rule: PassRule, line: Seq<char>, start: int, st: PassView) -> PassView {
    if st.failed {
        st
    } else {
        match rule_match(rule, line) {
            None => PassView { out: st.out.push(line), ..st },
            Some(m) => {
                let (c, lexed) = lex_run(text, st.cursor, st.state, start);
                if lexed != LexState::Code {
                    PassView { out: st.out.push(line), cursor: c, state: lexed, ..st }
                } else if line[m.quote_at as int] != line[m.asset_end as int]
                    || !rule_accepts(rule, line.subrange(m.asset_start as int, m.asset_end as int)) {
                    PassView { cursor: c, state: lexed, failed: true, ..st }
                } else {
                    PassView { out: st.out.push(rule_rewrite(rule, line, m)), count: st.count + 1, cursor: c, state: lexed, failed: false }
                }
            },
        }
    }
}

/// The pass over the first `k` lines of the text.
pub open spec fn pass_upto(text: Seq<char>, rule: PassRule, k: nat) -> PassView
    decreases k,
{
    if k == 0 {
        PassView { out: Seq::empty(), count: 0, cursor: 0, state: LexState::Code, failed: false }
    } else {
        let lines = split_spec(text, '\n');
        pass_step(text, rule, lines[k - 1], line_start(lines, k - 1), pass_upto(text, rule, (k - 1) as nat))
    }
}

/// What a pass gives: the rewritten text and how many references it rewrote, or nothing
/// when a reference in code is unsupported.
pub open spec fn pass_result(text: Seq<char>, rule: PassRule) -> Option<(Seq<char>, nat)> {
    let fin = pass_upto(text, rule, split_spec(text, '\n').len());
    if fin.failed { None } else { Some((join_lines(fin.out), fin.count)) }
}


proof fn lemma_failed_stays(text: Seq<char>, rule: PassRule, k: nat, n: nat)
    requires
        k <= n,
        pass_upto(text, rule, k).failed,
    ensures
        pass_upto(text, rule, n).failed,
    decreases n,
{
    if n > k {
        lemma_failed_stays(text, rule, k, (n - 1) as nat);
    }
}

/// Which generated references to rewrite, and to what.
pub enum Rewrite {
    /// Widget imports under the share path `prefix`, `depth` levels below the web root.
    Widget { prefix: Vec<char>, depth: usize },
    /// Action requires under the share path `prefix`, rewritten to the UNC path `unc`.
    Action { prefix: Vec<char>, unc: Vec<char> },
}

impl Rewrite {
    pub open spec fn rule(&self) -> PassRule {
        match self {
            Rewrite::Widget { prefix, depth } => PassRule::Widget { prefix: prefix@, depth: *depth as nat },
            Rewrite::Action { prefix, unc } => PassRule::Action { prefix: prefix@, unc: unc@ },
        }
    }
}

/// The lines a pass has already written do not change what it does with the next line.
proof fn lemma_pass_step_out(text: Seq<char>, rule: PassRule, line: Seq<char>, start: int, st: PassView)
    requires
        !st.failed,
    ensures
        ({
            let fresh = pass_step(text, rule, line, start, PassView { out: Seq::empty(), ..st });
            let step = pass_step(text, rule, line, start, st);
            &&& step.failed == fresh.failed
            &&& step.count == fresh.count
            &&& step.cursor == fresh.cursor
            &&& step.state == fresh.state
            &&& !fresh.failed ==> fresh.out.len() == 1 && step.out == st.out.push(fresh.out[0])
        }),
{
    let fresh = pass_step(text, rule, line, start, PassView { out: Seq::empty(), ..st });
    if !fresh.failed {
        assert(fresh.out.len() == 1);
    }
}

fn pass_line(text: &Vec<char>, rewrite: &Rewrite, line: &Vec<char>, offset: usize, lexer: &mut CodeLexer, count: &mut usize) -> (r: Option<Vec<char>>)
    requires
        offset + line@.len() <= text@.len(),
        old(lexer).cursor <= text@.len(),
        old(count) < usize::MAX,
    ensures
        ({
            let nx = pass_step(text@, rewrite.rule(), line@, offset as int,
                PassView { out: Seq::empty(), count: *old(count) as nat, cursor: old(lexer).cursor as int, state: old(lexer).state, failed: false });
            &&& nx.failed <==> r is None
            &&& !nx.failed ==> (r matches Some(x) && x@ == nx.out[0] && nx.out.len() == 1
                && *final(count) as nat == nx.count && final(lexer).cursor as int == nx.cursor && final(lexer).state == nx.state)
        }),
        final(lexer).cursor <= text@.len(),
        *final(count) <= *old(count) + 1,
{
    let matched = match rewrite {
        Rewrite::Widget { prefix, .. } => match_import(line, prefix),
        Rewrite::Action { prefix, .. } => match_require(line, prefix),
    };
    proof {
        assert(line@.subrange(0, line@.len() as int) =~= line@);
    }
    match matched {
        None => Some(crate::text::slice(line, 0, line.len())),
        Some(m) => {
            let code = lexer.is_code_at(text, offset);
            if !code {
                return Some(crate::text::slice(line, 0, line.len()));
            }
            let asset = crate::text::slice(line, m.asset_start, m.asset_end);
            let accepted = match rewrite {
                Rewrite::Widget { .. } => is_widget_asset(&asset),
                Rewrite::Action { .. } => is_action_asset(&asset),
            };
            if line[m.quote_at] != line[m.asset_end] || !accepted {
                return None;
            }
            *count = *count + 1;
            match rewrite {
                Rewrite::Widget { depth, .. } => Some(rewrite_widget(line, m, *depth)),
                Rewrite::Action { unc, .. } => Some(rewrite_action(line, m, unc)),
            }
        },
    }
}

/// Rewrites the generated references of one kind in a JavaScript text, line by line.
#[verifier::rlimit(30)]
pub fn run_pass(text: &Vec<char>, rewrite: &Rewrite) -> (r: Option<(Vec<char>, usize)>)
    ensures
        match pass_result(text@, rewrite.rule()) {
            Some((t, n)) => r matches Some(x) && x.0@ == t && x.1 == n,
            None => r is None,
        },
{
    let text_len = text.len();
    assert(text@.len() == text_len);
    let lines = split_char(text, '\n');
    proof {
        lemma_split_lines_fit(text@);
        crate::text::lemma_split_nonempty(text@, '\n');
    }
    let ghost all = split_spec(text@, '\n');
    let ghost rule = rewrite.rule();
    let mut lexer = CodeLexer::new();
    let mut out: Vec<char> = Vec::new();
    let ghost mut out_lines: Seq<Seq<char>> = Seq::empty();
    let mut count: usize = 0;
    let mut offset: usize = 0;
    let mut i: usize = 0;
    while i < lines.len()
        invariant
            all == split_spec(text@, '\n'),
            rule == rewrite.rule(),
            lines@.len() == all.len(),
            forall|j: int| 0 <= j < lines@.len() ==> (#[trigger] lines@[j])@ == all[j],
            forall|k: int| 0 <= k < all.len() ==> line_start(all, k) + (#[trigger] all[k]).len() <= text@.len(),
            text@.len() <= usize::MAX,
            i <= lines@.len(),
            pass_upto(text@, rule, i as nat) == (PassView { out: out_lines, count: count as nat, cursor: lexer.cursor as int, state: lexer.state, failed: false }),
            out@ == join_lines(out_lines),
            out_lines.len() == i,
            i < lines@.len() ==> offset == line_start(all, i as int),
            count <= i,
            lexer.cursor <= text@.len(),
        decreases lines@.len() - i,
    {
        let line = &lines[i];
        assert(line@ == all[i as int]);
        assert(offset + line@.len() <= text@.len());
        let ghost before = PassView { out: out_lines, count: count as nat, cursor: lexer.cursor as int, state: lexer.state, failed: false };
        proof {
            lemma_pass_step_out(text@, rule, line@, offset as int, before);
        }
        let next_line = match pass_line(text, rewrite, line, offset, &mut lexer, &mut count) {
            Some(x) => x,
            None => {
                proof {
                    lemma_failed_stays(text@, rule, (i + 1) as nat, all.len());
                }
                return None;
            },
        };
        if i > 0 {
            out.push('\n');
        }
        push_all(&mut out, &next_line);
        proof {
            let pushed = out_lines.push(next_line@);
            assert(pushed.drop_last() =~= out_lines);
            out_lines = pushed;
        }
        if i + 1 < lines.len() {
            assert(line_start(all, i + 1) + all[i + 1].len() <= text@.len());
            offset = offset + line.len() + 1;
        }
        i = i + 1;
    }
    Some((out, count))
}


pub const MAX_FILE_BYTES: u64 = 8388608;
pub const MAX_ENTRIES: usize = 10000;
pub const MAX_SCAN_BYTES: u64 = 67108864;
pub const MAX_DEPTH: usize = 8;
pub const WINBOAT_SHARE: &'static str = "\\\\host.lan\\Data";

/// Why generated assets cannot be normalized.
#[derive(Debug, Clone, Copy, PartialEq, Eq, Structural)]
pub enum AssetError {
    ShareUnsupported,
    ProjectOutsideWorkspace,
    ProjectPathIndirect,
    ProjectPathNotUtf8,
    ProjectPathUnsafe,
    ProjectNotBelowWorkspace,
    WidgetImportUnsupported,
    ActionPathUnsupported,
    ScriptNotUtf8,
    NestingTooDeep,
    TooManyEntries,
    SymlinkUnsupported,
    FileUnsupported,
    ReadLimitExceeded,
}

impl AssetError {
    pub open spec fn message_spec(self) -> Seq<char> {
        match self {
            AssetError::ShareUnsupported => "asset normalization requires the WinBoat host.lan Data share"@,
            AssetError::ProjectOutsideWorkspace => "asset normalization requires a project in the configured shared workspace"@,
            AssetError::ProjectPathIndirect => "the selected project path must be direct"@,
            AssetError::ProjectPathNotUtf8 => "the project path must be UTF-8"@,
            AssetError::ProjectPathUnsafe => "the project path cannot be represented safely in generated imports"@,
            AssetError::ProjectNotBelowWorkspace => "the project must be below the shared workspace"@,
            AssetError::WidgetImportUnsupported => "the generated widget import has an unsupported path"@,
            AssetError::ActionPathUnsupported => "the generated JavaScript action path is unsupported"@,
            AssetError::ScriptNotUtf8 => "generated JavaScript must be UTF-8"@,
            AssetError::NestingTooDeep => "generated asset directory nesting exceeds the limit"@,
            AssetError::TooManyEntries => "generated asset entry count exceeds the limit"@,
            AssetError::SymlinkUnsupported => "generated asset symlinks are unsupported"@,
            AssetError::FileUnsupported => "generated assets must be direct, single-link files of at most 8 MiB"@,
            AssetError::ReadLimitExceeded => "generated asset scan exceeds the 64 MiB read limit"@,
        }
    }

    pub fn message(self) -> (m: &'static str)
        ensures
            m@ == self.message_spec(),
    {
        match self {
            AssetError::ShareUnsupported => "asset normalization requires the WinBoat host.lan Data share",
            AssetError::ProjectOutsideWorkspace => "asset normalization requires a project in the configured shared workspace",
            AssetError::ProjectPathIndirect => "the selected project path must be direct",
            AssetError::ProjectPathNotUtf8 => "the project path must be UTF-8",
            AssetError::ProjectPathUnsafe => "the project path cannot be represented safely in generated imports",
            AssetError::ProjectNotBelowWorkspace => "the project must be below the shared workspace",
            AssetError::WidgetImportUnsupported => "the generated widget import has an unsupported path",
            AssetError::ActionPathUnsupported => "the generated JavaScript action path is unsupported",
            AssetError::ScriptNotUtf8 => "generated JavaScript must be UTF-8",
            AssetError::NestingTooDeep => "generated asset directory nesting exceeds the limit",
            AssetError::TooManyEntries => "generated asset entry count exceeds the limit",
            AssetError::SymlinkUnsupported => "generated asset symlinks are unsupported",
            AssetError::FileUnsupported => "generated assets must be direct, single-link files of at most 8 MiB",
            AssetError::ReadLimitExceeded => "generated asset scan exceeds the 64 MiB read limit",
        }
    }
}

/// Normalization runs only for the WinBoat share, named in any letter case.
pub fn share_supported(windows_share: &str) -> (b: bool)
    ensures
        b == crate::projects::eq_ignore_ascii_case(windows_share@, WINBOAT_SHARE@),
{
    let chars = to_chars(windows_share);
    crate::projects::eq_ignore_case(&chars, WINBOAT_SHARE)
}

/// A project directory name that can stand in a generated import.
pub open spec fn project_name_safe(name: Seq<char>) -> bool {
    !name.contains('"') && !name.contains('\'') && !name.contains('\\') && !name.contains('\n') && !name.contains('\r')
        && !name.contains('%') && !name.contains('?') && !name.contains('#')
}

pub fn check_project_name(name: &str) -> (r: Result<(), AssetError>)
    ensures
        r is Ok <==> project_name_safe(name@),
        r is Err ==> r == Err::<(), AssetError>(AssetError::ProjectPathUnsafe),
{
    let c = to_chars(name);
    if crate::text::contains_char(&c, '"') || crate::text::contains_char(&c, '\'') || crate::text::contains_char(&c, '\\')
        || crate::text::contains_char(&c, '\n') || crate::text::contains_char(&c, '\r') || crate::text::contains_char(&c, '%')
        || crate::text::contains_char(&c, '?') || crate::text::contains_char(&c, '#') {
        Err(AssetError::ProjectPathUnsafe)
    } else {
        Ok(())
    }
}

/// The share paths generated references name the project by, and the UNC path actions are
/// rewritten to.
#[derive(Debug)]
pub struct ImportTargets {
    pub widget_prefix: Vec<char>,
    pub action_prefix: Vec<char>,
    pub action_unc: Vec<char>,
}

/// The text with every `\` doubled.
pub open spec fn doubled_backslashes(s: Seq<char>) -> Seq<char>
    decreases s.len(),
{
    if s.len() == 0 {
        Seq::empty()
    } else {
        doubled_backslashes(s.drop_last()) + (if s.last() == '\\' { seq!['\\', '\\'] } else { seq![s.last()] })
    }
}

pub open spec fn texts_of(names: Seq<String>) -> Seq<Seq<char>> {
    names.map_values(|n: String| n@)
}

fn joined(names: &Vec<String>, sep: char) -> (r: Vec<char>)
    ensures
        r@ == crate::paths::join_with(texts_of(names@), sep),
{
    let mut out: Vec<char> = Vec::new();
    let mut i: usize = 0;
    while i < names.len()
        invariant
            i <= names@.len(),
            out@ == crate::paths::join_with(texts_of(names@.take(i as int)), sep),
        decreases names@.len() - i,
    {
        let ghost before = texts_of(names@.take(i as int));
        let name = to_chars(&names[i]);
        if i > 0 {
            out.push(sep);
        }
        push_all(&mut out, &name);
        proof {
            let after = texts_of(names@.take(i + 1));
            assert(after.drop_last() =~= before);
            assert(after.last() == names@[i as int]@);
            if i == 0 {
                assert(out@ =~= after[0]);
            }
        }
        i = i + 1;
    }
    proof {
        assert(names@.take(names@.len() as int) =~= names@);
    }
    out
}

/// The share paths and UNC path for a project at `names` below the shared workspace; the
/// project must be below it.
pub fn import_targets(names: &Vec<String>) -> (r: Result<ImportTargets, AssetError>)
    ensures
        names@.len() == 0 <==> r is Err,
        r is Err ==> r == Err::<ImportTargets, AssetError>(AssetError::ProjectNotBelowWorkspace),
        r matches Ok(t) ==> {
            &&& t.widget_prefix@ == "//host.lan/Data/"@ + crate::paths::join_with(texts_of(names@), '/') + "/deployment/web/widgets/"@
            &&& t.action_prefix@ == "//host.lan/Data/"@ + crate::paths::join_with(texts_of(names@), '/') + "/javascriptsource/"@
            &&& t.action_unc@ == doubled_backslashes("\\\\host.lan\\Data\\"@ + crate::paths::join_with(texts_of(names@), '\\') + "\\javascriptsource\\"@)
        },
{
    if names.len() == 0 {
        return Err(AssetError::ProjectNotBelowWorkspace);
    }
    let slash = joined(names, '/');
    let mut widget_prefix = to_chars("//host.lan/Data/");
    push_all(&mut widget_prefix, &slash);
    push_str(&mut widget_prefix, "/deployment/web/widgets/");
    let mut action_prefix = to_chars("//host.lan/Data/");
    push_all(&mut action_prefix, &slash);
    push_str(&mut action_prefix, "/javascriptsource/");
    let back = joined(names, '\\');
    let mut unc = to_chars("\\\\host.lan\\Data\\");
    push_all(&mut unc, &back);
    push_str(&mut unc, "\\javascriptsource\\");
    let mut action_unc: Vec<char> = Vec::new();
    let mut i: usize = 0;
    while i < unc.len()
        invariant
            i <= unc@.len(),
            action_unc@ == doubled_backslashes(unc@.take(i as int)),
        decreases unc@.len() - i,
    {
        proof {
            assert(unc@.take(i + 1).drop_last() =~= unc@.take(i as int));
        }
        if unc[i] == '\\' {
            action_unc.push('\\');
            action_unc.push('\\');
            proof {
                assert(action_unc@ =~= doubled_backslashes(unc@.take(i + 1)));
            }
        } else {
            action_unc.push(unc[i]);
            proof {
                assert(action_unc@ =~= doubled_backslashes(unc@.take(i + 1)));
            }
        }
        i = i + 1;
    }
    proof {
        assert(unc@.take(unc@.len() as int) =~= unc@);
    }
    Ok(ImportTargets { widget_prefix, action_prefix, action_unc })
}

/// What normalizing a generated script `depth` levels below the web root gives: the widget
/// imports rewritten, then the action requires of that result.
pub open spec fn normalized(text: Seq<char>, depth: nat, targets: ImportTargets) -> Result<(Seq<char>, nat), AssetError> {
    match pass_result(text, PassRule::Widget { prefix: targets.widget_prefix@, depth }) {
        None => Err(AssetError::WidgetImportUnsupported),
        Some((first, imports)) => match pass_result(first, PassRule::Action { prefix: targets.action_prefix@, unc: targets.action_unc@ }) {
            None => Err(AssetError::ActionPathUnsupported),
            Some((second, actions)) => Ok((second, imports + actions)),
        },
    }
}

/// Rewrites the generated widget imports and action requires of a script; returns the new
/// text and how many references changed (a count that, like any unchecked sum of two
/// `usize` counts, wraps past `usize::MAX`).
pub fn normalize(text: &str, depth: usize, targets: &ImportTargets) -> (r: Result<(String, usize), AssetError>)
    ensures
        match normalized(text@, depth as nat, *targets) {
            Ok((t, n)) => r matches Ok(x) && x.0@ == t
                && x.1 == (if n <= usize::MAX { n } else { (n - usize::MAX - 1) as nat }),
            Err(e) => r == Err::<(String, usize), AssetError>(e),
        },
{
    let chars = to_chars(text);
    let widgets = Rewrite::Widget { prefix: crate::text::slice(&targets.widget_prefix, 0, targets.widget_prefix.len()), depth };
    proof {
        assert(targets.widget_prefix@.subrange(0, targets.widget_prefix@.len() as int) =~= targets.widget_prefix@);
        assert(targets.action_prefix@.subrange(0, targets.action_prefix@.len() as int) =~= targets.action_prefix@);
        assert(targets.action_unc@.subrange(0, targets.action_unc@.len() as int) =~= targets.action_unc@);
    }
    let (first, imports) = match run_pass(&chars, &widgets) {
        Some(done) => done,
        None => {
            return Err(AssetError::WidgetImportUnsupported);
        },
    };
    let actions = Rewrite::Action {
        prefix: crate::text::slice(&targets.action_prefix, 0, targets.action_prefix.len()),
        unc: crate::text::slice(&targets.action_unc, 0, targets.action_unc.len()),
    };
    let (second, action_count) = match run_pass(&first, &actions) {
        Some(done) => done,
        None => {
            return Err(AssetError::ActionPathUnsupported);
        },
    };
    Ok((string_from(&second), imports.wrapping_add(action_count)))
}


/// The identity and timestamps of a generated file, as its metadata gives them.
#[derive(Debug, Clone, Copy, PartialEq, Eq, Structural)]
pub struct Revision {
    pub device: u64,
    pub inode: u64,
    pub length: u64,
    pub modified_seconds: i64,
    pub modified_nanos: i64,
    pub changed_seconds: i64,
    pub changed_nanos: i64,
}

/// What a scan does with a generated script.
#[derive(Debug, Clone, Copy, PartialEq, Eq, Structural)]
pub enum FileVerdict {
    /// It was normalized, or needed nothing, at this very revision.
    Done,
    /// It is new or changed since the last scan: wait for it to settle.
    Pending,
    /// It stood still across two scans: read and normalize it.
    Normalize,
}

/// A file is read only once it stood unchanged across two scans, and not again while it
/// keeps the revision it was finished at.
pub fn file_verdict(current: Revision, completed: Option<Revision>, observed: Option<Revision>) -> (v: FileVerdict)
    ensures
        v == (if completed == Some(current) { FileVerdict::Done }
            else if observed != Some(current) { FileVerdict::Pending }
            else { FileVerdict::Normalize }),
{
    if completed == Some(current) {
        FileVerdict::Done
    } else if observed != Some(current) {
        FileVerdict::Pending
    } else {
        FileVerdict::Normalize
    }
}

/// What one scan did: scripts rewritten, references rewritten, scripts left for the next scan.
#[derive(Debug, Clone, Copy, PartialEq, Eq, Structural)]
pub struct ScanTotals {
    pub rewritten_files: usize,
    pub rewritten_imports: usize,
    pub pending_files: usize,
}

/// The budget one scan spends: entries seen and bytes read.
#[derive(Debug, Clone, Copy, PartialEq, Eq, Structural)]
pub struct ScanBudget {
    pub entries: usize,
    pub bytes: u64,
}

/// A directory is scanned only up to `MAX_DEPTH` levels below the web root.
pub fn check_depth(depth: usize) -> (r: Result<(), AssetError>)
    ensures
        r is Ok <==> depth <= MAX_DEPTH,
        r is Err ==> r == Err::<(), AssetError>(AssetError::NestingTooDeep),
{
    if depth > MAX_DEPTH { Err(AssetError::NestingTooDeep) } else { Ok(()) }
}

/// Counts one more directory entry; a scan sees at most `MAX_ENTRIES`.
pub fn count_entry(budget: &mut ScanBudget) -> (r: Result<(), AssetError>)
    requires
        old(budget).entries <= MAX_ENTRIES,
    ensures
        final(budget).entries == old(budget).entries + 1,
        final(budget).bytes == old(budget).bytes,
        r is Ok <==> final(budget).entries <= MAX_ENTRIES,
        r is Err ==> r == Err::<(), AssetError>(AssetError::TooManyEntries),
{
    budget.entries = budget.entries + 1;
    if budget.entries > MAX_ENTRIES { Err(AssetError::TooManyEntries) } else { Ok(()) }
}

/// A generated script is a regular file with one link and at most `MAX_FILE_BYTES`.
pub fn check_script_file(is_file: bool, links: u64, length: u64) -> (r: Result<(), AssetError>)
    ensures
        r is Ok <==> (is_file && links == 1 && length <= MAX_FILE_BYTES),
        r is Err ==> r == Err::<(), AssetError>(AssetError::FileUnsupported),
{
    if !is_file || links != 1 || length > MAX_FILE_BYTES { Err(AssetError::FileUnsupported) } else { Ok(()) }
}

/// Counts the bytes of a script about to be read; a scan reads at most `MAX_SCAN_BYTES`.
pub fn count_read(budget: &mut ScanBudget, length: u64) -> (r: Result<(), AssetError>)
    requires
        old(budget).bytes <= MAX_SCAN_BYTES,
        length <= MAX_FILE_BYTES,
    ensures
        final(budget).bytes == old(budget).bytes + length,
        final(budget).entries == old(budget).entries,
        r is Ok <==> final(budget).bytes <= MAX_SCAN_BYTES,
        r is Err ==> r == Err::<(), AssetError>(AssetError::ReadLimitExceeded),
{
    budget.bytes = budget.bytes + length;
    if budget.bytes > MAX_SCAN_BYTES { Err(AssetError::ReadLimitExceeded) } else { Ok(()) }
}


/// Once a template literal starts, the lexer stays there: nothing after it counts as code.
pub proof fn lemma_template_is_final(s: Seq<char>, cursor: int, end: int)
    ensures
        lex_run(s, cursor, LexState::Template, end) == (cursor, LexState::Template),
{
}

} // verus!
