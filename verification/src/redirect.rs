//! The redirect manifest (`site/redirects.toml`): old URLs that the static
//! site keeps alive with a small "this page has moved" document.
//!
//! [`parse_redirects`] reads the manifest (a tiny TOML subset: `[[redirect]]`
//! tables with the string keys `from` and `to`), checks the shape of every
//! path and rejects a `from` declared twice. [`validate_against_nav`] then
//! checks the declarations against the pages of the site: a `from` may not
//! hide a real page and a `to` must name one.
use vstd::prelude::*;
use crate::node::Node;
use crate::text::{
    ascii_alnum, byte_len, decimal, exceeds_bytes, push_decimal, push_str_chars, chars_equal_str, chars_of, find_char, find_char_in, find_pair,
    find_pair_in, is_ascii_alnum, string_of, sub_chars, surround, trim, trim_chars, trim_end,
    trim_start,
    trim_start_chars,
};

verus! {

broadcast use vstd::seq_lib::group_seq_properties;

/// Manifest path, relative to the repository root.
pub const MANIFEST_REL_PATH: &'static str = "site/redirects.toml";

/// Largest accepted manifest, in bytes.
pub const MAX_INPUT_BYTES: usize = 1048576;

pub const MSG_CLOSE_DOUBLE: &'static str = "expected closing `]]`";
pub const MSG_CLOSE_SINGLE: &'static str = "expected closing `]`";
pub const MSG_EXPECTED_PAIR: &'static str = "expected `key = \"value\"`";
pub const MSG_EXPECTED_STRING: &'static str = "expected a double-quoted string value (this parser accepts no other TOML value type)";
pub const MSG_UNTERMINATED_STRING: &'static str = "unterminated string literal";
pub const MSG_UNTERMINATED_ESCAPE: &'static str = "unterminated escape sequence";
pub const MSG_OUTSIDE_TABLE: &'static str = "key-value pair outside of any table";

/// One `[[redirect]]` declaration.
#[derive(Debug, Clone, PartialEq, Eq)]
pub struct Redirect {
    /// Old URL: a site-absolute path that starts and ends with `/`.
    pub from: String,
    /// New URL: a site-absolute path; [`validate_against_nav`] checks that
    /// it names a page of the site.
    pub to: String,
}

/// The declarations of the manifest, in declaration order.
#[derive(Debug, Clone, PartialEq, Eq)]
pub struct Redirects {
    pub entries: Vec<Redirect>,
}

impl Default for Redirects {
    /// No declarations.
    fn default() -> (r: Self)
        ensures
            r.entries@.len() == 0,
    {
        Redirects { entries: Vec::new() }
    }
}

/// Why [`parse_redirects`] or [`validate_against_nav`] refused the manifest.
#[derive(Debug, Clone, PartialEq, Eq)]
pub enum RedirectError {
    /// The manifest is larger than [`MAX_INPUT_BYTES`].
    TooLarge,
    /// A syntax error (unknown table or key, value of another type, duplicate
    /// key, ...) on a 1-based line.
    Parse { line: usize, message: String },
    /// A `[[redirect]]` table lacks a required key.
    MissingKey { context: &'static str, key: &'static str },
    /// A `from` or `to` fails the path shape rules; `line` is the 1-based
    /// line of the key that declared it.
    UnsafePath { line: usize, path: String },
    /// The same `from` is declared twice.
    DuplicateFrom(String),
    /// A `from` is the path of an existing page.
    CollidesWithPage(String),
    /// A `to` does not name an existing page.
    UnknownTarget { from: String, to: String },
}

// ---------------------------------------------------------------------------
// Mathematical model
// ---------------------------------------------------------------------------
pub struct RedirectModel {
    pub from: Seq<char>,
    pub to: Seq<char>,
}

pub enum RedirectErrorModel {
    TooLarge,
    Parse { line: int, message: Seq<char> },
    MissingKey { context: Seq<char>, key: Seq<char> },
    UnsafePath { line: int, path: Seq<char> },
    DuplicateFrom(Seq<char>),
    CollidesWithPage(Seq<char>),
    UnknownTarget { from: Seq<char>, to: Seq<char> },
}

impl View for Redirect {
    type V = RedirectModel;

    open spec fn view(&self) -> RedirectModel {
        RedirectModel { from: self.from@, to: self.to@ }
    }
}

impl View for Redirects {
    type V = Seq<RedirectModel>;

    open spec fn view(&self) -> Seq<RedirectModel> {
        self.entries@.map_values(|r: Redirect| r@)
    }
}

impl View for RedirectError {
    type V = RedirectErrorModel;

    open spec fn view(&self) -> RedirectErrorModel {
        match self {
            RedirectError::TooLarge => RedirectErrorModel::TooLarge,
            RedirectError::Parse { line, message } => RedirectErrorModel::Parse {
                line: *line as int,
                message: message@,
            },
            RedirectError::MissingKey { context, key } => RedirectErrorModel::MissingKey {
                context: context@,
                key: key@,
            },
            RedirectError::UnsafePath { line, path } => RedirectErrorModel::UnsafePath {
                line: *line as int,
                path: path@,
            },
            RedirectError::DuplicateFrom(p) => RedirectErrorModel::DuplicateFrom(p@),
            RedirectError::CollidesWithPage(p) => RedirectErrorModel::CollidesWithPage(p@),
            RedirectError::UnknownTarget { from, to } => RedirectErrorModel::UnknownTarget {
                from: from@,
                to: to@,
            },
        }
    }
}

/// The model of a result of [`parse_redirects`].
pub open spec fn parse_result_view(r: Result<Redirects, RedirectError>) -> Result<
    Seq<RedirectModel>,
    RedirectErrorModel,
> {
    match r {
        Ok(rs) => Ok(rs@),
        Err(e) => Err(e@),
    }
}

/// The model of a result of [`validate_against_nav`].
pub open spec fn unit_result_view(r: Result<(), RedirectError>) -> Result<(), RedirectErrorModel> {
    match r {
        Ok(()) => Ok(()),
        Err(e) => Err(e@),
    }
}

// ---- lines -----------------------------------------------------------------
/// `s` split at every `'\n'` (`str::split('\n')`): always at least one piece.
pub open spec fn split_nl(s: Seq<char>) -> Seq<Seq<char>>
    decreases s.len(),
{
    if s.len() == 0 {
        seq![Seq::<char>::empty()]
    } else {
        let r = split_nl(s.drop_last());
        if s.last() == '\n' {
            r.push(Seq::<char>::empty())
        } else {
            r.update(r.len() - 1, r.last().push(s.last()))
        }
    }
}

/// The lines of `s` (`str::lines`): the pieces between newlines, without a
/// final empty piece. A `'\r'` before a newline stays in its line; every line
/// is trimmed before use, which removes it.
pub open spec fn lines_of(s: Seq<char>) -> Seq<Seq<char>> {
    let p = split_nl(s);
    if p.last().len() == 0 {
        p.drop_last()
    } else {
        p
    }
}

// ---- one line ----------------------------------------------------------------
/// What a syntactically valid line does.
pub enum LineAction {
    Skip,
    OpenTable,
    Assign { key: Seq<char>, value: Seq<char> },
}

/// The rest of a line is empty or a comment.
pub open spec fn trailing_ok(rest: Seq<char>) -> bool {
    let t = trim_start(rest);
    t.len() == 0 || t[0] == '#'
}

pub open spec fn trailing_message(rest: Seq<char>) -> Seq<char> {
    "unexpected trailing content `"@ + trim_start(rest) + "`"@
}

pub open spec fn is_key_char(c: char) -> bool {
    is_ascii_alnum(c) || c == '_'
}

pub open spec fn valid_key(k: Seq<char>) -> bool {
    k.len() > 0 && forall|i: int| 0 <= i < k.len() ==> #[trigger] is_key_char(k[i])
}

pub open spec fn is_supported_escape(e: char) -> bool {
    e == '"' || e == '\\' || e == 'n' || e == 't'
}

pub open spec fn unescape(e: char) -> char {
    if e == 'n' {
        '\n'
    } else if e == 't' {
        '\t'
    } else {
        e
    }
}

pub open spec fn escape_message(e: char) -> Seq<char> {
    "unsupported escape sequence `\\"@ + seq![e] + "`"@
}

/// Puts `p` in front of the decoded text of a successful string scan.
pub open spec fn prepend(
    p: Seq<char>,
    r: Result<(Seq<char>, Seq<char>), Seq<char>>,
) -> Result<(Seq<char>, Seq<char>), Seq<char>> {
    match r {
        Ok((out, rem)) => Ok((p + out, rem)),
        Err(m) => Err(m),
    }
}

/// Scans the body of a string literal (after its opening quote): the decoded
/// text and what follows the closing quote, or the error message.
pub open spec fn scan_string(s: Seq<char>) -> Result<(Seq<char>, Seq<char>), Seq<char>>
    decreases s.len(),
{
    if s.len() == 0 {
        Err(MSG_UNTERMINATED_STRING@)
    } else if s[0] == '"' {
        Ok((Seq::<char>::empty(), s.drop_first()))
    } else if s[0] == '\\' {
        if s.len() < 2 {
            Err(MSG_UNTERMINATED_ESCAPE@)
        } else if is_supported_escape(s[1]) {
            prepend(seq![unescape(s[1])], scan_string(s.skip(2)))
        } else {
            Err(escape_message(s[1]))
        }
    } else {
        prepend(seq![s[0]], scan_string(s.drop_first()))
    }
}

/// A quoted string at the start of `v`.
pub open spec fn quoted_string(v: Seq<char>) -> Result<(Seq<char>, Seq<char>), Seq<char>> {
    if v.len() == 0 || v[0] != '"' {
        Err(MSG_EXPECTED_STRING@)
    } else {
        scan_string(v.drop_first())
    }
}

/// What a trimmed line means, or the message of its syntax error.
pub open spec fn classify(t: Seq<char>) -> Result<LineAction, Seq<char>> {
    if t.len() == 0 || t[0] == '#' {
        Ok(LineAction::Skip)
    } else if t.len() >= 2 && t[0] == '[' && t[1] == '[' {
        let rest = t.skip(2);
        match find_pair(rest) {
            None => Err(MSG_CLOSE_DOUBLE@),
            Some(end) => {
                let header = trim(rest.take(end));
                if !trailing_ok(rest.skip(end + 2)) {
                    Err(trailing_message(rest.skip(end + 2)))
                } else if header == "redirect"@ {
                    Ok(LineAction::OpenTable)
                } else {
                    Err("unknown table `[["@ + header + "]]`"@)
                }
            },
        }
    } else if t[0] == '[' {
        let rest = t.skip(1);
        match find_char(rest, ']') {
            None => Err(MSG_CLOSE_SINGLE@),
            Some(end) => Err("unknown table `["@ + trim(rest.take(end)) + "]`"@),
        }
    } else {
        match find_char(t, '=') {
            None => Err(MSG_EXPECTED_PAIR@),
            Some(eq) => {
                let key = trim(t.take(eq));
                if !valid_key(key) {
                    Err("invalid key `"@ + key + "`"@)
                } else {
                    match quoted_string(trim_start(t.skip(eq + 1))) {
                        Err(m) => Err(m),
                        Ok((value, rem)) => if !trailing_ok(rem) {
                            Err(trailing_message(rem))
                        } else {
                            Ok(LineAction::Assign { key, value })
                        },
                    }
                }
            },
        }
    }
}

// ---- the manifest --------------------------------------------------------------
/// A `[[redirect]]` table while it is being read.
pub struct BuilderModel {
    pub from: Option<Seq<char>>,
    pub to: Option<Seq<char>>,
    /// The 1-based line of the `from` key (meaningful once `from` is set).
    pub from_line: int,
    /// The 1-based line of the `to` key (meaningful once `to` is set).
    pub to_line: int,
}

/// A table just opened: no key read yet.
pub open spec fn empty_builder() -> BuilderModel {
    BuilderModel { from: None, to: None, from_line: 0, to_line: 0 }
}

pub open spec fn duplicate_message(name: Seq<char>) -> Seq<char> {
    "duplicate key `"@ + name + "`"@
}

pub open spec fn parse_error(line: int, message: Seq<char>) -> RedirectErrorModel {
    RedirectErrorModel::Parse { line, message }
}

/// Applies the action of line `line` to the tables read so far. Key-value
/// pairs belong to the last table opened.
pub open spec fn step(bs: Seq<BuilderModel>, line: int, a: LineAction) -> Result<
    Seq<BuilderModel>,
    RedirectErrorModel,
> {
    match a {
        LineAction::Skip => Ok(bs),
        LineAction::OpenTable => Ok(bs.push(empty_builder())),
        LineAction::Assign { key, value } => {
            if bs.len() == 0 {
                Err(parse_error(line, MSG_OUTSIDE_TABLE@))
            } else {
                let b = bs.last();
                if key == "from"@ {
                    if b.from is Some {
                        Err(parse_error(line, duplicate_message("redirect.from"@)))
                    } else {
                        Ok(bs.update(bs.len() - 1, BuilderModel { from: Some(value), from_line: line, ..b }))
                    }
                } else if key == "to"@ {
                    if b.to is Some {
                        Err(parse_error(line, duplicate_message("redirect.to"@)))
                    } else {
                        Ok(bs.update(bs.len() - 1, BuilderModel { to: Some(value), to_line: line, ..b }))
                    }
                } else {
                    Err(parse_error(line, "unknown key `"@ + key + "` in [[redirect]]"@))
                }
            }
        },
    }
}

/// The tables after the first `n` lines, or the first error among them.
pub open spec fn read_lines(lines: Seq<Seq<char>>, n: int) -> Result<
    Seq<BuilderModel>,
    RedirectErrorModel,
>
    decreases n,
{
    if n <= 0 {
        Ok(Seq::<BuilderModel>::empty())
    } else {
        match read_lines(lines, n - 1) {
            Err(e) => Err(e),
            Ok(bs) => match classify(trim(lines[n - 1])) {
                Err(m) => Err(parse_error(n, m)),
                Ok(a) => step(bs, n, a),
            },
        }
    }
}

// ---- path rules ------------------------------------------------------------------
pub open spec fn is_path_char(c: char) -> bool {
    c == '/' || is_ascii_alnum(c) || c == '-' || c == '_'
}

/// The page path allowlist: starts and ends with `/`, and between them only
/// ASCII letters, digits, `-`, `_` and `/`.
pub open spec fn safe_page_path(p: Seq<char>) -> bool {
    &&& p.len() >= 1
    &&& p[0] == '/'
    &&& p.last() == '/'
    &&& forall|i: int| 0 <= i < p.len() ==> #[trigger] is_path_char(p[i])
}

/// `p` holds an empty segment (`//`).
pub open spec fn empty_segment(p: Seq<char>) -> bool {
    exists|i: int| 0 <= i < p.len() - 1 && #[trigger] p[i] == '/' && p[i + 1] == '/'
}

/// A valid `from`: a safe page path without empty segments, other than the
/// site root `/` itself.
pub open spec fn safe_redirect_from(p: Seq<char>) -> bool {
    safe_page_path(p) && p != seq!['/'] && !empty_segment(p)
}

/// A valid `to`: a safe page path without empty segments (the root is
/// allowed).
pub open spec fn safe_redirect_to(p: Seq<char>) -> bool {
    safe_page_path(p) && !empty_segment(p)
}

pub open spec fn froms(rs: Seq<RedirectModel>) -> Seq<Seq<char>> {
    rs.map_values(|r: RedirectModel| r.from)
}

/// Checks table `b` after the declarations `rs` accepted before it.
pub open spec fn table_result(rs: Seq<RedirectModel>, b: BuilderModel) -> Result<
    Seq<RedirectModel>,
    RedirectErrorModel,
> {
    match b.from {
        None => Err(RedirectErrorModel::MissingKey { context: "redirect"@, key: "from"@ }),
        Some(f) => match b.to {
            None => Err(RedirectErrorModel::MissingKey { context: "redirect"@, key: "to"@ }),
            Some(t) => if !safe_redirect_from(f) {
                Err(RedirectErrorModel::UnsafePath { line: b.from_line, path: f })
            } else if !safe_redirect_to(t) {
                Err(RedirectErrorModel::UnsafePath { line: b.to_line, path: t })
            } else if froms(rs).contains(f) {
                Err(RedirectErrorModel::DuplicateFrom(f))
            } else {
                Ok(rs.push(RedirectModel { from: f, to: t }))
            },
        },
    }
}

/// The declarations of the first `n` tables, or the first error among them.
pub open spec fn check_tables(bs: Seq<BuilderModel>, n: int) -> Result<
    Seq<RedirectModel>,
    RedirectErrorModel,
>
    decreases n,
{
    if n <= 0 {
        Ok(Seq::<RedirectModel>::empty())
    } else {
        match check_tables(bs, n - 1) {
            Err(e) => Err(e),
            Ok(rs) => table_result(rs, bs[n - 1]),
        }
    }
}

/// What [`parse_redirects`] answers for a manifest with characters `s`.
pub open spec fn spec_parse_redirects(s: Seq<char>) -> Result<
    Seq<RedirectModel>,
    RedirectErrorModel,
> {
    if byte_len(s) > MAX_INPUT_BYTES {
        Err(RedirectErrorModel::TooLarge)
    } else {
        let lines = lines_of(s);
        match read_lines(lines, lines.len() as int) {
            Err(e) => Err(e),
            Ok(bs) => check_tables(bs, bs.len() as int),
        }
    }
}


// ---------------------------------------------------------------------------
// Lemmas
// ---------------------------------------------------------------------------
proof fn lemma_prepend_empty(r: Result<(Seq<char>, Seq<char>), Seq<char>>)
    ensures
        prepend(Seq::<char>::empty(), r) == r,
{
    match r {
        Ok((o, rem)) => {
            assert(Seq::<char>::empty() + o =~= o);
        },
        Err(_) => {},
    }
}

proof fn lemma_prepend_assoc(
    a: Seq<char>,
    b: Seq<char>,
    r: Result<(Seq<char>, Seq<char>), Seq<char>>,
)
    ensures
        prepend(a, prepend(b, r)) == prepend(a + b, r),
{
    match r {
        Ok((o, rem)) => {
            assert(a + (b + o) =~= (a + b) + o);
        },
        Err(_) => {},
    }
}

proof fn lemma_read_lines_stays_err(lines: Seq<Seq<char>>, k: int, n: int)
    requires
        0 <= k <= n,
        read_lines(lines, k) is Err,
    ensures
        read_lines(lines, n) == read_lines(lines, k),
    decreases n - k,
{
    if n > k {
        lemma_read_lines_stays_err(lines, k, n - 1);
    }
}

proof fn lemma_check_tables_stays_err(bs: Seq<BuilderModel>, k: int, n: int)
    requires
        0 <= k <= n,
        check_tables(bs, k) is Err,
    ensures
        check_tables(bs, n) == check_tables(bs, k),
    decreases n - k,
{
    if n > k {
        lemma_check_tables_stays_err(bs, k, n - 1);
    }
}

// ---------------------------------------------------------------------------
// Executable parser
// ---------------------------------------------------------------------------
pub open spec fn vec_views(vs: Seq<Vec<char>>) -> Seq<Seq<char>> {
    vs.map_values(|v: Vec<char>| v@)
}

/// Splits `v` into its lines (see [`lines_of`]).
fn split_lines(v: &Vec<char>) -> (ls: Vec<Vec<char>>)
    ensures
        vec_views(ls@) == lines_of(v@),
{
    let mut done: Vec<Vec<char>> = Vec::new();
    let mut cur: Vec<char> = Vec::new();
    let mut i: usize = 0;
    assert(v@.take(0) =~= Seq::<char>::empty());
    assert(vec_views(done@).push(cur@) =~= split_nl(v@.take(0)));
    while i < v.len()
        invariant
            0 <= i <= v.len(),
            vec_views(done@).push(cur@) == split_nl(v@.take(i as int)),
        decreases v.len() - i,
    {
        let c = v[i];
        let ghost r = split_nl(v@.take(i as int));
        assert(v@.take(i + 1).drop_last() =~= v@.take(i as int));
        assert(v@.take(i + 1).last() == c);
        if c == '\n' {
            done.push(cur);
            cur = Vec::new();
            assert(vec_views(done@).push(cur@) =~= r.push(Seq::<char>::empty()));
        } else {
            cur.push(c);
            assert(vec_views(done@).push(cur@) =~= r.update(r.len() - 1, r.last().push(c)));
        }
        i = i + 1;
    }
    assert(v@.take(v.len() as int) =~= v@);
    if cur.len() == 0 {
        assert(vec_views(done@) =~= vec_views(done@).push(cur@).drop_last());
        done
    } else {
        done.push(cur);
        assert(vec_views(done@) =~= split_nl(v@));
        done
    }
}

/// A syntax error on `line`.
fn parse_err(line: usize, message: String) -> (e: RedirectError)
    ensures
        e@ == parse_error(line as int, message@),
{
    RedirectError::Parse { line, message }
}

/// Accepts `rest` when it is empty or a comment, after leading white space.
fn check_trailing(rest: &Vec<char>, line: usize) -> (r: Result<(), RedirectError>)
    ensures
        r is Ok <==> trailing_ok(rest@),
        r matches Err(e) ==> e@ == parse_error(line as int, trailing_message(rest@)),
{
    let t = trim_start_chars(rest);
    if t.len() == 0 || t[0] == '#' {
        Ok(())
    } else {
        Err(parse_err(line, surround("unexpected trailing content `", &t, "`")))
    }
}

proof fn lemma_scan_step(s: Seq<char>, out: Seq<char>)
    requires
        s.len() > 0,
    ensures
        s[0] == '"' ==> prepend(out, scan_string(s)) == Ok::<(Seq<char>, Seq<char>), Seq<char>>(
            (out, s.drop_first()),
        ),
        s[0] == '\\' && s.len() >= 2 && is_supported_escape(s[1]) ==> prepend(out, scan_string(s))
            == prepend(out.push(unescape(s[1])), scan_string(s.skip(2))),
        s[0] != '"' && s[0] != '\\' ==> prepend(out, scan_string(s)) == prepend(
            out.push(s[0]),
            scan_string(s.drop_first()),
        ),
{
    if s[0] == '"' {
        assert(out + Seq::<char>::empty() =~= out);
    } else if s[0] == '\\' && s.len() >= 2 && is_supported_escape(s[1]) {
        lemma_prepend_assoc(out, seq![unescape(s[1])], scan_string(s.skip(2)));
        assert(out + seq![unescape(s[1])] =~= out.push(unescape(s[1])));
    } else if s[0] != '"' && s[0] != '\\' {
        lemma_prepend_assoc(out, seq![s[0]], scan_string(s.drop_first()));
        assert(out + seq![s[0]] =~= out.push(s[0]));
    }
}

/// The character an escape `\e` stands for, if `e` is supported.
fn decode_escape(e: char) -> (r: Option<char>)
    ensures
        r == (if is_supported_escape(e) {
            Some(unescape(e))
        } else {
            None
        }),
{
    if e == '"' {
        Some('"')
    } else if e == '\\' {
        Some('\\')
    } else if e == 'n' {
        Some('\n')
    } else if e == 't' {
        Some('\t')
    } else {
        None
    }
}

/// Reads the double-quoted string at the start of `value_part`: its decoded
/// text and what follows the closing quote. The escapes `\"`, `\\`, `\n`
/// and `\t` are understood.
fn parse_quoted_string(value_part: &Vec<char>, line: usize) -> (r: Result<
    (Vec<char>, Vec<char>),
    RedirectError,
>)
    ensures
        match quoted_string(value_part@) {
            Ok((value, rem)) => r matches Ok((v, m)) && v@ == value && m@ == rem,
            Err(msg) => r matches Err(e) && e@ == parse_error(line as int, msg),
        },
{
    let v = value_part;
    if v.len() == 0 || v[0] != '"' {
        return Err(parse_err(line, MSG_EXPECTED_STRING.to_owned()));
    }
    let mut out: Vec<char> = Vec::new();
    let mut i: usize = 1;
    proof {
        assert(v@.drop_first() =~= v@.skip(1));
        lemma_prepend_empty(scan_string(v@.skip(1)));
    }
    loop
        invariant
            1 <= i <= v.len(),
            v == value_part,
            v@.len() > 0 && v@[0] == '"',
            quoted_string(v@) == prepend(out@, scan_string(v@.skip(i as int))),
        decreases v.len() - i,
    {
        let ghost rest = v@.skip(i as int);
        if i == v.len() {
            assert(rest.len() == 0);
            return Err(parse_err(line, MSG_UNTERMINATED_STRING.to_owned()));
        }
        let c = v[i];
        assert(rest.len() > 0 && rest[0] == c);
        proof {
            lemma_scan_step(rest, out@);
        }
        if c == '"' {
            let rem = sub_chars(v, i + 1, v.len());
            assert(rest.drop_first() =~= rem@);
            return Ok((out, rem));
        }
        if c == '\\' {
            if i + 1 == v.len() {
                assert(rest.len() == 1);
                return Err(parse_err(line, MSG_UNTERMINATED_ESCAPE.to_owned()));
            }
            let e = v[i + 1];
            assert(rest[1] == e);
            match decode_escape(e) {
                None => {
                    let bad = vec![e];
                    assert(bad@ =~= seq![e]);
                    return Err(parse_err(line, surround("unsupported escape sequence `\\", &bad, "`")));
                },
                Some(d) => {
                    assert(rest.skip(2) =~= v@.skip(i + 2));
                    out.push(d);
                    i = i + 2;
                },
            }
        } else {
            assert(rest.drop_first() =~= v@.skip(i + 1));
            out.push(c);
            i = i + 1;
        }
    }
}

/// The executable form of a [`LineAction`].
enum Action {
    Skip,
    OpenTable,
    Assign { key: Vec<char>, value: Vec<char> },
}

impl View for Action {
    type V = LineAction;

    closed spec fn view(&self) -> LineAction {
        match self {
            Action::Skip => LineAction::Skip,
            Action::OpenTable => LineAction::OpenTable,
            Action::Assign { key, value } => LineAction::Assign { key: key@, value: value@ },
        }
    }
}

fn is_valid_key(k: &Vec<char>) -> (b: bool)
    ensures
        b == valid_key(k@),
{
    if k.len() == 0 {
        return false;
    }
    let mut i: usize = 0;
    while i < k.len()
        invariant
            0 <= i <= k.len(),
            forall|j: int| 0 <= j < i ==> #[trigger] is_key_char(k@[j]),
        decreases k.len() - i,
    {
        let c = k[i];
        if !(ascii_alnum(c) || c == '_') {
            assert(!is_key_char(k@[i as int]));
            return false;
        }
        i = i + 1;
    }
    true
}

/// Reads one trimmed line.
fn classify_line(t: &Vec<char>, line: usize) -> (r: Result<Action, RedirectError>)
    ensures
        match classify(t@) {
            Ok(a) => r matches Ok(x) && x@ == a,
            Err(m) => r matches Err(e) && e@ == parse_error(line as int, m),
        },
{
    if t.len() == 0 || t[0] == '#' {
        return Ok(Action::Skip);
    }
    if t.len() >= 2 && t[0] == '[' && t[1] == '[' {
        let rest = sub_chars(t, 2, t.len());
        assert(rest@ =~= t@.skip(2));
        match find_pair_in(&rest) {
            None => {
                return Err(parse_err(line, MSG_CLOSE_DOUBLE.to_owned()));
            },
            Some(end) => {
                let inner = sub_chars(&rest, 0, end);
                assert(inner@ =~= rest@.take(end as int));
                let header = trim_chars(&inner);
                let after = sub_chars(&rest, end + 2, rest.len());
                assert(after@ =~= rest@.skip(end + 2));
                check_trailing(&after, line)?;
                if chars_equal_str(&header, "redirect") {
                    return Ok(Action::OpenTable);
                } else {
                    return Err(parse_err(line, surround("unknown table `[[", &header, "]]`")));
                }
            },
        }
    }
    if t[0] == '[' {
        let rest = sub_chars(t, 1, t.len());
        assert(rest@ =~= t@.skip(1));
        match find_char_in(&rest, ']') {
            None => {
                return Err(parse_err(line, MSG_CLOSE_SINGLE.to_owned()));
            },
            Some(end) => {
                let inner = sub_chars(&rest, 0, end);
                assert(inner@ =~= rest@.take(end as int));
                let header = trim_chars(&inner);
                return Err(parse_err(line, surround("unknown table `[", &header, "]`")));
            },
        }
    }
    match find_char_in(t, '=') {
        None => Err(parse_err(line, MSG_EXPECTED_PAIR.to_owned())),
        Some(eq) => {
            let before = sub_chars(t, 0, eq);
            assert(before@ =~= t@.take(eq as int));
            let key = trim_chars(&before);
            if !is_valid_key(&key) {
                return Err(parse_err(line, surround("invalid key `", &key, "`")));
            }
            let after = sub_chars(t, eq + 1, t.len());
            assert(after@ =~= t@.skip(eq + 1));
            let value_part = trim_start_chars(&after);
            let (value, remainder) = parse_quoted_string(&value_part, line)?;
            check_trailing(&remainder, line)?;
            Ok(Action::Assign { key, value })
        },
    }
}

/// A `[[redirect]]` table while it is being read.
struct RedirectBuilder {
    from: Option<Vec<char>>,
    to: Option<Vec<char>>,
    from_line: usize,
    to_line: usize,
}

pub open spec fn opt_view(o: Option<Vec<char>>) -> Option<Seq<char>> {
    match o {
        Some(v) => Some(v@),
        None => None,
    }
}

impl View for RedirectBuilder {
    type V = BuilderModel;

    closed spec fn view(&self) -> BuilderModel {
        BuilderModel {
            from: opt_view(self.from),
            to: opt_view(self.to),
            from_line: self.from_line as int,
            to_line: self.to_line as int,
        }
    }
}

spec fn builder_views(bs: Seq<RedirectBuilder>) -> Seq<BuilderModel> {
    bs.map_values(|b: RedirectBuilder| b@)
}

/// Stores `value` in an empty slot; a second assignment of the same key is
/// an error.
fn set_once(slot: &mut Option<Vec<char>>, value: Vec<char>, line: usize, name: &str) -> (r: Result<
    (),
    RedirectError,
>)
    ensures
        (*old(slot)) is Some ==> (r matches Err(e) && e@ == parse_error(
            line as int,
            duplicate_message(name@),
        )),
        (*old(slot)) is Some ==> *final(slot) == *old(slot),
        (*old(slot)) is None ==> r is Ok && *final(slot) == Some(value),
{
    if slot.is_some() {
        let n = chars_of(name);
        return Err(parse_err(line, surround("duplicate key `", &n, "`")));
    }
    *slot = Some(value);
    Ok(())
}

/// Applies the action of line `line` to the tables read so far.
fn apply_action(builders: &mut Vec<RedirectBuilder>, a: Action, line: usize) -> (r: Result<
    (),
    RedirectError,
>)
    ensures
        match step(builder_views(old(builders)@), line as int, a@) {
            Ok(bs) => r is Ok && builder_views(final(builders)@) == bs,
            Err(e) => r matches Err(x) && x@ == e,
        },
{
    let ghost old_views = builder_views(builders@);
    match a {
        Action::Skip => Ok(()),
        Action::OpenTable => {
            builders.push(RedirectBuilder { from: None, to: None, from_line: 0, to_line: 0 });
            assert(builder_views(builders@) =~= old_views.push(empty_builder()));
            Ok(())
        },
        Action::Assign { key, value } => {
            if builders.len() == 0 {
                return Err(parse_err(line, MSG_OUTSIDE_TABLE.to_owned()));
            }
            let mut last = builders.pop().unwrap();
            assert(builder_views(builders@) =~= old_views.drop_last());
            let ghost value_view = value@;
            if chars_equal_str(&key, "from") {
                set_once(&mut last.from, value, line, "redirect.from")?;
                last.from_line = line;
                builders.push(last);
                assert(builder_views(builders@) =~= old_views.update(
                    old_views.len() - 1,
                    BuilderModel { from: Some(value_view), from_line: line as int, ..old_views.last() },
                ));
                Ok(())
            } else if chars_equal_str(&key, "to") {
                set_once(&mut last.to, value, line, "redirect.to")?;
                last.to_line = line;
                builders.push(last);
                assert(builder_views(builders@) =~= old_views.update(
                    old_views.len() - 1,
                    BuilderModel { to: Some(value_view), to_line: line as int, ..old_views.last() },
                ));
                Ok(())
            } else {
                Err(parse_err(line, surround("unknown key `", &key, "` in [[redirect]]")))
            }
        },
    }
}

/// The path allowlist shared with the page registry: starts and ends with
/// `/`, and holds only ASCII letters, digits, `-`, `_` and `/`.
fn is_safe_page_path(p: &Vec<char>) -> (b: bool)
    ensures
        b == safe_page_path(p@),
{
    if p.len() == 0 || p[0] != '/' || p[p.len() - 1] != '/' {
        return false;
    }
    let mut i: usize = 0;
    while i < p.len()
        invariant
            0 <= i <= p.len(),
            forall|j: int| 0 <= j < i ==> #[trigger] is_path_char(p@[j]),
        decreases p.len() - i,
    {
        let c = p[i];
        if !(c == '/' || ascii_alnum(c) || c == '-' || c == '_') {
            assert(!is_path_char(p@[i as int]));
            return false;
        }
        i = i + 1;
    }
    true
}

fn has_empty_segment(p: &Vec<char>) -> (b: bool)
    ensures
        b == empty_segment(p@),
{
    if p.len() < 2 {
        return false;
    }
    let mut i: usize = 0;
    while i < p.len() - 1
        invariant
            p.len() >= 2,
            0 <= i <= p.len() - 1,
            forall|j: int| 0 <= j < i && j < p@.len() - 1 ==> !(#[trigger] p@[j] == '/' && p@[j + 1] == '/'),
        decreases p.len() - i,
    {
        if p[i] == '/' && p[i + 1] == '/' {
            return true;
        }
        i = i + 1;
    }
    false
}

/// `from` must be a safe page path without empty segments, and not the
/// site root.
fn is_safe_redirect_from(path: &Vec<char>) -> (b: bool)
    ensures
        b == safe_redirect_from(path@),
        b == (safe_redirect_to(path@) && path@ != seq!['/']),
{
    proof {
        lemma_from_is_to_without_root(path@);
    }
    if !is_safe_page_path(path) {
        return false;
    }
    if path.len() == 1 {
        assert(path@ =~= seq!['/']);
        return false;
    }
    assert(path@ != seq!['/']) by {
        assert(path@.len() != 1);
    }
    !has_empty_segment(path)
}

/// `to` must be a safe page path without empty segments; the site root is
/// allowed.
fn is_safe_redirect_to(path: &Vec<char>) -> (b: bool)
    ensures
        b == safe_redirect_to(path@),
{
    is_safe_page_path(path) && !has_empty_segment(path)
}

pub open spec fn redirect_views(rs: Seq<Redirect>) -> Seq<RedirectModel> {
    rs.map_values(|r: Redirect| r@)
}

/// Whether some accepted declaration already has `from`.
fn has_from(entries: &Vec<Redirect>, from: &String) -> (b: bool)
    ensures
        b == froms(redirect_views(entries@)).contains(from@),
{
    let ghost fs = froms(redirect_views(entries@));
    let mut i: usize = 0;
    while i < entries.len()
        invariant
            0 <= i <= entries.len(),
            fs == froms(redirect_views(entries@)),
            fs.len() == entries@.len(),
            forall|j: int| 0 <= j < i ==> fs[j] != from@,
        decreases entries.len() - i,
    {
        if entries[i].from == *from {
            assert(fs[i as int] == from@);
            return true;
        }
        i = i + 1;
    }
    false
}

/// Checks one table and appends its declaration.
fn check_table(entries: &mut Vec<Redirect>, b: &RedirectBuilder) -> (r: Result<(), RedirectError>)
    ensures
        match table_result(redirect_views(old(entries)@), b@) {
            Ok(rs) => r is Ok && redirect_views(final(entries)@) == rs,
            Err(e) => r matches Err(x) && x@ == e,
        },
{
    let from = match &b.from {
        None => {
            return Err(RedirectError::MissingKey { context: "redirect", key: "from" });
        },
        Some(f) => f,
    };
    let to = match &b.to {
        None => {
            return Err(RedirectError::MissingKey { context: "redirect", key: "to" });
        },
        Some(t) => t,
    };
    if !is_safe_redirect_from(from) {
        return Err(RedirectError::UnsafePath { line: b.from_line, path: string_of(from) });
    }
    if !is_safe_redirect_to(to) {
        return Err(RedirectError::UnsafePath { line: b.to_line, path: string_of(to) });
    }
    let from_s = string_of(from);
    if has_from(entries, &from_s) {
        return Err(RedirectError::DuplicateFrom(from_s));
    }
    let ghost before = redirect_views(entries@);
    entries.push(Redirect { from: from_s, to: string_of(to) });
    assert(redirect_views(entries@) =~= before.push(RedirectModel { from: from@, to: to@ }));
    Ok(())
}

/// Parses the manifest text, checks the shape of every `from` and `to` and
/// rejects a `from` declared twice. Whether each `to` names a page, and
/// whether a `from` hides one, is [`validate_against_nav`]'s job.
pub fn parse_redirects(input: &str) -> (res: Result<Redirects, RedirectError>)
    ensures
        parse_result_view(res) == spec_parse_redirects(input@),
        res matches Ok(rs) ==> well_formed_redirects(rs@),
        res matches Ok(rs) ==> rs@.len() == table_count(
            lines_of(input@),
            lines_of(input@).len() as int,
        ),
        res matches Err(e) ==> (e@ is Parse ==> no_newline(error_message(e@))),
{
    proof {
        lemma_parsed_redirects_well_formed(input@);
        lemma_one_declaration_per_table(input@);
        lemma_syntax_errors_stay_on_one_line(input@);
    }
    let chars = chars_of(input);
    if exceeds_bytes(&chars, MAX_INPUT_BYTES) {
        return Err(RedirectError::TooLarge);
    }
    let lines = split_lines(&chars);
    let ghost ls = lines_of(input@);
    let mut builders: Vec<RedirectBuilder> = Vec::new();
    let mut k: usize = 0;
    assert(builder_views(builders@) =~= Seq::<BuilderModel>::empty());
    while k < lines.len()
        invariant
            0 <= k <= lines.len(),
            ls == lines_of(input@),
            byte_len(input@) <= MAX_INPUT_BYTES,
            vec_views(lines@) == ls,
            read_lines(ls, k as int) == Ok::<Seq<BuilderModel>, RedirectErrorModel>(
                builder_views(builders@),
            ),
        decreases lines.len() - k,
    {
        let t = trim_chars(&lines[k]);
        assert(t@ == trim(ls[k as int]));
        let action = match classify_line(&t, k + 1) {
            Err(e) => {
                proof {
                    assert(read_lines(ls, k + 1) == Err::<Seq<BuilderModel>, RedirectErrorModel>(e@));
                    lemma_read_lines_stays_err(ls, k + 1, ls.len() as int);
                    lemma_syntax_errors_stay_on_one_line(input@);
                }
                return Err(e);
            },
            Ok(a) => a,
        };
        match apply_action(&mut builders, action, k + 1) {
            Err(e) => {
                proof {
                    assert(read_lines(ls, k + 1) == Err::<Seq<BuilderModel>, RedirectErrorModel>(e@));
                    lemma_read_lines_stays_err(ls, k + 1, ls.len() as int);
                    lemma_syntax_errors_stay_on_one_line(input@);
                }
                return Err(e);
            },
            Ok(()) => {},
        }
        k = k + 1;
    }
    let ghost bs = builder_views(builders@);
    let mut entries: Vec<Redirect> = Vec::new();
    let mut j: usize = 0;
    assert(redirect_views(entries@) =~= Seq::<RedirectModel>::empty());
    while j < builders.len()
        invariant
            0 <= j <= builders.len(),
            bs == builder_views(builders@),
            read_lines(ls, ls.len() as int) == Ok::<Seq<BuilderModel>, RedirectErrorModel>(bs),
            ls == lines_of(input@),
            byte_len(input@) <= MAX_INPUT_BYTES,
            check_tables(bs, j as int) == Ok::<Seq<RedirectModel>, RedirectErrorModel>(
                redirect_views(entries@),
            ),
        decreases builders.len() - j,
    {
        match check_table(&mut entries, &builders[j]) {
            Err(e) => {
                proof {
                    lemma_check_tables_stays_err(bs, j + 1, bs.len() as int);
                    lemma_syntax_errors_stay_on_one_line(input@);
                }
                return Err(e);
            },
            Ok(()) => {},
        }
        j = j + 1;
    }
    let res = Redirects { entries };
    assert(res@ =~= redirect_views(res.entries@));
    Ok(res)
}


// ---------------------------------------------------------------------------
// What every accepted manifest satisfies
// ---------------------------------------------------------------------------
/// Every declaration has a safe `from` and `to`, and no two share a `from`.
pub open spec fn well_formed_redirects(rs: Seq<RedirectModel>) -> bool {
    &&& forall|i: int|
        0 <= i < rs.len() ==> safe_redirect_from(#[trigger] rs[i].from) && safe_redirect_to(
            rs[i].to,
        )
    &&& forall|i: int, j: int|
        0 <= i < rs.len() && 0 <= j < rs.len() && i != j ==> #[trigger] rs[i].from
            != #[trigger] rs[j].from
}

proof fn lemma_check_tables_well_formed(bs: Seq<BuilderModel>, n: int)
    ensures
        check_tables(bs, n) matches Ok(rs) ==> well_formed_redirects(rs),
    decreases n,
{
    if n > 0 {
        lemma_check_tables_well_formed(bs, n - 1);
        if let Ok(rs) = check_tables(bs, n - 1) {
            if let Ok(rs2) = table_result(rs, bs[n - 1]) {
                let f = bs[n - 1].from.unwrap();
                assert(rs2 == rs.push(RedirectModel { from: f, to: bs[n - 1].to.unwrap() }));
                assert forall|i: int| 0 <= i < rs.len() implies #[trigger] rs[i].from != f by {
                    assert(froms(rs)[i] == rs[i].from);
                }
            }
        }
    }
}

/// Law: whatever `parse_redirects` accepts has only safe paths (no scheme,
/// no protocol-relative URL, no `..`, no empty segment, never `from = "/"`)
/// and never declares the same `from` twice.
pub proof fn lemma_parsed_redirects_well_formed(s: Seq<char>)
    ensures
        spec_parse_redirects(s) matches Ok(rs) ==> well_formed_redirects(rs),
{
    let lines = lines_of(s);
    if let Ok(bs) = read_lines(lines, lines.len() as int) {
        lemma_check_tables_well_formed(bs, bs.len() as int);
    }
}

/// A line that opens a `[[redirect]]` table.
pub open spec fn opens_table(line: Seq<char>) -> bool {
    classify(trim(line)) matches Ok(LineAction::OpenTable)
}

/// How many of the first `n` lines open a `[[redirect]]` table.
pub open spec fn table_count(lines: Seq<Seq<char>>, n: int) -> nat
    decreases n,
{
    if n <= 0 {
        0
    } else {
        table_count(lines, n - 1) + if opens_table(lines[n - 1]) {
            1nat
        } else {
            0nat
        }
    }
}

proof fn lemma_read_lines_count(lines: Seq<Seq<char>>, n: int)
    ensures
        read_lines(lines, n) matches Ok(bs) ==> bs.len() == table_count(lines, n),
    decreases n,
{
    if n > 0 {
        lemma_read_lines_count(lines, n - 1);
    }
}

proof fn lemma_check_tables_count(bs: Seq<BuilderModel>, n: int)
    requires
        n >= 0,
    ensures
        check_tables(bs, n) matches Ok(rs) ==> rs.len() == n,
    decreases n,
{
    if n > 0 {
        lemma_check_tables_count(bs, n - 1);
    }
}

/// Law: an accepted manifest yields one declaration for every line that
/// opens a `[[redirect]]` table, no more and no fewer.
pub proof fn lemma_one_declaration_per_table(s: Seq<char>)
    ensures
        spec_parse_redirects(s) matches Ok(rs) ==> rs.len() == table_count(
            lines_of(s),
            lines_of(s).len() as int,
        ),
{
    let lines = lines_of(s);
    lemma_read_lines_count(lines, lines.len() as int);
    if let Ok(bs) = read_lines(lines, lines.len() as int) {
        lemma_check_tables_count(bs, bs.len() as int);
    }
}

/// Law: the paths accepted as a `from` are exactly those accepted as a `to`,
/// but for the site root `/`, which is a valid `to` and never a valid `from`.
pub proof fn lemma_from_is_to_without_root(p: Seq<char>)
    ensures
        safe_redirect_from(p) == (safe_redirect_to(p) && p != seq!['/']),
        !safe_redirect_from(seq!['/']),
        safe_redirect_to(seq!['/']),
{
    let root = seq!['/'];
    assert(is_path_char(root[0]));
    assert(!empty_segment(root));
}

/// A path segment as the rules allow it: at least one character, each an
/// ASCII letter, an ASCII digit, `-` or `_`.
pub open spec fn allowed_segment(seg: Seq<char>) -> bool {
    &&& seg.len() > 0
    &&& forall|i: int|
        0 <= i < seg.len() ==> {
            let c = #[trigger] seg[i];
            ('a' <= c && c <= 'z') || ('A' <= c && c <= 'Z') || ('0' <= c && c <= '9') || c
                == '-' || c == '_'
        }
}

/// `/` followed by each of `segs`, each ending in `/`: `[a, b]` gives
/// `/a/b/`, no segment gives `/`.
pub open spec fn segment_path(segs: Seq<Seq<char>>) -> Seq<char>
    decreases segs.len(),
{
    if segs.len() == 0 {
        seq!['/']
    } else {
        segment_path(segs.drop_last()) + segs.last() + seq!['/']
    }
}

proof fn lemma_segment_path_step(p: Seq<char>, seg: Seq<char>)
    requires
        safe_redirect_to(p),
        allowed_segment(seg),
    ensures
        safe_redirect_to(p + seg + seq!['/']),
        (p + seg + seq!['/']).len() >= 3,
{
    let q = p + seg + seq!['/'];
    assert forall|i: int| 0 <= i < q.len() implies #[trigger] is_path_char(q[i]) by {
        if i < p.len() {
            assert(q[i] == p[i]);
        } else if i < p.len() + seg.len() {
            assert(q[i] == seg[i - p.len()]);
        } else {
            assert(q[i] == '/');
        }
    }
    assert(q[0] == p[0]);
    assert(!empty_segment(q)) by {
        if empty_segment(q) {
            let i = choose|i: int| 0 <= i < q.len() - 1 && #[trigger] q[i] == '/' && q[i + 1] == '/';
            if i + 1 < p.len() {
                assert(q[i] == p[i] && q[i + 1] == p[i + 1]);
                assert(empty_segment(p));
            } else if i + 1 == p.len() {
                assert(q[i + 1] == seg[0]);
            } else if i < p.len() + seg.len() {
                assert(q[i] == seg[i - p.len()]);
            } else {
                assert(i == q.len() - 1);
            }
        }
    }
}

/// Law: a valid `to` is exactly a path that starts and ends with `/`, holds
/// only ASCII letters, ASCII digits, `-`, `_` and `/`, and never two `/` in
/// a row; a valid `from` is such a path other than `/` itself.
pub proof fn lemma_safe_path_characters(p: Seq<char>)
    ensures
        safe_redirect_to(p) == {
            &&& p.len() >= 1
            &&& p[0] == '/'
            &&& p[p.len() - 1] == '/'
            &&& forall|i: int|
                0 <= i < p.len() ==> {
                    let c = #[trigger] p[i];
                    c == '/' || ('a' <= c && c <= 'z') || ('A' <= c && c <= 'Z') || ('0' <= c
                        && c <= '9') || c == '-' || c == '_'
                }
            &&& forall|i: int| 0 <= i < p.len() - 1 ==> !(#[trigger] p[i] == '/' && p[i + 1] == '/')
        },
        safe_redirect_from(p) == (safe_redirect_to(p) && p != seq!['/']),
{
    lemma_from_is_to_without_root(p);
    assert forall|i: int| 0 <= i < p.len() implies #[trigger] is_path_char(p[i]) == {
        let c = p[i];
        c == '/' || ('a' <= c && c <= 'z') || ('A' <= c && c <= 'Z') || ('0' <= c && c <= '9')
            || c == '-' || c == '_'
    } by {}
    let chars_ok = forall|i: int|
        0 <= i < p.len() ==> {
            let c = #[trigger] p[i];
            c == '/' || ('a' <= c && c <= 'z') || ('A' <= c && c <= 'Z') || ('0' <= c && c <= '9')
                || c == '-' || c == '_'
        };
    let no_double = forall|i: int| 0 <= i < p.len() - 1 ==> !(#[trigger] p[i] == '/' && p[i + 1] == '/');
    assert(no_double == !empty_segment(p)) by {
        if !no_double {
            let i = choose|i: int| !(0 <= i < p.len() - 1 ==> !(#[trigger] p[i] == '/' && p[i + 1] == '/'));
            assert(p[i] == '/' && p[i + 1] == '/');
        }
    }
    assert(chars_ok == forall|i: int| 0 <= i < p.len() ==> #[trigger] is_path_char(p[i])) by {
        if !chars_ok {
            let i = choose|i: int| !(0 <= i < p.len() ==> {
                let c = #[trigger] p[i];
                c == '/' || ('a' <= c && c <= 'z') || ('A' <= c && c <= 'Z') || ('0' <= c && c <= '9')
                    || c == '-' || c == '_'
            });
            assert(!is_path_char(p[i]));
        }
    }
}

/// Law: every path made of `/` and segments of ASCII letters, digits, `-`
/// and `_`, each closed by `/`, is a valid `to`; and a valid `from` too
/// unless it is the site root `/` itself.
pub proof fn lemma_segment_paths_are_safe(segs: Seq<Seq<char>>)
    requires
        forall|i: int| 0 <= i < segs.len() ==> allowed_segment(#[trigger] segs[i]),
    ensures
        safe_redirect_to(segment_path(segs)),
        segs.len() > 0 ==> safe_redirect_from(segment_path(segs)),
    decreases segs.len(),
{
    if segs.len() == 0 {
        lemma_from_is_to_without_root(seq!['/']);
    } else {
        lemma_segment_paths_are_safe(segs.drop_last());
        assert(allowed_segment(segs[segs.len() - 1]));
        lemma_segment_path_step(segment_path(segs.drop_last()), segs.last());
        lemma_from_is_to_without_root(segment_path(segs));
    }
}


/// How a value is written between quotes in the manifest: `\` as `\\`, `"`
/// as `\"`, a newline as `\n`, a tab as `\t`, every other character as
/// itself.
pub open spec fn quote_escape_char(c: char) -> Seq<char> {
    if c == '\\' {
        seq!['\\', '\\']
    } else if c == '"' {
        seq!['\\', '"']
    } else if c == '\n' {
        seq!['\\', 'n']
    } else if c == '\t' {
        seq!['\\', 't']
    } else {
        seq![c]
    }
}

/// `v` with each character written as [`quote_escape_char`] says.
pub open spec fn quote_escaped(v: Seq<char>) -> Seq<char>
    decreases v.len(),
{
    if v.len() == 0 {
        Seq::<char>::empty()
    } else {
        quote_escape_char(v[0]) + quote_escaped(v.drop_first())
    }
}

proof fn lemma_scan_quote_escaped(v: Seq<char>, rest: Seq<char>)
    ensures
        scan_string(quote_escaped(v) + seq!['"'] + rest) == Ok::<
            (Seq<char>, Seq<char>),
            Seq<char>,
        >((v, rest)),
    decreases v.len(),
{
    let s = quote_escaped(v) + seq!['"'] + rest;
    if v.len() == 0 {
        assert(s =~= seq!['"'] + rest);
        assert(s.drop_first() =~= rest);
    } else {
        let c = v[0];
        let t = quote_escaped(v.drop_first()) + seq!['"'] + rest;
        let e = quote_escape_char(c);
        assert(s =~= e + t);
        lemma_scan_quote_escaped(v.drop_first(), rest);
        assert(seq![c] + v.drop_first() =~= v);
        if e.len() == 2 {
            assert(s[0] == '\\' && s[1] == e[1]);
            assert(s.skip(2) =~= t);
        } else {
            assert(s[0] == c);
            assert(s.drop_first() =~= t);
        }
    }
}

/// Law: a value written between quotes as [`quote_escaped`] says reads
/// back as the value itself, whatever follows the closing quote.
pub proof fn lemma_quoted_string_round_trip(v: Seq<char>, rest: Seq<char>)
    ensures
        quoted_string(seq!['"'] + quote_escaped(v) + seq!['"'] + rest) == Ok::<
            (Seq<char>, Seq<char>),
            Seq<char>,
        >((v, rest)),
{
    let s = seq!['"'] + quote_escaped(v) + seq!['"'] + rest;
    lemma_scan_quote_escaped(v, rest);
    assert(s.drop_first() =~= quote_escaped(v) + seq!['"'] + rest);
}

// ---------------------------------------------------------------------------
// Checking against the pages of the site
// ---------------------------------------------------------------------------
/// A path with one trailing `/` removed: `/a/` and `/a` name the same page.
pub open spec fn norm_path(p: Seq<char>) -> Seq<char> {
    if p.len() > 0 && p.last() == '/' {
        p.drop_last()
    } else {
        p
    }
}

/// `p` names one of `pages`, trailing `/` aside.
pub open spec fn names_page(pages: Seq<Seq<char>>, p: Seq<char>) -> bool {
    exists|k: int| 0 <= k < pages.len() && norm_path(#[trigger] pages[k]) == norm_path(p)
}

/// The first `n` declarations checked against `pages`.
pub open spec fn validate_upto(rs: Seq<RedirectModel>, pages: Seq<Seq<char>>, n: int) -> Result<
    (),
    RedirectErrorModel,
>
    decreases n,
{
    if n <= 0 {
        Ok(())
    } else {
        match validate_upto(rs, pages, n - 1) {
            Err(e) => Err(e),
            Ok(()) => {
                let r = rs[n - 1];
                if names_page(pages, r.from) {
                    Err(RedirectErrorModel::CollidesWithPage(r.from))
                } else if !names_page(pages, r.to) {
                    Err(RedirectErrorModel::UnknownTarget { from: r.from, to: r.to })
                } else {
                    Ok(())
                }
            },
        }
    }
}

pub open spec fn string_views(ss: Seq<String>) -> Seq<Seq<char>> {
    ss.map_values(|s: String| s@)
}

proof fn lemma_validate_stays_err(rs: Seq<RedirectModel>, pages: Seq<Seq<char>>, k: int, n: int)
    requires
        0 <= k <= n,
        validate_upto(rs, pages, k) is Err,
    ensures
        validate_upto(rs, pages, n) == validate_upto(rs, pages, k),
    decreases n - k,
{
    if n > k {
        lemma_validate_stays_err(rs, pages, k, n - 1);
    }
}

proof fn lemma_validate_ok(rs: Seq<RedirectModel>, pages: Seq<Seq<char>>, n: int)
    requires
        0 <= n <= rs.len(),
        validate_upto(rs, pages, n) is Ok,
    ensures
        forall|i: int|
            0 <= i < n ==> !names_page(pages, #[trigger] rs[i].from) && names_page(
                pages,
                rs[i].to,
            ),
    decreases n,
{
    if n > 0 {
        lemma_validate_ok(rs, pages, n - 1);
    }
}

/// Law: a path listed among the pages names a page, whatever it is (the
/// site root `/` included); a listed path without a trailing `/` names the
/// page with one added too.
pub proof fn lemma_listed_paths_name_pages(pages: Seq<Seq<char>>, k: int)
    requires
        0 <= k < pages.len(),
    ensures
        names_page(pages, pages[k]),
        (pages[k].len() == 0 || pages[k].last() != '/') ==> names_page(pages, pages[k].push('/')),
{
    assert(pages[k].push('/').drop_last() =~= pages[k]);
}

/// Law: `p` names a page exactly when some listed path is `p` itself, `p`
/// with a `/` added (where `p` has none at the end), or `p` without its
/// final `/` (where the listed path has none at the end).
pub proof fn lemma_names_page_up_to_trailing_slash(pages: Seq<Seq<char>>, p: Seq<char>)
    ensures
        names_page(pages, p) == exists|k: int|
            0 <= k < pages.len() && {
                let a = #[trigger] pages[k];
                ||| a == p
                ||| a == p.push('/') && !(p.len() > 0 && p.last() == '/')
                ||| p == a.push('/') && !(a.len() > 0 && a.last() == '/')
            },
{
    assert forall|k: int| 0 <= k < pages.len() implies (norm_path(#[trigger] pages[k]) == norm_path(p)) == {
        let a = pages[k];
        ||| a == p
        ||| a == p.push('/') && !(p.len() > 0 && p.last() == '/')
        ||| p == a.push('/') && !(a.len() > 0 && a.last() == '/')
    } by {
        let a = pages[k];
        assert(a.push('/').drop_last() =~= a);
        assert(p.push('/').drop_last() =~= p);
        if a.len() > 0 && a.last() == '/' {
            assert(a =~= a.drop_last().push('/'));
        }
        if p.len() > 0 && p.last() == '/' {
            assert(p =~= p.drop_last().push('/'));
        }
    }
}

/// Law: the declarations pass the check against the pages exactly when no
/// `from` names a page and every `to` does.
pub proof fn lemma_validate_accepts_exactly(rs: Seq<RedirectModel>, pages: Seq<Seq<char>>)
    ensures
        (validate_upto(rs, pages, rs.len() as int) is Ok) == forall|i: int|
            0 <= i < rs.len() ==> !names_page(pages, #[trigger] rs[i].from) && names_page(
                pages,
                rs[i].to,
            ),
{
    if validate_upto(rs, pages, rs.len() as int) is Ok {
        lemma_validate_ok(rs, pages, rs.len() as int);
    } else {
        lemma_validate_err_has_culprit(rs, pages, rs.len() as int);
    }
}

proof fn lemma_validate_err_has_culprit(rs: Seq<RedirectModel>, pages: Seq<Seq<char>>, n: int)
    requires
        0 <= n <= rs.len(),
        validate_upto(rs, pages, n) is Err,
    ensures
        exists|i: int|
            0 <= i < n && !(!names_page(pages, #[trigger] rs[i].from) && names_page(
                pages,
                rs[i].to,
            )),
    decreases n,
{
    if validate_upto(rs, pages, n - 1) is Err {
        lemma_validate_err_has_culprit(rs, pages, n - 1);
        let i = choose|i: int|
            0 <= i < n - 1 && !(!names_page(pages, #[trigger] rs[i].from) && names_page(
                pages,
                rs[i].to,
            ));
        assert(0 <= i < n);
    } else {
        assert(!(!names_page(pages, rs[n - 1].from) && names_page(pages, rs[n - 1].to)));
    }
}

/// Law: declarations pass the check against the pages when every `to` is
/// one of the listed page paths, exactly as written, and no `from` equals
/// one of them (trailing `/` aside).
pub proof fn lemma_listed_targets_pass(rs: Seq<RedirectModel>, pages: Seq<Seq<char>>)
    requires
        forall|i: int| 0 <= i < rs.len() ==> #[trigger] pages.contains(rs[i].to),
        forall|i: int, k: int|
            0 <= i < rs.len() && 0 <= k < pages.len() ==> norm_path(#[trigger] pages[k])
                != norm_path(#[trigger] rs[i].from),
    ensures
        validate_upto(rs, pages, rs.len() as int) == Ok::<(), RedirectErrorModel>(()),
{
    lemma_listed_targets_pass_upto(rs, pages, rs.len() as int);
}

proof fn lemma_listed_targets_pass_upto(rs: Seq<RedirectModel>, pages: Seq<Seq<char>>, n: int)
    requires
        0 <= n <= rs.len(),
        forall|i: int| 0 <= i < rs.len() ==> #[trigger] pages.contains(rs[i].to),
        forall|i: int, k: int|
            0 <= i < rs.len() && 0 <= k < pages.len() ==> norm_path(#[trigger] pages[k])
                != norm_path(#[trigger] rs[i].from),
    ensures
        validate_upto(rs, pages, n) == Ok::<(), RedirectErrorModel>(()),
    decreases n,
{
    if n > 0 {
        lemma_listed_targets_pass_upto(rs, pages, n - 1);
        let r = rs[n - 1];
        assert(pages.contains(r.to));
        let k = choose|k: int| 0 <= k < pages.len() && pages[k] == r.to;
        lemma_listed_paths_name_pages(pages, k);
        assert(!names_page(pages, r.from)) by {
            if names_page(pages, r.from) {
                let j = choose|j: int| 0 <= j < pages.len() && norm_path(#[trigger] pages[j]) == norm_path(r.from);
                assert(norm_path(pages[j]) != norm_path(rs[n - 1].from));
            }
        }
    }
}

/// `norm_path(a) == norm_path(b)`.
fn same_page(a: &Vec<char>, b: &Vec<char>) -> (r: bool)
    ensures
        r == (norm_path(a@) == norm_path(b@)),
{
    let la: usize = if a.len() > 0 && a[a.len() - 1] == '/' {
        a.len() - 1
    } else {
        a.len()
    };
    let lb: usize = if b.len() > 0 && b[b.len() - 1] == '/' {
        b.len() - 1
    } else {
        b.len()
    };
    assert(norm_path(a@) =~= a@.take(la as int));
    assert(norm_path(b@) =~= b@.take(lb as int));
    if la != lb {
        return false;
    }
    let mut i: usize = 0;
    while i < la
        invariant
            0 <= i <= la,
            la == lb,
            la <= a.len(),
            lb <= b.len(),
            norm_path(a@) == a@.take(la as int),
            norm_path(b@) == b@.take(lb as int),
            forall|j: int| 0 <= j < i ==> a@[j] == b@[j],
        decreases la - i,
    {
        if a[i] != b[i] {
            assert(a@.take(la as int)[i as int] != b@.take(lb as int)[i as int]);
            return false;
        }
        i = i + 1;
    }
    assert(a@.take(la as int) =~= b@.take(lb as int));
    true
}

/// Whether `p` names one of `pages`.
fn is_page(pages: &Vec<Vec<char>>, p: &Vec<char>) -> (r: bool)
    ensures
        r == names_page(vec_views(pages@), p@),
{
    let ghost ps = vec_views(pages@);
    let mut k: usize = 0;
    while k < pages.len()
        invariant
            0 <= k <= pages.len(),
            ps == vec_views(pages@),
            ps.len() == pages@.len(),
            forall|j: int| 0 <= j < k ==> norm_path(#[trigger] ps[j]) != norm_path(p@),
        decreases pages.len() - k,
    {
        if same_page(&pages[k], p) {
            assert(norm_path(ps[k as int]) == norm_path(p@));
            return true;
        }
        k = k + 1;
    }
    false
}

/// Checks the declarations against the paths of the pages of the site
/// (trailing `/` aside): a `from` may not be the path of a page
/// ([`RedirectError::CollidesWithPage`]) and a `to` must be one
/// ([`RedirectError::UnknownTarget`]). Declarations are checked in order and
/// the first failure is reported.
pub fn validate_against_nav(redirects: &Redirects, page_paths: &Vec<String>) -> (r: Result<
    (),
    RedirectError,
>)
    ensures
        unit_result_view(r) == validate_upto(
            redirects@,
            string_views(page_paths@),
            redirects@.len() as int,
        ),
        r is Ok ==> forall|i: int|
            0 <= i < redirects@.len() ==> !names_page(
                string_views(page_paths@),
                #[trigger] redirects@[i].from,
            ) && names_page(string_views(page_paths@), redirects@[i].to),
{
    let ghost pages_view = string_views(page_paths@);
    let ghost rs = redirects@;
    let mut pages: Vec<Vec<char>> = Vec::new();
    let mut k: usize = 0;
    while k < page_paths.len()
        invariant
            0 <= k <= page_paths.len(),
            pages_view == string_views(page_paths@),
            vec_views(pages@) == pages_view.take(k as int),
        decreases page_paths.len() - k,
    {
        let v = chars_of(page_paths[k].as_str());
        assert(pages_view[k as int] == page_paths@[k as int]@);
        let ghost before = vec_views(pages@);
        pages.push(v);
        assert(vec_views(pages@) =~= before.push(v@));
        assert(vec_views(pages@) =~= pages_view.take(k + 1));
        k = k + 1;
    }
    assert(pages_view.take(page_paths.len() as int) =~= pages_view);
    let mut i: usize = 0;
    while i < redirects.entries.len()
        invariant
            0 <= i <= redirects.entries.len(),
            rs == redirects@,
            rs.len() == redirects.entries@.len(),
            vec_views(pages@) == pages_view,
            pages_view == string_views(page_paths@),
            validate_upto(rs, pages_view, i as int) == Ok::<(), RedirectErrorModel>(()),
        decreases redirects.entries.len() - i,
    {
        let entry = &redirects.entries[i];
        assert(entry@ == rs[i as int]);
        let from = chars_of(entry.from.as_str());
        let to = chars_of(entry.to.as_str());
        if is_page(&pages, &from) {
            let e = RedirectError::CollidesWithPage(entry.from.clone());
            proof {
                lemma_validate_stays_err(rs, pages_view, i + 1, rs.len() as int);
            }
            return Err(e);
        }
        if !is_page(&pages, &to) {
            let e = RedirectError::UnknownTarget { from: entry.from.clone(), to: entry.to.clone() };
            proof {
                lemma_validate_stays_err(rs, pages_view, i + 1, rs.len() as int);
            }
            return Err(e);
        }
        i = i + 1;
    }
    proof {
        lemma_validate_ok(rs, pages_view, rs.len() as int);
    }
    Ok(())
}

/// Output path of the redirect document for `from`: `from` itself, so that
/// every tool that needs to know which generated files are redirects derives
/// them through this one function.
pub fn output_path(from: &str) -> (p: String)
    ensures
        p@ == from@,
{
    from.to_owned()
}

// ---------------------------------------------------------------------------
// Messages
// ---------------------------------------------------------------------------
pub open spec fn error_message(e: RedirectErrorModel) -> Seq<char> {
    match e {
        RedirectErrorModel::TooLarge => MANIFEST_REL_PATH@ + " exceeds the "@ + decimal(
            MAX_INPUT_BYTES as nat,
        ) + " byte size limit"@,
        RedirectErrorModel::Parse { line, message } => MANIFEST_REL_PATH@ + ":"@ + decimal(
            line as nat,
        ) + ": "@ + message,
        RedirectErrorModel::MissingKey { context, key } => "missing required key `"@ + key
            + "` in ["@ + context + "]"@,
        RedirectErrorModel::UnsafePath { line, path } => MANIFEST_REL_PATH@ + ":"@ + decimal(
            line as nat,
        ) + ": path `"@ + path + UNSAFE_PATH_RULE@,
        RedirectErrorModel::DuplicateFrom(path) => "duplicate redirect `from` `"@ + path + "`"@,
        RedirectErrorModel::CollidesWithPage(path) => "redirect `from` `"@ + path
            + "` collides with an existing nav.toml page path"@,
        RedirectErrorModel::UnknownTarget { from, to } => "redirect `from` `"@ + from
            + "` targets `to` `"@ + to + "` which is not a page registered in nav.toml"@,
    }
}

pub const UNSAFE_PATH_RULE: &'static str = "` must start and end with `/` with no empty segments, segments limited to alphanumerics, `-`, `_`";

impl RedirectError {
    /// The one-line description of the error: line number, reason and the
    /// site path concerned, never the whole input.
    pub fn message(&self) -> (s: String)
        ensures
            s@ == error_message(self@),
    {
        let mut s = String::new();
        match self {
            RedirectError::TooLarge => {
                push_str_chars(&mut s, MANIFEST_REL_PATH);
                push_str_chars(&mut s, " exceeds the ");
                push_decimal(&mut s, MAX_INPUT_BYTES);
                push_str_chars(&mut s, " byte size limit");
            },
            RedirectError::Parse { line, message } => {
                push_str_chars(&mut s, MANIFEST_REL_PATH);
                push_str_chars(&mut s, ":");
                push_decimal(&mut s, *line);
                push_str_chars(&mut s, ": ");
                push_str_chars(&mut s, message.as_str());
            },
            RedirectError::MissingKey { context, key } => {
                push_str_chars(&mut s, "missing required key `");
                push_str_chars(&mut s, key);
                push_str_chars(&mut s, "` in [");
                push_str_chars(&mut s, context);
                push_str_chars(&mut s, "]");
            },
            RedirectError::UnsafePath { line, path } => {
                push_str_chars(&mut s, MANIFEST_REL_PATH);
                push_str_chars(&mut s, ":");
                push_decimal(&mut s, *line);
                push_str_chars(&mut s, ": path `");
                push_str_chars(&mut s, path.as_str());
                push_str_chars(&mut s, UNSAFE_PATH_RULE);
            },
            RedirectError::DuplicateFrom(path) => {
                push_str_chars(&mut s, "duplicate redirect `from` `");
                push_str_chars(&mut s, path.as_str());
                push_str_chars(&mut s, "`");
            },
            RedirectError::CollidesWithPage(path) => {
                push_str_chars(&mut s, "redirect `from` `");
                push_str_chars(&mut s, path.as_str());
                push_str_chars(&mut s, "` collides with an existing nav.toml page path");
            },
            RedirectError::UnknownTarget { from, to } => {
                push_str_chars(&mut s, "redirect `from` `");
                push_str_chars(&mut s, from.as_str());
                push_str_chars(&mut s, "` targets `to` `");
                push_str_chars(&mut s, to.as_str());
                push_str_chars(&mut s, "` which is not a page registered in nav.toml");
            },
        }
        proof {
            assert(Seq::<char>::empty() + MANIFEST_REL_PATH@ =~= MANIFEST_REL_PATH@);
            assert(Seq::<char>::empty() + "missing required key `"@ =~= "missing required key `"@);
            assert(Seq::<char>::empty() + "duplicate redirect `from` `"@ =~= "duplicate redirect `from` `"@);
            assert(Seq::<char>::empty() + "redirect `from` `"@ =~= "redirect `from` `"@);
        }
        s
    }
}


// ---------------------------------------------------------------------------
// Syntax errors stay on one line
// ---------------------------------------------------------------------------
pub open spec fn no_newline(s: Seq<char>) -> bool {
    forall|i: int| 0 <= i < s.len() ==> #[trigger] s[i] != '\n'
}

proof fn lemma_nn_concat(a: Seq<char>, b: Seq<char>)
    requires
        no_newline(a),
        no_newline(b),
    ensures
        no_newline(a + b),
{
    assert forall|i: int| 0 <= i < (a + b).len() implies #[trigger] (a + b)[i] != '\n' by {
        if i < a.len() {
            assert((a + b)[i] == a[i]);
        } else {
            assert((a + b)[i] == b[i - a.len()]);
        }
    }
}

proof fn lemma_nn_subrange(a: Seq<char>, lo: int, hi: int)
    requires
        no_newline(a),
        0 <= lo <= hi <= a.len(),
    ensures
        no_newline(a.subrange(lo, hi)),
{
    assert forall|i: int| 0 <= i < a.subrange(lo, hi).len() implies #[trigger] a.subrange(lo, hi)[i]
        != '\n' by {
        assert(a.subrange(lo, hi)[i] == a[lo + i]);
    }
}

proof fn lemma_nn_trim(a: Seq<char>)
    requires
        no_newline(a),
    ensures
        no_newline(trim_start(a)),
        no_newline(trim_end(a)),
        no_newline(trim(a)),
    decreases a.len(),
{
    if a.len() > 0 {
        lemma_nn_subrange(a, 1, a.len() as int);
        lemma_nn_subrange(a, 0, a.len() - 1);
        assert(a.drop_first() =~= a.subrange(1, a.len() as int));
        assert(a.drop_last() =~= a.subrange(0, a.len() - 1));
        lemma_nn_trim(a.drop_first());
        lemma_nn_trim(a.drop_last());
    }
    if no_newline(trim_start(a)) {
        lemma_nn_trim_end(trim_start(a));
    }
}

proof fn lemma_nn_trim_end(a: Seq<char>)
    requires
        no_newline(a),
    ensures
        no_newline(trim_end(a)),
    decreases a.len(),
{
    if a.len() > 0 {
        lemma_nn_subrange(a, 0, a.len() - 1);
        assert(a.drop_last() =~= a.subrange(0, a.len() - 1));
        lemma_nn_trim_end(a.drop_last());
    }
}

proof fn lemma_split_nl_no_newline(s: Seq<char>)
    ensures
        forall|k: int| 0 <= k < split_nl(s).len() ==> no_newline(#[trigger] split_nl(s)[k]),
        split_nl(s).len() >= 1,
    decreases s.len(),
{
    if s.len() > 0 {
        lemma_split_nl_no_newline(s.drop_last());
        let r = split_nl(s.drop_last());
        if s.last() != '\n' {
            let l = r.last().push(s.last());
            assert(no_newline(r[r.len() - 1]));
            assert forall|i: int| 0 <= i < l.len() implies #[trigger] l[i] != '\n' by {
                if i < l.len() - 1 {
                    assert(l[i] == r[r.len() - 1][i]);
                }
            }
        } else {
            assert(no_newline(Seq::<char>::empty()));
        }
    }
}

proof fn lemma_literal_messages_one_line()
    ensures
        no_newline(MSG_CLOSE_DOUBLE@),
        no_newline(MSG_CLOSE_SINGLE@),
        no_newline(MSG_EXPECTED_PAIR@),
        no_newline(MSG_EXPECTED_STRING@),
        no_newline(MSG_UNTERMINATED_STRING@),
        no_newline(MSG_UNTERMINATED_ESCAPE@),
        no_newline(MSG_OUTSIDE_TABLE@),
        no_newline("unexpected trailing content `"@),
        no_newline("`"@),
        no_newline("unknown table `[["@),
        no_newline("]]`"@),
        no_newline("unknown table `["@),
        no_newline("]`"@),
        no_newline("invalid key `"@),
        no_newline("unsupported escape sequence `\\"@),
        no_newline("duplicate key `"@),
        no_newline("redirect.from"@),
        no_newline("redirect.to"@),
        no_newline("unknown key `"@),
        no_newline("` in [[redirect]]"@),
        no_newline(MANIFEST_REL_PATH@),
        no_newline(":"@),
        no_newline(": "@),
{
    reveal_strlit("expected closing `]]`");
    reveal_strlit("expected closing `]`");
    reveal_strlit("expected `key = \"value\"`");
    reveal_strlit("expected a double-quoted string value (this parser accepts no other TOML value type)");
    reveal_strlit("unterminated string literal");
    reveal_strlit("unterminated escape sequence");
    reveal_strlit("key-value pair outside of any table");
    reveal_strlit("unexpected trailing content `");
    reveal_strlit("`");
    reveal_strlit("unknown table `[[");
    reveal_strlit("]]`");
    reveal_strlit("unknown table `[");
    reveal_strlit("]`");
    reveal_strlit("invalid key `");
    reveal_strlit("unsupported escape sequence `\\");
    reveal_strlit("duplicate key `");
    reveal_strlit("redirect.from");
    reveal_strlit("redirect.to");
    reveal_strlit("unknown key `");
    reveal_strlit("` in [[redirect]]");
    reveal_strlit("site/redirects.toml");
    reveal_strlit(":");
    reveal_strlit(": ");
}

proof fn lemma_nn3(a: Seq<char>, b: Seq<char>, c: Seq<char>)
    requires
        no_newline(a),
        no_newline(b),
        no_newline(c),
    ensures
        no_newline(a + b + c),
{
    lemma_nn_concat(a, b);
    lemma_nn_concat(a + b, c);
}

proof fn lemma_scan_string_one_line(s: Seq<char>)
    requires
        no_newline(s),
    ensures
        scan_string(s) matches Err(m) ==> no_newline(m),
    decreases s.len(),
{
    lemma_literal_messages_one_line();
    if s.len() > 0 {
        if s[0] == '\\' && s.len() >= 2 {
            if is_supported_escape(s[1]) {
                lemma_nn_subrange(s, 2, s.len() as int);
                assert(s.skip(2) =~= s.subrange(2, s.len() as int));
                lemma_scan_string_one_line(s.skip(2));
            } else {
                assert(no_newline(seq![s[1]]));
                lemma_nn3("unsupported escape sequence `\\"@, seq![s[1]], "`"@);
            }
        } else if s[0] != '"' && s[0] != '\\' {
            lemma_nn_subrange(s, 1, s.len() as int);
            assert(s.drop_first() =~= s.subrange(1, s.len() as int));
            lemma_scan_string_one_line(s.drop_first());
        }
    }
}

proof fn lemma_classify_one_line(t: Seq<char>)
    requires
        no_newline(t),
    ensures
        classify(t) matches Err(m) ==> no_newline(m),
        classify(t) matches Ok(LineAction::Assign { key, value }) ==> no_newline(key),
{
    lemma_literal_messages_one_line();
    if t.len() == 0 || t[0] == '#' {
    } else if t.len() >= 2 && t[0] == '[' && t[1] == '[' {
        let rest = t.skip(2);
        lemma_nn_subrange(t, 2, t.len() as int);
        assert(rest =~= t.subrange(2, t.len() as int));
        if let Some(end) = find_pair(rest) {
            crate::text::lemma_find_pair_in_range(rest);
            lemma_nn_subrange(rest, 0, end);
            assert(rest.take(end) =~= rest.subrange(0, end));
            lemma_nn_trim(rest.take(end));
            lemma_nn_subrange(rest, end + 2, rest.len() as int);
            assert(rest.skip(end + 2) =~= rest.subrange(end + 2, rest.len() as int));
            lemma_nn_trim(rest.skip(end + 2));
            lemma_nn3("unexpected trailing content `"@, trim_start(rest.skip(end + 2)), "`"@);
            lemma_nn3("unknown table `[["@, trim(rest.take(end)), "]]`"@);
        }
    } else if t[0] == '[' {
        let rest = t.skip(1);
        lemma_nn_subrange(t, 1, t.len() as int);
        assert(rest =~= t.subrange(1, t.len() as int));
        if let Some(end) = find_char(rest, ']') {
            crate::text::lemma_find_char_in_range(rest, ']');
            lemma_nn_subrange(rest, 0, end);
            assert(rest.take(end) =~= rest.subrange(0, end));
            lemma_nn_trim(rest.take(end));
            lemma_nn3("unknown table `["@, trim(rest.take(end)), "]`"@);
        }
    } else {
        if let Some(eq) = find_char(t, '=') {
            crate::text::lemma_find_char_in_range(t, '=');
            lemma_nn_subrange(t, 0, eq);
            assert(t.take(eq) =~= t.subrange(0, eq));
            lemma_nn_trim(t.take(eq));
            let key = trim(t.take(eq));
            lemma_nn3("invalid key `"@, key, "`"@);
            lemma_nn_subrange(t, eq + 1, t.len() as int);
            assert(t.skip(eq + 1) =~= t.subrange(eq + 1, t.len() as int));
            let vp = trim_start(t.skip(eq + 1));
            lemma_nn_trim(t.skip(eq + 1));
            if vp.len() > 0 && vp[0] == '"' {
                lemma_nn_subrange(vp, 1, vp.len() as int);
                assert(vp.drop_first() =~= vp.subrange(1, vp.len() as int));
                lemma_scan_string_one_line(vp.drop_first());
                lemma_scan_string_rem_one_line(vp.drop_first());
                if let Ok((value, rem)) = scan_string(vp.drop_first()) {
                    lemma_nn_trim(rem);
                    lemma_nn3("unexpected trailing content `"@, trim_start(rem), "`"@);
                }
            }
        }
    }
}

proof fn lemma_scan_string_rem_one_line(s: Seq<char>)
    requires
        no_newline(s),
    ensures
        scan_string(s) matches Ok((out, rem)) ==> no_newline(rem),
    decreases s.len(),
{
    if s.len() > 0 {
        if s[0] == '"' {
            lemma_nn_subrange(s, 1, s.len() as int);
            assert(s.drop_first() =~= s.subrange(1, s.len() as int));
        } else if s[0] == '\\' && s.len() >= 2 && is_supported_escape(s[1]) {
            lemma_nn_subrange(s, 2, s.len() as int);
            assert(s.skip(2) =~= s.subrange(2, s.len() as int));
            lemma_scan_string_rem_one_line(s.skip(2));
        } else if s[0] != '"' && s[0] != '\\' {
            lemma_nn_subrange(s, 1, s.len() as int);
            assert(s.drop_first() =~= s.subrange(1, s.len() as int));
            lemma_scan_string_rem_one_line(s.drop_first());
        }
    }
}

proof fn lemma_read_lines_one_line(lines: Seq<Seq<char>>, n: int)
    requires
        0 <= n <= lines.len(),
        forall|k: int| 0 <= k < lines.len() ==> no_newline(#[trigger] lines[k]),
    ensures
        read_lines(lines, n) matches Err(RedirectErrorModel::Parse { message, .. }) ==> no_newline(
            message,
        ),
        read_lines(lines, n) is Err ==> read_lines(lines, n)->Err_0 is Parse,
    decreases n,
{
    if n > 0 {
        lemma_read_lines_one_line(lines, n - 1);
        lemma_literal_messages_one_line();
        let t = trim(lines[n - 1]);
        assert(no_newline(lines[n - 1]));
        lemma_nn_trim(lines[n - 1]);
        lemma_classify_one_line(t);
        lemma_nn3("duplicate key `"@, "redirect.from"@, "`"@);
        lemma_nn3("duplicate key `"@, "redirect.to"@, "`"@);
        if let Ok(LineAction::Assign { key, value }) = classify(t) {
            lemma_nn3("unknown key `"@, key, "` in [[redirect]]"@);
        }
    }
}

/// Law: a syntax error names one line of the manifest: its message, and the
/// error's rendering, hold no line break, so they never carry more than
/// that line of the input.
pub proof fn lemma_syntax_errors_stay_on_one_line(s: Seq<char>)
    ensures
        spec_parse_redirects(s) matches Err(RedirectErrorModel::Parse { line, message }) ==> no_newline(
            message,
        ) && no_newline(error_message(RedirectErrorModel::Parse { line, message })),
{
    let lines = lines_of(s);
    lemma_split_nl_no_newline(s);
    let p = split_nl(s);
    assert forall|k: int| 0 <= k < lines.len() implies no_newline(#[trigger] lines[k]) by {
        assert(lines[k] == p[k]);
    }
    lemma_read_lines_one_line(lines, lines.len() as int);
    if byte_len(s) <= MAX_INPUT_BYTES {
        if let Ok(bs) = read_lines(lines, lines.len() as int) {
            lemma_check_tables_not_parse(bs, bs.len() as int);
        }
    }
    if let Err(RedirectErrorModel::Parse { line, message }) = spec_parse_redirects(s) {
        lemma_literal_messages_one_line();
        lemma_decimal_one_line(line as nat);
        lemma_nn3(MANIFEST_REL_PATH@, ":"@, decimal(line as nat));
        lemma_nn3(MANIFEST_REL_PATH@ + ":"@ + decimal(line as nat), ": "@, message);
    }
}

proof fn lemma_check_tables_not_parse(bs: Seq<BuilderModel>, n: int)
    ensures
        check_tables(bs, n) is Err ==> !(check_tables(bs, n)->Err_0 is Parse),
    decreases n,
{
    if n > 0 {
        lemma_check_tables_not_parse(bs, n - 1);
    }
}

proof fn lemma_decimal_one_line(n: nat)
    ensures
        no_newline(decimal(n)),
    decreases n,
{
    if n >= 10 {
        lemma_decimal_one_line(n / 10);
        assert(no_newline(seq![crate::text::digit_char(n % 10)]));
        lemma_nn_concat(decimal(n / 10), seq![crate::text::digit_char(n % 10)]);
        assert(decimal(n / 10).push(crate::text::digit_char(n % 10)) =~= decimal(n / 10) + seq![
            crate::text::digit_char(n % 10),
        ]);
    }
}


// ---------------------------------------------------------------------------
// The redirect document
// ---------------------------------------------------------------------------
/// Prefix of the `<title>` of a redirect document ("moved").
pub const MOVED_TITLE_PREFIX: &'static str = "移転しました | ";

/// The fallback sentence in front of the link ("this page has moved; open
/// the following link if you are not taken there automatically").
pub const MOVED_NOTICE: &'static str = "このページは移動しました。自動的に移動しない場合は次のリンクを開いてください: ";

pub open spec fn attr_views(attrs: Seq<(String, String)>) -> Seq<(Seq<char>, Seq<char>)> {
    attrs.map_values(|a: (String, String)| (a.0@, a.1@))
}

/// `n` is a `tag` element with exactly these attributes and `arity`
/// children.
pub open spec fn is_element(
    n: Node,
    tag: Seq<char>,
    attrs: Seq<(Seq<char>, Seq<char>)>,
    arity: nat,
) -> bool {
    n matches Node::Element { tag: t, attrs: a, children: c } && t@ == tag && attr_views(a@)
        == attrs && c@.len() == arity
}

/// Child `i` of an element.
pub open spec fn child(n: Node, i: int) -> Node {
    match n {
        Node::Element { children, .. } => children@[i],
        _ => arbitrary(),
    }
}

pub open spec fn is_text_node(n: Node, s: Seq<char>) -> bool {
    n matches Node::Text(t) && t@ == s
}

/// The redirect document for `to_href`: an `html` element (`lang="ja"`)
/// whose `head` holds a UTF-8 charset, a `refresh` to `to_href` after 0
/// seconds, a canonical link to `to_href`, `robots: noindex` and a title,
/// and whose `body` holds one paragraph: the notice and a link to
/// `to_href` that shows `to_href`. Nothing else: no class, no script, no
/// stylesheet.
pub open spec fn is_redirect_document(n: Node, site_title: Seq<char>, to_href: Seq<char>) -> bool {
    let head = child(n, 0);
    let body = child(n, 1);
    let para = child(body, 0);
    let link = child(para, 1);
    &&& is_element(n, "html"@, seq![("lang"@, "ja"@)], 2)
    &&& is_element(head, "head"@, Seq::empty(), 5)
    &&& is_element(child(head, 0), "meta"@, seq![("charset"@, "utf-8"@)], 0)
    &&& is_element(
        child(head, 1),
        "meta"@,
        seq![("http-equiv"@, "refresh"@), ("content"@, "0; url="@ + to_href)],
        0,
    )
    &&& is_element(child(head, 2), "link"@, seq![("rel"@, "canonical"@), ("href"@, to_href)], 0)
    &&& is_element(child(head, 3), "meta"@, seq![("name"@, "robots"@), ("content"@, "noindex"@)], 0)
    &&& is_element(child(head, 4), "title"@, Seq::empty(), 1)
    &&& is_text_node(child(child(head, 4), 0), MOVED_TITLE_PREFIX@ + site_title)
    &&& is_element(body, "body"@, Seq::empty(), 1)
    &&& is_element(para, "p"@, Seq::empty(), 2)
    &&& is_text_node(child(para, 0), MOVED_NOTICE@)
    &&& is_element(link, "a"@, seq![("href"@, to_href)], 1)
    &&& is_text_node(child(link, 0), to_href)
}

fn attr(name: &str, value: &str) -> (a: (String, String))
    ensures
        a.0@ == name@,
        a.1@ == value@,
{
    (name.to_owned(), value.to_owned())
}

fn leaf(tag: &str, attrs: Vec<(String, String)>) -> (n: Node)
    ensures
        is_element(n, tag@, attr_views(attrs@), 0),
{
    Node::element(tag, attrs, Vec::new())
}

fn concat_str(a: &str, b: &str) -> (s: String)
    ensures
        s@ == a@ + b@,
{
    let mut s = a.to_owned();
    push_str_chars(&mut s, b);
    s
}

/// Builds the page left at an old URL: a `meta refresh` and a canonical
/// link to `to_href`, `noindex`, and a plain link as fallback (see
/// [`is_redirect_document`]). `to_href` is the site path of the new page
/// with the base path applied. The tree is rendered with the usual
/// escaping of text and attribute values; the path checks of
/// [`parse_redirects`] and [`validate_against_nav`] are what keep the
/// refresh target a page of the site.
pub fn redirect_document(site_title: &str, to_href: &str) -> (n: Node)
    ensures
        is_redirect_document(n, site_title@, to_href@),
{
    let a1 = vec![attr("charset", "utf-8")];
    assert(attr_views(a1@) =~= seq![("charset"@, "utf-8"@)]);
    let charset = leaf("meta", a1);
    let refresh_target = concat_str("0; url=", to_href);
    let a2 = vec![attr("http-equiv", "refresh"), attr("content", refresh_target.as_str())];
    assert(attr_views(a2@) =~= seq![("http-equiv"@, "refresh"@), ("content"@, "0; url="@ + to_href@)]);
    let refresh = leaf("meta", a2);
    let a3 = vec![attr("rel", "canonical"), attr("href", to_href)];
    assert(attr_views(a3@) =~= seq![("rel"@, "canonical"@), ("href"@, to_href@)]);
    let canonical = leaf("link", a3);
    let a4 = vec![attr("name", "robots"), attr("content", "noindex")];
    assert(attr_views(a4@) =~= seq![("name"@, "robots"@), ("content"@, "noindex"@)]);
    let robots = leaf("meta", a4);
    let title_text = concat_str(MOVED_TITLE_PREFIX, site_title);
    let title_children = vec![Node::text(title_text.as_str())];
    let title = Node::element("title", Vec::new(), title_children);
    let ghost g_charset = charset;
    let ghost g_refresh = refresh;
    let ghost g_canonical = canonical;
    let ghost g_robots = robots;
    let ghost g_title = title;
    let head_children = vec![charset, refresh, canonical, robots, title];
    assert(head_children@ =~= seq![g_charset, g_refresh, g_canonical, g_robots, g_title]);
    let head = Node::element("head", Vec::new(), head_children);
    let a5 = vec![attr("href", to_href)];
    assert(attr_views(a5@) =~= seq![("href"@, to_href@)]);
    let link = Node::element("a", a5, vec![Node::text(to_href)]);
    let ghost g_link = link;
    let notice = Node::text(MOVED_NOTICE);
    let ghost g_notice = notice;
    let para_children = vec![notice, link];
    assert(para_children@ =~= seq![g_notice, g_link]);
    let para = Node::element("p", Vec::new(), para_children);
    let ghost g_para = para;
    let body = Node::element("body", Vec::new(), vec![para]);
    let ghost g_head = head;
    let ghost g_body = body;
    let a6 = vec![attr("lang", "ja")];
    assert(attr_views(a6@) =~= seq![("lang"@, "ja"@)]);
    let html_children = vec![head, body];
    assert(html_children@ =~= seq![g_head, g_body]);
    let html = Node::element("html", a6, html_children);
    proof {
        assert(attr_views(Seq::<(String, String)>::empty()) =~= Seq::empty());
        assert(child(html, 0) == g_head);
        assert(child(html, 1) == g_body);
        assert(child(g_head, 0) == g_charset);
        assert(child(g_head, 1) == g_refresh);
        assert(child(g_head, 2) == g_canonical);
        assert(child(g_head, 3) == g_robots);
        assert(child(g_head, 4) == g_title);
        assert(child(g_body, 0) == g_para);
        assert(child(g_para, 0) == g_notice);
        assert(child(g_para, 1) == g_link);
    }
    html
}

} // verus!
