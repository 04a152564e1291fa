//! The build-time search index (`assets/search-index.json`).
//!
//! For every page the builder records its href, title, headings and a plain
//! text rendering of its body ([`page_entry`]); [`render_json`] serialises
//! the entries by hand with a fixed key order, and [`check_size`] refuses an
//! index over [`MAX_INDEX_BYTES`]. The index is always fetched as a file of
//! its own, never inlined into HTML; even so every string goes through
//! [`escape_json_string`], which also escapes `<`, `>`, `&`, U+2028 and
//! U+2029, so that the JSON holds none of them.
use vstd::prelude::*;
use crate::node::Node;
use crate::text::{
    byte_len, char_is_whitespace, char_width, chars_of, decimal, is_white_space,
    lemma_byte_len_concat, lemma_byte_len_empty, lemma_byte_len_push, push_decimal,
    push_str_chars, string_of, string_push, sub_chars,
};

verus! {

broadcast use vstd::seq_lib::group_seq_properties;

/// Output path of the index, relative to the output directory.
pub const REL_PATH: &'static str = "assets/search-index.json";

/// Schema version of the index; the client refuses any other.
pub const SCHEMA_VERSION: u32 = 1;

/// Largest `text` of one page, in bytes.
pub const MAX_PAGE_TEXT_BYTES: usize = 4096;

/// Largest index, in bytes.
pub const MAX_INDEX_BYTES: usize = 1048576;

/// One heading of a page.
#[derive(Debug, Clone, PartialEq, Eq)]
pub struct SectionEntry {
    /// The `id` attribute the heading's anchor points at.
    pub id: String,
    /// Heading level (`h2` is 2, `h3` is 3).
    pub level: u8,
    /// The heading's text.
    pub title: String,
}

/// One page of the index.
#[derive(Debug, Clone, PartialEq, Eq)]
pub struct PageEntry {
    /// Site-absolute path, base path included.
    pub href: String,
    /// Page title.
    pub title: String,
    /// Every `h2`/`h3` heading, in document order.
    pub sections: Vec<SectionEntry>,
    /// Body text, white space normalised and cut to
    /// [`MAX_PAGE_TEXT_BYTES`].
    pub text: String,
}

/// Why [`check_size`] refused an index.
#[derive(Debug)]
pub enum SearchIndexError {
    /// The index has `bytes` bytes, more than `limit`.
    TooLarge { bytes: usize, limit: usize },
}

pub struct SectionModel {
    pub id: Seq<char>,
    pub level: nat,
    pub title: Seq<char>,
}

pub struct PageModel {
    pub href: Seq<char>,
    pub title: Seq<char>,
    pub sections: Seq<SectionModel>,
    pub text: Seq<char>,
}

impl View for SectionEntry {
    type V = SectionModel;

    open spec fn view(&self) -> SectionModel {
        SectionModel { id: self.id@, level: self.level as nat, title: self.title@ }
    }
}

pub open spec fn section_views(ss: Seq<SectionEntry>) -> Seq<SectionModel> {
    ss.map_values(|s: SectionEntry| s@)
}

impl View for PageEntry {
    type V = PageModel;

    open spec fn view(&self) -> PageModel {
        PageModel {
            href: self.href@,
            title: self.title@,
            sections: section_views(self.sections@),
            text: self.text@,
        }
    }
}

pub open spec fn page_views(ps: Seq<PageEntry>) -> Seq<PageModel> {
    ps.map_values(|p: PageEntry| p@)
}

// ---------------------------------------------------------------------------
// Body text
// ---------------------------------------------------------------------------
/// The attributes mark a headless component root (`data-scope`), whose
/// demo markup is left out of the index.
pub open spec fn has_data_scope(attrs: Seq<(String, String)>) -> bool {
    exists|i: int| 0 <= i < attrs.len() && #[trigger] attrs[i].0@ == "data-scope"@
}

/// The text of a tree: text nodes as they are, one space before and after
/// the contents of every element, nothing from raw HTML or from a subtree
/// whose root carries `data-scope`.
pub open spec fn node_text(n: Node) -> Seq<char>
    decreases n,
{
    match n {
        Node::Text(s) => s@,
        Node::RawHtml(_) => Seq::<char>::empty(),
        Node::Element { attrs, children, .. } => {
            if has_data_scope(attrs@) {
                Seq::<char>::empty()
            } else {
                seq![' '] + nodes_text(children@) + seq![' ']
            }
        },
    }
}

/// The texts of `ns`, concatenated.
pub open spec fn nodes_text(ns: Seq<Node>) -> Seq<char>
    decreases ns,
{
    if ns.len() == 0 {
        Seq::<char>::empty()
    } else {
        nodes_text(ns.drop_last()) + node_text(ns.last())
    }
}

/// Law: an element with an attribute named `data-scope`, at any position
/// among its attributes, contributes no text; one with no such attribute
/// contributes its children's text between two spaces.
pub proof fn lemma_data_scope_subtree_has_no_text(
    tag: String,
    attrs: Vec<(String, String)>,
    children: Vec<Node>,
    i: int,
)
    requires
        0 <= i < attrs@.len(),
        attrs@[i].0@ == "data-scope"@,
    ensures
        node_text(Node::Element { tag, attrs, children }) == Seq::<char>::empty(),
{
    assert(has_data_scope(attrs@));
}

/// Law: an element none of whose attributes is named `data-scope` gives
/// its children's text with one space before and one after.
pub proof fn lemma_unscoped_element_text(
    tag: String,
    attrs: Vec<(String, String)>,
    children: Vec<Node>,
)
    requires
        forall|i: int| 0 <= i < attrs@.len() ==> #[trigger] attrs@[i].0@ != "data-scope"@,
    ensures
        node_text(Node::Element { tag, attrs, children }) == seq![' '] + nodes_text(children@)
            + seq![' '],
{
}

fn attrs_have_data_scope(attrs: &Vec<(String, String)>) -> (b: bool)
    ensures
        b == has_data_scope(attrs@),
{
    let key = "data-scope".to_owned();
    let mut i: usize = 0;
    while i < attrs.len()
        invariant
            0 <= i <= attrs.len(),
            key@ == "data-scope"@,
            forall|j: int| 0 <= j < i ==> #[trigger] attrs@[j].0@ != "data-scope"@,
        decreases attrs.len() - i,
    {
        if attrs[i].0 == key {
            return true;
        }
        i = i + 1;
    }
    false
}

/// Appends the text of `node` (see [`node_text`]) to `out`.
pub fn collect_text_into(node: &Node, out: &mut String)
    ensures
        final(out)@ == old(out)@ + node_text(*node),
    decreases node,
{
    match node {
        Node::Text(s) => {
            push_str_chars(out, s.as_str());
        },
        Node::Element { attrs, children, .. } => {
            if attrs_have_data_scope(attrs) {
                assert(old(out)@ + Seq::<char>::empty() =~= old(out)@);
                return;
            }
            let ghost start = out@;
            string_push(out, ' ');
            let mut i: usize = 0;
            while i < children.len()
                invariant
                    0 <= i <= children.len(),
                    *node is Element,
                    (*node)->children == *children,
                    out@ == start + seq![' '] + nodes_text(children@.take(i as int)),
                decreases children.len() - i,
            {
                proof {
                    assert(decreases_to!(*node => (*node)->children));
                    assert(decreases_to!(*children => children@));
                    assert(decreases_to!(children@ => children@[i as int]));
                    assert(decreases_to!(*node => children@[i as int]));
                }
                collect_text_into(&children[i], out);
                assert(children@.take(i + 1).drop_last() =~= children@.take(i as int));
                i = i + 1;
            }
            assert(children@.take(children.len() as int) =~= children@);
            string_push(out, ' ');
            assert(out@ =~= start + (seq![' '] + nodes_text(children@) + seq![' ']));
        },
        Node::RawHtml(_) => {
            assert(old(out)@ + Seq::<char>::empty() =~= old(out)@);
        },
    }
}

/// The text of `node` (see [`node_text`]).
pub fn collect_text(node: &Node) -> (s: String)
    ensures
        s@ == node_text(*node),
{
    let mut out = String::new();
    collect_text_into(node, &mut out);
    assert(Seq::<char>::empty() + node_text(*node) =~= node_text(*node));
    out
}

// ---------------------------------------------------------------------------
// White space
// ---------------------------------------------------------------------------
/// `s` with white space runs turned into single spaces, left to right: the
/// text so far, and whether it ends in such a space (or is still empty).
pub open spec fn collapse(s: Seq<char>) -> (Seq<char>, bool)
    decreases s.len(),
{
    if s.len() == 0 {
        (Seq::<char>::empty(), true)
    } else {
        let (o, space) = collapse(s.drop_last());
        let c = s.last();
        if is_white_space(c) {
            if !space {
                (o.push(' '), true)
            } else {
                (o, space)
            }
        } else {
            (o.push(c), false)
        }
    }
}

/// `s` with every run of white space turned into one space and no space at
/// either end.
pub open spec fn normalized(s: Seq<char>) -> Seq<char> {
    let o = collapse(s).0;
    if o.len() > 0 && o.last() == ' ' {
        o.drop_last()
    } else {
        o
    }
}

/// `t` has no white space but single inner spaces.
pub open spec fn is_normal_text(t: Seq<char>) -> bool {
    &&& forall|i: int| 0 <= i < t.len() && is_white_space(#[trigger] t[i]) ==> t[i] == ' '
    &&& t.len() > 0 ==> t[0] != ' ' && t.last() != ' '
    &&& forall|i: int| 0 <= i < t.len() - 1 && #[trigger] t[i] == ' ' ==> t[i + 1] != ' '
}

proof fn lemma_collapse_shape(s: Seq<char>)
    ensures
        ({
            let (o, space) = collapse(s);
            &&& forall|i: int| 0 <= i < o.len() && is_white_space(#[trigger] o[i]) ==> o[i] == ' '
            &&& o.len() > 0 ==> o[0] != ' '
            &&& forall|i: int| 0 <= i < o.len() - 1 && #[trigger] o[i] == ' ' ==> o[i + 1] != ' '
            &&& space <==> (o.len() == 0 || o.last() == ' ')
        }),
    decreases s.len(),
{
    if s.len() > 0 {
        lemma_collapse_shape(s.drop_last());
    }
}

proof fn lemma_collapse_of_normal(t: Seq<char>)
    requires
        forall|i: int| 0 <= i < t.len() && is_white_space(#[trigger] t[i]) ==> t[i] == ' ',
        t.len() > 0 ==> t[0] != ' ',
        forall|i: int| 0 <= i < t.len() - 1 && #[trigger] t[i] == ' ' ==> t[i + 1] != ' ',
    ensures
        collapse(t) == (t, t.len() == 0 || t.last() == ' '),
    decreases t.len(),
{
    if t.len() > 0 {
        let p = t.drop_last();
        assert forall|i: int| 0 <= i < p.len() - 1 && #[trigger] p[i] == ' ' implies p[i + 1] != ' ' by {
            assert(t[i] == ' ');
        }
        assert forall|i: int| 0 <= i < p.len() && is_white_space(#[trigger] p[i]) implies p[i] == ' ' by {
            assert(is_white_space(t[i]));
        }
        lemma_collapse_of_normal(p);
        if is_white_space(t.last()) && p.len() > 0 {
            assert(t[p.len() - 1] == ' ' ==> t[p.len() as int] != ' ');
        }
        assert(p.push(t.last()) =~= t);
    }
}

/// Law: normalising is idempotent, and a normalised text is exactly a text
/// without white space other than single inner spaces.
pub proof fn lemma_normalized_is_normal(s: Seq<char>)
    ensures
        is_normal_text(normalized(s)),
        normalized(normalized(s)) == normalized(s),
{
    lemma_collapse_shape(s);
    let o = collapse(s).0;
    let t = normalized(s);
    if o.len() > 0 && o.last() == ' ' {
        assert(t == o.drop_last());
        if t.len() > 0 {
            assert(o[t.len() - 1] == ' ' ==> o[t.len() as int] != ' ');
        }
    }
    lemma_collapse_of_normal(t);
}

/// Turns every run of white space (`char::is_whitespace`, so U+00A0 and
/// U+3000 too) into one U+0020 and trims both ends.
pub fn normalize_whitespace(input: &str) -> (out: String)
    ensures
        out@ == normalized(input@),
        is_normal_text(out@),
{
    proof {
        lemma_normalized_is_normal(input@);
    }
    let v = chars_of(input);
    let mut out: Vec<char> = Vec::new();
    let mut last_was_space = true;
    let mut i: usize = 0;
    assert(v@.take(0) =~= Seq::<char>::empty());
    while i < v.len()
        invariant
            0 <= i <= v.len(),
            v@ == input@,
            collapse(v@.take(i as int)) == (out@, last_was_space),
        decreases v.len() - i,
    {
        let c = v[i];
        assert(v@.take(i + 1).drop_last() =~= v@.take(i as int));
        assert(v@.take(i + 1).last() == c);
        if char_is_whitespace(c) {
            if !last_was_space {
                out.push(' ');
                last_was_space = true;
            }
        } else {
            out.push(c);
            last_was_space = false;
        }
        i = i + 1;
    }
    assert(v@.take(v.len() as int) =~= v@);
    if out.len() > 0 && out[out.len() - 1] == ' ' {
        out.pop();
    }
    string_of(&out)
}

// ---------------------------------------------------------------------------
// Truncation
// ---------------------------------------------------------------------------
/// `t` is `s` cut at the last character boundary at or below `max_bytes`
/// bytes: a prefix of `s` that fits, to which the next character of `s` (if
/// any) would not fit.
pub open spec fn is_truncation(t: Seq<char>, s: Seq<char>, max_bytes: int) -> bool {
    &&& t.len() <= s.len()
    &&& t == s.take(t.len() as int)
    &&& byte_len(t) <= max_bytes
    &&& t.len() < s.len() ==> byte_len(s.take(t.len() as int + 1)) > max_bytes
}

/// Cuts `s` to at most `max_bytes` bytes at the largest UTF-8 character
/// boundary, with no ellipsis; `s` itself when it fits.
pub fn truncate_to_byte_limit(s: &str, max_bytes: usize) -> (r: String)
    ensures
        is_truncation(r@, s@, max_bytes as int),
        byte_len(s@) <= max_bytes ==> r@ == s@,
{
    let v = chars_of(s);
    let mut total: usize = 0;
    let mut k: usize = 0;
    proof {
        assert(v@.take(0) =~= Seq::<char>::empty());
        lemma_byte_len_empty();
    }
    loop
        invariant
            0 <= k <= v.len(),
            v@ == s@,
            total == byte_len(v@.take(k as int)),
            total <= max_bytes,
        ensures
            0 <= k <= v.len(),
            v@ == s@,
            total == byte_len(v@.take(k as int)),
            total <= max_bytes,
            k < v.len() ==> byte_len(v@.take(k + 1)) > max_bytes,
        decreases v.len() - k,
    {
        if k == v.len() {
            break ;
        }
        let w: usize = char_width(v[k]);
        proof {
            assert(v@.take(k + 1) =~= v@.take(k as int).push(v@[k as int]));
            lemma_byte_len_push(v@.take(k as int), v@[k as int]);
        }
        if w > max_bytes - total {
            break ;
        }
        total = total + w;
        k = k + 1;
    }
    let prefix = sub_chars(&v, 0, k);
    assert(prefix@ =~= v@.take(k as int));
    proof {
        if byte_len(s@) <= max_bytes && k < v.len() {
            assert(v@ =~= v@.take(k + 1) + v@.skip(k + 1));
            lemma_byte_len_concat(v@.take(k + 1), v@.skip(k + 1));
        }
        if k == v.len() {
            assert(v@.take(k as int) =~= v@);
        }
    }
    string_of(&prefix)
}

// ---------------------------------------------------------------------------
// JSON
// ---------------------------------------------------------------------------
pub open spec fn hex_digit(d: nat) -> char {
    if d < 10 {
        crate::text::digit_char(d)
    } else if d == 10 {
        'A'
    } else if d == 11 {
        'B'
    } else if d == 12 {
        'C'
    } else if d == 13 {
        'D'
    } else if d == 14 {
        'E'
    } else {
        'F'
    }
}

/// How one character is written inside a JSON string: `"` and `\` with a
/// backslash; `<`, `>`, `&`, U+2028, U+2029 and the control characters
/// U+0000 to U+001F in the long form `\uXXXX` (upper-case hex); every other
/// character as itself.
pub open spec fn json_escape_char(c: char) -> Seq<char> {
    let u: u32 = c as u32;
    if c == '"' {
        seq!['\\', '"']
    } else if c == '\\' {
        seq!['\\', '\\']
    } else if c == '<' {
        seq!['\\', 'u', '0', '0', '3', 'C']
    } else if c == '>' {
        seq!['\\', 'u', '0', '0', '3', 'E']
    } else if c == '&' {
        seq!['\\', 'u', '0', '0', '2', '6']
    } else if u == 0x2028 {
        seq!['\\', 'u', '2', '0', '2', '8']
    } else if u == 0x2029 {
        seq!['\\', 'u', '2', '0', '2', '9']
    } else if u <= 0x1F {
        seq!['\\', 'u', '0', '0', hex_digit((u / 16) as nat), hex_digit((u % 16) as nat)]
    } else {
        seq![c]
    }
}

/// The characters of `s`, each written as [`json_escape_char`] says.
pub open spec fn json_escaped(s: Seq<char>) -> Seq<char>
    decreases s.len(),
{
    if s.len() == 0 {
        Seq::<char>::empty()
    } else {
        json_escaped(s.drop_last()) + json_escape_char(s.last())
    }
}

/// `s` as a JSON string literal.
pub open spec fn json_string(s: Seq<char>) -> Seq<char> {
    seq!['"'] + json_escaped(s) + seq!['"']
}

/// A character that never appears in the index: one that could end a
/// `<script>` element or start an entity, a control character, or a line or
/// paragraph separator.
pub open spec fn is_unsafe_in_json(c: char) -> bool {
    c == '<' || c == '>' || c == '&' || (c as u32) <= 0x1F || (c as u32) == 0x2028 || (c as u32)
        == 0x2029
}

pub open spec fn free_of_unsafe(s: Seq<char>) -> bool {
    forall|i: int| 0 <= i < s.len() ==> !is_unsafe_in_json(#[trigger] s[i])
}

proof fn lemma_free_concat(a: Seq<char>, b: Seq<char>)
    requires
        free_of_unsafe(a),
        free_of_unsafe(b),
    ensures
        free_of_unsafe(a + b),
{
    assert forall|i: int| 0 <= i < (a + b).len() implies !is_unsafe_in_json(#[trigger] (a + b)[i]) by {
        if i < a.len() {
            assert((a + b)[i] == a[i]);
        } else {
            assert((a + b)[i] == b[i - a.len()]);
        }
    }
}

proof fn lemma_escape_char_free(c: char)
    ensures
        free_of_unsafe(json_escape_char(c)),
{
    let u: u32 = c as u32;
    if u <= 0x1F && c != '"' && c != '\\' {
        let h = hex_digit((u / 16) as nat);
        let l = hex_digit((u % 16) as nat);
        assert(h as u32 >= 0x30);
        assert(l as u32 >= 0x30);
    }
}

/// Law: escaping leaves none of the characters of [`is_unsafe_in_json`].
pub proof fn lemma_json_escaped_is_free(s: Seq<char>)
    ensures
        free_of_unsafe(json_escaped(s)),
        free_of_unsafe(json_string(s)),
    decreases s.len(),
{
    if s.len() > 0 {
        lemma_json_escaped_is_free(s.drop_last());
        lemma_escape_char_free(s.last());
        lemma_free_concat(json_escaped(s.drop_last()), json_escape_char(s.last()));
    }
    lemma_free_concat(seq!['"'], json_escaped(s));
    lemma_free_concat(seq!['"'] + json_escaped(s), seq!['"']);
}

// ---- reading a JSON string back ----------------------------------------------
/// The value of a hexadecimal digit (either case), if `c` is one.
pub open spec fn hex_value(c: char) -> Option<nat> {
    let u: u32 = c as u32;
    if 0x30 <= u <= 0x39 {
        Some((u - 0x30) as nat)
    } else if 0x41 <= u <= 0x46 {
        Some((u - 0x41 + 10) as nat)
    } else if 0x61 <= u <= 0x66 {
        Some((u - 0x61 + 10) as nat)
    } else {
        None
    }
}

/// The value of the four hex digits of a `\uXXXX` escape.
pub open spec fn hex_quad(a: char, b: char, c: char, d: char) -> Option<nat> {
    match (hex_value(a), hex_value(b), hex_value(c), hex_value(d)) {
        (Some(x), Some(y), Some(z), Some(w)) => Some(x * 4096 + y * 256 + z * 16 + w),
        _ => None,
    }
}

/// A UTF-16 code unit that is half of a surrogate pair.
pub open spec fn is_surrogate(v: nat) -> bool {
    0xD800 <= v < 0xE000
}

/// The character a high and a low surrogate stand for together.
pub open spec fn surrogate_pair_char(hi: nat, lo: nat) -> char {
    ((0x10000 + (hi - 0xD800) * 0x400 + (lo - 0xDC00)) as u32) as char
}

pub open spec fn prepend_decoded(
    c: char,
    r: Option<(Seq<char>, Seq<char>)>,
) -> Option<(Seq<char>, Seq<char>)> {
    match r {
        Some((out, rem)) => Some((seq![c] + out, rem)),
        None => None,
    }
}

/// Reads the body of a JSON string (RFC 8259, after the opening quote): the
/// text it stands for and what follows the closing quote, or `None` where it
/// is no valid string (an unknown escape, a lone surrogate, an unescaped
/// control character, no closing quote).
pub open spec fn json_scan_string(s: Seq<char>) -> Option<(Seq<char>, Seq<char>)>
    decreases s.len(),
{
    if s.len() == 0 {
        None
    } else if s[0] == '"' {
        Some((Seq::<char>::empty(), s.drop_first()))
    } else if s[0] == '\\' {
        if s.len() < 2 {
            None
        } else if s[1] == '"' || s[1] == '\\' || s[1] == '/' {
            prepend_decoded(s[1], json_scan_string(s.skip(2)))
        } else if s[1] == 'b' {
            prepend_decoded('\u{8}', json_scan_string(s.skip(2)))
        } else if s[1] == 'f' {
            prepend_decoded('\u{c}', json_scan_string(s.skip(2)))
        } else if s[1] == 'n' {
            prepend_decoded('\n', json_scan_string(s.skip(2)))
        } else if s[1] == 'r' {
            prepend_decoded('\r', json_scan_string(s.skip(2)))
        } else if s[1] == 't' {
            prepend_decoded('\t', json_scan_string(s.skip(2)))
        } else if s[1] == 'u' && s.len() >= 6 {
            match hex_quad(s[2], s[3], s[4], s[5]) {
                None => None,
                Some(v) => if !is_surrogate(v) {
                    prepend_decoded((v as u32) as char, json_scan_string(s.skip(6)))
                } else if v < 0xDC00 && s.len() >= 12 && s[6] == '\\' && s[7] == 'u' {
                    match hex_quad(s[8], s[9], s[10], s[11]) {
                        Some(w) => if 0xDC00 <= w < 0xE000 {
                            prepend_decoded(surrogate_pair_char(v, w), json_scan_string(s.skip(12)))
                        } else {
                            None
                        },
                        None => None,
                    }
                } else {
                    None
                },
            }
        } else {
            None
        }
    } else if (s[0] as u32) < 0x20 {
        None
    } else {
        prepend_decoded(s[0], json_scan_string(s.drop_first()))
    }
}

/// The text that `t` stands for, where `t` is exactly one JSON string
/// literal and nothing more.
pub open spec fn json_decode_string(t: Seq<char>) -> Option<Seq<char>> {
    if t.len() == 0 || t[0] != '"' {
        None
    } else {
        match json_scan_string(t.drop_first()) {
            Some((v, rest)) => if rest.len() == 0 {
                Some(v)
            } else {
                None
            },
            None => None,
        }
    }
}

/// Law: text with none of `"`, `\`, `<`, `>`, `&`, U+2028, U+2029 and no
/// control character below U+0020 is written into JSON unchanged.
pub proof fn lemma_plain_text_is_not_escaped(s: Seq<char>)
    requires
        forall|i: int|
            0 <= i < s.len() ==> {
                let c = #[trigger] s[i];
                &&& c != '"' && c != '\\' && c != '<' && c != '>' && c != '&'
                &&& (c as u32) >= 0x20 && (c as u32) != 0x2028 && (c as u32) != 0x2029
            },
    ensures
        json_escaped(s) == s,
    decreases s.len(),
{
    if s.len() > 0 {
        let c = s.last();
        assert(c == s[s.len() - 1]);
        assert forall|i: int| 0 <= i < s.drop_last().len() implies {
            let d = #[trigger] s.drop_last()[i];
            &&& d != '"' && d != '\\' && d != '<' && d != '>' && d != '&'
            &&& (d as u32) >= 0x20 && (d as u32) != 0x2028 && (d as u32) != 0x2029
        } by {
            assert(s.drop_last()[i] == s[i]);
        }
        lemma_plain_text_is_not_escaped(s.drop_last());
        assert(json_escape_char(c) == seq![c]);
        assert(s.drop_last() + seq![c] =~= s);
    }
}

proof fn lemma_json_escaped_concat(a: Seq<char>, b: Seq<char>)
    ensures
        json_escaped(a + b) == json_escaped(a) + json_escaped(b),
    decreases b.len(),
{
    if b.len() == 0 {
        assert(a + b =~= a);
        assert(json_escaped(a) + json_escaped(b) =~= json_escaped(a));
    } else {
        lemma_json_escaped_concat(a, b.drop_last());
        assert((a + b).drop_last() =~= a + b.drop_last());
        assert((a + b).last() == b.last());
        assert(json_escaped(a) + json_escaped(b) =~= json_escaped(a) + json_escaped(b.drop_last())
            + json_escape_char(b.last()));
    }
}

proof fn lemma_json_escaped_first(s: Seq<char>)
    requires
        s.len() > 0,
    ensures
        json_escaped(s) == json_escape_char(s[0]) + json_escaped(s.drop_first()),
{
    let one = seq![s[0]];
    assert(s =~= one + s.drop_first());
    lemma_json_escaped_concat(one, s.drop_first());
    assert(one.drop_last() =~= Seq::<char>::empty());
    assert(json_escaped(Seq::<char>::empty()) == Seq::<char>::empty());
    assert(json_escaped(one) == json_escaped(one.drop_last()) + json_escape_char(one.last()));
    assert(json_escaped(one) =~= json_escape_char(s[0]));
}

proof fn lemma_hex_digit_value(d: nat)
    requires
        d < 16,
    ensures
        hex_value(hex_digit(d)) == Some(d),
{
}

proof fn lemma_scan_plain(c: char, t: Seq<char>)
    requires
        c != '"',
        c != '\\',
        c as u32 >= 0x20,
    ensures
        json_scan_string(seq![c] + t) == prepend_decoded(c, json_scan_string(t)),
{
    assert((seq![c] + t).drop_first() =~= t);
}

proof fn lemma_scan_short(c: char, t: Seq<char>)
    requires
        c == '"' || c == '\\',
    ensures
        json_scan_string(seq!['\\', c] + t) == prepend_decoded(c, json_scan_string(t)),
{
    assert((seq!['\\', c] + t).skip(2) =~= t);
}

proof fn lemma_scan_unicode(a: char, b: char, c: char, d: char, t: Seq<char>, v: nat)
    requires
        hex_quad(a, b, c, d) == Some(v),
        !is_surrogate(v),
    ensures
        json_scan_string(seq!['\\', 'u', a, b, c, d] + t) == prepend_decoded(
            (v as u32) as char,
            json_scan_string(t),
        ),
{
    let s = seq!['\\', 'u', a, b, c, d] + t;
    assert(s[0] == '\\' && s[1] == 'u' && s[2] == a && s[3] == b && s[4] == c && s[5] == d);
    assert(s.skip(6) =~= t);
}

proof fn lemma_scan_escape_char(c: char, t: Seq<char>)
    ensures
        json_scan_string(json_escape_char(c) + t) == prepend_decoded(c, json_scan_string(t)),
{
    let u: u32 = c as u32;
    vstd::utf8::char_u32_cast(c, u);
    if c == '"' || c == '\\' {
        assert(json_escape_char(c) == seq!['\\', c]);
        lemma_scan_short(c, t);
    } else if c == '<' {
        assert(json_escape_char(c) == seq!['\\', 'u', '0', '0', '3', 'C']);
        lemma_scan_unicode('0', '0', '3', 'C', t, 0x3C);
    } else if c == '>' {
        assert(json_escape_char(c) == seq!['\\', 'u', '0', '0', '3', 'E']);
        lemma_scan_unicode('0', '0', '3', 'E', t, 0x3E);
    } else if c == '&' {
        assert(json_escape_char(c) == seq!['\\', 'u', '0', '0', '2', '6']);
        lemma_scan_unicode('0', '0', '2', '6', t, 0x26);
    } else if u == 0x2028 {
        assert(json_escape_char(c) == seq!['\\', 'u', '2', '0', '2', '8']);
        lemma_scan_unicode('2', '0', '2', '8', t, 0x2028);
    } else if u == 0x2029 {
        assert(json_escape_char(c) == seq!['\\', 'u', '2', '0', '2', '9']);
        lemma_scan_unicode('2', '0', '2', '9', t, 0x2029);
    } else if u <= 0x1F {
        let h: nat = (u / 16) as nat;
        let l: nat = (u % 16) as nat;
        lemma_hex_digit_value(h);
        lemma_hex_digit_value(l);
        assert(hex_quad('0', '0', hex_digit(h), hex_digit(l)) == Some(u as nat));
        assert(json_escape_char(c) == seq!['\\', 'u', '0', '0', hex_digit(h), hex_digit(l)]);
        lemma_scan_unicode('0', '0', hex_digit(h), hex_digit(l), t, u as nat);
    } else {
        assert(json_escape_char(c) == seq![c]);
        lemma_scan_plain(c, t);
    }
}

proof fn lemma_json_scan_escaped(s: Seq<char>, rest: Seq<char>)
    ensures
        json_scan_string(json_escaped(s) + seq!['"'] + rest) == Some((s, rest)),
    decreases s.len(),
{
    let input = json_escaped(s) + seq!['"'] + rest;
    if s.len() == 0 {
        assert(input =~= seq!['"'] + rest);
        assert(input.drop_first() =~= rest);
    } else {
        let c = s[0];
        let t = json_escaped(s.drop_first()) + seq!['"'] + rest;
        lemma_json_escaped_first(s);
        assert(input =~= json_escape_char(c) + t);
        lemma_json_scan_escaped(s.drop_first(), rest);
        lemma_scan_escape_char(c, t);
        assert(seq![c] + s.drop_first() =~= s);
    }
}

/// Law: what [`escape_json_string`] writes is one JSON string literal, and
/// reading it back gives exactly the text that was escaped.
pub proof fn lemma_json_string_decodes(s: Seq<char>)
    ensures
        json_decode_string(json_string(s)) == Some(s),
{
    let t = json_string(s);
    lemma_json_scan_escaped(s, Seq::<char>::empty());
    assert(t.drop_first() =~= json_escaped(s) + seq!['"'] + Seq::<char>::empty());
}

fn hex(d: u32) -> (c: char)
    requires
        d < 16,
    ensures
        c == hex_digit(d as nat),
{
    if d == 0 {
        '0'
    } else if d == 1 {
        '1'
    } else if d == 2 {
        '2'
    } else if d == 3 {
        '3'
    } else if d == 4 {
        '4'
    } else if d == 5 {
        '5'
    } else if d == 6 {
        '6'
    } else if d == 7 {
        '7'
    } else if d == 8 {
        '8'
    } else if d == 9 {
        '9'
    } else if d == 10 {
        'A'
    } else if d == 11 {
        'B'
    } else if d == 12 {
        'C'
    } else if d == 13 {
        'D'
    } else if d == 14 {
        'E'
    } else {
        'F'
    }
}

fn push_all(out: &mut String, cs: &[char])
    ensures
        final(out)@ == old(out)@ + cs@,
{
    let ghost start = out@;
    let mut i: usize = 0;
    while i < cs.len()
        invariant
            0 <= i <= cs.len(),
            out@ == start + cs@.take(i as int),
        decreases cs.len() - i,
    {
        string_push(out, cs[i]);
        assert(cs@.take(i + 1) =~= cs@.take(i as int).push(cs@[i as int]));
        i = i + 1;
    }
    assert(cs@.take(cs.len() as int) =~= cs@);
}

/// Appends the JSON form of one character.
fn push_escaped_char(out: &mut String, c: char)
    ensures
        final(out)@ == old(out)@ + json_escape_char(c),
{
    let u: u32 = c as u32;
    if c == '"' {
        push_all(out, &['\\', '"']);
    } else if c == '\\' {
        push_all(out, &['\\', '\\']);
    } else if c == '<' {
        push_all(out, &['\\', 'u', '0', '0', '3', 'C']);
    } else if c == '>' {
        push_all(out, &['\\', 'u', '0', '0', '3', 'E']);
    } else if c == '&' {
        push_all(out, &['\\', 'u', '0', '0', '2', '6']);
    } else if u == 0x2028 {
        push_all(out, &['\\', 'u', '2', '0', '2', '8']);
    } else if u == 0x2029 {
        push_all(out, &['\\', 'u', '2', '0', '2', '9']);
    } else if u <= 0x1F {
        let hi = hex(u / 16);
        let lo = hex(u % 16);
        push_all(out, &['\\', 'u', '0', '0', hi, lo]);
    } else {
        string_push(out, c);
        assert(old(out)@.push(c) =~= old(out)@ + seq![c]);
    }
}

/// Appends `s` as a JSON string literal (see [`json_string`]) to `out`.
pub fn escape_json_string(s: &str, out: &mut String)
    ensures
        final(out)@ == old(out)@ + json_string(s@),
{
    let v = chars_of(s);
    let ghost start = out@;
    string_push(out, '"');
    let mut i: usize = 0;
    assert(v@.take(0) =~= Seq::<char>::empty());
    while i < v.len()
        invariant
            0 <= i <= v.len(),
            v@ == s@,
            out@ == start.push('"') + json_escaped(v@.take(i as int)),
        decreases v.len() - i,
    {
        push_escaped_char(out, v[i]);
        assert(v@.take(i + 1).drop_last() =~= v@.take(i as int));
        i = i + 1;
    }
    assert(v@.take(v.len() as int) =~= v@);
    string_push(out, '"');
    assert(out@ =~= start + json_string(s@));
}

/// One heading in the index.
pub open spec fn json_section(s: SectionModel) -> Seq<char> {
    "{\"id\":"@ + json_string(s.id) + ",\"level\":"@ + decimal(s.level) + ",\"title\":"@
        + json_string(s.title) + "}"@
}

/// Headings, comma separated.
pub open spec fn json_sections(ss: Seq<SectionModel>) -> Seq<char>
    decreases ss.len(),
{
    if ss.len() == 0 {
        Seq::<char>::empty()
    } else if ss.len() == 1 {
        json_section(ss[0])
    } else {
        json_sections(ss.drop_last()) + seq![','] + json_section(ss.last())
    }
}

/// One page in the index.
pub open spec fn json_page(p: PageModel) -> Seq<char> {
    "{\"href\":"@ + json_string(p.href) + ",\"title\":"@ + json_string(p.title)
        + ",\"sections\":["@ + json_sections(p.sections) + "],\"text\":"@ + json_string(p.text)
        + "}"@
}

/// Pages, comma separated.
pub open spec fn json_pages(ps: Seq<PageModel>) -> Seq<char>
    decreases ps.len(),
{
    if ps.len() == 0 {
        Seq::<char>::empty()
    } else if ps.len() == 1 {
        json_page(ps[0])
    } else {
        json_pages(ps.drop_last()) + seq![','] + json_page(ps.last())
    }
}

/// The whole index: `version`, `base_path`, then `pages`; in each page
/// `href`, `title`, `sections`, `text`; in each heading `id`, `level`,
/// `title`.
pub open spec fn json_index(base_path: Seq<char>, ps: Seq<PageModel>) -> Seq<char> {
    "{\"version\":"@ + decimal(SCHEMA_VERSION as nat) + ",\"base_path\":"@ + json_string(base_path)
        + ",\"pages\":["@ + json_pages(ps) + "]}"@
}

proof fn lemma_json_list_step_sections(ss: Seq<SectionModel>, j: int)
    requires
        0 <= j < ss.len(),
    ensures
        json_sections(ss.take(j + 1)) == if j == 0 {
            json_section(ss[j])
        } else {
            json_sections(ss.take(j)) + seq![','] + json_section(ss[j])
        },
{
    assert(ss.take(j + 1).drop_last() =~= ss.take(j));
    assert(ss.take(j + 1).last() == ss[j]);
}

proof fn lemma_json_list_step_pages(ps: Seq<PageModel>, j: int)
    requires
        0 <= j < ps.len(),
    ensures
        json_pages(ps.take(j + 1)) == if j == 0 {
            json_page(ps[j])
        } else {
            json_pages(ps.take(j)) + seq![','] + json_page(ps[j])
        },
{
    assert(ps.take(j + 1).drop_last() =~= ps.take(j));
    assert(ps.take(j + 1).last() == ps[j]);
}

fn push_section(out: &mut String, s: &SectionEntry)
    ensures
        final(out)@ == old(out)@ + json_section(s@),
{
    push_str_chars(out, "{\"id\":");
    escape_json_string(s.id.as_str(), out);
    push_str_chars(out, ",\"level\":");
    push_decimal(out, s.level as usize);
    push_str_chars(out, ",\"title\":");
    escape_json_string(s.title.as_str(), out);
    push_str_chars(out, "}");
    assert(final(out)@ =~= old(out)@ + json_section(s@));
}

fn push_page(out: &mut String, p: &PageEntry)
    ensures
        final(out)@ == old(out)@ + json_page(p@),
{
    let ghost start = out@;
    push_str_chars(out, "{\"href\":");
    escape_json_string(p.href.as_str(), out);
    push_str_chars(out, ",\"title\":");
    escape_json_string(p.title.as_str(), out);
    push_str_chars(out, ",\"sections\":[");
    let ghost ss = section_views(p.sections@);
    let ghost before = out@;
    let mut j: usize = 0;
    assert(ss.take(0) =~= Seq::<SectionModel>::empty());
    while j < p.sections.len()
        invariant
            0 <= j <= p.sections.len(),
            ss == section_views(p.sections@),
            ss.len() == p.sections@.len(),
            out@ == before + json_sections(ss.take(j as int)),
        decreases p.sections.len() - j,
    {
        proof {
            lemma_json_list_step_sections(ss, j as int);
        }
        if j > 0 {
            string_push(out, ',');
        }
        push_section(out, &p.sections[j]);
        assert(out@ =~= before + json_sections(ss.take(j + 1)));
        j = j + 1;
    }
    assert(ss.take(p.sections.len() as int) =~= ss);
    push_str_chars(out, "],\"text\":");
    escape_json_string(p.text.as_str(), out);
    push_str_chars(out, "}");
    assert(out@ =~= start + json_page(p@));
}

/// The index as JSON, written by hand with a fixed key order (see
/// [`json_index`]); every string goes through [`escape_json_string`], the
/// base path too.
pub fn render_json(base_path: &str, entries: &[PageEntry]) -> (json: String)
    ensures
        json@ == json_index(base_path@, page_views(entries@)),
        free_of_unsafe(json@),
{
    let mut out = String::new();
    push_str_chars(&mut out, "{\"version\":");
    push_decimal(&mut out, SCHEMA_VERSION as usize);
    push_str_chars(&mut out, ",\"base_path\":");
    escape_json_string(base_path, &mut out);
    push_str_chars(&mut out, ",\"pages\":[");
    let ghost ps = page_views(entries@);
    let ghost before = out@;
    let mut i: usize = 0;
    assert(ps.take(0) =~= Seq::<PageModel>::empty());
    while i < entries.len()
        invariant
            0 <= i <= entries.len(),
            ps == page_views(entries@),
            ps.len() == entries@.len(),
            out@ == before + json_pages(ps.take(i as int)),
        decreases entries.len() - i,
    {
        proof {
            lemma_json_list_step_pages(ps, i as int);
        }
        if i > 0 {
            string_push(&mut out, ',');
        }
        push_page(&mut out, &entries[i]);
        assert(out@ =~= before + json_pages(ps.take(i + 1)));
        i = i + 1;
    }
    assert(ps.take(entries.len() as int) =~= ps);
    push_str_chars(&mut out, "]}");
    assert(out@ =~= json_index(base_path@, ps));
    proof {
        lemma_json_index_is_free(base_path@, ps);
    }
    out
}

proof fn lemma_literals_free()
    ensures
        free_of_unsafe("{\"id\":"@),
        free_of_unsafe(",\"level\":"@),
        free_of_unsafe(",\"title\":"@),
        free_of_unsafe("}"@),
        free_of_unsafe("{\"href\":"@),
        free_of_unsafe(",\"sections\":["@),
        free_of_unsafe("],\"text\":"@),
        free_of_unsafe("{\"version\":"@),
        free_of_unsafe(",\"base_path\":"@),
        free_of_unsafe(",\"pages\":["@),
        free_of_unsafe("]}"@),
{
    reveal_strlit("{\"id\":");
    reveal_strlit(",\"level\":");
    reveal_strlit(",\"title\":");
    reveal_strlit("}");
    reveal_strlit("{\"href\":");
    reveal_strlit(",\"sections\":[");
    reveal_strlit("],\"text\":");
    reveal_strlit("{\"version\":");
    reveal_strlit(",\"base_path\":");
    reveal_strlit(",\"pages\":[");
    reveal_strlit("]}");
}

proof fn lemma_decimal_free(n: nat)
    ensures
        free_of_unsafe(decimal(n)),
    decreases n,
{
    if n >= 10 {
        lemma_decimal_free(n / 10);
        lemma_free_concat(decimal(n / 10), seq![crate::text::digit_char(n % 10)]);
        assert(decimal(n / 10).push(crate::text::digit_char(n % 10)) =~= decimal(n / 10) + seq![
            crate::text::digit_char(n % 10),
        ]);
    }
}

proof fn lemma_json_sections_free(ss: Seq<SectionModel>)
    ensures
        free_of_unsafe(json_sections(ss)),
    decreases ss.len(),
{
    if ss.len() > 0 {
        let s = ss.last();
        lemma_literals_free();
        lemma_json_escaped_is_free(s.id);
        lemma_json_escaped_is_free(s.title);
        lemma_decimal_free(s.level);
        let a = "{\"id\":"@ + json_string(s.id);
        lemma_free_concat("{\"id\":"@, json_string(s.id));
        lemma_free_concat(a, ",\"level\":"@);
        lemma_free_concat(a + ",\"level\":"@, decimal(s.level));
        let b = a + ",\"level\":"@ + decimal(s.level);
        lemma_free_concat(b, ",\"title\":"@);
        lemma_free_concat(b + ",\"title\":"@, json_string(s.title));
        lemma_free_concat(b + ",\"title\":"@ + json_string(s.title), "}"@);
        if ss.len() == 1 {
            assert(ss[0] == s);
        } else {
            lemma_json_sections_free(ss.drop_last());
            lemma_free_concat(json_sections(ss.drop_last()), seq![',']);
            lemma_free_concat(json_sections(ss.drop_last()) + seq![','], json_section(s));
        }
    }
}

proof fn lemma_json_pages_free(ps: Seq<PageModel>)
    ensures
        free_of_unsafe(json_pages(ps)),
    decreases ps.len(),
{
    if ps.len() > 0 {
        let p = ps.last();
        lemma_literals_free();
        lemma_json_escaped_is_free(p.href);
        lemma_json_escaped_is_free(p.title);
        lemma_json_escaped_is_free(p.text);
        lemma_json_sections_free(p.sections);
        let a = "{\"href\":"@ + json_string(p.href);
        lemma_free_concat("{\"href\":"@, json_string(p.href));
        lemma_free_concat(a, ",\"title\":"@);
        lemma_free_concat(a + ",\"title\":"@, json_string(p.title));
        let b = a + ",\"title\":"@ + json_string(p.title);
        lemma_free_concat(b, ",\"sections\":["@);
        lemma_free_concat(b + ",\"sections\":["@, json_sections(p.sections));
        let c = b + ",\"sections\":["@ + json_sections(p.sections);
        lemma_free_concat(c, "],\"text\":"@);
        lemma_free_concat(c + "],\"text\":"@, json_string(p.text));
        lemma_free_concat(c + "],\"text\":"@ + json_string(p.text), "}"@);
        if ps.len() == 1 {
            assert(ps[0] == p);
        } else {
            lemma_json_pages_free(ps.drop_last());
            lemma_free_concat(json_pages(ps.drop_last()), seq![',']);
            lemma_free_concat(json_pages(ps.drop_last()) + seq![','], json_page(p));
        }
    }
}

/// Law: the index never holds `<`, `>`, `&`, a control character, U+2028 or
/// U+2029, whatever the pages hold, so it cannot end a `<script>` element
/// even if it were ever inlined into HTML.
pub proof fn lemma_json_index_is_free(base_path: Seq<char>, ps: Seq<PageModel>)
    ensures
        free_of_unsafe(json_index(base_path, ps)),
{
    lemma_literals_free();
    lemma_decimal_free(SCHEMA_VERSION as nat);
    lemma_json_escaped_is_free(base_path);
    lemma_json_pages_free(ps);
    let a = "{\"version\":"@ + decimal(SCHEMA_VERSION as nat);
    lemma_free_concat("{\"version\":"@, decimal(SCHEMA_VERSION as nat));
    lemma_free_concat(a, ",\"base_path\":"@);
    lemma_free_concat(a + ",\"base_path\":"@, json_string(base_path));
    let b = a + ",\"base_path\":"@ + json_string(base_path);
    lemma_free_concat(b, ",\"pages\":["@);
    lemma_free_concat(b + ",\"pages\":["@, json_pages(ps));
    lemma_free_concat(b + ",\"pages\":["@ + json_pages(ps), "]}"@);
}

// ---------------------------------------------------------------------------
// Size check
// ---------------------------------------------------------------------------
/// Refuses an index over [`MAX_INDEX_BYTES`] bytes; the builder calls it
/// before writing anything, so an oversized index fails the build.
pub fn check_size(json: &str) -> (r: Result<(), SearchIndexError>)
    ensures
        r is Ok <==> byte_len(json@) <= MAX_INDEX_BYTES,
        r matches Err(SearchIndexError::TooLarge { bytes, limit }) ==> bytes == json.len() && limit
            == MAX_INDEX_BYTES && byte_len(json@) > MAX_INDEX_BYTES,
{
    let v = chars_of(json);
    if crate::text::exceeds_bytes(&v, MAX_INDEX_BYTES) {
        return Err(SearchIndexError::TooLarge { bytes: json.len(), limit: MAX_INDEX_BYTES });
    }
    Ok(())
}

pub open spec fn size_error_message(bytes: nat, limit: nat) -> Seq<char> {
    "search index is "@ + decimal(bytes) + " bytes, exceeding the "@ + decimal(limit)
        + " byte limit"@
}

impl SearchIndexError {
    /// One-line description of the error.
    pub fn message(&self) -> (s: String)
        ensures
            self matches SearchIndexError::TooLarge { bytes, limit } && s@ == size_error_message(
                *bytes as nat,
                *limit as nat,
            ),
    {
        match self {
            SearchIndexError::TooLarge { bytes, limit } => {
                let mut s = String::new();
                push_str_chars(&mut s, "search index is ");
                push_decimal(&mut s, *bytes);
                push_str_chars(&mut s, " bytes, exceeding the ");
                push_decimal(&mut s, *limit);
                push_str_chars(&mut s, " byte limit");
                assert(s@ =~= size_error_message(*bytes as nat, *limit as nat));
                s
            },
        }
    }
}

// ---------------------------------------------------------------------------
// Page entries
// ---------------------------------------------------------------------------
/// The index entry of one page: `sections` are its headings as the page
/// layout anchors them; the text is the body text (see [`node_text`]),
/// white space normalised, then cut to [`MAX_PAGE_TEXT_BYTES`].
pub fn page_entry(href: &str, title: &str, sections: Vec<SectionEntry>, body: &Node) -> (e:
    PageEntry)
    ensures
        e.href@ == href@,
        e.title@ == title@,
        e.sections@ == sections@,
        is_truncation(e.text@, normalized(node_text(*body)), MAX_PAGE_TEXT_BYTES as int),
{
    let raw = collect_text(body);
    let normalized_text = normalize_whitespace(raw.as_str());
    let text = truncate_to_byte_limit(normalized_text.as_str(), MAX_PAGE_TEXT_BYTES);
    PageEntry { href: href.to_owned(), title: title.to_owned(), sections, text }
}

} // verus!
