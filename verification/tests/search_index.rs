use docs_site::node::Node;
use docs_site::search_index::{
    check_size, collect_text, escape_json_string, normalize_whitespace, page_entry, render_json,
    truncate_to_byte_limit, PageEntry, SearchIndexError, SectionEntry, MAX_INDEX_BYTES,
    MAX_PAGE_TEXT_BYTES,
};

fn div(attrs: Vec<(&str, &str)>, children: Vec<Node>) -> Node {
    el("div", attrs, children)
}

fn el(tag: &str, attrs: Vec<(&str, &str)>, children: Vec<Node>) -> Node {
    Node::element(
        tag,
        attrs
            .into_iter()
            .map(|(k, v)| (k.to_string(), v.to_string()))
            .collect(),
        children,
    )
}

fn text(s: &str) -> Node {
    Node::text(s)
}

#[test]
fn escape_json_string_escapes_required_and_defense_in_depth_chars() {
    let mut out = String::new();
    escape_json_string("a\"b\\c<d>e&f\u{0007}g", &mut out);
    assert_eq!(out, "\"a\\\"b\\\\c\\u003Cd\\u003Ee\\u0026f\\u0007g\"");
}

#[test]
fn escape_json_string_uses_long_form_for_control_chars_not_short_escapes() {
    let mut out = String::new();
    escape_json_string("a\nb\tc", &mut out);
    assert_eq!(out, "\"a\\u000Ab\\u0009c\"");
}

#[test]
fn escape_json_string_preserves_non_ascii_utf8_as_is() {
    let mut out = String::new();
    escape_json_string("日本語", &mut out);
    assert_eq!(out, "\"日本語\"");
}

#[test]
fn normalize_whitespace_collapses_runs_and_trims() {
    assert_eq!(normalize_whitespace("  a   b\n\tc  "), "a b c");
    assert_eq!(normalize_whitespace("a\u{00A0}\u{3000}b"), "a b");
    assert_eq!(normalize_whitespace(""), "");
}

#[test]
fn truncate_to_byte_limit_cuts_at_utf8_char_boundary() {
    let s = "ああ";
    let truncated = truncate_to_byte_limit(s, 4);
    assert_eq!(truncated, "あ");
    assert!(std::str::from_utf8(truncated.as_bytes()).is_ok());
}

#[test]
fn truncate_to_byte_limit_cuts_at_the_maximal_boundary_not_earlier() {
    let cases: &[(&str, usize)] = &[
        ("hello world", 5),
        ("ああ", 4),
        ("aああ", 4),
        ("あa", 3),
        ("ab😀cd", 6),
        ("hello", 4096),
    ];
    for &(s, limit) in cases {
        let result = truncate_to_byte_limit(s, limit);
        assert!(
            result.len() <= limit,
            "result must not exceed the byte limit: {result:?} ({} bytes) > {limit}",
            result.len()
        );
        assert!(std::str::from_utf8(result.as_bytes()).is_ok());
        if let Some(next_char) = s[result.len()..].chars().next() {
            assert!(
                result.len() + next_char.len_utf8() > limit,
                "boundary is not maximal: {result:?} ({} bytes) + {next_char:?} \
                 would still fit within {limit}",
                result.len()
            );
        }
    }
}

#[test]
fn truncate_to_byte_limit_is_noop_when_within_limit() {
    assert_eq!(truncate_to_byte_limit("hello", 4096), "hello");
}

#[test]
fn check_size_passes_at_exact_limit_and_fails_one_byte_over() {
    let ok = "a".repeat(MAX_INDEX_BYTES);
    assert!(check_size(&ok).is_ok());
    let too_big = "a".repeat(MAX_INDEX_BYTES + 1);
    match check_size(&too_big) {
        Err(SearchIndexError::TooLarge { bytes, limit }) => {
            assert_eq!(bytes, MAX_INDEX_BYTES + 1);
            assert_eq!(limit, MAX_INDEX_BYTES);
        }
        Ok(()) => panic!("expected TooLarge error"),
    }
}

#[test]
fn render_json_key_order_is_fixed() {
    let entries = vec![PageEntry {
        href: "/a/".to_string(),
        title: "A".to_string(),
        sections: vec![SectionEntry {
            id: "s1".to_string(),
            level: 2,
            title: "S1".to_string(),
        }],
        text: "body text".to_string(),
    }];
    let json = render_json("/base", &entries);
    assert_eq!(
        json,
        "{\"version\":1,\"base_path\":\"/base\",\"pages\":[{\"href\":\"/a/\",\"title\":\"A\",\"sections\":[{\"id\":\"s1\",\"level\":2,\"title\":\"S1\"}],\"text\":\"body text\"}]}"
    );
}

#[test]
fn render_json_is_deterministic() {
    let entries = vec![PageEntry {
        href: "/a/".to_string(),
        title: "A".to_string(),
        sections: vec![],
        text: "t".to_string(),
    }];
    let first = render_json("/base", &entries);
    let second = render_json("/base", &entries);
    assert_eq!(first, second);
}

#[test]
fn collect_text_excludes_data_scope_subtree() {
    let body = div(
        vec![],
        vec![
            text("visible"),
            el(
                "div",
                vec![("data-scope", "tabs")],
                vec![text("hidden anatomy demo text")],
            ),
            text("also visible"),
        ],
    );
    let extracted = collect_text(&body);
    assert!(extracted.contains("visible"));
    assert!(extracted.contains("also visible"));
    assert!(!extracted.contains("hidden anatomy demo text"));
}

#[test]
fn collect_text_does_not_concatenate_raw_html() {
    let body = div(
        vec![],
        vec![text("before"), Node::RawHtml("<b>raw</b>".to_string())],
    );
    let extracted = collect_text(&body);
    assert!(extracted.contains("before"));
    assert!(!extracted.contains("raw"));
    assert!(!extracted.contains('<'));
}

#[test]
fn page_entry_produces_normalized_and_truncated_text_with_sections() {
    let body = div(
        vec![],
        vec![
            el("h2", vec![], vec![text("Heading One")]),
            text("  some   body   text  "),
        ],
    );
    let sections = vec![SectionEntry {
        id: "heading-one".to_string(),
        level: 2,
        title: "Heading One".to_string(),
    }];
    let entry = page_entry("/page/", "Page", sections, &body);
    assert_eq!(entry.href, "/page/");
    assert_eq!(entry.title, "Page");
    assert_eq!(entry.sections.len(), 1);
    assert_eq!(entry.sections[0].level, 2);
    assert_eq!(entry.sections[0].title, "Heading One");
    assert!(entry.text.contains("some body text"));
}

// ---- further cases ----

#[test]
fn collect_text_puts_spaces_around_elements() {
    let body = div(vec![], vec![text("a"), el("p", vec![], vec![text("b")]), text("c")]);
    assert_eq!(collect_text(&body), " a b c ");
    assert_eq!(collect_text(&text("x")), "x");
}

#[test]
fn page_entry_text_is_cut_to_the_page_limit() {
    let long = "x".repeat(MAX_PAGE_TEXT_BYTES + 10);
    let body = div(vec![], vec![text(&long)]);
    let entry = page_entry("/p/", "P", vec![], &body);
    assert_eq!(entry.text.len(), MAX_PAGE_TEXT_BYTES);
    assert_eq!(entry.text, "x".repeat(MAX_PAGE_TEXT_BYTES));
}

#[test]
fn normalize_whitespace_is_idempotent() {
    for s in ["  a \u{2028} b  ", "\u{3000}", "x\r\ny", "a  b   c"] {
        let once = normalize_whitespace(s);
        assert_eq!(normalize_whitespace(&once), once);
        assert!(!once.starts_with(' ') && !once.ends_with(' '));
        assert!(!once.contains("  "));
    }
}

#[test]
fn escape_json_string_escapes_separators_and_every_control_char() {
    let mut out = String::new();
    escape_json_string("\u{2028}\u{2029}\u{0}\u{1F}\u{7F}", &mut out);
    assert_eq!(out, "\"\\u2028\\u2029\\u0000\\u001F\u{7F}\"");
}

#[test]
fn render_json_separates_pages_and_sections_with_commas() {
    let section = |id: &str, level: u8| SectionEntry {
        id: id.to_string(),
        level,
        title: id.to_uppercase(),
    };
    let entries = vec![
        PageEntry {
            href: "/a/".to_string(),
            title: "<A>".to_string(),
            sections: vec![section("x", 2), section("y", 3)],
            text: "".to_string(),
        },
        PageEntry {
            href: "/b/".to_string(),
            title: "B".to_string(),
            sections: vec![],
            text: "t&t".to_string(),
        },
    ];
    let json = render_json("", &entries);
    assert_eq!(
        json,
        "{\"version\":1,\"base_path\":\"\",\"pages\":[{\"href\":\"/a/\",\"title\":\"\\u003CA\\u003E\",\"sections\":[{\"id\":\"x\",\"level\":2,\"title\":\"X\"},{\"id\":\"y\",\"level\":3,\"title\":\"Y\"}],\"text\":\"\"},{\"href\":\"/b/\",\"title\":\"B\",\"sections\":[],\"text\":\"t\\u0026t\"}]}"
    );
    assert!(!json.contains('<') && !json.contains('>') && !json.contains('&'));
    assert_eq!(
        render_json("/base", &[]),
        "{\"version\":1,\"base_path\":\"/base\",\"pages\":[]}"
    );
}

#[test]
fn check_size_error_message() {
    let err = SearchIndexError::TooLarge {
        bytes: 1048577,
        limit: 1048576,
    };
    assert_eq!(
        err.message(),
        "search index is 1048577 bytes, exceeding the 1048576 byte limit"
    );
}

#[test]
fn check_size_counts_utf8_bytes_not_characters() {
    let s = "あ".repeat(MAX_INDEX_BYTES / 3 + 1);
    assert!(check_size(&s).is_err());
}

fn read_json_string(t: &str) -> Option<String> {
    let chars: Vec<char> = t.chars().collect();
    if chars.first() != Some(&'"') {
        return None;
    }
    let mut out = String::new();
    let mut i = 1;
    while i < chars.len() {
        let c = chars[i];
        if c == '"' {
            return if i + 1 == chars.len() { Some(out) } else { None };
        }
        if c == '\\' {
            let e = *chars.get(i + 1)?;
            match e {
                '"' | '\\' | '/' => out.push(e),
                'n' => out.push('\n'),
                't' => out.push('\t'),
                'r' => out.push('\r'),
                'b' => out.push('\u{8}'),
                'f' => out.push('\u{c}'),
                'u' => {
                    let hex: String = chars.get(i + 2..i + 6)?.iter().collect();
                    let v = u32::from_str_radix(&hex, 16).ok()?;
                    out.push(char::from_u32(v)?);
                    i += 4;
                }
                _ => return None,
            }
            i += 2;
        } else {
            if (c as u32) < 0x20 {
                return None;
            }
            out.push(c);
            i += 1;
        }
    }
    None
}

#[test]
fn escaped_strings_read_back_as_their_text() {
    for s in [
        "",
        "plain",
        "quote \" and backslash \\",
        "<script>&amp;</script>",
        "tab\tnewline\ncr\rnul\u{0}unit\u{1f}",
        "sep\u{2028}para\u{2029}",
        "日本語 ✓ 😀",
    ] {
        let mut out = String::new();
        escape_json_string(s, &mut out);
        assert_eq!(read_json_string(&out), Some(s.to_string()), "escaped {out:?}");
    }
}

#[test]
fn normalize_whitespace_knows_unicode_white_space() {
    assert_eq!(
        normalize_whitespace("\u{3000}a\u{2028}\u{85}b\u{a0}\u{200a}c\u{1680}"),
        "a b c"
    );
    assert_eq!(normalize_whitespace("a\u{200b}b"), "a\u{200b}b");
}
