use docs_site::node::Node;
use docs_site::redirect::{
    output_path, parse_redirects, redirect_document, validate_against_nav, RedirectError,
    MANIFEST_REL_PATH, MAX_INPUT_BYTES, MOVED_NOTICE,
};

/// Page paths of the small fixture site: the top page and one component page.
fn minimal_nav_pages() -> Vec<String> {
    vec!["/".to_string(), "/components/pre-styled-ui/".to_string()]
}

#[test]
fn parses_single_redirect() {
    let redirects = parse_redirects(
        r#"
[[redirect]]
from = "/components/"
to = "/components/pre-styled-ui/"
"#,
    )
    .expect("valid manifest should parse");
    assert_eq!(redirects.entries.len(), 1);
    assert_eq!(redirects.entries[0].from, "/components/");
    assert_eq!(redirects.entries[0].to, "/components/pre-styled-ui/");
}

#[test]
fn empty_manifest_parses_to_zero_entries() {
    let redirects = parse_redirects("# no redirects yet\n").expect("empty manifest is valid");
    assert!(redirects.entries.is_empty());
}

#[test]
fn ignores_comments_and_blank_lines() {
    let redirects = parse_redirects(
        r#"
# leading comment

[[redirect]]
# comment inside table
from = "/a/"   # trailing comment
to = "/b/"

"#,
    )
    .expect("comments should be ignored");
    assert_eq!(redirects.entries.len(), 1);
}

#[test]
fn rejects_unknown_table() {
    let err = parse_redirects("[[redirects]]\nfrom = \"/a/\"\nto = \"/b/\"\n").unwrap_err();
    match err {
        RedirectError::Parse { line, message } => {
            assert_eq!(line, 1);
            assert!(message.contains("unknown table"));
        }
        other => panic!("expected Parse, got {other:?}"),
    }
}

#[test]
fn rejects_unknown_top_level_single_bracket_table() {
    let err = parse_redirects("[redirect]\nfrom = \"/a/\"\n").unwrap_err();
    assert!(matches!(err, RedirectError::Parse { line: 1, .. }));
}

#[test]
fn rejects_unknown_key() {
    let err = parse_redirects("[[redirect]]\nfroom = \"/a/\"\nto = \"/b/\"\n").unwrap_err();
    match err {
        RedirectError::Parse { line, message } => {
            assert_eq!(line, 2);
            assert!(message.contains("unknown key"));
        }
        other => panic!("expected Parse, got {other:?}"),
    }
}

#[test]
fn rejects_missing_from() {
    let err = parse_redirects("[[redirect]]\nto = \"/b/\"\n").unwrap_err();
    assert!(matches!(
        err,
        RedirectError::MissingKey {
            context: "redirect",
            key: "from"
        }
    ));
}

#[test]
fn rejects_missing_to() {
    let err = parse_redirects("[[redirect]]\nfrom = \"/a/\"\n").unwrap_err();
    assert!(matches!(
        err,
        RedirectError::MissingKey {
            context: "redirect",
            key: "to"
        }
    ));
}

#[test]
fn rejects_non_string_value() {
    let err = parse_redirects("[[redirect]]\nfrom = 1\nto = \"/b/\"\n").unwrap_err();
    assert!(matches!(err, RedirectError::Parse { line: 2, .. }));
}

#[test]
fn rejects_trailing_content_after_closing_brackets() {
    let err = parse_redirects("[[redirect]] extra\nfrom = \"/a/\"\nto = \"/b/\"\n").unwrap_err();
    assert!(matches!(err, RedirectError::Parse { line: 1, .. }));
}

#[test]
fn rejects_unterminated_table_header() {
    let err = parse_redirects("[[redirect\nfrom = \"/a/\"\nto = \"/b/\"\n").unwrap_err();
    assert!(matches!(err, RedirectError::Parse { line: 1, .. }));
}

#[test]
fn rejects_input_exceeding_size_limit() {
    let mut input = String::from("[[redirect]]\nfrom = \"/a/\"\nto = \"/b/\"\n");
    input.push_str(&"#".repeat(MAX_INPUT_BYTES + 1));
    let err = parse_redirects(&input).unwrap_err();
    assert_eq!(err, RedirectError::TooLarge);
}

#[test]
fn rejects_key_value_pair_outside_any_table() {
    let err = parse_redirects("from = \"/a/\"\n").unwrap_err();
    assert!(matches!(err, RedirectError::Parse { line: 1, .. }));
}

#[test]
fn rejects_duplicate_key_within_entry() {
    let err = parse_redirects("[[redirect]]\nfrom = \"/a/\"\nfrom = \"/a2/\"\nto = \"/b/\"\n")
        .unwrap_err();
    assert!(matches!(err, RedirectError::Parse { line: 3, .. }));
}

#[test]
fn rejects_duplicate_from_across_entries() {
    let err = parse_redirects(
        r#"
[[redirect]]
from = "/a/"
to = "/b/"

[[redirect]]
from = "/a/"
to = "/c/"
"#,
    )
    .unwrap_err();
    assert_eq!(err, RedirectError::DuplicateFrom("/a/".to_string()));
}

#[test]
fn rejects_scheme_url_as_to() {
    let err = parse_redirects("[[redirect]]\nfrom = \"/a/\"\nto = \"http://evil.example/\"\n")
        .unwrap_err();
    assert!(matches!(err, RedirectError::UnsafePath { .. }));
}

#[test]
fn rejects_protocol_relative_url_as_to() {
    let err =
        parse_redirects("[[redirect]]\nfrom = \"/a/\"\nto = \"//evil.example/\"\n").unwrap_err();
    assert!(matches!(err, RedirectError::UnsafePath { .. }));
}

#[test]
fn rejects_javascript_scheme_as_to() {
    let err = parse_redirects("[[redirect]]\nfrom = \"/a/\"\nto = \"javascript:alert(1)\"\n")
        .unwrap_err();
    assert!(matches!(err, RedirectError::UnsafePath { .. }));
}

#[test]
fn rejects_dot_dot_segment() {
    let err = parse_redirects("[[redirect]]\nfrom = \"/a/../b/\"\nto = \"/c/\"\n").unwrap_err();
    assert!(matches!(err, RedirectError::UnsafePath { .. }));
}

#[test]
fn rejects_double_slash_in_path() {
    let err = parse_redirects("[[redirect]]\nfrom = \"/a//b/\"\nto = \"/c/\"\n").unwrap_err();
    assert!(matches!(err, RedirectError::UnsafePath { .. }));
}

#[test]
fn rejects_bare_root_as_from() {
    let err = parse_redirects("[[redirect]]\nfrom = \"/\"\nto = \"/c/\"\n").unwrap_err();
    assert!(matches!(err, RedirectError::UnsafePath { .. }));
}

#[test]
fn allows_root_as_to() {
    let redirects = parse_redirects("[[redirect]]\nfrom = \"/old/\"\nto = \"/\"\n")
        .expect("to = \"/\" should be allowed");
    assert_eq!(redirects.entries[0].to, "/");
}

#[test]
fn rejects_missing_leading_slash() {
    let err = parse_redirects("[[redirect]]\nfrom = \"components/\"\nto = \"/c/\"\n").unwrap_err();
    assert!(matches!(err, RedirectError::UnsafePath { .. }));
}

#[test]
fn rejects_missing_trailing_slash() {
    let err = parse_redirects("[[redirect]]\nfrom = \"/components\"\nto = \"/c/\"\n").unwrap_err();
    assert!(matches!(err, RedirectError::UnsafePath { .. }));
}

#[test]
fn rejects_unsafe_characters_in_segment() {
    let err =
        parse_redirects("[[redirect]]\nfrom = \"/comp onents/\"\nto = \"/c/\"\n").unwrap_err();
    assert!(matches!(err, RedirectError::UnsafePath { .. }));

    let err2 = parse_redirects("[[redirect]]\nfrom = \"/comp\\\\onents/\"\nto = \"/c/\"\n")
        .unwrap_err();
    assert!(matches!(err2, RedirectError::UnsafePath { .. }));
}

#[test]
fn allows_underscore_and_hyphen_segments() {
    let redirects = parse_redirects("[[redirect]]\nfrom = \"/a_b-c/\"\nto = \"/d/\"\n")
        .expect("underscore/hyphen segments should be allowed");
    assert_eq!(redirects.entries[0].from, "/a_b-c/");
}

#[test]
fn display_does_not_leak_full_input_or_absolute_paths() {
    let err = parse_redirects("[[redirects]]\n").unwrap_err();
    let rendered = err.message();
    assert!(rendered.contains(MANIFEST_REL_PATH));
    assert!(!rendered.contains('\n'));
}

#[test]
fn validate_against_nav_accepts_declaration_targeting_existing_page() {
    let nav = minimal_nav_pages();
    let redirects = parse_redirects(
        "[[redirect]]\nfrom = \"/components/\"\nto = \"/components/pre-styled-ui/\"\n",
    )
    .expect("valid manifest");
    assert!(validate_against_nav(&redirects, &nav).is_ok());
}

#[test]
fn validate_against_nav_rejects_unknown_target() {
    let nav = minimal_nav_pages();
    let redirects = parse_redirects("[[redirect]]\nfrom = \"/old/\"\nto = \"/does-not-exist/\"\n")
        .expect("valid manifest");
    let err = validate_against_nav(&redirects, &nav).unwrap_err();
    match err {
        RedirectError::UnknownTarget { from, to } => {
            assert_eq!(from, "/old/");
            assert_eq!(to, "/does-not-exist/");
        }
        other => panic!("expected UnknownTarget, got {other:?}"),
    }
}

#[test]
fn validate_against_nav_rejects_from_colliding_with_existing_page() {
    let nav = minimal_nav_pages();
    let redirects =
        parse_redirects("[[redirect]]\nfrom = \"/\"\nto = \"/components/pre-styled-ui/\"\n");
    assert!(matches!(redirects, Err(RedirectError::UnsafePath { .. })));

    let redirects =
        parse_redirects("[[redirect]]\nfrom = \"/components/pre-styled-ui/\"\nto = \"/\"\n")
            .expect("valid manifest shape");
    let err = validate_against_nav(&redirects, &nav).unwrap_err();
    assert_eq!(
        err,
        RedirectError::CollidesWithPage("/components/pre-styled-ui/".to_string())
    );
}

#[test]
fn output_path_is_identity() {
    assert_eq!(output_path("/components/"), "/components/");
}

// ---- further cases ----

#[test]
fn parse_error_messages_are_exact() {
    let cases: &[(&str, usize, &str)] = &[
        ("[[redirect\n", 1, "expected closing `]]`"),
        ("[redirect\n", 1, "expected closing `]`"),
        ("[ site ]\n", 1, "unknown table `[site]`"),
        ("[[ other ]]\n", 1, "unknown table `[[other]]`"),
        ("[[redirect]] x\n", 1, "unexpected trailing content `x`"),
        ("[[redirect]]\nfrom\n", 2, "expected `key = \"value\"`"),
        ("[[redirect]]\nfr om = \"/a/\"\n", 2, "invalid key `fr om`"),
        ("[[redirect]]\n = \"/a/\"\n", 2, "invalid key ``"),
        ("[[redirect]]\nfrom = \"/a/\n", 2, "unterminated string literal"),
        ("[[redirect]]\nfrom = \"/a/\\", 2, "unterminated escape sequence"),
        ("[[redirect]]\nfrom = \"\\q\"\n", 2, "unsupported escape sequence `\\q`"),
        ("[[redirect]]\nto = \"/b/\"\nto = \"/c/\"\n", 3, "duplicate key `redirect.to`"),
        ("[[redirect]]\nfrom = \"/a/\" x\n", 2, "unexpected trailing content `x`"),
        ("from = \"/a/\"\n", 1, "key-value pair outside of any table"),
        ("[[redirect]]\nfroom = \"/a/\"\n", 2, "unknown key `froom` in [[redirect]]"),
    ];
    for &(input, want_line, want_message) in cases {
        match parse_redirects(input) {
            Err(RedirectError::Parse { line, message }) => {
                assert_eq!(line, want_line, "input {input:?}");
                assert_eq!(message, want_message, "input {input:?}");
            }
            other => panic!("expected Parse for {input:?}, got {other:?}"),
        }
    }
}

#[test]
fn escapes_in_values_are_decoded() {
    let err = parse_redirects("[[redirect]]\nfrom = \"/a\\tb/\"\nto = \"/c/\"\n").unwrap_err();
    assert_eq!(
        err,
        RedirectError::UnsafePath {
            line: 2,
            path: "/a\tb/".to_string()
        }
    );
}

#[test]
fn unsafe_from_reports_the_line_that_declares_it() {
    let err = parse_redirects("[[redirect]]\nfrom = \"/a//b/\"\nto = \"/c/\"\n").unwrap_err();
    assert_eq!(
        err,
        RedirectError::UnsafePath {
            line: 2,
            path: "/a//b/".to_string()
        }
    );
    assert_eq!(
        err.message(),
        "site/redirects.toml:2: path `/a//b/` must start and end with `/` with no empty segments, segments limited to alphanumerics, `-`, `_`"
    );
}

#[test]
fn unsafe_to_reports_the_line_that_declares_it() {
    let err = parse_redirects(
        "# moved pages\n\n[[redirect]]\nfrom = \"/ok/\"\nto = \"/x/\"\n[[redirect]]\nto = \"nope\"\nfrom = \"/old/\"\n",
    )
    .unwrap_err();
    assert_eq!(
        err,
        RedirectError::UnsafePath {
            line: 7,
            path: "nope".to_string()
        }
    );
}

#[test]
fn root_from_reports_its_line() {
    let err = parse_redirects("[[redirect]]\nto = \"/\"\nfrom = \"/\"\n").unwrap_err();
    assert_eq!(
        err,
        RedirectError::UnsafePath {
            line: 3,
            path: "/".to_string()
        }
    );
}

#[test]
fn crlf_line_endings_are_accepted() {
    let redirects = parse_redirects("[[redirect]]\r\nfrom = \"/a/\"\r\nto = \"/b/\"\r\n")
        .expect("CRLF manifest should parse");
    assert_eq!(redirects.entries[0].from, "/a/");
    assert_eq!(redirects.entries[0].to, "/b/");
}

#[test]
fn several_entries_keep_declaration_order() {
    let redirects = parse_redirects(
        "[[redirect]]\nto = \"/b/\"\nfrom = \"/a/\"\n[[redirect]]\nfrom = \"/c/\"\nto = \"/d/\"",
    )
    .expect("two tables");
    assert_eq!(redirects.entries.len(), 2);
    assert_eq!(redirects.entries[0].from, "/a/");
    assert_eq!(redirects.entries[1].from, "/c/");
    assert_eq!(redirects.entries[1].to, "/d/");
}

#[test]
fn validate_against_nav_ignores_trailing_slash_differences() {
    let pages = vec!["/guide".to_string()];
    let redirects =
        parse_redirects("[[redirect]]\nfrom = \"/guide/\"\nto = \"/x/\"\n").expect("valid");
    assert_eq!(
        validate_against_nav(&redirects, &pages),
        Err(RedirectError::CollidesWithPage("/guide/".to_string()))
    );
    let redirects =
        parse_redirects("[[redirect]]\nfrom = \"/old/\"\nto = \"/guide/\"\n").expect("valid");
    assert_eq!(validate_against_nav(&redirects, &pages), Ok(()));
}

#[test]
fn error_messages_render_every_variant() {
    assert_eq!(
        RedirectError::TooLarge.message(),
        "site/redirects.toml exceeds the 1048576 byte size limit"
    );
    assert_eq!(
        RedirectError::Parse {
            line: 12,
            message: "oops".to_string()
        }
        .message(),
        "site/redirects.toml:12: oops"
    );
    assert_eq!(
        RedirectError::MissingKey {
            context: "redirect",
            key: "to"
        }
        .message(),
        "missing required key `to` in [redirect]"
    );
    assert_eq!(
        RedirectError::UnsafePath {
            line: 0,
            path: "x".to_string()
        }
        .message(),
        "site/redirects.toml:0: path `x` must start and end with `/` with no empty segments, segments limited to alphanumerics, `-`, `_`"
    );
    assert_eq!(
        RedirectError::DuplicateFrom("/a/".to_string()).message(),
        "duplicate redirect `from` `/a/`"
    );
    assert_eq!(
        RedirectError::CollidesWithPage("/a/".to_string()).message(),
        "redirect `from` `/a/` collides with an existing nav.toml page path"
    );
    assert_eq!(
        RedirectError::UnknownTarget {
            from: "/a/".to_string(),
            to: "/b/".to_string()
        }
        .message(),
        "redirect `from` `/a/` targets `to` `/b/` which is not a page registered in nav.toml"
    );
}

/// Renders a tree as markup without escaping, enough to look at its shape.
fn shape(n: &Node) -> String {
    match n {
        Node::Text(t) => t.clone(),
        Node::RawHtml(h) => h.clone(),
        Node::Element {
            tag,
            attrs,
            children,
        } => {
            let mut out = format!("<{tag}");
            for (k, v) in attrs {
                out.push_str(&format!(" {k}=\"{v}\""));
            }
            out.push('>');
            for c in children {
                out.push_str(&shape(c));
            }
            out.push_str(&format!("</{tag}>"));
            out
        }
    }
}

#[test]
fn redirect_document_contains_the_four_required_elements() {
    let doc = redirect_document("Docs", "/fandhe-frontend/components/pre-styled-ui/");
    let html = shape(&doc);
    assert!(html.contains(
        r#"<meta http-equiv="refresh" content="0; url=/fandhe-frontend/components/pre-styled-ui/">"#
    ));
    assert!(html.contains(
        r#"<link rel="canonical" href="/fandhe-frontend/components/pre-styled-ui/">"#
    ));
    assert!(html.contains(r#"<meta name="robots" content="noindex">"#));
    assert!(html.contains(
        r#"<a href="/fandhe-frontend/components/pre-styled-ui/">/fandhe-frontend/components/pre-styled-ui/</a>"#
    ));
    assert!(html.starts_with(r#"<html lang="ja"><head><meta charset="utf-8">"#));
    assert!(html.contains("<title>移転しました | Docs</title>"));
    assert!(html.contains(MOVED_NOTICE));
}

#[test]
fn redirect_document_has_no_chrome_elements() {
    let html = shape(&redirect_document("Docs", "/x/"));
    assert!(!html.contains("class="));
    assert!(!html.contains("<script"));
    assert!(!html.contains(r#"<link rel="stylesheet""#));
}

#[test]
fn one_declaration_per_table_header() {
    let redirects = parse_redirects(
        "# header comment\n[[redirect]]\nfrom = \"/a/\"\nto = \"/x/\"\n\n  [[ redirect ]]  # second\nfrom = \"/b/\"\nto = \"/x/\"\n[[redirect]]\nto = \"/\"\nfrom = \"/c/\"\n",
    )
    .expect("three tables");
    assert_eq!(redirects.entries.len(), 3);
    assert_eq!(redirects.entries[1].from, "/b/");
    assert_eq!(redirects.entries[2].to, "/");
}

#[test]
fn escaped_values_read_back_unchanged() {
    let err = parse_redirects("[[redirect]]\nfrom = \"/a\\\\b\\\"c\\nd\\te/\" # note\nto = \"/x/\"\n")
        .unwrap_err();
    assert_eq!(
        err,
        RedirectError::UnsafePath {
            line: 2,
            path: "/a\\b\"c\nd\te/".to_string()
        }
    );
}

#[test]
fn root_is_a_valid_target_but_never_a_source() {
    let redirects =
        parse_redirects("[[redirect]]\nfrom = \"/old/\"\nto = \"/\"\n").expect("root target");
    assert_eq!(redirects.entries[0].to, "/");
    let err = parse_redirects("[[redirect]]\nfrom = \"/\"\nto = \"/old/\"\n").unwrap_err();
    assert_eq!(
        err,
        RedirectError::UnsafePath {
            line: 2,
            path: "/".to_string()
        }
    );
}
