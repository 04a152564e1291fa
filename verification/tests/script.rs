use docs_site::script::{
    inline_theme_bootstrap, is_escape_safe, site_js, INLINE_THEME_BOOTSTRAP, SITE_JS,
    THEME_STORAGE_KEY,
};

#[test]
fn inline_theme_bootstrap_is_escape_safe() {
    assert!(is_escape_safe(INLINE_THEME_BOOTSTRAP));
}

#[test]
fn site_js_is_escape_safe() {
    assert!(is_escape_safe(SITE_JS));
}

#[test]
fn inline_theme_bootstrap_accessor_returns_some_for_the_safe_constant() {
    assert_eq!(inline_theme_bootstrap(), Some(INLINE_THEME_BOOTSTRAP));
}

#[test]
fn is_escape_safe_rejects_html_escape_target_characters() {
    assert!(!is_escape_safe("a<b"));
    assert!(!is_escape_safe("a>b"));
    assert!(!is_escape_safe("a&b"));
    assert!(!is_escape_safe("a\"b"));
    assert!(!is_escape_safe("a'b"));
}

#[test]
fn is_escape_safe_rejects_template_literal_interpolation() {
    assert!(!is_escape_safe("var x = `${y}`;"));
}

#[test]
fn is_escape_safe_accepts_plain_js_without_quotes_or_interpolation() {
    assert!(is_escape_safe(
        "(function () { var x = `plain`; return x; })();"
    ));
}

/// Both scripts read and write the same storage key.
#[test]
fn script_js_and_inline_bootstrap_share_the_same_storage_key() {
    assert!(INLINE_THEME_BOOTSTRAP.contains(THEME_STORAGE_KEY));
    assert!(SITE_JS.contains(THEME_STORAGE_KEY));
}

/// Storage failures are caught, not propagated.
#[test]
fn inline_theme_bootstrap_swallows_localstorage_exceptions() {
    assert!(INLINE_THEME_BOOTSTRAP.contains("try{"));
    assert!(INLINE_THEME_BOOTSTRAP.contains("catch"));
}

#[test]
fn site_js_swallows_localstorage_exceptions() {
    assert!(SITE_JS.contains("try {"));
    assert!(SITE_JS.contains("catch"));
}

/// The toggle is revealed only after its click handler is attached.
#[test]
fn site_js_reveals_toggle_only_after_click_handler_is_wired() {
    let listener_pos = SITE_JS
        .find("addEventListener")
        .expect("SITE_JS should wire a click handler");
    let reveal_pos = SITE_JS
        .find("removeAttribute(`hidden`)")
        .expect("SITE_JS should reveal the toggle by removing the hidden attribute");
    assert!(
        listener_pos < reveal_pos,
        "the toggle must be revealed after its click handler is wired"
    );
}

/// No HTML-injecting or code-evaluating DOM API is used.
#[test]
fn site_js_does_not_use_dangerous_dom_apis() {
    for needle in ["innerHTML", "document.write", "eval(", "new Function"] {
        assert!(!SITE_JS.contains(needle), "SITE_JS should not use {needle}");
    }
}

/// The scrollspy is wired to the table of contents.
#[test]
fn site_js_wires_toc_scrollspy_with_intersection_observer() {
    for needle in [
        "IntersectionObserver",
        ".docs-toc",
        "aria-current",
        "location",
    ] {
        assert!(SITE_JS.contains(needle), "SITE_JS should wire {needle}");
    }
}

/// Headings are looked up by id, never through a built selector.
#[test]
fn site_js_resolves_toc_targets_by_get_element_by_id() {
    assert!(SITE_JS.contains("getElementById"));
    assert!(SITE_JS.contains("decodeURIComponent"));
    assert!(!SITE_JS.contains("querySelector(`#"));
    assert!(!SITE_JS.contains(".hash"));
}

/// The scrollspy lives in its own function, apart from the toggle.
#[test]
fn site_js_scrollspy_is_isolated_from_the_theme_toggle_guard() {
    let iife_terminators = SITE_JS.matches("})();").count();
    assert!(
        iife_terminators >= 2,
        "SITE_JS should contain at least two independent IIFEs (found {iife_terminators})"
    );
}

#[test]
fn site_js_accessor_returns_the_constant() {
    assert_eq!(site_js(), SITE_JS);
}

#[test]
fn is_escape_safe_accepts_a_lone_dollar_and_a_lone_brace() {
    assert!(is_escape_safe("a$b{c}"));
    assert!(is_escape_safe(""));
    assert!(!is_escape_safe("${"));
    assert!(is_escape_safe("x$"));
}
