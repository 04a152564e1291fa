use docs_site::site_theme::structural_css;

#[test]
fn stylesheet_base_breakpoint_matches_responsive_contract() {
    let structural = structural_css();
    let before_768 = structural
        .split("@media (min-width: 768px)")
        .next()
        .expect("STRUCTURAL_CSS should contain the 768px breakpoint");

    assert!(before_768.contains(".docs-container {\ndisplay: block;\n"));
    assert!(before_768.contains(".docs-toc-aside {\ndisplay: none;\n}"));
    assert!(before_768.contains(".docs-sidebar-toggle-label {\ndisplay: block;\n"));
    assert!(before_768
        .contains(".docs-sidebar nav.sidebar {\nmax-height: 2.75rem;\noverflow: hidden;\n}"));
    assert!(before_768.contains(".docs-header-nav {\ndisplay: none;\n}"));
    assert!(before_768.contains("nav.prev-next {\ndisplay: flex;\n/* 基底（768px 未満）は縦積み。`min-width: 768px` で横並びに切り替える。 */\nflex-direction: column;"));
}

#[test]
fn stylesheet_media_queries_are_ordered_mobile_first() {
    let structural = structural_css();
    let pos_768 = structural
        .find("@media (min-width: 768px)")
        .expect("768px breakpoint should exist");
    let pos_1200 = structural
        .find("@media (min-width: 1200px)")
        .expect("1200px breakpoint should exist");
    assert!(
        pos_768 < pos_1200,
        "768px media query must appear before 1200px to preserve mobile-first cascade"
    );
}

#[test]
fn structural_css_has_no_external_resources_or_angle_brackets() {
    let structural = structural_css();
    assert!(!structural.contains("@import"));
    assert!(!structural.contains("@font-face"));
    assert!(!structural.contains("url("));
    assert!(!structural.contains('<'));
    assert!(!structural.contains("--docs-"));
    assert!(structural.contains("html {\ncolor-scheme: light dark;\n}"));
}

fn strip_css_comments(css: &str) -> String {
    let mut out = String::with_capacity(css.len());
    let mut rest = css;
    while let Some(start) = rest.find("/*") {
        out.push_str(&rest[..start]);
        rest = &rest[start + 2..];
        if let Some(end) = rest.find("*/") {
            rest = &rest[end + 2..];
        } else {
            rest = "";
        }
    }
    out.push_str(rest);
    out
}

#[test]
fn structural_css_contains_no_hardcoded_colors() {
    let stripped = strip_css_comments(&structural_css());
    for needle in ["rgb(", "rgba(", "hsl(", "hsla(", "#"] {
        assert!(
            !stripped.contains(needle),
            "structural css should reference colors via tokens only, found {needle:?}"
        );
    }
}
