use docs_site::showcase::{component_page_paths, PAGE_PATH};

#[test]
fn component_page_paths_are_unique_and_well_formed() {
    let paths: Vec<&str> = component_page_paths();

    assert_eq!(paths.len(), 101, "COMPONENT_PAGES should have 101 entries");

    let mut sorted = paths.clone();
    sorted.sort_unstable();
    sorted.dedup();
    assert_eq!(
        sorted.len(),
        paths.len(),
        "component page paths must be unique"
    );

    for path in &paths {
        assert!(
            path.starts_with("/themes/") && path.ends_with('/'),
            "unexpected path shape: {path}"
        );
        let inner = &path[1..path.len() - 1];
        assert!(
            inner.split('/').all(|seg| !seg.is_empty()
                && seg
                    .chars()
                    .all(|c| c.is_ascii_alphanumeric() || c == '-' || c == '_')),
            "path segment fails nav::validate_page_path allowlist: {path}"
        );
    }
}

#[test]
fn component_page_paths_keep_registration_order_and_exclude_the_index() {
    let paths = component_page_paths();
    assert_eq!(paths[0], "/themes/button/");
    assert_eq!(paths[100], "/themes/nav-list/");
    assert!(!paths.contains(&PAGE_PATH));
}
