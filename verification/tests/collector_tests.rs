use build_gateway::collector::{classify_entries, first_match};
use build_gateway::errors::{ApiError, ArtifactKind};

fn names(list: &[&str]) -> Vec<String> {
    list.iter().map(|s| String::from(*s)).collect()
}

#[test]
fn classifies_one_entry_of_each_kind() {
    let listing = names(&["index.html", "app.js", "app_bg.wasm"]);
    assert_eq!(classify_entries(&listing).unwrap(), (0, 1, 2));
}

#[test]
fn classification_ignores_entry_order() {
    let listing = names(&["app_bg.wasm", "index.html", "app.js"]);
    assert_eq!(classify_entries(&listing).unwrap(), (1, 2, 0));
}

#[test]
fn first_matching_entry_wins_on_duplicates() {
    let listing = names(&["a.html", "b.html", "a.js", "b.js", "a.wasm", "b.wasm"]);
    assert_eq!(classify_entries(&listing).unwrap(), (0, 2, 4));
}

#[test]
fn unrelated_entries_are_skipped() {
    let listing = names(&["notes.txt", "page.html", "loader.js", "module.wasm", "extra.css"]);
    assert_eq!(classify_entries(&listing).unwrap(), (1, 2, 3));
}

#[test]
fn missing_markup_is_reported_first() {
    let listing = names(&["app.js", "app_bg.wasm"]);
    assert!(matches!(
        classify_entries(&listing),
        Err(ApiError::BuildFileNotFound(ArtifactKind::Markup))
    ));
}

#[test]
fn missing_script_is_reported_after_markup() {
    let listing = names(&["index.html", "app_bg.wasm"]);
    assert!(matches!(
        classify_entries(&listing),
        Err(ApiError::BuildFileNotFound(ArtifactKind::Script))
    ));
}

#[test]
fn missing_module_is_reported_last() {
    let listing = names(&["index.html", "app.js"]);
    assert!(matches!(
        classify_entries(&listing),
        Err(ApiError::BuildFileNotFound(ArtifactKind::Module))
    ));
}

#[test]
fn empty_listing_misses_everything() {
    assert!(matches!(
        classify_entries(&Vec::new()),
        Err(ApiError::BuildFileNotFound(ArtifactKind::Markup))
    ));
}

#[test]
fn suffix_must_be_a_suffix_not_a_substring() {
    let listing = names(&["index.html.bak"]);
    assert_eq!(first_match(&listing, ".html"), None);
    let listing = names(&["x.js.map", "real.js"]);
    assert_eq!(first_match(&listing, ".js"), Some(1));
}

#[test]
fn missing_artifact_message_names_the_kind() {
    let e = ApiError::BuildFileNotFound(ArtifactKind::Module);
    assert_eq!(
        e.message(),
        "index.wasm should be present after trunk build but is not"
    );
    assert_eq!(e.status_code(), 500);
}
