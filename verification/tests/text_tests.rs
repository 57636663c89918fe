use build_gateway::gateway::{page_template, render_byte_array, render_init_call, render_page};
use build_gateway::strutil::{ends_with, matches_at, replace_all};

#[test]
fn replace_matches_the_standard_semantics() {
    let cases: &[(&str, &str, &str)] = &[
        ("hello world", "world", "there"),
        ("aaa", "aa", "b"),
        ("abcabc", "abc", ""),
        ("no occurrence", "zzz", "y"),
        ("xxx", "x", "xx"),
        ("", "a", "b"),
        ("na\u{ef}ve caf\u{e9}", "\u{e9}", "e"),
    ];
    for (s, pat, rep) in cases {
        assert_eq!(replace_all(s, pat, rep), s.replace(pat, rep), "case {:?}", (s, pat, rep));
    }
}

#[test]
fn replacement_is_left_to_right_and_non_overlapping() {
    assert_eq!(replace_all("aaaa", "aa", "a"), "aa");
    assert_eq!(replace_all("ababa", "aba", "x"), "xba");
}

#[test]
fn suffix_matching() {
    assert!(ends_with("index.html", ".html"));
    assert!(!ends_with("index.html.bak", ".html"));
    assert!(!ends_with("js", ".js"));
    assert!(ends_with("a.js", ".js"));
    assert!(ends_with("anything", ""));
    assert!(matches_at("abcdef", "cde", 2));
    assert!(!matches_at("abcdef", "cde", 3));
}

#[test]
fn byte_arrays_render_as_debug_lists() {
    assert_eq!(render_byte_array(&vec![]), format!("{:?}", Vec::<u8>::new()));
    assert_eq!(render_byte_array(&vec![7]), "[7]");
    assert_eq!(render_byte_array(&vec![1, 2, 3]), "[1, 2, 3]");
    assert_eq!(render_byte_array(&vec![0, 255, 10]), format!("{:?}", vec![0u8, 255, 10]));
}

#[test]
fn init_call_embeds_the_byte_array() {
    assert_eq!(
        render_init_call(&vec![1, 2]),
        "init((new Int8Array([1, 2])).buffer)"
    );
}

#[test]
fn page_rendering_substitutes_script_then_init() {
    let js = "function init(b) { return b; }";
    let wasm = vec![0u8, 97, 115, 109];
    let expected = page_template()
        .replace("/*JS_GOES_HERE*/", js)
        .replace("/*INIT_GOES_HERE*/", &format!("init((new Int8Array({:?})).buffer)", wasm));
    assert_eq!(render_page(js, &wasm), expected);
}

#[test]
fn page_template_carries_both_markers() {
    let t = page_template();
    assert!(t.contains("/*JS_GOES_HERE*/"));
    assert!(t.contains("/*INIT_GOES_HERE*/"));
    assert!(t.contains("<script type=\"module\">"));
}
