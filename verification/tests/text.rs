use spice_runtime::text::decimal_string;
use spice_runtime::text::join;
use spice_runtime::text::join_with_dots;
use spice_runtime::text::last_index_of;
use spice_runtime::text::prefixed;
use spice_runtime::text::same_text;
use spice_runtime::text::skip_chars;
use spice_runtime::text::starts_with;
use spice_runtime::text::surround;
use spice_runtime::text::take_chars;
use spice_runtime::text::trim_end_matches;
use spice_runtime::text::trim_start_matches;

fn strings(parts: &[&str]) -> Vec<String> {
    parts.iter().map(|p| p.to_string()).collect()
}

#[test]
fn joining_agrees_with_std() {
    for parts in [vec![], vec!["a"], vec!["a", "b"], vec!["", "", ""], vec!["é", "ü.", "x"]] {
        assert_eq!(join_with_dots(&strings(&parts)), parts.join("."));
        assert_eq!(join(&strings(&parts), ", "), parts.join(", "));
        assert_eq!(join(&strings(&parts), ""), parts.join(""));
    }
}

#[test]
fn prefixes_and_slices_count_characters() {
    assert!(starts_with("spiceai:x", "spiceai:"));
    assert!(starts_with("abc", ""));
    assert!(starts_with("", ""));
    assert!(!starts_with("spice", "spiceai:"));
    assert!(!starts_with("xspiceai:", "spiceai:"));
    assert!(starts_with("éa", "é"));
    assert_eq!(skip_chars("éab", 1), "ab");
    assert_eq!(skip_chars("ab", 2), "");
    assert_eq!(take_chars("éab", 2), "éa");
    assert_eq!(last_index_of("a:b:c", ':'), Some(3));
    assert_eq!(last_index_of("é:b", ':'), Some(1));
    assert_eq!(last_index_of("abc", ':'), None);
    assert_eq!(last_index_of("", ':'), None);
    assert!(same_text("a", "a"));
    assert!(!same_text("a", "A"));
    assert_eq!(prefixed("a", "b"), "ab");
    assert_eq!(surround("<", "x", ">"), "<x>");
}

#[test]
fn trimming_agrees_with_std() {
    for s in ["file:a", "file:file:a", "a", "", "file:", "fil", "xfile:a", "file:éfile:"] {
        assert_eq!(trim_start_matches(s, "file:"), s.trim_start_matches("file:"));
        assert_eq!(trim_start_matches(s, ""), s);
    }
    for s in ["http://h/", "http://h///", "http://h", "", "/", "//", "/a/é/"] {
        assert_eq!(trim_end_matches(s, '/'), s.trim_end_matches('/'));
    }
}

#[test]
fn numbers_are_written_in_decimal() {
    for n in [0usize, 1, 9, 10, 11, 99, 100, 101, 12345, 1000000, usize::MAX] {
        assert_eq!(decimal_string(n), n.to_string());
    }
}
