use markdown_desktop::markdown::{has_markdown_extension, is_markdown_file};
use markdown_desktop::text::{str_ends_with, str_eq};

#[test]
fn each_markdown_extension_is_recognised() {
    assert!(is_markdown_file("notes.md"));
    assert!(is_markdown_file("/home/user/notes.markdown"));
    assert!(is_markdown_file("draft.mdown"));
    assert!(is_markdown_file("C:\\docs\\todo.mkd"));
}

#[test]
fn extension_case_is_ignored() {
    assert!(is_markdown_file("README.MD"));
    assert!(is_markdown_file("Guide.Markdown"));
    assert!(is_markdown_file("x.MDOWN"));
    assert!(is_markdown_file("x.mKd"));
}

#[test]
fn other_paths_are_not_markdown() {
    assert!(!is_markdown_file(""));
    assert!(!is_markdown_file("notes.txt"));
    assert!(!is_markdown_file("md"));
    assert!(!is_markdown_file("notes.md.txt"));
    assert!(!is_markdown_file("notes.mdx"));
    assert!(!is_markdown_file("/tmp/markdown"));
}

#[test]
fn bare_extension_counts() {
    assert!(is_markdown_file(".md"));
    assert!(is_markdown_file(".MKD"));
}

#[test]
fn non_ascii_names() {
    assert!(is_markdown_file("zürich-ÜBER.MD"));
    assert!(!is_markdown_file("ñ.mḋ"));
}

#[test]
fn extension_check_expects_lower_case() {
    assert!(has_markdown_extension("a.md"));
    assert!(has_markdown_extension("a.markdown"));
    assert!(!has_markdown_extension("a.MD"));
    assert!(!has_markdown_extension("a.rs"));
}

#[test]
fn suffix_and_equality() {
    assert!(str_ends_with("abc", "bc"));
    assert!(str_ends_with("abc", ""));
    assert!(str_ends_with("abc", "abc"));
    assert!(!str_ends_with("bc", "abc"));
    assert!(!str_ends_with("abc", "bd"));
    assert!(str_ends_with("naïve", "ïve"));
    assert!(str_eq("open", "open"));
    assert!(str_eq("", ""));
    assert!(!str_eq("open", "ope"));
    assert!(!str_eq("open", "opem"));
}
