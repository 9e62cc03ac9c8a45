use ci_kit::text::{join_path, replace_all, runtime_version};

#[test]
fn join_inserts_separator_when_missing() {
    assert_eq!(join_path("https://host/repo", "a.proto"), "https://host/repo/a.proto");
}

#[test]
fn join_keeps_single_separator_when_present() {
    assert_eq!(join_path("https://host/repo/", "a.proto"), "https://host/repo/a.proto");
}

#[test]
fn join_with_empty_base_yields_leading_separator() {
    assert_eq!(join_path("", "a.proto"), "/a.proto");
}

#[test]
fn join_never_doubles_separator() {
    let with_sep = join_path("base/", "f");
    let without_sep = join_path("base", "f");
    assert_eq!(with_sep, without_sep);
    assert!(!with_sep.contains("//"));
}

#[test]
fn replace_substitutes_single_occurrence() {
    assert_eq!(replace_all("ab${X}cd", "${X}", "-"), "ab-cd");
}

#[test]
fn replace_substitutes_every_occurrence() {
    assert_eq!(replace_all("${X} and ${X}", "${X}", "y"), "y and y");
}

#[test]
fn replace_with_empty_replacement_removes_pattern() {
    assert_eq!(replace_all("a#M#b#M#", "#M#", ""), "ab");
}

#[test]
fn replace_leaves_text_without_pattern_unchanged() {
    assert_eq!(replace_all("no placeholders here", "${X}", "y"), "no placeholders here");
}

#[test]
fn replace_is_not_reapplied_to_replacement() {
    assert_eq!(replace_all("aa", "a", "ab"), "abab");
}

#[test]
fn runtime_version_takes_substring_after_last_colon() {
    assert_eq!(runtime_version("ubuntu:22.04"), "22.04");
    assert_eq!(runtime_version("registry:5000/img:1.2"), "1.2");
}

#[test]
fn runtime_version_falls_back_to_latest_without_colon() {
    assert_eq!(runtime_version("ubuntu"), "latest");
    assert_eq!(runtime_version(""), "latest");
}

#[test]
fn runtime_version_of_trailing_colon_is_empty() {
    assert_eq!(runtime_version("img:"), "");
}
