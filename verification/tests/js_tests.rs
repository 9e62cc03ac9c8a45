use ci_kit::js::{is_comment_line, is_js_file, js_file_path, merge_js_files, selected_js_files, strip_js_comments};

#[test]
fn comment_only_line_is_dropped_data_line_kept() {
    let names = vec!["app.js".to_string()];
    let contents = vec!["// note\nlet x = 1;".to_string()];
    let merged = merge_js_files(&names, &contents);
    assert_eq!(merged, "// app.js\nlet x = 1;\n\n");
    assert!(merged.contains("let x = 1;"));
    assert!(merged.contains("// app.js\n"));
    assert!(!merged.contains("// note"));
}

#[test]
fn indented_comment_lines_are_dropped() {
    assert_eq!(strip_js_comments("  \t// indented\ncode();"), "code();\n");
}

#[test]
fn inline_comment_markers_are_kept() {
    assert_eq!(strip_js_comments("let u = \"a//b\";"), "let u = \"a//b\";\n");
}

#[test]
fn lone_slash_is_not_a_comment() {
    assert!(!is_comment_line("/"));
    assert!(!is_comment_line(" / /"));
    assert!(is_comment_line("   //"));
    assert!(is_comment_line("//x"));
}

#[test]
fn empty_content_contributes_header_and_blank_lines() {
    let merged = merge_js_files(&vec!["a.js".to_string()], &vec![String::new()]);
    assert_eq!(merged, "// a.js\n\n\n");
}

#[test]
fn merge_keeps_file_order() {
    let names = vec!["a.js".to_string(), "b.js".to_string()];
    let contents = vec!["one();".to_string(), "two();".to_string()];
    assert_eq!(merge_js_files(&names, &contents), "// a.js\none();\n\n// b.js\ntwo();\n\n");
}

#[test]
fn only_js_files_are_selected() {
    let files = vec!["app.js".to_string(), "style.css".to_string(), "util.js".to_string()];
    assert_eq!(selected_js_files(&files), vec!["app.js".to_string(), "util.js".to_string()]);
    assert!(is_js_file("x.js"));
    assert!(!is_js_file("js"));
    assert!(!is_js_file("x.jsx"));
}

#[test]
fn js_sources_are_read_from_conventional_directory() {
    assert_eq!(js_file_path("app.js"), "JavaScript/app.js");
}
