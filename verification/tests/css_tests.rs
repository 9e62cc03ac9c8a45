use ci_kit::css::CssCompiler;
use ci_kit::output::BuildError;

#[test]
fn source_paths_join_directory_and_names() {
    let c = CssCompiler::new("styles").add_file("base.css").add_file("theme.css");
    let paths = c.source_paths();
    assert_eq!(paths, vec!["styles/base.css".to_string(), "styles/theme.css".to_string()]);
}

#[test]
fn source_paths_tolerate_trailing_separator() {
    let c = CssCompiler::new("styles/").add_file("base.css");
    assert_eq!(c.source_paths(), vec!["styles/base.css".to_string()]);
}

#[test]
fn merge_preserves_listed_order() {
    let c = CssCompiler::new("styles").add_file("a.css").add_file("b.css");
    let contents = vec!["p { color: red; }".to_string(), "p { color: blue; }".to_string()];
    let current = String::new();
    let write = c.compile(&contents, &current, "site.css").expect("content differs");
    assert_eq!(write.path, "site.css");
    assert_eq!(write.content, "p { color: red; }\np { color: blue; }\n");
}

#[test]
fn second_compile_with_unchanged_inputs_plans_no_write() {
    let c = CssCompiler::new("styles").add_file("a.css").add_file("b.css");
    let contents = vec!["x".to_string(), "y".to_string()];
    let first = c.compile(&contents, &String::new(), "site.css");
    let written = first.expect("first run writes").content;
    let second = c.compile(&contents, &written, "site.css");
    assert!(second.is_none());
}

#[test]
fn compile_with_no_files_writes_empty_once() {
    let c = CssCompiler::new("styles");
    let contents: Vec<String> = vec![];
    let first = c.compile(&contents, &"old".to_string(), "site.css").expect("differs");
    assert_eq!(first.content, "");
    assert!(c.compile(&contents, &String::new(), "site.css").is_none());
}

#[test]
fn build_error_messages_name_the_offender() {
    assert_eq!(
        BuildError::FileRead("styles/a.css".to_string()).message(),
        "Failed to read file styles/a.css"
    );
    assert_eq!(
        BuildError::FileWrite("site.css".to_string()).message(),
        "Failed to write file site.css"
    );
    assert_eq!(
        BuildError::Network("status 404 for https://host/x".to_string()).message(),
        "Network request failed: status 404 for https://host/x"
    );
    assert_eq!(
        BuildError::MissingEnvVar("REPO_TOKEN".to_string()).message(),
        "Missing environment variable REPO_TOKEN"
    );
    assert_eq!(
        BuildError::MalformedPayload("bad base64".to_string()).message(),
        "Malformed payload: bad base64"
    );
    assert_eq!(
        BuildError::CompilerFailure("exit status 1".to_string()).message(),
        "Proto compiler failed: exit status 1"
    );
}
