use ci_kit::proto_file_builder::ProtoFileBuilder;
use ci_kit::proto_file_utils::{format_proto_file_name, write_proto_file};

#[test]
fn proto_path_is_deterministic() {
    assert_eq!(format_proto_file_name("service.proto"), "proto/service.proto");
}

#[test]
fn write_proto_file_plans_cache_write() {
    let w = write_proto_file("api.proto", "syntax = \"proto3\";\n");
    assert_eq!(w.path, "proto/api.proto");
    assert_eq!(w.content, "syntax = \"proto3\";\n");
}

#[test]
fn sync_plans_fetch_from_joined_url() {
    let b = ProtoFileBuilder::new("https://host/protos");
    let plan = b.sync_and_build("api.proto");
    assert_eq!(plan.fetch_url.as_deref(), Some("https://host/protos/api.proto"));
    assert_eq!(plan.dest_path, "proto/api.proto");
}

#[test]
fn sync_tolerates_trailing_separator_in_origin() {
    let b = ProtoFileBuilder::new("https://host/protos/");
    let plan = b.sync_and_build("api.proto");
    assert_eq!(plan.fetch_url.as_deref(), Some("https://host/protos/api.proto"));
}

#[test]
fn skip_syncing_plans_no_fetch_and_same_path() {
    let synced = ProtoFileBuilder::new("https://host/protos").sync_and_build("api.proto");
    let skipped = ProtoFileBuilder::new("https://host/protos")
        .skip_syncing()
        .sync_and_build("api.proto");
    assert!(skipped.fetch_url.is_none());
    assert_eq!(skipped.dest_path, synced.dest_path);
}
