use ci_kit::ci_generator::{effective_image, CiGenerator, DockerFileType};
use ci_kit::proto_file_builder::ProtoFileBuilder;

#[test]
fn basic_dockerfile_with_copy_directive() {
    let plan = CiGenerator::new("svc")
        .as_basic_service()
        .add_docker_copy_file("a.txt", "b.txt")
        .build();
    let dockerfile = plan.dockerfile.expect("variant configured, Dockerfile planned");
    assert_eq!(dockerfile.path, "Dockerfile");
    let content = dockerfile.content;
    assert!(content.starts_with("FROM ubuntu:22.04\n"));
    assert_eq!(content.lines().filter(|l| *l == "COPY a.txt b.txt").count(), 1);
    assert!(content.ends_with("ENTRYPOINT [\"./target/release/svc\"]"));
}

#[test]
fn basic_dockerfile_exact_content() {
    let plan = CiGenerator::new("svc")
        .as_basic_service()
        .add_docker_copy_file("a.txt", "b.txt")
        .build();
    assert_eq!(
        plan.dockerfile.unwrap().content,
        "FROM ubuntu:22.04\nCOPY ./target/release/svc ./target/release/svc\nCOPY a.txt b.txt\nENTRYPOINT [\"./target/release/svc\"]"
    );
}

#[test]
fn no_variant_plans_no_dockerfile() {
    let plan = CiGenerator::new("svc").build();
    assert!(plan.dockerfile.is_none());
    assert!(plan.release_workflow.is_none());
    assert!(plan.test_workflow.is_none());
    assert!(plan.workflow_dir.is_none());
}

#[test]
fn image_override_replaces_default() {
    let plan = CiGenerator::new("svc")
        .as_basic_service()
        .set_docker_container_name("debian:12")
        .build();
    assert!(plan.dockerfile.unwrap().content.starts_with("FROM debian:12\n"));
}

#[test]
fn ffmpeg_toggle_inserts_install_block() {
    let with = CiGenerator::new("svc").as_basic_service().with_ff_mpeg().build();
    let without = CiGenerator::new("svc").as_basic_service().build();
    assert!(with.dockerfile.unwrap().content.contains("RUN apt install ffmpeg"));
    assert!(!without.dockerfile.unwrap().content.contains("ffmpeg"));
}

#[test]
fn dioxus_dockerfile_uses_web_bundle_layout() {
    let plan = CiGenerator::new("websvc").as_dioxus_service().build();
    let content = plan.dockerfile.unwrap().content;
    assert!(content.starts_with("FROM myjettools/dioxus-docker:0.7.0\n"));
    assert!(content.contains("COPY ./target/dx/websvc/release/web /target/dx/websvc/release/web"));
    assert!(content.contains("WORKDIR /target/dx/websvc/release/web/"));
    assert!(content.ends_with("ENTRYPOINT [\"./websvc\"]"));
}

#[test]
fn release_workflow_exact_content_for_basic_variant() {
    let plan = CiGenerator::new("svc")
        .as_basic_service()
        .generate_github_ci_file()
        .build();
    assert_eq!(plan.workflow_dir.as_deref(), Some(".github/workflows"));
    let wf = plan.release_workflow.expect("release toggle set");
    assert_eq!(wf.path, ".github/workflows/release.yaml");
    assert_eq!(
        wf.content,
        "name: release\non:\n  push:\n    tags:\n      - '*'\njobs:\n  release:\n    runs-on: ubuntu-latest\n    steps:\n      - uses: actions/checkout@v4\n      - uses: dtolnay/rust-toolchain@stable\n\n      - run: cargo build --release\n\n      - run: docker build -t ubuntu:22.04 -f ./Dockerfile .\n      - run: docker push ubuntu:22.04\n"
    );
}

#[test]
fn dioxus_release_workflow_resolves_runtime_version_from_default_image() {
    let plan = CiGenerator::new("websvc")
        .as_dioxus_service()
        .generate_github_ci_file()
        .build();
    let content = plan.release_workflow.unwrap().content;
    assert!(content.contains("cargo install dioxus-cli --version 0.7.0"));
    assert!(content.contains("dx build --release --package websvc"));
    assert!(content.contains("docker build -t myjettools/dioxus-docker:0.7.0"));
    assert!(!content.contains("${SERVICE_NAME}"));
    assert!(!content.contains("${DIOXUS_VERSION}"));
}

#[test]
fn untagged_override_falls_back_to_latest_version() {
    let plan = CiGenerator::new("websvc")
        .as_dioxus_service()
        .set_docker_container_name("myrepo/webimage")
        .generate_github_ci_file()
        .build();
    let content = plan.release_workflow.unwrap().content;
    assert!(content.contains("cargo install dioxus-cli --version latest"));
}

#[test]
fn proto_configuration_switches_build_steps() {
    let with_proto = CiGenerator::new("svc")
        .as_basic_service()
        .set_proto_file_builder(ProtoFileBuilder::new("https://host/protos"))
        .generate_github_ci_file()
        .build();
    let without_proto = CiGenerator::new("svc")
        .as_basic_service()
        .generate_github_ci_file()
        .build();
    assert!(with_proto.release_workflow.unwrap().content.contains("protobuf-compiler"));
    assert!(!without_proto.release_workflow.unwrap().content.contains("protobuf-compiler"));
}

#[test]
fn ffmpeg_toggle_fills_workflow_options_block() {
    let plan = CiGenerator::new("svc")
        .as_basic_service()
        .with_ff_mpeg()
        .generate_github_ci_file()
        .build();
    let content = plan.release_workflow.unwrap().content;
    assert!(content.contains("sudo apt install -y ffmpeg"));
    assert!(!content.contains("#Put Options Here"));
    assert!(!content.contains("#Put Build Steps Here"));
}

#[test]
fn test_workflow_exact_content() {
    let plan = CiGenerator::new("svc").generate_github_test_file().build();
    assert_eq!(plan.workflow_dir.as_deref(), Some(".github/workflows"));
    let wf = plan.test_workflow.expect("test toggle set");
    assert_eq!(wf.path, ".github/workflows/test.yml");
    assert_eq!(
        wf.content,
        "name: test\non:\n  push:\n    branches:\n      - '*'\njobs:\n  test:\n    runs-on: ubuntu-latest\n    steps:\n      - uses: actions/checkout@v4\n      - uses: dtolnay/rust-toolchain@stable\n      - run: cargo test\n"
    );
}

#[test]
fn effective_image_prefers_override() {
    assert_eq!(effective_image(DockerFileType::Basic, Some("alpine:3.20")), "alpine:3.20");
    assert_eq!(effective_image(DockerFileType::Basic, None), "ubuntu:22.04");
    assert_eq!(effective_image(DockerFileType::Dioxus, None), "myjettools/dioxus-docker:0.7.0");
}
