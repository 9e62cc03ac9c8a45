//! Dockerfile and GitHub workflow generation. A `CiGenerator` accumulates
//! options through chained setters that each consume and return the value;
//! the terminal `build` renders every configured file as a plan of writes,
//! in a fixed order, without touching the filesystem itself.

use vstd::prelude::*;
use vstd::string::*;
use crate::output::FileWrite;
use crate::proto_file_builder::ProtoFileBuilder;
use crate::text::{replace_all, replace_spec, runtime_version, runtime_version_spec};

verus! {

/// The closed choice of Dockerfile flavours: a plain native binary service,
/// or a full-stack web service built with the Dioxus toolchain.
#[derive(Clone, Copy)]
pub enum DockerFileType {
    Basic,
    Dioxus,
}

/// The built-in default base image of each variant.
pub open spec fn default_image_spec(v: DockerFileType) -> Seq<char> {
    match v {
        DockerFileType::Basic => "ubuntu:22.04"@,
        DockerFileType::Dioxus => "myjettools/dioxus-docker:0.7.0"@,
    }
}

/// The base image a generation run resolves: the explicit override when one
/// was set, else the variant's built-in default.
pub open spec fn effective_image_spec(v: DockerFileType, o: Option<&'static str>) -> Seq<char> {
    match o {
        Some(s) => s@,
        None => default_image_spec(v),
    }
}

/// The package-installation block inserted into the Dockerfile when the
/// media-codec toggle is set; empty otherwise.
pub open spec fn ffmpeg_block_spec(with_ff_mpeg: bool) -> Seq<char> {
    if with_ff_mpeg {
        "RUN apt upgrade -y\nRUN apt update\nRUN apt install ffmpeg libavcodec-dev libavformat-dev libavutil-dev libswresample-dev libswscale-dev libavfilter-dev libavdevice-dev -y\n"@
    } else {
        Seq::empty()
    }
}

/// One `COPY <from> <to>` line per configured copy directive, in configured
/// order.
pub open spec fn copy_lines_spec(items: Seq<(&'static str, &'static str)>) -> Seq<char>
    decreases items.len()
{
    if items.len() == 0 {
        Seq::empty()
    } else {
        "COPY "@ + items[0].0@ + " "@ + items[0].1@ + "\n"@ + copy_lines_spec(items.drop_first())
    }
}

/// The full Dockerfile of the plain service variant: base image, optional
/// media-codec block, the service binary copy, the configured copy
/// directives, and the entrypoint.
pub open spec fn dockerfile_basic_spec(
    image: Seq<char>,
    service: Seq<char>,
    with_ff_mpeg: bool,
    copy: Seq<(&'static str, &'static str)>,
) -> Seq<char> {
    "FROM "@ + image + "\n"@ + ffmpeg_block_spec(with_ff_mpeg) + "COPY ./target/release/"@
        + service + " ./target/release/"@ + service + "\n"@ + copy_lines_spec(copy)
        + "ENTRYPOINT [\"./target/release/"@ + service + "\"]"@
}

/// The full Dockerfile of the full-stack web variant: base image, configured
/// copy directives, optional media-codec block, then the fixed environment,
/// web bundle copy, working directory and entrypoint section.
pub open spec fn dockerfile_dioxus_spec(
    image: Seq<char>,
    service: Seq<char>,
    with_ff_mpeg: bool,
    copy: Seq<(&'static str, &'static str)>,
) -> Seq<char> {
    "FROM "@ + image + "\n"@ + copy_lines_spec(copy) + ffmpeg_block_spec(with_ff_mpeg)
        + "\nENV PORT=9001\nENV IP=0.0.0.0\n\nCOPY ./target/dx/"@ + service
        + "/release/web /target/dx/"@ + service + "/release/web\n\nRUN chmod +x /target/dx/"@
        + service + "/release/web/"@ + service + "\nWORKDIR /target/dx/"@ + service
        + "/release/web/\nENTRYPOINT [\"./"@ + service + "\"]"@
}

/// The Dockerfile content of the given variant.
pub open spec fn dockerfile_content_spec(
    v: DockerFileType,
    image: Seq<char>,
    service: Seq<char>,
    with_ff_mpeg: bool,
    copy: Seq<(&'static str, &'static str)>,
) -> Seq<char> {
    match v {
        DockerFileType::Basic => dockerfile_basic_spec(image, service, with_ff_mpeg, copy),
        DockerFileType::Dioxus => dockerfile_dioxus_spec(image, service, with_ff_mpeg, copy),
    }
}

/// Appends one `COPY` line per directive to `out`, in order.
pub fn push_copy_files(out: &mut String, copy: &Vec<(&'static str, &'static str)>)
    ensures
        final(out)@ == old(out)@ + copy_lines_spec(copy@),
{
    let mut i: usize = 0;
    proof {
        assert(copy@.skip(0) =~= copy@);
        assert(old(out)@ + copy_lines_spec(copy@) =~= out@ + copy_lines_spec(copy@.skip(0)));
    }
    while i < copy.len()
        invariant
            i <= copy@.len(),
            out@ + copy_lines_spec(copy@.skip(i as int)) == old(out)@ + copy_lines_spec(copy@),
        decreases copy@.len() - i,
    {
        let ghost prev = out@;
        let ghost rest = copy@.skip(i as int);
        let itm = copy[i];
        out.append("COPY ");
        out.append(itm.0);
        out.append(" ");
        out.append(itm.1);
        out.append("\n");
        proof {
            assert(rest[0] == copy@[i as int]);
            assert(rest.drop_first() =~= copy@.skip(i + 1));
            assert(copy_lines_spec(rest) == "COPY "@ + copy@[i as int].0@ + " "@
                + copy@[i as int].1@ + "\n"@ + copy_lines_spec(copy@.skip(i + 1)));
            assert(out@ + copy_lines_spec(copy@.skip(i + 1))
                =~= prev + copy_lines_spec(rest));
        }
        i = i + 1;
    }
    proof {
        assert(copy@.skip(copy@.len() as int) =~= Seq::<(&'static str, &'static str)>::empty());
        assert(out@ + copy_lines_spec(copy@.skip(copy@.len() as int)) =~= out@);
    }
}

impl DockerFileType {
    /// Renders the Dockerfile of this variant as a planned write to the
    /// fixed path `Dockerfile`, always overwriting.
    pub fn generate_docker_file(
        &self,
        service_name: &str,
        with_ff_mpeg: bool,
        container_name: Option<&'static str>,
        copy_files: &Vec<(&'static str, &'static str)>,
    ) -> (r: FileWrite)
        ensures
            r.path@ == "Dockerfile"@,
            r.content@ == dockerfile_content_spec(
                *self,
                effective_image_spec(*self, container_name),
                service_name@,
                with_ff_mpeg,
                copy_files@,
            ),
    {
        match self {
            DockerFileType::Basic => {
                let image = match container_name {
                    Some(c) => c,
                    None => "ubuntu:22.04",
                };
                let mut contents = "FROM ".to_owned();
                contents.append(image);
                contents.append("\n");
                if with_ff_mpeg {
                    contents.append(
                        "RUN apt upgrade -y\nRUN apt update\nRUN apt install ffmpeg libavcodec-dev libavformat-dev libavutil-dev libswresample-dev libswscale-dev libavfilter-dev libavdevice-dev -y\n",
                    );
                }
                contents.append("COPY ./target/release/");
                contents.append(service_name);
                contents.append(" ./target/release/");
                contents.append(service_name);
                contents.append("\n");
                push_copy_files(&mut contents, copy_files);
                contents.append("ENTRYPOINT [\"./target/release/");
                contents.append(service_name);
                contents.append("\"]");
                proof {
                    assert(contents@ =~= dockerfile_basic_spec(
                        effective_image_spec(*self, container_name),
                        service_name@,
                        with_ff_mpeg,
                        copy_files@,
                    ));
                }
                FileWrite { path: "Dockerfile".to_owned(), content: contents }
            },
            DockerFileType::Dioxus => {
                let image = match container_name {
                    Some(c) => c,
                    None => "myjettools/dioxus-docker:0.7.0",
                };
                let mut contents = "FROM ".to_owned();
                contents.append(image);
                contents.append("\n");
                push_copy_files(&mut contents, copy_files);
                if with_ff_mpeg {
                    contents.append(
                        "RUN apt upgrade -y\nRUN apt update\nRUN apt install ffmpeg libavcodec-dev libavformat-dev libavutil-dev libswresample-dev libswscale-dev libavfilter-dev libavdevice-dev -y\n",
                    );
                }
                contents.append("\nENV PORT=9001\nENV IP=0.0.0.0\n\nCOPY ./target/dx/");
                contents.append(service_name);
                contents.append("/release/web /target/dx/");
                contents.append(service_name);
                contents.append("/release/web\n\nRUN chmod +x /target/dx/");
                contents.append(service_name);
                contents.append("/release/web/");
                contents.append(service_name);
                contents.append("\nWORKDIR /target/dx/");
                contents.append(service_name);
                contents.append("/release/web/\nENTRYPOINT [\"./");
                contents.append(service_name);
                contents.append("\"]");
                proof {
                    assert(contents@ =~= dockerfile_dioxus_spec(
                        effective_image_spec(*self, container_name),
                        service_name@,
                        with_ff_mpeg,
                        copy_files@,
                    ));
                }
                FileWrite { path: "Dockerfile".to_owned(), content: contents }
            },
        }
    }
}

/// The variant the workflow templates are chosen by: the configured one, or
/// the plain service kind when no Dockerfile variant was configured.
pub open spec fn workflow_variant_spec(o: Option<DockerFileType>) -> DockerFileType {
    match o {
        Some(v) => v,
        None => DockerFileType::Basic,
    }
}

/// The release workflow template of each variant, with its substitution
/// placeholders still in place.
pub open spec fn release_template_spec(v: DockerFileType) -> Seq<char> {
    match v {
        DockerFileType::Basic => "name: release\non:\n  push:\n    tags:\n      - '*'\njobs:\n  release:\n    runs-on: ubuntu-latest\n    steps:\n      - uses: actions/checkout@${CHECKOUT_VERSION}\n      - uses: dtolnay/rust-toolchain@${RUST_TOOLCHAIN_VERSION}\n#Put Options Here\n#Put Build Steps Here\n      - run: docker build -t ${DOCKER_IMAGE_NAME} -f ./Dockerfile .\n      - run: docker push ${DOCKER_IMAGE_NAME}\n"@,
        DockerFileType::Dioxus => "name: release\non:\n  push:\n    tags:\n      - '*'\njobs:\n  release:\n    runs-on: ubuntu-latest\n    steps:\n      - uses: actions/checkout@${CHECKOUT_VERSION}\n      - uses: dtolnay/rust-toolchain@${RUST_TOOLCHAIN_VERSION}\n      - run: cargo install dioxus-cli --version ${DIOXUS_VERSION}\n#Put Options Here\n#Put Build Steps Here\n      - run: dx build --release --package ${SERVICE_NAME}\n      - run: docker build -t ${DOCKER_IMAGE_NAME} -f ./Dockerfile .\n      - run: docker push ${DOCKER_IMAGE_NAME}\n"@,
    }
}

/// The test workflow template, with its substitution placeholders still in
/// place.
pub open spec fn test_template_spec() -> Seq<char> {
    "name: test\non:\n  push:\n    branches:\n      - '*'\njobs:\n  test:\n    runs-on: ubuntu-latest\n    steps:\n      - uses: actions/checkout@${CHECKOUT_VERSION}\n      - uses: dtolnay/rust-toolchain@${RUST_TOOLCHAIN_VERSION}\n      - run: cargo test\n"@
}

/// The build-step snippet substituted for the build-step marker: the proto
/// flavour when proto compilation was configured, the plain one otherwise.
pub open spec fn build_steps_spec(proto: bool) -> Seq<char> {
    if proto {
        "      - run: sudo apt install -y protobuf-compiler\n      - run: cargo build --release\n"@
    } else {
        "      - run: cargo build --release\n"@
    }
}

/// The options snippet substituted for the options marker: the media-codec
/// installation steps when the toggle is set, the empty string otherwise.
pub open spec fn workflow_options_spec(with_ff_mpeg: bool) -> Seq<char> {
    if with_ff_mpeg {
        "      - run: sudo apt update\n      - run: sudo apt install -y ffmpeg\n"@
    } else {
        Seq::empty()
    }
}

/// The rendered release workflow: the variant's template with every
/// placeholder literally substituted, in a fixed order.
pub open spec fn release_content_spec(
    v: DockerFileType,
    service: Seq<char>,
    image: Seq<char>,
    with_ff_mpeg: bool,
    proto: bool,
) -> Seq<char> {
    replace_spec(
        replace_spec(
            replace_spec(
                replace_spec(
                    replace_spec(
                        replace_spec(
                            replace_spec(release_template_spec(v), "${CHECKOUT_VERSION}"@, "v4"@),
                            "${RUST_TOOLCHAIN_VERSION}"@,
                            "stable"@,
                        ),
                        "${SERVICE_NAME}"@,
                        service,
                    ),
                    "${DIOXUS_VERSION}"@,
                    runtime_version_spec(image),
                ),
                "${DOCKER_IMAGE_NAME}"@,
                image,
            ),
            "#Put Build Steps Here"@,
            build_steps_spec(proto),
        ),
        "#Put Options Here"@,
        workflow_options_spec(with_ff_mpeg),
    )
}

/// The rendered test workflow: the test template with the checkout and
/// toolchain placeholders literally substituted.
pub open spec fn test_content_spec() -> Seq<char> {
    replace_spec(
        replace_spec(test_template_spec(), "${CHECKOUT_VERSION}"@, "v4"@),
        "${RUST_TOOLCHAIN_VERSION}"@,
        "stable"@,
    )
}

/// Renders the release workflow content for the given configuration.
fn release_workflow_content(
    v: DockerFileType,
    service_name: &str,
    image: &str,
    with_ff_mpeg: bool,
    proto: bool,
) -> (r: String)
    ensures
        r@ == release_content_spec(v, service_name@, image@, with_ff_mpeg, proto),
{
    proof {
        reveal_strlit("${CHECKOUT_VERSION}");
        reveal_strlit("${RUST_TOOLCHAIN_VERSION}");
        reveal_strlit("${SERVICE_NAME}");
        reveal_strlit("${DIOXUS_VERSION}");
        reveal_strlit("${DOCKER_IMAGE_NAME}");
        reveal_strlit("#Put Build Steps Here");
        reveal_strlit("#Put Options Here");
        reveal_strlit("");
        assert(""@ =~= Seq::<char>::empty());
    }
    let template = match v {
        DockerFileType::Basic => "name: release\non:\n  push:\n    tags:\n      - '*'\njobs:\n  release:\n    runs-on: ubuntu-latest\n    steps:\n      - uses: actions/checkout@${CHECKOUT_VERSION}\n      - uses: dtolnay/rust-toolchain@${RUST_TOOLCHAIN_VERSION}\n#Put Options Here\n#Put Build Steps Here\n      - run: docker build -t ${DOCKER_IMAGE_NAME} -f ./Dockerfile .\n      - run: docker push ${DOCKER_IMAGE_NAME}\n",
        DockerFileType::Dioxus => "name: release\non:\n  push:\n    tags:\n      - '*'\njobs:\n  release:\n    runs-on: ubuntu-latest\n    steps:\n      - uses: actions/checkout@${CHECKOUT_VERSION}\n      - uses: dtolnay/rust-toolchain@${RUST_TOOLCHAIN_VERSION}\n      - run: cargo install dioxus-cli --version ${DIOXUS_VERSION}\n#Put Options Here\n#Put Build Steps Here\n      - run: dx build --release --package ${SERVICE_NAME}\n      - run: docker build -t ${DOCKER_IMAGE_NAME} -f ./Dockerfile .\n      - run: docker push ${DOCKER_IMAGE_NAME}\n",
    };
    let version = runtime_version(image);
    let build_steps = if proto {
        "      - run: sudo apt install -y protobuf-compiler\n      - run: cargo build --release\n"
    } else {
        "      - run: cargo build --release\n"
    };
    let options = if with_ff_mpeg {
        "      - run: sudo apt update\n      - run: sudo apt install -y ffmpeg\n"
    } else {
        ""
    };
    let s1 = replace_all(template, "${CHECKOUT_VERSION}", "v4");
    let s2 = replace_all(s1.as_str(), "${RUST_TOOLCHAIN_VERSION}", "stable");
    let s3 = replace_all(s2.as_str(), "${SERVICE_NAME}", service_name);
    let s4 = replace_all(s3.as_str(), "${DIOXUS_VERSION}", version.as_str());
    let s5 = replace_all(s4.as_str(), "${DOCKER_IMAGE_NAME}", image);
    let s6 = replace_all(s5.as_str(), "#Put Build Steps Here", build_steps);
    let s7 = replace_all(s6.as_str(), "#Put Options Here", options);
    s7
}

/// Renders the test workflow content.
fn test_workflow_content() -> (r: String)
    ensures
        r@ == test_content_spec(),
{
    proof {
        reveal_strlit("${CHECKOUT_VERSION}");
        reveal_strlit("${RUST_TOOLCHAIN_VERSION}");
    }
    let template =
        "name: test\non:\n  push:\n    branches:\n      - '*'\njobs:\n  test:\n    runs-on: ubuntu-latest\n    steps:\n      - uses: actions/checkout@${CHECKOUT_VERSION}\n      - uses: dtolnay/rust-toolchain@${RUST_TOOLCHAIN_VERSION}\n      - run: cargo test\n";
    let s1 = replace_all(template, "${CHECKOUT_VERSION}", "v4");
    let s2 = replace_all(s1.as_str(), "${RUST_TOOLCHAIN_VERSION}", "stable");
    s2
}

/// Everything one `build` call plans: the Dockerfile write, the workflow
/// directory to create, and the workflow writes, each present exactly when
/// the matching option was configured.
pub struct BuildPlan {
    pub dockerfile: Option<FileWrite>,
    pub workflow_dir: Option<String>,
    pub release_workflow: Option<FileWrite>,
    pub test_workflow: Option<FileWrite>,
}

/// Accumulates, in any order, a Dockerfile variant, copy directives, an
/// optional base image override, feature toggles and an optional proto
/// acquisition sub-configuration; `build` consumes the value and renders
/// everything configured.
pub struct CiGenerator {
    pub service_name: &'static str,
    pub docker_file: Option<DockerFileType>,
    pub generate_github_ci_file: bool,
    pub generate_github_test_file: bool,
    pub with_ff_mpeg: bool,
    pub docker_copy: Vec<(&'static str, &'static str)>,
    pub docker_container_name: Option<&'static str>,
    pub proto_builder: Option<ProtoFileBuilder>,
}

impl CiGenerator {
    /// A fresh configuration for the given service: no variant, no workflow
    /// toggles, no copy directives, no override, no proto configuration.
    pub fn new(service_name: &'static str) -> (r: Self)
        ensures
            r.service_name == service_name,
            r.docker_file is None,
            !r.generate_github_ci_file,
            !r.generate_github_test_file,
            !r.with_ff_mpeg,
            r.docker_copy@ == Seq::<(&'static str, &'static str)>::empty(),
            r.docker_container_name is None,
            r.proto_builder is None,
    {
        Self {
            service_name,
            docker_file: None,
            generate_github_ci_file: false,
            generate_github_test_file: false,
            with_ff_mpeg: false,
            docker_copy: Vec::new(),
            docker_container_name: None,
            proto_builder: None,
        }
    }

    /// Appends one copy directive; everything else is kept.
    pub fn add_docker_copy_file(self, from_file: &'static str, to_file: &'static str) -> (r: Self)
        ensures
            r.docker_copy@ == self.docker_copy@.push((from_file, to_file)),
            r.service_name == self.service_name,
            r.docker_file == self.docker_file,
            r.generate_github_ci_file == self.generate_github_ci_file,
            r.generate_github_test_file == self.generate_github_test_file,
            r.with_ff_mpeg == self.with_ff_mpeg,
            r.docker_container_name == self.docker_container_name,
            r.proto_builder == self.proto_builder,
    {
        let mut s = self;
        s.docker_copy.push((from_file, to_file));
        s
    }

    /// Sets the explicit base container image override; everything else is
    /// kept.
    pub fn set_docker_container_name(self, container_name: &'static str) -> (r: Self)
        ensures
            r.docker_container_name == Some(container_name),
            r.service_name == self.service_name,
            r.docker_file == self.docker_file,
            r.generate_github_ci_file == self.generate_github_ci_file,
            r.generate_github_test_file == self.generate_github_test_file,
            r.with_ff_mpeg == self.with_ff_mpeg,
            r.docker_copy == self.docker_copy,
            r.proto_builder == self.proto_builder,
    {
        let mut s = self;
        s.docker_container_name = Some(container_name);
        s
    }

    /// Selects the plain native binary service variant; everything else is
    /// kept.
    pub fn as_basic_service(self) -> (r: Self)
        ensures
            r.docker_file == Some(DockerFileType::Basic),
            r.service_name == self.service_name,
            r.generate_github_ci_file == self.generate_github_ci_file,
            r.generate_github_test_file == self.generate_github_test_file,
            r.with_ff_mpeg == self.with_ff_mpeg,
            r.docker_copy == self.docker_copy,
            r.docker_container_name == self.docker_container_name,
            r.proto_builder == self.proto_builder,
    {
        let mut s = self;
        s.docker_file = Some(DockerFileType::Basic);
        s
    }

    /// Selects the full-stack web service variant; everything else is kept.
    pub fn as_dioxus_service(self) -> (r: Self)
        ensures
            r.docker_file == Some(DockerFileType::Dioxus),
            r.service_name == self.service_name,
            r.generate_github_ci_file == self.generate_github_ci_file,
            r.generate_github_test_file == self.generate_github_test_file,
            r.with_ff_mpeg == self.with_ff_mpeg,
            r.docker_copy == self.docker_copy,
            r.docker_container_name == self.docker_container_name,
            r.proto_builder == self.proto_builder,
    {
        let mut s = self;
        s.docker_file = Some(DockerFileType::Dioxus);
        s
    }

    /// Turns the media-codec toolchain toggle on; everything else is kept.
    pub fn with_ff_mpeg(self) -> (r: Self)
        ensures
            r.with_ff_mpeg,
            r.service_name == self.service_name,
            r.docker_file == self.docker_file,
            r.generate_github_ci_file == self.generate_github_ci_file,
            r.generate_github_test_file == self.generate_github_test_file,
            r.docker_copy == self.docker_copy,
            r.docker_container_name == self.docker_container_name,
            r.proto_builder == self.proto_builder,
    {
        let mut s = self;
        s.with_ff_mpeg = true;
        s
    }

    /// Turns the release workflow toggle on; everything else is kept.
    pub fn generate_github_ci_file(self) -> (r: Self)
        ensures
            r.generate_github_ci_file,
            r.service_name == self.service_name,
            r.docker_file == self.docker_file,
            r.generate_github_test_file == self.generate_github_test_file,
            r.with_ff_mpeg == self.with_ff_mpeg,
            r.docker_copy == self.docker_copy,
            r.docker_container_name == self.docker_container_name,
            r.proto_builder == self.proto_builder,
    {
        let mut s = self;
        s.generate_github_ci_file = true;
        s
    }

    /// Turns the test workflow toggle on; everything else is kept.
    pub fn generate_github_test_file(self) -> (r: Self)
        ensures
            r.generate_github_test_file,
            r.service_name == self.service_name,
            r.docker_file == self.docker_file,
            r.generate_github_ci_file == self.generate_github_ci_file,
            r.with_ff_mpeg == self.with_ff_mpeg,
            r.docker_copy == self.docker_copy,
            r.docker_container_name == self.docker_container_name,
            r.proto_builder == self.proto_builder,
    {
        let mut s = self;
        s.generate_github_test_file = true;
        s
    }

    /// Records the proto acquisition sub-configuration; everything else is
    /// kept.
    pub fn set_proto_file_builder(self, builder: ProtoFileBuilder) -> (r: Self)
        ensures
            r.proto_builder == Some(builder),
            r.service_name == self.service_name,
            r.docker_file == self.docker_file,
            r.generate_github_ci_file == self.generate_github_ci_file,
            r.generate_github_test_file == self.generate_github_test_file,
            r.with_ff_mpeg == self.with_ff_mpeg,
            r.docker_copy == self.docker_copy,
            r.docker_container_name == self.docker_container_name,
    {
        let mut s = self;
        s.proto_builder = Some(builder);
        s
    }

    /// Consumes the configuration and renders everything it asks for: the
    /// Dockerfile exactly when a variant was selected, the release and test
    /// workflows exactly when their toggles were set, and the workflow
    /// directory exactly when any workflow is emitted.
    pub fn build(self) -> (r: BuildPlan)
        ensures
            r.dockerfile is Some <==> self.docker_file is Some,
            self.docker_file is Some ==> (r.dockerfile->0).path@ == "Dockerfile"@,
            self.docker_file is Some ==> (r.dockerfile->0).content@ == dockerfile_content_spec(
                self.docker_file->0,
                effective_image_spec(self.docker_file->0, self.docker_container_name),
                self.service_name@,
                self.with_ff_mpeg,
                self.docker_copy@,
            ),
            r.release_workflow is Some <==> self.generate_github_ci_file,
            self.generate_github_ci_file ==> (r.release_workflow->0).path@
                == ".github/workflows/release.yaml"@,
            self.generate_github_ci_file ==> (r.release_workflow->0).content@
                == release_content_spec(
                workflow_variant_spec(self.docker_file),
                self.service_name@,
                effective_image_spec(
                    workflow_variant_spec(self.docker_file),
                    self.docker_container_name,
                ),
                self.with_ff_mpeg,
                self.proto_builder is Some,
            ),
            r.test_workflow is Some <==> self.generate_github_test_file,
            self.generate_github_test_file ==> (r.test_workflow->0).path@
                == ".github/workflows/test.yml"@,
            self.generate_github_test_file ==> (r.test_workflow->0).content@
                == test_content_spec(),
            r.workflow_dir is Some <==> (self.generate_github_ci_file
                || self.generate_github_test_file),
            r.workflow_dir is Some ==> (r.workflow_dir->0)@ == ".github/workflows"@,
    {
        let dockerfile = match self.docker_file {
            Some(v) => Some(
                v.generate_docker_file(
                    self.service_name,
                    self.with_ff_mpeg,
                    self.docker_container_name,
                    &self.docker_copy,
                ),
            ),
            None => None,
        };
        let workflow_variant = match self.docker_file {
            Some(v) => v,
            None => DockerFileType::Basic,
        };
        let image = effective_image(workflow_variant, self.docker_container_name);
        let release_workflow = if self.generate_github_ci_file {
            let content = release_workflow_content(
                workflow_variant,
                self.service_name,
                image,
                self.with_ff_mpeg,
                self.proto_builder.is_some(),
            );
            Some(FileWrite { path: ".github/workflows/release.yaml".to_owned(), content })
        } else {
            None
        };
        let test_workflow = if self.generate_github_test_file {
            Some(
                FileWrite {
                    path: ".github/workflows/test.yml".to_owned(),
                    content: test_workflow_content(),
                },
            )
        } else {
            None
        };
        let workflow_dir = if self.generate_github_ci_file || self.generate_github_test_file {
            Some(".github/workflows".to_owned())
        } else {
            None
        };
        BuildPlan { dockerfile, workflow_dir, release_workflow, test_workflow }
    }
}

/// Resolves the effective base image: the explicit override when present,
/// else the variant's built-in default.
pub fn effective_image(v: DockerFileType, container_name: Option<&'static str>) -> (r:
    &'static str)
    ensures
        r@ == effective_image_spec(v, container_name),
{
    match container_name {
        Some(c) => c,
        None => match v {
            DockerFileType::Basic => "ubuntu:22.04",
            DockerFileType::Dioxus => "myjettools/dioxus-docker:0.7.0",
        },
    }
}

/// With the full-stack variant and no explicit image override, the resolved
/// runtime-version placeholder is exactly the substring after the last colon
/// of the built-in default image, here `0.7.0`.
pub proof fn lemma_dioxus_default_runtime_version()
    ensures
        effective_image_spec(DockerFileType::Dioxus, None) == default_image_spec(
            DockerFileType::Dioxus,
        ),
        exists|j: int|
            #![trigger default_image_spec(DockerFileType::Dioxus).skip(j + 1)]
            {
                &&& 0 <= j < default_image_spec(DockerFileType::Dioxus).len()
                &&& default_image_spec(DockerFileType::Dioxus)[j] == ':'
                &&& (forall|k: int|
                    j < k < default_image_spec(DockerFileType::Dioxus).len()
                        ==> default_image_spec(DockerFileType::Dioxus)[k] != ':')
                &&& runtime_version_spec(default_image_spec(DockerFileType::Dioxus))
                    == default_image_spec(DockerFileType::Dioxus).skip(j + 1)
            },
        runtime_version_spec(default_image_spec(DockerFileType::Dioxus)) == "0.7.0"@,
{
    reveal_strlit("myjettools/dioxus-docker:0.7.0");
    reveal_strlit("0.7.0");
    let img = default_image_spec(DockerFileType::Dioxus);
    assert(img[24] == ':');
    assert(forall|k: int| 24 < k < img.len() ==> img[k] != ':');
    crate::text::lemma_after_last_colon_some(img, 24);
    assert(img.skip(25) =~= "0.7.0"@);
    assert({
        &&& 0 <= 24int < default_image_spec(DockerFileType::Dioxus).len()
        &&& default_image_spec(DockerFileType::Dioxus)[24int] == ':'
        &&& (forall|k: int|
            24int < k < default_image_spec(DockerFileType::Dioxus).len()
                ==> default_image_spec(DockerFileType::Dioxus)[k] != ':')
        &&& runtime_version_spec(default_image_spec(DockerFileType::Dioxus))
            == default_image_spec(DockerFileType::Dioxus).skip(24int + 1)
    });
}

} // verus!
