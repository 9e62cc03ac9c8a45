//! Plan values handed back to the caller: a file write to perform, and the
//! failure conditions the build helpers can run into while performing one.

use vstd::prelude::*;
use vstd::string::*;

verus! {

/// One planned file write: store `content` at `path`, truncating whatever is
/// there.
pub struct FileWrite {
    pub path: String,
    pub content: String,
}

/// The distinct, inspectable failure conditions of a build run. Each variant
/// carries the offending path, URL, status or name.
pub enum BuildError {
    /// A source file could not be opened or read.
    FileRead(String),
    /// A destination file could not be written or flushed.
    FileWrite(String),
    /// A download failed or answered with a non-success HTTP status.
    Network(String),
    /// A required environment variable was absent.
    MissingEnvVar(String),
    /// A response payload could not be decoded.
    MalformedPayload(String),
    /// The external proto compiler invocation failed.
    CompilerFailure(String),
}

/// The message a `BuildError` carries: a fixed prefix naming the failure
/// kind, then the offending detail.
pub open spec fn build_error_message_spec(e: BuildError) -> Seq<char> {
    match e {
        BuildError::FileRead(p) => "Failed to read file "@ + p@,
        BuildError::FileWrite(p) => "Failed to write file "@ + p@,
        BuildError::Network(d) => "Network request failed: "@ + d@,
        BuildError::MissingEnvVar(n) => "Missing environment variable "@ + n@,
        BuildError::MalformedPayload(d) => "Malformed payload: "@ + d@,
        BuildError::CompilerFailure(d) => "Proto compiler failed: "@ + d@,
    }
}

impl BuildError {
    /// Renders the error as the message the build aborts with.
    pub fn message(&self) -> (r: String)
        ensures
            r@ == build_error_message_spec(*self),
    {
        match self {
            BuildError::FileRead(p) => {
                let mut m = "Failed to read file ".to_owned();
                m.append(p.as_str());
                m
            },
            BuildError::FileWrite(p) => {
                let mut m = "Failed to write file ".to_owned();
                m.append(p.as_str());
                m
            },
            BuildError::Network(d) => {
                let mut m = "Network request failed: ".to_owned();
                m.append(d.as_str());
                m
            },
            BuildError::MissingEnvVar(n) => {
                let mut m = "Missing environment variable ".to_owned();
                m.append(n.as_str());
                m
            },
            BuildError::MalformedPayload(d) => {
                let mut m = "Malformed payload: ".to_owned();
                m.append(d.as_str());
                m
            },
            BuildError::CompilerFailure(d) => {
                let mut m = "Proto compiler failed: ".to_owned();
                m.append(d.as_str());
                m
            },
        }
    }
}

} // verus!
