//! The deterministic local cache location of proto schema files.

use vstd::prelude::*;
use vstd::string::*;
use crate::output::FileWrite;

verus! {

/// The deterministic cache path of a proto schema: `proto/<file name>`.
pub open spec fn proto_file_path_spec(name: Seq<char>) -> Seq<char> {
    "proto/"@ + name
}

/// Formats the deterministic local cache path for a proto schema file.
pub fn format_proto_file_name(proto_file_name: &str) -> (r: String)
    ensures
        r@ == proto_file_path_spec(proto_file_name@),
{
    let mut out = "proto/".to_owned();
    out.append(proto_file_name);
    out
}

/// Plans storing a resolved proto schema's text at its deterministic cache
/// path, truncating any earlier content there.
pub fn write_proto_file(proto_file_name: &str, content: &str) -> (r: FileWrite)
    ensures
        r.path@ == proto_file_path_spec(proto_file_name@),
        r.content@ == content@,
{
    FileWrite { path: format_proto_file_name(proto_file_name), content: content.to_owned() }
}

} // verus!
