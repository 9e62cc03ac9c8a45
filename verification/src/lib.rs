//! Build-time helpers for generating Dockerfiles and CI workflow files from
//! string templates, planning protocol-buffer schema acquisition, and merging
//! CSS/JavaScript assets into single files.
//!
//! Every function here is pure: it computes paths and file contents and
//! returns them as plan values. Performing the described writes, downloads
//! and compiler invocations is left to the (unverified) caller.

pub mod ci_generator;
pub mod css;
pub mod js;
pub mod output;
pub mod proto_file_builder;
pub mod proto_file_utils;
pub mod text;
