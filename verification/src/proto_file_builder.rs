//! Configuration of one remote proto schema source and the resolution plan
//! it yields: which URL to fetch (if any) and where the schema is cached.

use vstd::prelude::*;
use crate::text::{join_path, join_path_spec};
use crate::proto_file_utils::{format_proto_file_name, proto_file_path_spec};

verus! {

/// Describes a remote origin for proto schema files together with the
/// skip-syncing flag: when set, resolution reuses the local cache and plans
/// no network access at all.
pub struct ProtoFileBuilder {
    pub base_url: &'static str,
    pub skip_syncing: bool,
}

/// The resolution plan for one proto schema: the URL to download (absent
/// exactly when syncing is skipped) and the deterministic local cache path
/// the schema lives at afterwards.
pub struct ProtoSyncPlan {
    pub fetch_url: Option<String>,
    pub dest_path: String,
}

/// The fetch a resolution plans: nothing under skip-syncing, else the origin
/// joined with the file name.
pub open spec fn planned_fetch(b: ProtoFileBuilder, name: Seq<char>) -> Option<Seq<char>> {
    if b.skip_syncing {
        None
    } else {
        Some(join_path_spec(b.base_url@, name))
    }
}

/// The destination a resolution plans. It depends on the file name alone,
/// never on the builder's configuration.
pub open spec fn planned_dest(b: ProtoFileBuilder, name: Seq<char>) -> Seq<char> {
    proto_file_path_spec(name)
}

impl ProtoFileBuilder {
    /// A builder for the given remote origin, with syncing enabled.
    pub fn new(base_url: &'static str) -> (r: Self)
        ensures
            r.base_url == base_url,
            !r.skip_syncing,
    {
        Self { base_url, skip_syncing: false }
    }

    /// Turns syncing off: resolution will reuse the previously cached file
    /// and plan no download.
    pub fn skip_syncing(self) -> (r: Self)
        ensures
            r.base_url == self.base_url,
            r.skip_syncing,
    {
        Self { base_url: self.base_url, skip_syncing: true }
    }

    /// Resolves one proto schema to its acquisition plan: the URL to fetch
    /// (absent exactly when skip-syncing is set) and the deterministic cache
    /// path the compiler is afterwards pointed at.
    pub fn sync_and_build(&self, proto_file_name: &str) -> (r: ProtoSyncPlan)
        ensures
            r.dest_path@ == planned_dest(*self, proto_file_name@),
            r.fetch_url is Some <==> planned_fetch(*self, proto_file_name@) is Some,
            r.fetch_url is Some ==> r.fetch_url->0@ == planned_fetch(*self, proto_file_name@)->0,
    {
        let fetch_url = if self.skip_syncing {
            None
        } else {
            Some(join_path(self.base_url, proto_file_name))
        };
        ProtoSyncPlan { fetch_url, dest_path: format_proto_file_name(proto_file_name) }
    }
}

/// Resolution under skip-syncing performs zero network fetches, yet plans the
/// same deterministic destination path as any other resolution of the same
/// file name, skipping or not.
pub proof fn lemma_skip_syncing_resolution(b: ProtoFileBuilder, name: Seq<char>)
    requires
        b.skip_syncing,
    ensures
        planned_fetch(b, name) is None,
        forall|other: ProtoFileBuilder| planned_dest(b, name) == planned_dest(other, name),
{
}

} // verus!
