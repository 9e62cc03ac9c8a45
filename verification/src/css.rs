//! CSS asset concatenation: an ordered list of source file names under a
//! base directory, merged in order into one output, rewritten only when the
//! merged content differs from what the destination already holds.

use vstd::prelude::*;
use vstd::string::*;
use crate::output::FileWrite;
use crate::text::{join_path, join_path_spec};

verus! {

/// The merged stylesheet: each source's content in listed order, a newline
/// appended after each.
pub open spec fn css_merge_spec(contents: Seq<Seq<char>>) -> Seq<char>
    decreases contents.len()
{
    if contents.len() == 0 {
        Seq::empty()
    } else {
        contents[0] + "\n"@ + css_merge_spec(contents.drop_first())
    }
}

/// Whether a compile run must write the destination: exactly when the merged
/// content differs from what the destination currently holds.
pub open spec fn css_write_needed(contents: Seq<Seq<char>>, current: Seq<char>) -> bool {
    css_merge_spec(contents) != current
}

/// Once a run has written the merged content, a second run over unchanged
/// sources needs no write: the content-equality short-circuit makes
/// recompilation a filesystem no-op.
pub proof fn lemma_second_compile_plans_no_write(contents: Seq<Seq<char>>)
    ensures
        !css_write_needed(contents, css_merge_spec(contents)),
{
}

/// Accumulates an ordered list of stylesheet file names under a fixed base
/// directory; order is significant, since concatenation preserves it.
pub struct CssCompiler {
    pub directory: &'static str,
    pub files: Vec<&'static str>,
}

impl CssCompiler {
    /// A compiler over the given base directory with no files listed yet.
    pub fn new(directory: &'static str) -> (r: Self)
        ensures
            r.directory == directory,
            r.files@ == Seq::<&'static str>::empty(),
    {
        Self { directory, files: Vec::new() }
    }

    /// Appends one source file name to the ordered list.
    pub fn add_file(self, file: &'static str) -> (r: Self)
        ensures
            r.directory == self.directory,
            r.files@ == self.files@.push(file),
    {
        let mut s = self;
        s.files.push(file);
        s
    }

    /// The full path of each listed source file: the base directory joined
    /// with the file name, with exactly one separator between them.
    pub fn source_paths(&self) -> (r: Vec<String>)
        ensures
            r@.len() == self.files@.len(),
            forall|i: int|
                0 <= i < r@.len() ==> r@[i]@ == join_path_spec(
                    self.directory@,
                    self.files@[i]@,
                ),
    {
        let mut out: Vec<String> = Vec::new();
        let mut i: usize = 0;
        while i < self.files.len()
            invariant
                i <= self.files@.len(),
                out@.len() == i,
                forall|k: int|
                    0 <= k < i ==> out@[k]@ == join_path_spec(
                        self.directory@,
                        self.files@[k]@,
                    ),
            decreases self.files@.len() - i,
        {
            out.push(join_path(self.directory, self.files[i]));
            i = i + 1;
        }
        out
    }

    /// Merges the given source contents (one per listed file, in order) and
    /// decides the write: a write of the merged content to `out_file` is
    /// planned exactly when it differs from what the destination currently
    /// holds.
    pub fn compile(&self, contents: &Vec<String>, current: &String, out_file: &str) -> (r: Option<
        FileWrite,
    >)
        ensures
            r is Some <==> css_write_needed(contents.deep_view(), current@),
            r is Some ==> (r->0).path@ == out_file@,
            r is Some ==> (r->0).content@ == css_merge_spec(contents.deep_view()),
    {
        let ghost dv = contents.deep_view();
        let mut merged = String::new();
        let mut i: usize = 0;
        proof {
            assert(dv.skip(0) =~= dv);
            assert(merged@ + css_merge_spec(dv) =~= css_merge_spec(dv));
        }
        while i < contents.len()
            invariant
                i <= contents@.len(),
                dv == contents.deep_view(),
                dv.len() == contents@.len(),
                merged@ + css_merge_spec(dv.skip(i as int)) == css_merge_spec(dv),
            decreases contents@.len() - i,
        {
            let ghost prev = merged@;
            let ghost rest = dv.skip(i as int);
            merged.append(contents[i].as_str());
            merged.append("\n");
            proof {
                assert(rest[0] == dv[i as int]);
                assert(dv[i as int] == contents@[i as int]@);
                assert(rest.drop_first() =~= dv.skip(i + 1));
                assert(css_merge_spec(rest) == dv[i as int] + "\n"@ + css_merge_spec(
                    dv.skip(i + 1),
                ));
                assert(merged@ + css_merge_spec(dv.skip(i + 1)) =~= prev + css_merge_spec(rest));
            }
            i = i + 1;
        }
        proof {
            assert(dv.skip(dv.len() as int) =~= Seq::<Seq<char>>::empty());
            assert(merged@ + css_merge_spec(dv.skip(dv.len() as int)) =~= merged@);
        }
        if merged.eq(current) {
            None
        } else {
            Some(FileWrite { path: out_file.to_owned(), content: merged })
        }
    }
}

} // verus!
