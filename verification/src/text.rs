//! Text building blocks shared by the generators: path joining with a single
//! separator, and literal placeholder substitution.

use vstd::prelude::*;
use vstd::string::*;

verus! {

/// What joining a base path (or URL prefix) with a file name yields: the base,
/// a single `/` unless the base already ends with one, then the name.
pub open spec fn join_path_spec(base: Seq<char>, name: Seq<char>) -> Seq<char> {
    if base.len() > 0 && base.last() == '/' {
        base + name
    } else {
        base + seq!['/'] + name
    }
}

/// Joins a base path or URL prefix with a file name, inserting a `/` only
/// when the base does not already end with one.
pub fn join_path(base: &str, name: &str) -> (r: String)
    ensures
        r@ == join_path_spec(base@, name@),
{
    let n = base.unicode_len();
    let mut out = base.to_owned();
    if n == 0 || base.get_char(n - 1) != '/' {
        proof {
            reveal_strlit("/");
            assert("/"@ =~= seq!['/']);
        }
        out.append("/");
    }
    out.append(name);
    proof {
        assert(out@ =~= join_path_spec(base@, name@));
    }
    out
}

/// The base with a single trailing `/` removed, when one is present.
pub open spec fn strip_trailing_sep(base: Seq<char>) -> Seq<char> {
    if base.len() > 0 && base.last() == '/' {
        base.drop_last()
    } else {
        base
    }
}

/// Joining never doubles and never drops the separator: as long as the base
/// does not itself end in a doubled `/`, the joined path is the base without
/// its optional trailing separator, then exactly one `/`, then the name.
pub proof fn lemma_join_single_separator(base: Seq<char>, name: Seq<char>)
    requires
        !(base.len() >= 2 && base[base.len() - 1] == '/' && base[base.len() - 2] == '/'),
    ensures
        join_path_spec(base, name) == strip_trailing_sep(base) + seq!['/'] + name,
        strip_trailing_sep(base).len() == 0 || strip_trailing_sep(base).last() != '/',
{
    if base.len() > 0 && base.last() == '/' {
        assert(base.drop_last() + seq!['/'] + name =~= base + name);
    }
}

/// Whether the base already carries a trailing separator makes no difference
/// to the joined path.
pub proof fn lemma_join_trailing_sep_irrelevant(base: Seq<char>, name: Seq<char>)
    requires
        base.len() == 0 || base.last() != '/',
    ensures
        join_path_spec(base.push('/'), name) == join_path_spec(base, name),
{
    assert(base.push('/') + name =~= base + seq!['/'] + name);
}

/// What replacing every (leftmost, non-overlapping) occurrence of `pat` by
/// `rep` in `text` yields.
pub open spec fn replace_spec(text: Seq<char>, pat: Seq<char>, rep: Seq<char>) -> Seq<char>
    decreases text.len() when pat.len() > 0
{
    if text.len() < pat.len() {
        text
    } else if text.subrange(0, pat.len() as int) == pat {
        rep + replace_spec(text.skip(pat.len() as int), pat, rep)
    } else {
        seq![text[0]] + replace_spec(text.skip(1), pat, rep)
    }
}

/// Whether `pattern` occurs in `text` starting at position `i`.
fn matches_at(text: &str, pattern: &str, i: usize, n: usize, m: usize) -> (r: bool)
    requires
        n == text@.len(),
        m == pattern@.len(),
        i + m <= n,
    ensures
        r == (text@.subrange(i as int, i + m) == pattern@),
{
    let mut j: usize = 0;
    while j < m
        invariant
            j <= m,
            n == text@.len(),
            m == pattern@.len(),
            i + m <= n,
            forall|k: int| 0 <= k < j ==> text@[i + k] == pattern@[k],
        decreases m - j,
    {
        if text.get_char(i + j) != pattern.get_char(j) {
            proof {
                assert(text@.subrange(i as int, i + m)[j as int] != pattern@[j as int]);
            }
            return false;
        }
        j = j + 1;
    }
    proof {
        assert(text@.subrange(i as int, i + m) =~= pattern@);
    }
    true
}

/// Replaces every leftmost, non-overlapping occurrence of `pattern` in `text`
/// by `replacement`.
pub fn replace_all(text: &str, pattern: &str, replacement: &str) -> (r: String)
    requires
        pattern@.len() > 0,
    ensures
        r@ == replace_spec(text@, pattern@, replacement@),
{
    let n = text.unicode_len();
    let m = pattern.unicode_len();
    let mut out = String::new();
    let mut i: usize = 0;
    proof {
        assert(text@.skip(0) =~= text@);
        assert(out@ + replace_spec(text@, pattern@, replacement@)
            =~= replace_spec(text@, pattern@, replacement@));
    }
    while i < n
        invariant
            i <= n,
            n == text@.len(),
            m == pattern@.len(),
            m > 0,
            replace_spec(text@, pattern@, replacement@) == out@ + replace_spec(
                text@.skip(i as int),
                pattern@,
                replacement@,
            ),
        decreases n - i,
    {
        let ghost prev = out@;
        let ghost rest = text@.skip(i as int);
        if n - i >= m && matches_at(text, pattern, i, n, m) {
            out.append(replacement);
            proof {
                assert(rest.subrange(0, m as int) =~= text@.subrange(i as int, i + m));
                assert(rest.skip(m as int) =~= text@.skip(i + m));
                assert(replace_spec(rest, pattern@, replacement@) == replacement@
                    + replace_spec(text@.skip(i + m), pattern@, replacement@));
                assert(prev + (replacement@ + replace_spec(text@.skip(i + m), pattern@, replacement@))
                    =~= out@ + replace_spec(text@.skip(i + m), pattern@, replacement@));
            }
            i = i + m;
        } else {
            let c = text.substring_char(i, i + 1);
            out.append(c);
            proof {
                if rest.len() < m {
                    assert(replace_spec(rest, pattern@, replacement@) == rest);
                    assert(replace_spec(text@.skip(i + 1), pattern@, replacement@)
                        == text@.skip(i + 1));
                    assert(seq![rest[0]] + text@.skip(i + 1) =~= rest);
                } else {
                    assert(rest.subrange(0, m as int) =~= text@.subrange(i as int, i + m));
                    assert(rest.skip(1) =~= text@.skip(i + 1));
                }
                assert(c@ =~= seq![rest[0]]);
                assert(prev + (seq![rest[0]] + replace_spec(text@.skip(i + 1), pattern@, replacement@))
                    =~= out@ + replace_spec(text@.skip(i + 1), pattern@, replacement@));
            }
            i = i + 1;
        }
    }
    proof {
        assert(text@.skip(n as int) =~= Seq::<char>::empty());
        assert(replace_spec(Seq::<char>::empty(), pattern@, replacement@)
            == Seq::<char>::empty());
        assert(out@ + Seq::<char>::empty() =~= out@);
    }
    out
}

/// The characters after the last `:` of `s`, or `None` when `s` holds no `:`.
pub open spec fn after_last_colon(s: Seq<char>) -> Option<Seq<char>>
    decreases s.len()
{
    if s.len() == 0 {
        None
    } else if s.last() == ':' {
        Some(Seq::empty())
    } else {
        match after_last_colon(s.drop_last()) {
            Some(t) => Some(t.push(s.last())),
            None => None,
        }
    }
}

/// The runtime version encoded in a container image tag: the part after the
/// last `:`, or the literal fallback `latest` when the image has no tag.
pub open spec fn runtime_version_spec(image: Seq<char>) -> Seq<char> {
    match after_last_colon(image) {
        Some(t) => t,
        None => "latest"@,
    }
}

/// A string without any `:` has no part after a last colon.
pub proof fn lemma_after_last_colon_none(s: Seq<char>)
    requires
        forall|i: int| 0 <= i < s.len() ==> s[i] != ':',
    ensures
        after_last_colon(s) is None,
    decreases s.len(),
{
    if s.len() > 0 {
        lemma_after_last_colon_none(s.drop_last());
    }
}

/// When `j` is the last position holding a `:`, the part after the last colon
/// is exactly the suffix starting at `j + 1`.
pub proof fn lemma_after_last_colon_some(s: Seq<char>, j: int)
    requires
        0 <= j < s.len(),
        s[j] == ':',
        forall|k: int| j < k < s.len() ==> s[k] != ':',
    ensures
        after_last_colon(s) == Some(s.skip(j + 1)),
    decreases s.len(),
{
    if j == s.len() - 1 {
        assert(s.skip(j + 1) =~= Seq::<char>::empty());
    } else {
        lemma_after_last_colon_some(s.drop_last(), j);
        assert(s.drop_last().skip(j + 1).push(s.last()) =~= s.skip(j + 1));
    }
}

/// Extracts the runtime version from a container image string: the substring
/// after the last `:`, or `latest` when no `:` is present.
pub fn runtime_version(image: &str) -> (r: String)
    ensures
        r@ == runtime_version_spec(image@),
{
    let n = image.unicode_len();
    let mut pos: usize = 0;
    let mut found = false;
    let mut i: usize = 0;
    while i < n
        invariant
            i <= n,
            n == image@.len(),
            found ==> pos < i && image@[pos as int] == ':' && (forall|k: int|
                pos < k < i ==> image@[k] != ':'),
            !found ==> forall|k: int| 0 <= k < i ==> image@[k] != ':',
        decreases n - i,
    {
        if image.get_char(i) == ':' {
            pos = i;
            found = true;
        }
        i = i + 1;
    }
    if found {
        let r = image.substring_char(pos + 1, n);
        proof {
            lemma_after_last_colon_some(image@, pos as int);
            assert(image@.subrange(pos + 1, n as int) =~= image@.skip(pos + 1));
        }
        r.to_owned()
    } else {
        proof {
            lemma_after_last_colon_none(image@);
        }
        "latest".to_owned()
    }
}

/// An image string without any colon always resolves to the literal fallback
/// version `latest`.
pub proof fn lemma_runtime_version_fallback(image: Seq<char>)
    requires
        forall|i: int| 0 <= i < image.len() ==> image[i] != ':',
    ensures
        runtime_version_spec(image) == "latest"@,
{
    lemma_after_last_colon_none(image);
}

} // verus!
