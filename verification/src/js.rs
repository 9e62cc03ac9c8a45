//! JavaScript asset concatenation: selects the `.js` files from a list,
//! reads them under the conventional `JavaScript` directory, strips
//! line-comment lines, prefixes each file's block with a header comment
//! naming it, and appends a blank separator line after each block. The
//! output is always rewritten.

use vstd::prelude::*;
use vstd::string::*;

verus! {

/// The whitespace characters trimmed from a line's start before the comment
/// marker is looked for.
pub open spec fn is_ws(c: char) -> bool {
    c == ' ' || c == '\t' || c == '\r'
}

/// The line with its leading whitespace removed.
pub open spec fn trim_start_spec(line: Seq<char>) -> Seq<char>
    decreases line.len()
{
    if line.len() > 0 && is_ws(line[0]) {
        trim_start_spec(line.drop_first())
    } else {
        line
    }
}

/// Whether a line is a line comment: after trimming, it begins with `//`.
pub open spec fn is_comment_line_spec(line: Seq<char>) -> bool {
    let t = trim_start_spec(line);
    t.len() >= 2 && t[0] == '/' && t[1] == '/'
}

/// The index of the first newline of `s`, or `s.len()` when it has none.
pub open spec fn first_newline(s: Seq<char>) -> nat
    decreases s.len()
{
    if s.len() == 0 {
        0
    } else if s[0] == '\n' {
        0
    } else {
        1 + first_newline(s.drop_first())
    }
}

/// `first_newline` is pinned by its characteristic facts: no newline before
/// `j`, and a newline (or the end) at `j`.
pub proof fn lemma_first_newline_at(s: Seq<char>, j: int)
    requires
        0 <= j <= s.len(),
        forall|k: int| 0 <= k < j ==> s[k] != '\n',
        j < s.len() ==> s[j] == '\n',
    ensures
        first_newline(s) == j,
    decreases s.len(),
{
    if j == 0 {
        if s.len() > 0 {
            assert(s[0] == '\n');
        }
    } else {
        assert(s[0] != '\n');
        lemma_first_newline_at(s.drop_first(), j - 1);
    }
}

/// What one segment (the text between newlines) contributes to the merged
/// output: nothing when it is a comment line, else the segment and a
/// newline.
pub open spec fn segment_out(line: Seq<char>) -> Seq<char> {
    if is_comment_line_spec(line) {
        Seq::empty()
    } else {
        line + "\n"@
    }
}

/// The comment-stripped content: `s` split at every newline, each non-comment
/// segment emitted with a newline after it, comment segments dropped.
pub open spec fn strip_js_spec(s: Seq<char>) -> Seq<char>
    decreases s.len()
{
    let j = first_newline(s);
    if j >= s.len() {
        segment_out(s)
    } else {
        segment_out(s.subrange(0, j as int)) + strip_js_spec(s.skip(j + 1 as int))
    }
}

/// The header comment naming a merged source file.
pub open spec fn js_header_spec(name: Seq<char>) -> Seq<char> {
    "// "@ + name + "\n"@
}

/// The merged output: for each file in order, its header comment, its
/// comment-stripped content, and a blank separator line.
pub open spec fn merge_js_spec(names: Seq<Seq<char>>, contents: Seq<Seq<char>>) -> Seq<char>
    decreases names.len()
{
    if names.len() == 0 {
        Seq::empty()
    } else {
        js_header_spec(names[0]) + strip_js_spec(contents[0]) + "\n"@ + merge_js_spec(
            names.drop_first(),
            contents.drop_first(),
        )
    }
}

/// Whether a file name ends in `.js`.
pub open spec fn is_js_name(name: Seq<char>) -> bool {
    name.len() >= 3 && name.subrange(name.len() - 3, name.len() as int) == ".js"@
}

/// The file names that take part in a merge: those ending in `.js`, in their
/// given order.
pub open spec fn selected_js_spec(files: Seq<Seq<char>>) -> Seq<Seq<char>>
    decreases files.len()
{
    if files.len() == 0 {
        Seq::empty()
    } else if is_js_name(files[0]) {
        seq![files[0]] + selected_js_spec(files.drop_first())
    } else {
        selected_js_spec(files.drop_first())
    }
}

/// Decides whether a file name ends in `.js`.
pub fn is_js_file(name: &str) -> (r: bool)
    ensures
        r == is_js_name(name@),
{
    proof {
        reveal_strlit(".js");
    }
    let n = name.unicode_len();
    if n < 3 {
        return false;
    }
    let a = name.get_char(n - 3);
    let b = name.get_char(n - 2);
    let c = name.get_char(n - 1);
    if a == '.' && b == 'j' && c == 's' {
        proof {
            assert(name@.subrange(name@.len() - 3, name@.len() as int) =~= ".js"@);
        }
        true
    } else {
        proof {
            if name@.subrange(name@.len() - 3, name@.len() as int) == ".js"@ {
                assert(name@.subrange(name@.len() - 3, name@.len() as int)[0] == '.');
                assert(name@.subrange(name@.len() - 3, name@.len() as int)[1] == 'j');
                assert(name@.subrange(name@.len() - 3, name@.len() as int)[2] == 's');
            }
        }
        false
    }
}

/// Picks, in order, the file names that end in `.js`.
pub fn selected_js_files(files: &Vec<String>) -> (r: Vec<String>)
    ensures
        r.deep_view() == selected_js_spec(files.deep_view()),
{
    let ghost dv = files.deep_view();
    let mut out: Vec<String> = Vec::new();
    let mut i: usize = 0;
    proof {
        assert(dv.skip(0) =~= dv);
        assert(out.deep_view() + selected_js_spec(dv) =~= selected_js_spec(dv));
    }
    while i < files.len()
        invariant
            i <= files@.len(),
            dv == files.deep_view(),
            dv.len() == files@.len(),
            out.deep_view() + selected_js_spec(dv.skip(i as int)) == selected_js_spec(dv),
        decreases files@.len() - i,
    {
        let ghost prev = out.deep_view();
        let ghost rest = dv.skip(i as int);
        proof {
            assert(rest[0] == dv[i as int]);
            assert(dv[i as int] == files@[i as int]@);
            assert(rest.drop_first() =~= dv.skip(i + 1));
        }
        if is_js_file(files[i].as_str()) {
            out.push(files[i].clone());
            proof {
                assert(selected_js_spec(rest) == seq![files@[i as int]@] + selected_js_spec(
                    dv.skip(i + 1),
                ));
                assert(out.deep_view() =~= prev.push(files@[i as int]@));
                assert(out.deep_view() + selected_js_spec(dv.skip(i + 1)) =~= prev
                    + selected_js_spec(rest));
            }
        } else {
            proof {
                assert(selected_js_spec(rest) == selected_js_spec(dv.skip(i + 1)));
            }
        }
        i = i + 1;
    }
    proof {
        assert(dv.skip(dv.len() as int) =~= Seq::<Seq<char>>::empty());
        assert(out.deep_view() + selected_js_spec(dv.skip(dv.len() as int)) =~= out.deep_view());
    }
    out
}

/// The conventional location a merged JavaScript source is read from.
pub fn js_file_path(name: &str) -> (r: String)
    ensures
        r@ == "JavaScript/"@ + name@,
{
    let mut out = "JavaScript/".to_owned();
    out.append(name);
    out
}

/// Decides whether a line is a line comment: leading whitespace trimmed, it
/// begins with `//`.
pub fn is_comment_line(line: &str) -> (r: bool)
    ensures
        r == is_comment_line_spec(line@),
{
    let n = line.unicode_len();
    let mut i: usize = 0;
    let mut result = false;
    proof {
        assert(line@.skip(0) =~= line@);
    }
    loop
        invariant_except_break
            i <= n,
            n == line@.len(),
            trim_start_spec(line@) == trim_start_spec(line@.skip(i as int)),
        ensures
            result == is_comment_line_spec(line@),
        decreases n - i,
    {
        if i >= n {
            proof {
                assert(line@.skip(i as int) =~= Seq::<char>::empty());
                assert(trim_start_spec(line@) == Seq::<char>::empty());
            }
            result = false;
            break;
        }
        let c = line.get_char(i);
        proof {
            assert(line@.skip(i as int)[0] == line@[i as int]);
        }
        if c == ' ' || c == '\t' || c == '\r' {
            proof {
                assert(line@.skip(i as int).drop_first() =~= line@.skip(i + 1));
            }
            i = i + 1;
        } else {
            proof {
                assert(trim_start_spec(line@.skip(i as int)) == line@.skip(i as int));
            }
            if c == '/' {
                if i + 1 < n {
                    let c2 = line.get_char(i + 1);
                    proof {
                        assert(line@.skip(i as int)[1] == line@[i + 1]);
                    }
                    result = c2 == '/';
                } else {
                    proof {
                        assert(line@.skip(i as int).len() < 2);
                    }
                    result = false;
                }
            } else {
                result = false;
            }
            break;
        }
    }
    result
}

/// Strips every line-comment line out of one file's content: the content is
/// split at newlines, each non-comment segment is emitted followed by a
/// newline, and comment segments are dropped.
pub fn strip_js_comments(content: &str) -> (r: String)
    ensures
        r@ == strip_js_spec(content@),
{
    let n = content.unicode_len();
    let mut out = String::new();
    let mut i: usize = 0;
    proof {
        assert(content@.skip(0) =~= content@);
        assert(out@ + strip_js_spec(content@) =~= strip_js_spec(content@));
    }
    loop
        invariant_except_break
            i <= n,
            n == content@.len(),
            out@ + strip_js_spec(content@.skip(i as int)) == strip_js_spec(content@),
        ensures
            out@ == strip_js_spec(content@),
        decreases n - i,
    {
        let ghost prev = out@;
        let ghost rest = content@.skip(i as int);
        let mut j: usize = i;
        while j < n
            invariant
                i <= j <= n,
                n == content@.len(),
                forall|k: int| i <= k < j ==> content@[k] != '\n',
            ensures
                i <= j <= n,
                n == content@.len(),
                forall|k: int| i <= k < j ==> content@[k] != '\n',
                j < n ==> content@[j as int] == '\n',
            decreases n - j,
        {
            if content.get_char(j) == '\n' {
                break;
            }
            j = j + 1;
        }
        let newline_found = j < n;
        proof {
            assert(forall|k: int| 0 <= k < j - i ==> rest[k] == content@[i + k] && rest[k] != '\n');
            if newline_found {
                assert(rest[j - i] == content@[j as int]);
            }
            lemma_first_newline_at(rest, j - i);
        }
        let line = content.substring_char(i, j);
        proof {
            assert(line@ =~= rest.subrange(0, j - i));
        }
        let drop = is_comment_line(line);
        if !drop {
            out.append(line);
            out.append("\n");
        }
        if !newline_found {
            proof {
                assert(rest.subrange(0, j - i) =~= rest);
                assert(strip_js_spec(rest) == segment_out(rest));
                if drop {
                    assert(out@ =~= prev + segment_out(rest));
                } else {
                    assert(out@ =~= prev + segment_out(rest));
                }
                assert(out@ == strip_js_spec(content@));
            }
            break;
        }
        proof {
            assert(rest.skip(j - i + 1) =~= content@.skip(j + 1));
            assert(strip_js_spec(rest) == segment_out(rest.subrange(0, j - i)) + strip_js_spec(
                content@.skip(j + 1),
            ));
            assert(out@ + strip_js_spec(content@.skip(j + 1)) =~= prev + strip_js_spec(rest));
        }
        i = j + 1;
    }
    out
}

/// Merges the selected JavaScript sources: for each file, a header comment
/// naming it, its comment-stripped content, and a blank separator line. The
/// two lists run in parallel: one content per file name.
pub fn merge_js_files(file_names: &Vec<String>, contents: &Vec<String>) -> (r: String)
    requires
        file_names@.len() == contents@.len(),
    ensures
        r@ == merge_js_spec(file_names.deep_view(), contents.deep_view()),
{
    let ghost ndv = file_names.deep_view();
    let ghost cdv = contents.deep_view();
    let mut out = String::new();
    let mut i: usize = 0;
    proof {
        assert(ndv.skip(0) =~= ndv);
        assert(cdv.skip(0) =~= cdv);
        assert(out@ + merge_js_spec(ndv, cdv) =~= merge_js_spec(ndv, cdv));
    }
    while i < file_names.len()
        invariant
            i <= file_names@.len(),
            file_names@.len() == contents@.len(),
            ndv == file_names.deep_view(),
            cdv == contents.deep_view(),
            ndv.len() == file_names@.len(),
            cdv.len() == contents@.len(),
            out@ + merge_js_spec(ndv.skip(i as int), cdv.skip(i as int)) == merge_js_spec(
                ndv,
                cdv,
            ),
        decreases file_names@.len() - i,
    {
        let ghost prev = out@;
        let ghost nrest = ndv.skip(i as int);
        let ghost crest = cdv.skip(i as int);
        out.append("// ");
        out.append(file_names[i].as_str());
        out.append("\n");
        let stripped = strip_js_comments(contents[i].as_str());
        out.append(stripped.as_str());
        out.append("\n");
        proof {
            assert(nrest[0] == ndv[i as int]);
            assert(crest[0] == cdv[i as int]);
            assert(ndv[i as int] == file_names@[i as int]@);
            assert(cdv[i as int] == contents@[i as int]@);
            assert(nrest.drop_first() =~= ndv.skip(i + 1));
            assert(crest.drop_first() =~= cdv.skip(i + 1));
            assert(merge_js_spec(nrest, crest) == js_header_spec(ndv[i as int]) + strip_js_spec(
                cdv[i as int],
            ) + "\n"@ + merge_js_spec(ndv.skip(i + 1), cdv.skip(i + 1)));
            assert(out@ + merge_js_spec(ndv.skip(i + 1), cdv.skip(i + 1)) =~= prev + merge_js_spec(
                nrest,
                crest,
            ));
        }
        i = i + 1;
    }
    proof {
        assert(ndv.skip(ndv.len() as int) =~= Seq::<Seq<char>>::empty());
        assert(cdv.skip(cdv.len() as int) =~= Seq::<Seq<char>>::empty());
        assert(out@ + merge_js_spec(ndv.skip(ndv.len() as int), cdv.skip(cdv.len() as int))
            =~= out@);
    }
    out
}

/// A merged file whose content is one comment-only line followed by one data
/// line contributes exactly its header comment and the data line: the
/// comment line never reaches the output.
pub proof fn lemma_comment_line_dropped(name: Seq<char>, c: Seq<char>, d: Seq<char>)
    requires
        is_comment_line_spec(c),
        !is_comment_line_spec(d),
        forall|k: int| 0 <= k < c.len() ==> c[k] != '\n',
        forall|k: int| 0 <= k < d.len() ==> d[k] != '\n',
    ensures
        merge_js_spec(seq![name], seq![c + "\n"@ + d]) == js_header_spec(name) + d + "\n"@
            + "\n"@,
{
    reveal_strlit("\n");
    let s = c + "\n"@ + d;
    assert(s[c.len() as int] == '\n');
    assert(forall|k: int| 0 <= k < c.len() ==> s[k] == c[k] && s[k] != '\n');
    lemma_first_newline_at(s, c.len() as int);
    assert(s.subrange(0, c.len() as int) =~= c);
    assert(s.skip(c.len() + 1 as int) =~= d);
    lemma_first_newline_at(d, d.len() as int);
    assert(strip_js_spec(d) == segment_out(d));
    assert(strip_js_spec(s) == segment_out(c) + strip_js_spec(d));
    assert(segment_out(c) =~= Seq::<char>::empty());
    assert(strip_js_spec(s) =~= d + "\n"@);
    let names = seq![name];
    let conts = seq![s];
    assert(names.drop_first() =~= Seq::<Seq<char>>::empty());
    assert(conts.drop_first() =~= Seq::<Seq<char>>::empty());
    assert(merge_js_spec(names.drop_first(), conts.drop_first()) == Seq::<char>::empty());
    assert(merge_js_spec(names, conts) == js_header_spec(name) + strip_js_spec(s) + "\n"@
        + Seq::<char>::empty());
    assert(js_header_spec(name) + strip_js_spec(s) + "\n"@ + Seq::<char>::empty()
        =~= js_header_spec(name) + (d + "\n"@) + "\n"@);
    assert(js_header_spec(name) + (d + "\n"@) + "\n"@ =~= js_header_spec(name) + d + "\n"@
        + "\n"@);
}

} // verus!
