//! Parsing of status lines and whole status reports.
//!
//! A well-formed line is `<2-char code><space><path>`: at least three
//! characters long, its third character a single separating space, and its
//! first two characters a code from the fixed set. The path is everything
//! after the separator, verbatim. A report is a sequence of lines separated
//! by `'\n'`; a trailing `'\n'` closes the last line and adds no empty one.

use vstd::prelude::*;

use crate::kind::ChangeKind;
use crate::kind::code_of;
use crate::kind::kind_of;
use crate::kind::lemma_code_round_trip;

verus! {

/// One file's change, as parsed from one status line.
#[derive(Clone, Debug, PartialEq, Eq)]
pub struct FileChange {
    /// The category of modification the line reports.
    pub kind: ChangeKind,
    /// The path after the separating space, verbatim.
    pub path: String,
}

/// The single error of the parser: a line too short to carry a code and a
/// separator, a missing separating space, or a code outside the fixed set.
/// Carries the offending line verbatim.
#[derive(Clone, Debug, PartialEq, Eq)]
pub struct MalformedStatusLine {
    /// The line on which the parse was aborted.
    pub line: String,
}

/// Whether one status line is well-formed: long enough, a recognized code
/// in its first two characters, and the separating space after them.
pub open spec fn line_ok(s: Seq<char>) -> bool {
    &&& s.len() >= 3
    &&& s[2] == ' '
    &&& kind_of(s[0], s[1]) is Some
}

/// The change kind a well-formed line reports.
pub open spec fn line_kind(s: Seq<char>) -> ChangeKind
    recommends
        line_ok(s),
{
    kind_of(s[0], s[1])->Some_0
}

/// The path a well-formed line reports: everything after the separator.
pub open spec fn line_path(s: Seq<char>) -> Seq<char>
    recommends
        line_ok(s),
{
    s.subrange(3, s.len() as int)
}

/// Parses one status line into a file change.
///
/// Succeeds exactly on well-formed lines, and then returns the kind the
/// code stands for and the path verbatim; otherwise reports the offending
/// line as malformed.
pub fn parse_line(line: &str) -> (r: Result<FileChange, MalformedStatusLine>)
    ensures
        r is Ok <==> line_ok(line@),
        r matches Ok(fc) ==> fc.kind == line_kind(line@) && fc.path@ == line_path(line@),
        r matches Err(e) ==> e.line@ == line@,
{
    let n = line.unicode_len();
    if n < 3 {
        return Err(MalformedStatusLine { line: line.to_owned() });
    }
    let c2 = line.get_char(2);
    if c2 != ' ' {
        return Err(MalformedStatusLine { line: line.to_owned() });
    }
    let c0 = line.get_char(0);
    let c1 = line.get_char(1);
    match ChangeKind::from_code(c0, c1) {
        Some(kind) => {
            let path = line.substring_char(3, n);
            Ok(FileChange { kind, path: path.to_owned() })
        },
        None => Err(MalformedStatusLine { line: line.to_owned() }),
    }
}

/// Whether every line of a report is well-formed.
pub open spec fn report_ok(lines: Seq<Seq<char>>) -> bool {
    forall|i: int| 0 <= i < lines.len() ==> line_ok(#[trigger] lines[i])
}

/// Parses a report given as its lines, in order.
///
/// Succeeds exactly when every line is well-formed, and then returns one
/// file change per line, in the same order. On the first malformed line the
/// whole parse is aborted, with no partial results, and the error carries
/// that line.
pub fn parse_lines(lines: &Vec<String>) -> (r: Result<Vec<FileChange>, MalformedStatusLine>)
    ensures
        r is Ok <==> (forall|i: int| 0 <= i < lines@.len() ==> line_ok(#[trigger] lines@[i]@)),
        r matches Ok(v) ==> {
            &&& v@.len() == lines@.len()
            &&& forall|i: int|
                0 <= i < lines@.len() ==> #[trigger] v@[i].kind == line_kind(lines@[i]@)
                    && v@[i].path@ == line_path(lines@[i]@)
        },
        r matches Err(e) ==> exists|i: int|
            {
                &&& 0 <= i < lines@.len()
                &&& !line_ok(#[trigger] lines@[i]@)
                &&& e.line@ == lines@[i]@
                &&& forall|j: int| 0 <= j < i ==> line_ok(#[trigger] lines@[j]@)
            },
{
    let mut out: Vec<FileChange> = Vec::new();
    let mut idx: usize = 0;
    while idx < lines.len()
        invariant
            idx <= lines@.len(),
            out@.len() == idx,
            forall|i: int| 0 <= i < idx ==> line_ok(#[trigger] lines@[i]@),
            forall|i: int|
                0 <= i < idx ==> #[trigger] out@[i].kind == line_kind(lines@[i]@)
                    && out@[i].path@ == line_path(lines@[i]@),
        decreases lines@.len() - idx,
    {
        match parse_line(lines[idx].as_str()) {
            Ok(fc) => out.push(fc),
            Err(e) => {
                return Err(e);
            },
        }
        idx += 1;
    }
    Ok(out)
}

/// A line built from any recognized code, the separating space and any path
/// is well-formed, and parses to exactly that code's change kind and that
/// path, for every variant and every path.
pub proof fn lemma_recognized_line(k: ChangeKind, path: Seq<char>)
    ensures
        line_ok(code_of(k) + seq![' '] + path),
        line_kind(code_of(k) + seq![' '] + path) == k,
        line_path(code_of(k) + seq![' '] + path) == path,
{
    let line = code_of(k) + seq![' '] + path;
    assert(line[0] == code_of(k)[0]);
    assert(line[1] == code_of(k)[1]);
    assert(line[2] == ' ');
    lemma_code_round_trip(k);
    assert(line_path(line) =~= path);
}

/// A line whose first two characters form a code outside the fixed set is
/// rejected, whatever stands after them: membership in the fixed set is the
/// only acceptance criterion for the code.
pub proof fn lemma_unrecognized_line(s: Seq<char>)
    requires
        s.len() >= 2,
        kind_of(s[0], s[1]) is None,
    ensures
        !line_ok(s),
{
}

/// The character index of the first `'\n'` in a text, or the text's length
/// when it holds none.
pub open spec fn first_newline(s: Seq<char>) -> int
    decreases s.len(),
{
    if s.len() == 0 {
        0
    } else if s[0] == '\n' {
        0
    } else {
        1 + first_newline(s.subrange(1, s.len() as int))
    }
}

/// `first_newline` is a position in the text: it lies between 0 and the
/// length, no `'\n'` stands before it, and it points at a `'\n'` whenever it
/// lies short of the length.
pub proof fn lemma_first_newline(s: Seq<char>)
    ensures
        0 <= first_newline(s) <= s.len(),
        forall|j: int| 0 <= j < first_newline(s) ==> s[j] != '\n',
        first_newline(s) < s.len() ==> s[first_newline(s)] == '\n',
    decreases s.len(),
{
    if s.len() == 0 {
    } else if s[0] == '\n' {
    } else {
        let t = s.subrange(1, s.len() as int);
        lemma_first_newline(t);
        assert forall|j: int| 0 <= j < first_newline(s) implies s[j] != '\n' by {
            if j >= 1 {
                assert(s[j] == t[j - 1]);
            }
        }
        if first_newline(s) < s.len() {
            assert(s[first_newline(s)] == t[first_newline(t)]);
        }
    }
}

/// A position before which no `'\n'` stands, and which is the end of the text
/// or a `'\n'`, is exactly `first_newline`.
proof fn lemma_first_newline_at(s: Seq<char>, k: int)
    requires
        0 <= k <= s.len(),
        forall|j: int| 0 <= j < k ==> s[j] != '\n',
        k < s.len() ==> s[k] == '\n',
    ensures
        first_newline(s) == k,
    decreases s.len(),
{
    if s.len() == 0 {
    } else if s[0] == '\n' {
    } else {
        let t = s.subrange(1, s.len() as int);
        assert forall|j: int| 0 <= j < k - 1 implies t[j] != '\n' by {
            assert(t[j] == s[j + 1]);
        }
        if k - 1 < t.len() {
            assert(t[k - 1] == s[k]);
        }
        lemma_first_newline_at(t, k - 1);
    }
}

/// The lines of a report's text: the maximal runs of characters between
/// `'\n'` characters. Empty text has no lines; a trailing `'\n'` closes the
/// last line and adds no empty one; every other `'\n'` separates two lines.
pub open spec fn lines_of(s: Seq<char>) -> Seq<Seq<char>>
    decreases s.len(),
    via lines_of_decreases
{
    if s.len() == 0 {
        Seq::empty()
    } else {
        let i = first_newline(s);
        if i == s.len() {
            seq![s.subrange(0, i)]
        } else {
            seq![s.subrange(0, i)] + lines_of(s.subrange(i + 1, s.len() as int))
        }
    }
}

#[via_fn]
proof fn lines_of_decreases(s: Seq<char>) {
    lemma_first_newline(s);
}

/// The views of a sequence of strings, line by line.
pub open spec fn views_of(v: Seq<String>) -> Seq<Seq<char>> {
    v.map_values(|s: String| s@)
}

/// Splits a report's text into its lines, as `lines_of` describes them.
pub fn split_lines(text: &str) -> (r: Vec<String>)
    ensures
        views_of(r@) == lines_of(text@),
{
    let n = text.unicode_len();
    let mut out: Vec<String> = Vec::new();
    let mut p: usize = 0;
    proof {
        assert(text@.subrange(0, n as int) =~= text@);
        assert(views_of(out@) =~= Seq::<Seq<char>>::empty());
        assert(views_of(out@) + lines_of(text@) =~= lines_of(text@));
    }
    while p < n
        invariant
            p <= n,
            n == text@.len(),
            lines_of(text@) == views_of(out@) + lines_of(text@.subrange(p as int, n as int)),
        decreases n - p,
    {
        let mut q: usize = p;
        while q < n && text.get_char(q) != '\n'
            invariant
                p <= q <= n,
                n == text@.len(),
                forall|j: int| p <= j < q ==> text@[j] != '\n',
            decreases n - q,
        {
            q += 1;
        }
        let line = text.substring_char(p, q);
        let ghost suffix = text@.subrange(p as int, n as int);
        let ghost old_views = views_of(out@);
        proof {
            assert forall|j: int| 0 <= j < q - p implies suffix[j] != '\n' by {
                assert(suffix[j] == text@[p + j]);
            }
            if q < n {
                assert(suffix[q - p] == text@[q as int]);
            }
            lemma_first_newline_at(suffix, q - p);
            assert(suffix.subrange(0, q - p) =~= line@);
        }
        out.push(line.to_owned());
        proof {
            assert(views_of(out@) =~= old_views.push(line@));
            assert(old_views + seq![line@] =~= views_of(out@));
        }
        if q < n {
            proof {
                assert(suffix.subrange(q - p + 1, suffix.len() as int) =~= text@.subrange(
                    q + 1,
                    n as int,
                ));
                assert(old_views + (seq![line@] + lines_of(text@.subrange(q + 1, n as int)))
                    =~= views_of(out@) + lines_of(text@.subrange(q + 1, n as int)));
            }
            p = q + 1;
        } else {
            proof {
                assert(text@.subrange(n as int, n as int) =~= Seq::<char>::empty());
                assert(old_views + seq![line@] =~= views_of(out@) + lines_of(
                    text@.subrange(n as int, n as int),
                ));
            }
            p = n;
        }
    }
    proof {
        assert(text@.subrange(n as int, n as int) =~= Seq::<char>::empty());
        assert(views_of(out@) + lines_of(text@.subrange(p as int, n as int)) =~= views_of(out@));
    }
    out
}

/// Parses a whole status report given as raw text.
///
/// The text is split into lines at `'\n'`; empty text has no lines and
/// parses into an empty sequence of file changes. Succeeds exactly when
/// every line is well-formed, and then returns one file change per line, in
/// the order of the lines. On the first malformed line the whole parse is
/// aborted, with no partial results, and the error carries that line.
pub fn parse_report(text: &str) -> (r: Result<Vec<FileChange>, MalformedStatusLine>)
    ensures
        r is Ok <==> report_ok(lines_of(text@)),
        r matches Ok(v) ==> {
            &&& v@.len() == lines_of(text@).len()
            &&& forall|i: int|
                0 <= i < lines_of(text@).len() ==> #[trigger] v@[i].kind == line_kind(
                    lines_of(text@)[i],
                ) && v@[i].path@ == line_path(lines_of(text@)[i])
        },
        r matches Err(e) ==> exists|i: int|
            {
                &&& 0 <= i < lines_of(text@).len()
                &&& !line_ok(#[trigger] lines_of(text@)[i])
                &&& e.line@ == lines_of(text@)[i]
                &&& forall|j: int| 0 <= j < i ==> line_ok(lines_of(text@)[j])
            },
{
    let ls = split_lines(text);
    proof {
        assert forall|i: int| 0 <= i < ls@.len() implies #[trigger] ls@[i]@ == lines_of(
            text@,
        )[i] by {
            assert(views_of(ls@)[i] == ls@[i]@);
        }
    }
    parse_lines(&ls)
}

} // verus!
