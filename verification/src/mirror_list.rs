//! Parsing a mirror-list body into an ordered sequence of candidate mirrors.
//!
//! The body is newline-separated text. A line starting with `#` is
//! metadata, surfaced as a diagnostic and never treated as a URL; a line is
//! a candidate exactly when it starts with an HTTP(S) scheme prefix; every
//! other line is discarded silently. The order of the candidates is the
//! order their lines appeared in the body: servers may pre-rank mirrors, so
//! the engine must not reorder them. A body without a single candidate is an
//! explicit failure, not a silent no-op.

use vstd::prelude::*;
use vstd::string::StrSliceExecFns;

use crate::errors::MirrorListError;
use crate::mirror::Mirror;

verus! {

/// The lines of `s`, split at every newline character, as `str::split`
/// yields them: an empty text is one empty line, and every newline ends the
/// line before it and opens a new one.
#[verifier::opaque]
pub open spec fn split_lines(s: Seq<char>) -> Seq<Seq<char>>
    decreases s.len(),
{
    if s.len() == 0 {
        seq![Seq::<char>::empty()]
    } else if s[0] == '\n' {
        seq![Seq::<char>::empty()] + split_lines(s.drop_first())
    } else {
        let rest = split_lines(s.drop_first());
        seq![seq![s[0]] + rest[0]] + rest.drop_first()
    }
}

/// A candidate line: it starts with the HTTP(S) scheme prefix.
pub open spec fn is_mirror_line(l: Seq<char>) -> bool {
    l.len() >= 4 && l[0] == 'h' && l[1] == 't' && l[2] == 't' && l[3] == 'p'
}

/// A metadata line: it starts with the comment marker.
pub open spec fn is_comment_line(l: Seq<char>) -> bool {
    l.len() >= 1 && l[0] == '#'
}

pub open spec fn mirror_pred() -> spec_fn(Seq<char>) -> bool {
    |l: Seq<char>| is_mirror_line(l)
}

pub open spec fn comment_pred() -> spec_fn(Seq<char>) -> bool {
    |l: Seq<char>| is_comment_line(l)
}

/// Exactly the lines of `body` that start with an HTTP(S) scheme prefix, in
/// their original order.
pub open spec fn mirror_lines(body: Seq<char>) -> Seq<Seq<char>> {
    split_lines(body).filter(mirror_pred())
}

/// Exactly the comment lines of `body`, in their original order.
pub open spec fn comment_lines(body: Seq<char>) -> Seq<Seq<char>> {
    split_lines(body).filter(comment_pred())
}

/// The base URLs of a sequence of mirrors, in order.
pub open spec fn base_urls(ms: Seq<Mirror>) -> Seq<Seq<char>> {
    ms.map_values(|m: Mirror| m.base_url@)
}

/// The character sequences of a sequence of strings, in order.
pub open spec fn string_views(ss: Seq<String>) -> Seq<Seq<char>> {
    ss.map_values(|s: String| s@)
}

/// A text without a newline is a single line: itself.
pub proof fn lemma_split_lines_single(s: Seq<char>)
    requires
        forall|i: int| 0 <= i < s.len() ==> s[i] != '\n',
    ensures
        split_lines(s) == seq![s],
    decreases s.len(),
{
    reveal_with_fuel(split_lines, 1);
    if s.len() == 0 {
        assert(s =~= Seq::<char>::empty());
        assert(split_lines(s) =~= seq![s]);
    } else {
        lemma_split_lines_single(s.drop_first());
        let rest = split_lines(s.drop_first());
        assert(rest == seq![s.drop_first()]);
        assert(seq![s[0]] + rest[0] =~= s);
        assert(rest.drop_first() =~= Seq::<Seq<char>>::empty());
        assert(split_lines(s) =~= seq![s]);
    }
}

/// Splitting at the first newline: the text before it is the first line,
/// and the rest of the lines are the lines of the text after it.
pub proof fn lemma_split_lines_break(s: Seq<char>, k: int)
    requires
        0 <= k < s.len(),
        s[k] == '\n',
        forall|j: int| 0 <= j < k ==> s[j] != '\n',
    ensures
        split_lines(s) == seq![s.take(k)] + split_lines(s.skip(k + 1)),
    decreases k,
{
    reveal_with_fuel(split_lines, 1);
    if k == 0 {
        assert(s.take(0) =~= Seq::<char>::empty());
        assert(s.skip(1) =~= s.drop_first());
        assert(seq![s.take(0)] =~= seq![Seq::<char>::empty()]);
        assert(split_lines(s) =~= seq![s.take(0)] + split_lines(s.skip(1)));
    } else {
        let t = s.drop_first();
        assert(t[k - 1] == '\n');
        assert forall|j: int| 0 <= j < k - 1 implies t[j] != '\n' by {
            assert(t[j] == s[j + 1]);
        }
        lemma_split_lines_break(t, k - 1);
        let rest = split_lines(t);
        assert(rest[0] == t.take(k - 1));
        assert(rest.drop_first() =~= split_lines(t.skip(k)));
        assert(seq![s[0]] + t.take(k - 1) =~= s.take(k));
        assert(t.skip(k) =~= s.skip(k + 1));
        assert(split_lines(s) =~= seq![s.take(k)] + split_lines(s.skip(k + 1)));
    }
}

/// Filtering a one-line sequence keeps or drops that line.
proof fn lemma_filter_singleton(x: Seq<char>, p: spec_fn(Seq<char>) -> bool)
    ensures
        p(x) ==> seq![x].filter(p) == seq![x],
        !p(x) ==> seq![x].filter(p) == Seq::<Seq<char>>::empty(),
{
    reveal_with_fuel(Seq::<Seq<char>>::filter, 2);
    let s = seq![x];
    assert(s.drop_last() =~= Seq::<Seq<char>>::empty());
    assert(s.last() == x);
    if p(x) {
        assert(s.filter(p) =~= seq![x]);
    } else {
        assert(s.filter(p) =~= Seq::<Seq<char>>::empty());
    }
}

/// Whether the line `body[start..end]` starts with the HTTP(S) scheme prefix.
fn line_is_mirror(body: &str, start: usize, end: usize) -> (r: bool)
    requires
        start <= end,
        end as int <= body@.len(),
    ensures
        r == is_mirror_line(body@.subrange(start as int, end as int)),
{
    let ghost line = body@.subrange(start as int, end as int);
    if end - start < 4 {
        return false;
    }
    if body.get_char(start) != 'h' {
        return false;
    }
    if body.get_char(start + 1) != 't' {
        return false;
    }
    if body.get_char(start + 2) != 't' {
        return false;
    }
    let r = body.get_char(start + 3) == 'p';
    proof {
        assert(line[3] == body@[start + 3]);
    }
    r
}

/// Classify the line `body[start..end]` and append it to the candidates or
/// the comments, or drop it.
#[verifier::spinoff_prover]
fn take_line(body: &str, start: usize, end: usize, mirrors: &mut Vec<Mirror>, comments: &mut Vec<String>)
    requires
        start <= end,
        end as int <= body@.len(),
    ensures
        ({
            let line = body@.subrange(start as int, end as int);
            &&& base_urls(final(mirrors)@) == if is_mirror_line(line) {
                base_urls(old(mirrors)@).push(line)
            } else {
                base_urls(old(mirrors)@)
            }
            &&& string_views(final(comments)@) == if is_comment_line(line) {
                string_views(old(comments)@).push(line)
            } else {
                string_views(old(comments)@)
            }
            &&& (forall|i: int| 0 <= i < old(mirrors)@.len() ==> (#[trigger] old(
                mirrors,
            )@[i]).wf()) ==> (forall|i: int|
                0 <= i < final(mirrors)@.len() ==> (#[trigger] final(mirrors)@[i]).wf())
        }),
{
    let ghost line = body@.subrange(start as int, end as int);
    if line_is_mirror(body, start, end) {
        let text = body.substring_char(start, end);
        let m = Mirror::from_base_url(text.to_owned());
        mirrors.push(m);
        proof {
            assert(!is_comment_line(line));
            assert(base_urls(mirrors@) =~= base_urls(old(mirrors)@).push(line));
        }
    } else if end - start >= 1 && body.get_char(start) == '#' {
        let text = body.substring_char(start, end);
        comments.push(text.to_owned());
        proof {
            assert(string_views(comments@) =~= string_views(old(comments)@).push(line));
        }
    } else {
        proof {
            if end - start >= 1 {
                assert(line[0] == body@[start as int]);
            }
            assert(!is_comment_line(line));
        }
    }
}

/// Everything one pass over a mirror-list body yields: the candidate
/// mirrors, in order, and the comment lines, in order, for diagnostics.
pub struct MirrorListScan {
    pub mirrors: Vec<Mirror>,
    pub comments: Vec<String>,
}

/// At a newline at `end`, with no newline since `start`: the lines of the
/// suffix from `start` are the line `[start..end]` followed by the lines of
/// the suffix from `end + 1`, and the filtered views distribute over that.
#[verifier::spinoff_prover]
proof fn lemma_line_step(body: Seq<char>, start: int, end: int, ms: Seq<Mirror>, cs: Seq<String>)
    requires
        0 <= start <= end < body.len(),
        body[end] == '\n',
        forall|k: int| start <= k < end ==> body[k] != '\n',
        mirror_lines(body) == base_urls(ms) + mirror_lines(body.skip(start)),
        comment_lines(body) == string_views(cs) + comment_lines(body.skip(start)),
    ensures
        ({
            let line = body.subrange(start, end);
            &&& mirror_lines(body) == (if is_mirror_line(line) {
                base_urls(ms).push(line)
            } else {
                base_urls(ms)
            }) + mirror_lines(body.skip(end + 1))
            &&& comment_lines(body) == (if is_comment_line(line) {
                string_views(cs).push(line)
            } else {
                string_views(cs)
            }) + comment_lines(body.skip(end + 1))
        }),
{
    let suffix = body.skip(start);
    let rel = end - start;
    assert(suffix[rel] == '\n');
    assert forall|j: int| 0 <= j < rel implies suffix[j] != '\n' by {
        assert(suffix[j] == body[start + j]);
    }
    lemma_split_lines_break(suffix, rel);
    let line = body.subrange(start, end);
    assert(suffix.take(rel) =~= line);
    assert(suffix.skip(rel + 1) =~= body.skip(end + 1));
    lemma_filter_singleton(line, mirror_pred());
    lemma_filter_singleton(line, comment_pred());
    Seq::<Seq<char>>::filter_distributes_over_add(
        seq![line],
        split_lines(body.skip(end + 1)),
        mirror_pred(),
    );
    Seq::<Seq<char>>::filter_distributes_over_add(
        seq![line],
        split_lines(body.skip(end + 1)),
        comment_pred(),
    );
    if is_mirror_line(line) {
        assert(base_urls(ms) + (seq![line] + mirror_lines(body.skip(end + 1))) =~= base_urls(
            ms,
        ).push(line) + mirror_lines(body.skip(end + 1)));
    } else {
        assert(base_urls(ms) + (Seq::<Seq<char>>::empty() + mirror_lines(body.skip(end + 1)))
            =~= base_urls(ms) + mirror_lines(body.skip(end + 1)));
    }
    if is_comment_line(line) {
        assert(string_views(cs) + (seq![line] + comment_lines(body.skip(end + 1))) =~= string_views(
            cs,
        ).push(line) + comment_lines(body.skip(end + 1)));
    } else {
        assert(string_views(cs) + (Seq::<Seq<char>>::empty() + comment_lines(body.skip(end + 1)))
            =~= string_views(cs) + comment_lines(body.skip(end + 1)));
    }
}

/// Past the last newline, the suffix from `start` is one final line, and
/// the filtered views close with it.
#[verifier::spinoff_prover]
proof fn lemma_last_line(body: Seq<char>, start: int, ms: Seq<Mirror>, cs: Seq<String>)
    requires
        0 <= start <= body.len(),
        forall|k: int| start <= k < body.len() ==> body[k] != '\n',
        mirror_lines(body) == base_urls(ms) + mirror_lines(body.skip(start)),
        comment_lines(body) == string_views(cs) + comment_lines(body.skip(start)),
    ensures
        ({
            let line = body.subrange(start, body.len() as int);
            &&& mirror_lines(body) == if is_mirror_line(line) {
                base_urls(ms).push(line)
            } else {
                base_urls(ms)
            }
            &&& comment_lines(body) == if is_comment_line(line) {
                string_views(cs).push(line)
            } else {
                string_views(cs)
            }
        }),
{
    let suffix = body.skip(start);
    let line = body.subrange(start, body.len() as int);
    assert(suffix =~= line);
    assert forall|j: int| 0 <= j < suffix.len() implies suffix[j] != '\n' by {
        assert(suffix[j] == body[start + j]);
    }
    lemma_split_lines_single(suffix);
    lemma_filter_singleton(line, mirror_pred());
    lemma_filter_singleton(line, comment_pred());
    assert(split_lines(suffix) == seq![line]);
}

/// Scan a mirror-list body. The candidates are exactly the lines starting
/// with an HTTP(S) scheme prefix, in their original order, each carrying its
/// derived host; the comments are exactly the lines starting with `#`, in
/// their original order. Every other line is dropped.
#[verifier::spinoff_prover]
pub fn scan_mirror_list(body: &str) -> (r: MirrorListScan)
    ensures
        base_urls(r.mirrors@) == mirror_lines(body@),
        string_views(r.comments@) == comment_lines(body@),
        forall|i: int| 0 <= i < r.mirrors@.len() ==> (#[trigger] r.mirrors@[i]).wf(),
{
    let n = body.unicode_len();
    let mut mirrors: Vec<Mirror> = Vec::new();
    let mut comments: Vec<String> = Vec::new();
    let mut start: usize = 0;
    let mut i: usize = 0;
    proof {
        assert(body@.skip(0) =~= body@);
        assert(base_urls(mirrors@) + mirror_lines(body@.skip(0)) =~= mirror_lines(body@));
        assert(string_views(comments@) + comment_lines(body@.skip(0)) =~= comment_lines(body@));
    }
    while i < n
        invariant
            n == body@.len(),
            start <= i <= n,
            forall|k: int| start <= k < i ==> body@[k] != '\n',
            mirror_lines(body@) == base_urls(mirrors@) + mirror_lines(body@.skip(start as int)),
            comment_lines(body@) == string_views(comments@) + comment_lines(
                body@.skip(start as int),
            ),
            forall|j: int| 0 <= j < mirrors@.len() ==> (#[trigger] mirrors@[j]).wf(),
        decreases n - i,
    {
        let c = body.get_char(i);
        if c == '\n' {
            proof {
                lemma_line_step(body@, start as int, i as int, mirrors@, comments@);
            }
            take_line(body, start, i, &mut mirrors, &mut comments);
            start = i + 1;
        }
        i = i + 1;
    }
    proof {
        lemma_last_line(body@, start as int, mirrors@, comments@);
    }
    take_line(body, start, n, &mut mirrors, &mut comments);
    MirrorListScan { mirrors, comments }
}

/// Parse a mirror-list body into its ordered candidate mirrors, or fail
/// when it names none: an empty candidate list is an explicit failure, not
/// a run over zero mirrors.
#[verifier::spinoff_prover]
pub fn parse_mirror_list(body: &str) -> (r: Result<MirrorListScan, MirrorListError>)
    ensures
        r is Err <==> mirror_lines(body@).len() == 0,
        match r {
            Ok(scan) => {
                &&& scan.mirrors@.len() > 0
                &&& base_urls(scan.mirrors@) == mirror_lines(body@)
                &&& string_views(scan.comments@) == comment_lines(body@)
                &&& forall|i: int|
                    0 <= i < scan.mirrors@.len() ==> (#[trigger] scan.mirrors@[i]).wf()
            },
            Err(e) => e == MirrorListError::NoMirrorsAvailable,
        },
{
    let scan = scan_mirror_list(body);
    proof {
        assert(base_urls(scan.mirrors@).len() == scan.mirrors@.len());
    }
    if scan.mirrors.len() == 0 {
        Err(MirrorListError::NoMirrorsAvailable)
    } else {
        Ok(scan)
    }
}

} // verus!
