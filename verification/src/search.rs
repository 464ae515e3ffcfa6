//! The line search engine.
//!
//! [`search`] scans a document line by line for a query string and returns
//! the matching lines, in document order and with their original text.
//! [`search_case_insensitive`] compares after lower-casing both sides (the
//! full case mapping of `str::to_lowercase`, reasoned about through the name
//! [`lower_of`]), but still returns the original lines.  [`count`] renders
//! the number of results in decimal.
//!
//! Lines are the runs of characters between newline characters; a final line
//! without a trailing newline is included, and a carriage return immediately
//! before a newline is not part of its line.  A line matches when it contains
//! the query as a contiguous substring, so an empty query matches every line.

use vstd::prelude::*;
use vstd::seq_lib::group_seq_properties;
use vstd::string::StrSliceExecFns;

use crate::chars::chars_of;
use crate::chars::lower_of;
use crate::chars::lower_str;
use crate::digits::dec_digits;
use crate::digits::usize_to_string;

verus! {

/// The position of the first newline at or after `i`, or `s.len()` if there
/// is none.
pub open spec fn find_nl(s: Seq<char>, i: int) -> int
    recommends
        0 <= i <= s.len(),
    decreases s.len() - i,
{
    if !(0 <= i < s.len()) {
        s.len() as int
    } else if s[i] == '\n' {
        i
    } else {
        find_nl(s, i + 1)
    }
}

/// `find_nl` stays within bounds, lands on a newline unless it ran off the
/// end, and skips no newline.
pub proof fn lemma_find_nl(s: Seq<char>, i: int)
    requires
        0 <= i <= s.len(),
    ensures
        i <= find_nl(s, i) <= s.len(),
        find_nl(s, i) < s.len() ==> s[find_nl(s, i)] == '\n',
        forall|k: int| i <= k < find_nl(s, i) ==> s[k] != '\n',
    decreases s.len() - i,
{
    if i < s.len() && s[i] != '\n' {
        lemma_find_nl(s, i + 1);
    }
}

/// Drops a final carriage return, if any.
pub open spec fn chomp(l: Seq<char>) -> Seq<char> {
    if l.len() > 0 && l[l.len() - 1] == '\r' {
        l.drop_last()
    } else {
        l
    }
}

/// The lines of `s` that start at or after position `i`.
pub open spec fn lines_from(s: Seq<char>, i: int) -> Seq<Seq<char>>
    recommends
        0 <= i <= s.len(),
    decreases s.len() - i,
    when 0 <= i <= s.len() via lines_from_decreases
{
    if i >= s.len() {
        Seq::empty()
    } else {
        let j = find_nl(s, i);
        if j < s.len() {
            seq![chomp(s.subrange(i, j))] + lines_from(s, j + 1)
        } else {
            seq![s.subrange(i, j)]
        }
    }
}

#[via_fn]
proof fn lines_from_decreases(s: Seq<char>, i: int) {
    if 0 <= i < s.len() {
        lemma_find_nl(s, i);
    }
}

/// The lines of a document.
pub open spec fn spec_lines(s: Seq<char>) -> Seq<Seq<char>> {
    lines_from(s, 0)
}

/// The query occurs in `h` starting at position `i`.
pub open spec fn match_at(h: Seq<char>, n: Seq<char>, i: int) -> bool {
    &&& 0 <= i
    &&& i + n.len() <= h.len()
    &&& forall|k: int| 0 <= k < n.len() ==> h[i + k] == n[k]
}

/// `n` occurs somewhere in `h` as a contiguous subsequence.  An empty `n`
/// occurs in everything.
pub open spec fn seq_contains(h: Seq<char>, n: Seq<char>) -> bool {
    exists|i: int| match_at(h, n, i)
}

/// A line matches a query under case-sensitive comparison.
pub open spec fn line_matches(l: Seq<char>, q: Seq<char>) -> bool {
    seq_contains(l, q)
}

/// A line matches a query after lower-casing both sides.
pub open spec fn line_matches_ci(l: Seq<char>, q: Seq<char>) -> bool {
    seq_contains(lower_of(l), lower_of(q))
}

/// The case-sensitive matching predicate for query `q`, as a function on
/// lines.
pub open spec fn sensitive_pred(q: Seq<char>) -> spec_fn(Seq<char>) -> bool {
    |l: Seq<char>| line_matches(l, q)
}

/// The case-insensitive matching predicate for query `q`, as a function on
/// lines.
pub open spec fn insensitive_pred(q: Seq<char>) -> spec_fn(Seq<char>) -> bool {
    |l: Seq<char>| line_matches_ci(l, q)
}

/// The lines of `c` that contain `q`, in document order.
pub open spec fn matching_lines(q: Seq<char>, c: Seq<char>) -> Seq<Seq<char>> {
    spec_lines(c).filter(sensitive_pred(q))
}

/// The lines of `c` that contain `q` up to case, in document order.
pub open spec fn matching_lines_ci(q: Seq<char>, c: Seq<char>) -> Seq<Seq<char>> {
    spec_lines(c).filter(insensitive_pred(q))
}

/// Whether the query matches `h` at position `i`, by direct comparison.
fn chars_match_at(h: &Vec<char>, n: &Vec<char>, i: usize) -> (b: bool)
    requires
        i + n@.len() <= h@.len(),
    ensures
        b == match_at(h@, n@, i as int),
{
    let hn = h.len();
    let mut k: usize = 0;
    while k < n.len()
        invariant
            hn == h@.len(),
            i + n@.len() <= h@.len(),
            k <= n@.len(),
            forall|k0: int| 0 <= k0 < k ==> h@[i + k0] == n@[k0],
        decreases n@.len() - k,
    {
        if h[i + k] != n[k] {
            assert(!match_at(h@, n@, i as int));
            return false;
        }
        k = k + 1;
    }
    true
}

/// Whether `n` occurs anywhere in `h`.
fn contains_chars(h: &Vec<char>, n: &Vec<char>) -> (b: bool)
    ensures
        b == seq_contains(h@, n@),
{
    if n.len() == 0 {
        assert(match_at(h@, n@, 0));
        return true;
    }
    if n.len() > h.len() {
        assert forall|i: int| !match_at(h@, n@, i) by {}
        return false;
    }
    let last = h.len() - n.len();
    let mut i: usize = 0;
    while i <= last
        invariant
            1 <= n@.len() <= h@.len(),
            h@.len() <= usize::MAX,
            last == h@.len() - n@.len(),
            i <= last + 1,
            forall|i0: int| 0 <= i0 < i ==> !match_at(h@, n@, i0),
        decreases last + 1 - i,
    {
        if chars_match_at(h, n, i) {
            return true;
        }
        i = i + 1;
    }
    assert forall|i0: int| !match_at(h@, n@, i0) by {
        if i0 > last {
            assert(!match_at(h@, n@, i0));
        }
    }
    false
}

/// Filtering a one-element sequence keeps or drops that element.
proof fn lemma_filter_singleton<A>(x: A, pred: spec_fn(A) -> bool)
    ensures
        seq![x].filter(pred) == if pred(x) {
            seq![x]
        } else {
            Seq::<A>::empty()
        },
{
    reveal_with_fuel(Seq::filter, 2);
    assert(seq![x].drop_last() =~= Seq::<A>::empty());
    if pred(x) {
        assert(seq![x].filter(pred) =~= seq![x]);
    } else {
        assert(seq![x].filter(pred) =~= Seq::<A>::empty());
    }
}

/// The shared scanning loop: the lines of `contents` that satisfy the
/// matching predicate chosen by `case_insensitive`, as subslices of
/// `contents`.
fn scan<'a>(query: &str, contents: &'a str, case_insensitive: bool) -> (r: Vec<&'a str>)
    ensures
        r.deep_view() == if case_insensitive {
            matching_lines_ci(query@, contents@)
        } else {
            matching_lines(query@, contents@)
        },
{
    broadcast use group_seq_properties;

    let ghost pred: spec_fn(Seq<char>) -> bool = if case_insensitive {
        insensitive_pred(query@)
    } else {
        sensitive_pred(query@)
    };
    let needle: Vec<char> = if case_insensitive {
        let folded_query = lower_str(query);
        chars_of(folded_query.as_str())
    } else {
        chars_of(query)
    };
    let cv = chars_of(contents);
    let n = cv.len();
    let mut r: Vec<&'a str> = Vec::new();
    let mut i: usize = 0;
    proof {
        assert(r.deep_view() =~= Seq::<Seq<char>>::empty());
    }
    while i < n
        invariant
            n == contents@.len(),
            cv@ == contents@,
            i <= n,
            needle@ == if case_insensitive {
                lower_of(query@)
            } else {
                query@
            },
            pred == (if case_insensitive {
                insensitive_pred(query@)
            } else {
                sensitive_pred(query@)
            }),
            spec_lines(contents@).filter(pred) == r.deep_view() + lines_from(
                contents@,
                i as int,
            ).filter(pred),
        decreases n - i,
    {
        let ghost c = contents@;
        let mut j: usize = i;
        while j < n && cv[j] != '\n'
            invariant
                n == c.len(),
                cv@ == c,
                i <= j <= n,
                find_nl(c, i as int) == find_nl(c, j as int),
            decreases n - j,
        {
            j = j + 1;
        }
        proof {
            assert(find_nl(c, i as int) == j as int);
        }
        let end = if j < n && j > i && cv[j - 1] == '\r' {
            j - 1
        } else {
            j
        };
        let ghost line = if (j as int) < c.len() {
            chomp(c.subrange(i as int, j as int))
        } else {
            c.subrange(i as int, j as int)
        };
        proof {
            assert(c.subrange(i as int, end as int) =~= line);
        }
        let piece = contents.substring_char(i, end);
        let hay: Vec<char> = if case_insensitive {
            let folded_line = lower_str(piece);
            chars_of(folded_line.as_str())
        } else {
            chars_of(piece)
        };
        let matched = contains_chars(&hay, &needle);
        proof {
            assert(matched == pred(line));
        }
        let ghost r_before = r.deep_view();
        if matched {
            r.push(piece);
            proof {
                assert(r.deep_view() =~= r_before + seq![line]);
            }
        }
        proof {
            let rest = if (j as int) < c.len() {
                lines_from(c, j + 1)
            } else {
                Seq::<Seq<char>>::empty()
            };
            assert(lines_from(c, i as int) =~= seq![line] + rest);
            Seq::filter_distributes_over_add(seq![line], rest, pred);
            lemma_filter_singleton(line, pred);
            if matched {
                assert(r.deep_view() == r_before + seq![line]);
            } else {
                assert(seq![line].filter(pred) + rest.filter(pred) =~= rest.filter(pred));
            }
        }
        if j < n {
            i = j + 1;
        } else {
            i = n;
            proof {
                assert(lines_from(c, j as int).filter(pred) =~= lines_from(
                    c,
                    n as int,
                ).filter(pred));
            }
        }
    }
    proof {
        reveal(Seq::filter);
        assert(lines_from(contents@, n as int).filter(pred) =~= Seq::<Seq<char>>::empty());
        assert(r.deep_view() =~= spec_lines(contents@).filter(pred));
    }
    r
}

/// Case-sensitive line search: the lines of `contents` that contain `query`,
/// in document order, with their original text.
pub fn search<'a>(query: &str, contents: &'a str) -> (r: Vec<&'a str>)
    ensures
        r.deep_view() == matching_lines(query@, contents@),
{
    scan(query, contents, false)
}

/// Case-insensitive line search: the lines of `contents` that contain
/// `query` after lower-casing both sides for the comparison only; the
/// returned lines keep their original text.
pub fn search_case_insensitive<'a>(query: &str, contents: &'a str) -> (r: Vec<&'a str>)
    ensures
        r.deep_view() == matching_lines_ci(query@, contents@),
{
    scan(query, contents, true)
}

/// Weakening the predicate can only grow a filtered sequence.
proof fn lemma_filter_count_monotone<A>(s: Seq<A>, p: spec_fn(A) -> bool, q: spec_fn(A) -> bool)
    requires
        forall|x: A| #[trigger] p(x) ==> q(x),
    ensures
        s.filter(p).len() <= s.filter(q).len(),
    decreases s.len(),
{
    reveal(Seq::filter);
    if s.len() > 0 {
        lemma_filter_count_monotone(s.drop_last(), p, q);
    }
}

/// Searching is pure: any two results of the same search coincide, so in
/// particular repeated calls return the same number of lines.
pub proof fn lemma_search_pure(
    q: Seq<char>,
    c: Seq<char>,
    r1: Seq<Seq<char>>,
    r2: Seq<Seq<char>>,
)
    requires
        r1 == matching_lines(q, c),
        r2 == matching_lines(q, c),
    ensures
        r1 == r2,
        r1.len() == r2.len(),
{
}

/// The result of a case-sensitive search is sound and complete: every
/// returned line contains the query, and a line of the document that is not
/// returned does not contain it.
pub proof fn lemma_search_characterizes(q: Seq<char>, c: Seq<char>)
    ensures
        forall|k: int|
            0 <= k < matching_lines(q, c).len() ==> line_matches(
                #[trigger] matching_lines(q, c)[k],
                q,
            ),
        forall|l: Seq<char>|
            #[trigger] spec_lines(c).contains(l) && !matching_lines(q, c).contains(l)
                ==> !line_matches(l, q),
{
    let lines = spec_lines(c);
    let m = matching_lines(q, c);
    assert forall|k: int| 0 <= k < m.len() implies line_matches(#[trigger] m[k], q) by {
        lines.lemma_filter_pred(sensitive_pred(q), k);
    }
    assert forall|l: Seq<char>|
        #[trigger] lines.contains(l) && !m.contains(l) implies !line_matches(l, q) by {
        if line_matches(l, q) {
            let i = choose|i: int| 0 <= i < lines.len() && lines[i] == l;
            lines.lemma_filter_contains(sensitive_pred(q), i);
        }
    }
}

/// Case-insensitive search returns at least as many lines as case-sensitive
/// search, for any query whose exact matches all survive lower-casing.  The
/// premise is exactly the set of inputs on which the law holds: with the
/// full Unicode case mapping a context-sensitive letter (the Greek final
/// sigma) can lower-case differently inside a line than it does inside the
/// query, so an exact match need not survive folding.
pub proof fn lemma_insensitive_superset(q: Seq<char>, c: Seq<char>)
    requires
        forall|l: Seq<char>| #[trigger] line_matches(l, q) ==> line_matches_ci(l, q),
    ensures
        matching_lines_ci(q, c).len() >= matching_lines(q, c).len(),
{
    assert forall|l: Seq<char>| #[trigger] sensitive_pred(q)(l) implies insensitive_pred(q)(l) by {
        assert(line_matches(l, q));
    }
    lemma_filter_count_monotone(spec_lines(c), sensitive_pred(q), insensitive_pred(q));
}

/// Renders the number of result lines in decimal.
pub fn count(results: &Vec<&str>) -> (r: String)
    ensures
        r@ == dec_digits(results@.len() as nat),
{
    usize_to_string(results.len())
}

} // verus!
