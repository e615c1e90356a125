//! Splitting text into lines and counting them.
//!
//! Package listings arrive as one block of text with one package per line;
//! the installed-package count is the number of non-empty lines (or, for
//! status-prefixed listings, the number of lines that begin with the status
//! marker).  Splitting is also used to scan key/value files line by line.

use crate::text::begins_with;
use crate::text::contains_pattern;
use crate::text::has_pattern;
use crate::text::starts_with_pattern;
use vstd::prelude::*;

verus! {

/// `s` split at every occurrence of `sep`.  There is always at least one
/// segment; a trailing separator yields a trailing empty segment.
pub open spec fn split_on(s: Seq<char>, sep: char) -> Seq<Seq<char>>
    decreases s.len(),
{
    if s.len() == 0 {
        seq![Seq::<char>::empty()]
    } else {
        let rest = split_on(s.drop_last(), sep);
        if s.last() == sep {
            rest.push(Seq::empty())
        } else {
            rest.update(rest.len() - 1, rest.last().push(s.last()))
        }
    }
}

/// A split always yields at least one segment.
pub proof fn lemma_split_on_nonempty(s: Seq<char>, sep: char)
    ensures
        split_on(s, sep).len() >= 1,
    decreases s.len(),
{
    if s.len() != 0 {
        lemma_split_on_nonempty(s.drop_last(), sep);
    }
}

/// Splits `v` at every occurrence of `sep`.
pub fn split_char(v: &Vec<char>, sep: char) -> (r: Vec<Vec<char>>)
    ensures
        r.deep_view() == split_on(v@, sep),
{
    let mut out: Vec<Vec<char>> = Vec::new();
    let mut cur: Vec<char> = Vec::new();
    let mut i: usize = 0;
    proof {
        assert(v@.subrange(0, 0) =~= Seq::<char>::empty());
        assert(out.deep_view().push(cur@) =~= split_on(v@.subrange(0, 0), sep));
    }
    while i < v.len()
        invariant
            i <= v@.len(),
            out.deep_view().push(cur@) == split_on(v@.subrange(0, i as int), sep),
        decreases v@.len() - i,
    {
        let ghost pre = v@.subrange(0, i as int);
        let ghost post = v@.subrange(0, i + 1);
        proof {
            assert(post.drop_last() =~= pre);
            assert(post.last() == v@[i as int]);
            lemma_split_on_nonempty(pre, sep);
        }
        let ghost old_out = out.deep_view();
        let ghost old_cur = cur@;
        if v[i] == sep {
            out.push(cur);
            cur = Vec::new();
            proof {
                assert(out.deep_view() =~~= old_out.push(old_cur));
                assert(out.deep_view().push(cur@) =~= split_on(pre, sep).push(Seq::empty()));
            }
        } else {
            cur.push(v[i]);
            proof {
                let rest = split_on(pre, sep);
                assert(rest.last() == old_cur);
                assert(rest.update(rest.len() - 1, rest.last().push(v@[i as int])) =~= old_out.push(
                    old_cur.push(v@[i as int]),
                ));
                assert(out.deep_view().push(cur@) =~= old_out.push(old_cur.push(v@[i as int])));
            }
        }
        i = i + 1;
    }
    proof {
        assert(v@.subrange(0, v@.len() as int) =~= v@);
    }
    let ghost old_out = out.deep_view();
    let ghost old_cur = cur@;
    out.push(cur);
    proof {
        assert(out.deep_view() =~~= old_out.push(old_cur));
    }
    out
}

/// How many segments are non-empty.
pub open spec fn count_nonempty(segs: Seq<Seq<char>>) -> nat
    decreases segs.len(),
{
    if segs.len() == 0 {
        0
    } else {
        count_nonempty(segs.drop_last()) + if segs.last().len() > 0 {
            1nat
        } else {
            0nat
        }
    }
}

/// The number of non-empty lines of `s`.
pub open spec fn nonempty_line_count(s: Seq<char>) -> nat {
    count_nonempty(split_on(s, '\n'))
}

/// Counts the non-empty lines of `v`.
pub fn count_nonempty_lines(v: &Vec<char>) -> (n: usize)
    ensures
        n == nonempty_line_count(v@),
{
    let segs = split_char(v, '\n');
    let ghost all = segs.deep_view();
    let total: usize = segs.len();
    let mut n: usize = 0;
    let mut j: usize = 0;
    proof {
        assert(all.subrange(0, 0) =~= Seq::<Seq<char>>::empty());
    }
    while j < total
        invariant
            j <= total,
            n <= j,
            total == segs@.len(),
            all == segs.deep_view(),
            n == count_nonempty(all.subrange(0, j as int)),
        decreases total - j,
    {
        proof {
            let pre = all.subrange(0, j as int);
            let post = all.subrange(0, j + 1);
            assert(post.drop_last() =~= pre);
            assert(post.last() == all[j as int]);
        }
        proof {
            assert(all[j as int] =~= segs@[j as int]@);
        }
        if segs[j].len() > 0 {
            n = n + 1;
        }
        j = j + 1;
    }
    proof {
        assert(all.subrange(0, all.len() as int) =~= all);
    }
    n
}

/// How many segments begin with `pat`.
pub open spec fn count_begins_with(segs: Seq<Seq<char>>, pat: Seq<char>) -> nat
    decreases segs.len(),
{
    if segs.len() == 0 {
        0
    } else {
        count_begins_with(segs.drop_last(), pat) + if begins_with(segs.last(), pat) {
            1nat
        } else {
            0nat
        }
    }
}

/// The number of lines of `s` that begin with `pat`.
pub open spec fn prefixed_line_count(s: Seq<char>, pat: Seq<char>) -> nat {
    count_begins_with(split_on(s, '\n'), pat)
}

/// Counts the lines of `v` that begin with `pat`.
pub fn count_lines_with_prefix(v: &Vec<char>, pat: &Vec<char>) -> (n: usize)
    ensures
        n == prefixed_line_count(v@, pat@),
{
    let segs = split_char(v, '\n');
    let ghost all = segs.deep_view();
    let total: usize = segs.len();
    let mut n: usize = 0;
    let mut j: usize = 0;
    proof {
        assert(all.subrange(0, 0) =~= Seq::<Seq<char>>::empty());
    }
    while j < total
        invariant
            j <= total,
            n <= j,
            total == segs@.len(),
            all == segs.deep_view(),
            n == count_begins_with(all.subrange(0, j as int), pat@),
        decreases total - j,
    {
        proof {
            let pre = all.subrange(0, j as int);
            let post = all.subrange(0, j + 1);
            assert(post.drop_last() =~= pre);
            assert(post.last() == all[j as int]);
        }
        proof {
            assert(all[j as int] =~= segs@[j as int]@);
        }
        if starts_with_pattern(&segs[j], pat) {
            n = n + 1;
        }
        j = j + 1;
    }
    proof {
        assert(all.subrange(0, all.len() as int) =~= all);
    }
    n
}

/// The first segment in which `pat` occurs, if any.
pub open spec fn first_line_with(lines: Seq<Seq<char>>, pat: Seq<char>) -> Option<Seq<char>>
    decreases lines.len(),
{
    if lines.len() == 0 {
        None
    } else if has_pattern(lines[0], pat) {
        Some(lines[0])
    } else {
        first_line_with(lines.drop_first(), pat)
    }
}

/// When the first `i` lines avoid `pat` and line `i` (if it exists) holds
/// it, the scan stops exactly there.
proof fn lemma_first_line_at(lines: Seq<Seq<char>>, pat: Seq<char>, i: int)
    requires
        0 <= i <= lines.len(),
        forall|j: int| 0 <= j < i ==> !has_pattern(lines[j], pat),
        i < lines.len() ==> has_pattern(lines[i], pat),
    ensures
        first_line_with(lines, pat) == if i < lines.len() {
            Some(lines[i])
        } else {
            None::<Seq<char>>
        },
    decreases i,
{
    if i == 0 {
    } else {
        let rest = lines.drop_first();
        assert(forall|j: int| 0 <= j < i - 1 ==> rest[j] == lines[j + 1] && !has_pattern(
            rest[j],
            pat,
        ));
        lemma_first_line_at(rest, pat, i - 1);
    }
}

/// Finds the index of the first line of `segs` in which `pat` occurs.
pub fn find_line_with(segs: &Vec<Vec<char>>, pat: &Vec<char>) -> (r: Option<usize>)
    ensures
        match r {
            Some(i) => i < segs@.len() && first_line_with(segs.deep_view(), pat@) == Some(
                segs.deep_view()[i as int],
            ),
            None => first_line_with(segs.deep_view(), pat@) is None,
        },
{
    let ghost all = segs.deep_view();
    let total: usize = segs.len();
    let mut j: usize = 0;
    while j < total
        invariant
            j <= total,
            total == segs@.len(),
            all == segs.deep_view(),
            forall|k: int| 0 <= k < j ==> !has_pattern(all[k], pat@),
        decreases total - j,
    {
        proof {
            assert(all[j as int] =~= segs@[j as int]@);
        }
        if contains_pattern(&segs[j], pat) {
            proof {
                lemma_first_line_at(all, pat@, j as int);
            }
            return Some(j);
        }
        j = j + 1;
    }
    proof {
        lemma_first_line_at(all, pat@, all.len() as int);
    }
    None
}

} // verus!
