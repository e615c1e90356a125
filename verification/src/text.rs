//! Verified character-sequence operations.
//!
//! Every probe hands its raw output in as text; the per-fact normalization
//! rules are built from the small set of operations in this module.  Each
//! executable function is specified against a spec-level function on
//! `Seq<char>`, so the per-fact contracts can state exactly which string
//! comes out of a chain.

use vstd::prelude::*;

verus! {

/// The characters of `s` with every occurrence of `c` removed.
pub open spec fn chars_without(s: Seq<char>, c: char) -> Seq<char>
    decreases s.len(),
{
    if s.len() == 0 {
        Seq::empty()
    } else if s.last() == c {
        chars_without(s.drop_last(), c)
    } else {
        chars_without(s.drop_last(), c).push(s.last())
    }
}

/// Relies on `String::push`: appends exactly one character at the end.
#[verifier::external_body]
fn push_char(s: &mut String, c: char)
    ensures
        final(s)@ == old(s)@.push(c),
{
    s.push(c);
}

/// Collects the characters of a string slice into a vector.
pub fn str_to_chars(s: &str) -> (v: Vec<char>)
    ensures
        v@ == s@,
{
    let n: usize = s.unicode_len();
    let mut v: Vec<char> = Vec::new();
    let mut i: usize = 0;
    while i < n
        invariant
            i <= n,
            n == s@.len(),
            v@ == s@.subrange(0, i as int),
        decreases n - i,
    {
        v.push(s.get_char(i));
        i = i + 1;
        assert(v@ =~= s@.subrange(0, i as int));
    }
    assert(s@.subrange(0, n as int) =~= s@);
    v
}

/// Builds an owned string out of a vector of characters.
pub fn chars_to_string(v: &Vec<char>) -> (s: String)
    ensures
        s@ == v@,
{
    let mut s = String::new();
    let mut i: usize = 0;
    while i < v.len()
        invariant
            i <= v@.len(),
            s@ == v@.subrange(0, i as int),
        decreases v@.len() - i,
    {
        push_char(&mut s, v[i]);
        i = i + 1;
        assert(s@ =~= v@.subrange(0, i as int));
    }
    assert(v@.subrange(0, v@.len() as int) =~= v@);
    s
}

/// The characters of `s` with every occurrence of `from` replaced by `to`.
pub open spec fn chars_swapped(s: Seq<char>, from: char, to: char) -> Seq<char>
    decreases s.len(),
{
    if s.len() == 0 {
        Seq::empty()
    } else if s.last() == from {
        chars_swapped(s.drop_last(), from, to).push(to)
    } else {
        chars_swapped(s.drop_last(), from, to).push(s.last())
    }
}

/// The suffix of `s` that follows the last occurrence of `sep`; all of `s`
/// when `sep` does not occur.  This is the last field of a separated string.
pub open spec fn tail_after_last(s: Seq<char>, sep: char) -> Seq<char>
    decreases s.len(),
{
    if s.len() == 0 {
        Seq::empty()
    } else if s.last() == sep {
        Seq::empty()
    } else {
        tail_after_last(s.drop_last(), sep).push(s.last())
    }
}

/// The prefix of `s` that precedes the first occurrence of `sep`; all of `s`
/// when `sep` does not occur.  This is the leading field of a separated
/// string.
pub open spec fn head_before_first(s: Seq<char>, sep: char) -> Seq<char>
    decreases s.len(),
{
    if s.len() == 0 {
        Seq::empty()
    } else if s[0] == sep {
        Seq::empty()
    } else {
        seq![s[0]] + head_before_first(s.drop_first(), sep)
    }
}

/// Removes every occurrence of `c` from `v`.
pub fn remove_char(v: &Vec<char>, c: char) -> (r: Vec<char>)
    ensures
        r@ == chars_without(v@, c),
{
    let mut r: Vec<char> = Vec::new();
    let mut i: usize = 0;
    while i < v.len()
        invariant
            i <= v@.len(),
            r@ == chars_without(v@.subrange(0, i as int), c),
        decreases v@.len() - i,
    {
        proof {
            let pre = v@.subrange(0, i as int);
            let post = v@.subrange(0, i + 1);
            assert(post.drop_last() =~= pre);
            assert(post.last() == v@[i as int]);
        }
        if v[i] != c {
            r.push(v[i]);
        }
        i = i + 1;
    }
    assert(v@.subrange(0, v@.len() as int) =~= v@);
    r
}

/// Replaces every occurrence of `from` in `v` by `to`.
pub fn substitute_char(v: &Vec<char>, from: char, to: char) -> (r: Vec<char>)
    ensures
        r@ == chars_swapped(v@, from, to),
{
    let mut r: Vec<char> = Vec::new();
    let mut i: usize = 0;
    while i < v.len()
        invariant
            i <= v@.len(),
            r@ == chars_swapped(v@.subrange(0, i as int), from, to),
        decreases v@.len() - i,
    {
        proof {
            let pre = v@.subrange(0, i as int);
            let post = v@.subrange(0, i + 1);
            assert(post.drop_last() =~= pre);
            assert(post.last() == v@[i as int]);
        }
        if v[i] == from {
            r.push(to);
        } else {
            r.push(v[i]);
        }
        i = i + 1;
    }
    assert(v@.subrange(0, v@.len() as int) =~= v@);
    r
}

/// Returns the last `sep`-separated field of `v`: the characters after the
/// last occurrence of `sep`, or all of `v` when `sep` does not occur.
pub fn last_field(v: &Vec<char>, sep: char) -> (r: Vec<char>)
    ensures
        r@ == tail_after_last(v@, sep),
{
    let mut r: Vec<char> = Vec::new();
    let mut i: usize = 0;
    while i < v.len()
        invariant
            i <= v@.len(),
            r@ == tail_after_last(v@.subrange(0, i as int), sep),
        decreases v@.len() - i,
    {
        proof {
            let pre = v@.subrange(0, i as int);
            let post = v@.subrange(0, i + 1);
            assert(post.drop_last() =~= pre);
            assert(post.last() == v@[i as int]);
        }
        if v[i] == sep {
            r = Vec::new();
        } else {
            r.push(v[i]);
        }
        i = i + 1;
    }
    assert(v@.subrange(0, v@.len() as int) =~= v@);
    r
}

/// Returns the leading `sep`-separated field of `v`: the characters before
/// the first occurrence of `sep`, or all of `v` when `sep` does not occur.
pub fn leading_field(v: &Vec<char>, sep: char) -> (r: Vec<char>)
    ensures
        r@ == head_before_first(v@, sep),
{
    let mut r: Vec<char> = Vec::new();
    let mut i: usize = 0;
    while i < v.len()
        invariant
            i <= v@.len(),
            r@ == v@.subrange(0, i as int),
            forall|j: int| 0 <= j < i ==> v@[j] != sep,
        decreases v@.len() - i,
    {
        if v[i] == sep {
            proof {
                lemma_head_before_first_stops(v@, sep, i as int);
            }
            return r;
        }
        r.push(v[i]);
        i = i + 1;
        assert(r@ =~= v@.subrange(0, i as int));
    }
    proof {
        lemma_head_before_first_stops(v@, sep, v@.len() as int);
        assert(v@.subrange(0, v@.len() as int) =~= v@);
    }
    r
}

/// When the first `i` characters of `s` avoid `sep` and position `i` (if it
/// exists) holds `sep`, the leading field is exactly the first `i`
/// characters.
proof fn lemma_head_before_first_stops(s: Seq<char>, sep: char, i: int)
    requires
        0 <= i <= s.len(),
        forall|j: int| 0 <= j < i ==> s[j] != sep,
        i < s.len() ==> s[i] == sep,
    ensures
        head_before_first(s, sep) == s.subrange(0, i),
    decreases i,
{
    if i == 0 {
        assert(s.subrange(0, 0) =~= Seq::<char>::empty());
    } else {
        let rest = s.drop_first();
        assert(forall|j: int| 0 <= j < i - 1 ==> rest[j] == s[j + 1] && rest[j] != sep);
        lemma_head_before_first_stops(rest, sep, i - 1);
        assert(seq![s[0]] + rest.subrange(0, i - 1) =~= s.subrange(0, i));
    }
}

/// The leading field never contains the separator it was cut at.
pub proof fn lemma_head_before_first_no_sep(s: Seq<char>, sep: char)
    ensures
        forall|j: int| 0 <= j < head_before_first(s, sep).len() ==> head_before_first(s, sep)[j] != sep,
    decreases s.len(),
{
    if s.len() != 0 && s[0] != sep {
        lemma_head_before_first_no_sep(s.drop_first(), sep);
        let h = head_before_first(s, sep);
        let hr = head_before_first(s.drop_first(), sep);
        assert(h == seq![s[0]] + hr);
        assert forall|j: int| 0 <= j < h.len() implies h[j] != sep by {
            if j == 0 {
                assert(h[0] == s[0]);
            } else {
                assert(h[j] == hr[j - 1]);
            }
        }
    }
}

/// When `sep` does not occur in `s`, the leading field is all of `s`.
pub proof fn lemma_head_before_first_all(s: Seq<char>, sep: char)
    requires
        forall|j: int| 0 <= j < s.len() ==> s[j] != sep,
    ensures
        head_before_first(s, sep) == s,
    decreases s.len(),
{
    if s.len() != 0 {
        lemma_head_before_first_all(s.drop_first(), sep);
        assert(seq![s[0]] + s.drop_first() =~= s);
    }
}

/// Law: cutting at the first separator is idempotent — a leading field has
/// no separator left in it, so cutting it again changes nothing.
pub proof fn lemma_head_before_first_idempotent(s: Seq<char>, sep: char)
    ensures
        head_before_first(head_before_first(s, sep), sep) == head_before_first(s, sep),
{
    lemma_head_before_first_no_sep(s, sep);
    lemma_head_before_first_all(head_before_first(s, sep), sep);
}

/// `c` occurs somewhere in `s`.
pub open spec fn has_char(s: Seq<char>, c: char) -> bool {
    exists|j: int| 0 <= j < s.len() && s[j] == c
}

/// Decides whether `c` occurs anywhere in `v`.
pub fn contains_char(v: &Vec<char>, c: char) -> (r: bool)
    ensures
        r == has_char(v@, c),
{
    let mut i: usize = 0;
    while i < v.len()
        invariant
            i <= v@.len(),
            forall|j: int| 0 <= j < i ==> v@[j] != c,
        decreases v@.len() - i,
    {
        if v[i] == c {
            return true;
        }
        i = i + 1;
    }
    false
}

/// Concatenates two character vectors.
pub fn concat_chars(a: &Vec<char>, b: &Vec<char>) -> (r: Vec<char>)
    ensures
        r@ == a@ + b@,
{
    let mut r: Vec<char> = Vec::new();
    let mut i: usize = 0;
    assert(r@ =~= a@.subrange(0, 0));
    while i < a.len()
        invariant
            i <= a@.len(),
            r@ == a@.subrange(0, i as int),
        decreases a@.len() - i,
    {
        r.push(a[i]);
        i = i + 1;
        assert(r@ =~= a@.subrange(0, i as int));
    }
    assert(a@.subrange(0, a@.len() as int) =~= a@);
    assert(r@ =~= a@ + b@.subrange(0, 0));
    let mut k: usize = 0;
    while k < b.len()
        invariant
            k <= b@.len(),
            r@ == a@ + b@.subrange(0, k as int),
        decreases b@.len() - k,
    {
        r.push(b[k]);
        k = k + 1;
        assert(r@ =~= a@ + b@.subrange(0, k as int));
    }
    assert(a@ + b@.subrange(0, b@.len() as int) =~= a@ + b@);
    r
}

/// `pat` occurs in `s` starting at position `i`.
pub open spec fn pattern_at(s: Seq<char>, pat: Seq<char>, i: int) -> bool {
    0 <= i && i + pat.len() <= s.len() && s.subrange(i, i + pat.len()) == pat
}

/// `pat` occurs somewhere in `s`.
pub open spec fn has_pattern(s: Seq<char>, pat: Seq<char>) -> bool {
    exists|i: int| pattern_at(s, pat, i)
}

/// `s` begins with `pat`.
pub open spec fn begins_with(s: Seq<char>, pat: Seq<char>) -> bool {
    pattern_at(s, pat, 0)
}

/// Compares `pat` against the characters of `v` starting at `at`.
fn match_at(v: &Vec<char>, pat: &Vec<char>, at: usize) -> (r: bool)
    requires
        at + pat@.len() <= v@.len(),
    ensures
        r == pattern_at(v@, pat@, at as int),
{
    let n: usize = v.len();
    let mut k: usize = 0;
    while k < pat.len()
        invariant
            k <= pat@.len(),
            at + pat@.len() <= v@.len(),
            n == v@.len(),
            forall|j: int| 0 <= j < k ==> v@[at + j] == pat@[j],
        decreases pat@.len() - k,
    {
        if v[at + k] != pat[k] {
            proof {
                assert(v@.subrange(at as int, at + pat@.len())[k as int] != pat@[k as int]);
            }
            return false;
        }
        k = k + 1;
    }
    proof {
        assert(v@.subrange(at as int, at + pat@.len()) =~= pat@);
    }
    true
}

/// Decides whether `pat` occurs anywhere in `v`.
pub fn contains_pattern(v: &Vec<char>, pat: &Vec<char>) -> (r: bool)
    ensures
        r == has_pattern(v@, pat@),
{
    if pat.len() > v.len() {
        proof {
            assert(forall|i: int| !pattern_at(v@, pat@, i));
        }
        return false;
    }
    if pat.len() == 0 {
        proof {
            assert(v@.subrange(0, 0) =~= pat@);
            assert(pattern_at(v@, pat@, 0));
        }
        return true;
    }
    let last_start: usize = v.len() - pat.len();
    let mut i: usize = 0;
    while i <= last_start
        invariant
            0 < pat@.len() <= v@.len(),
            v@.len() <= usize::MAX,
            last_start == v@.len() - pat@.len(),
            i <= last_start + 1,
            forall|j: int| 0 <= j < i ==> !pattern_at(v@, pat@, j),
        decreases last_start + 1 - i,
    {
        if match_at(v, pat, i) {
            return true;
        }
        i = i + 1;
    }
    proof {
        assert(forall|j: int| j > last_start ==> !pattern_at(v@, pat@, j));
    }
    false
}

/// Decides whether `v` begins with `pat`.
pub fn starts_with_pattern(v: &Vec<char>, pat: &Vec<char>) -> (r: bool)
    ensures
        r == begins_with(v@, pat@),
{
    if pat.len() > v.len() {
        return false;
    }
    match_at(v, pat, 0)
}

/// The characters of `s` with every (leftmost, non-overlapping) occurrence
/// of `pat` replaced by `rep`.  An empty pattern replaces nothing.
pub open spec fn replaced(s: Seq<char>, pat: Seq<char>, rep: Seq<char>) -> Seq<char>
    decreases s.len(),
{
    if pat.len() == 0 || s.len() < pat.len() {
        s
    } else if s.subrange(0, pat.len() as int) == pat {
        rep + replaced(s.skip(pat.len() as int), pat, rep)
    } else {
        seq![s[0]] + replaced(s.skip(1), pat, rep)
    }
}

/// Replaces every leftmost, non-overlapping occurrence of `pat` in `v` by
/// `rep`; with an empty pattern the input comes back unchanged.
pub fn replace_pattern(v: &Vec<char>, pat: &Vec<char>, rep: &Vec<char>) -> (r: Vec<char>)
    ensures
        r@ == replaced(v@, pat@, rep@),
{
    let mut out: Vec<char> = Vec::new();
    let mut i: usize = 0;
    if pat.len() == 0 {
        while i < v.len()
            invariant
                i <= v@.len(),
                out@ == v@.subrange(0, i as int),
            decreases v@.len() - i,
        {
            out.push(v[i]);
            i = i + 1;
            assert(out@ =~= v@.subrange(0, i as int));
        }
        assert(v@.subrange(0, v@.len() as int) =~= v@);
        return out;
    }
    proof {
        assert(v@.skip(0) =~= v@);
    }
    while i < v.len()
        invariant
            i <= v@.len(),
            pat@.len() > 0,
            replaced(v@, pat@, rep@) == out@ + replaced(v@.skip(i as int), pat@, rep@),
        decreases v@.len() - i,
    {
        let ghost pre = v@.skip(i as int);
        if pat.len() <= v.len() - i && match_at(v, pat, i) {
            proof {
                assert(pre.subrange(0, pat@.len() as int) =~= v@.subrange(
                    i as int,
                    i + pat@.len(),
                ));
                assert(pre.skip(pat@.len() as int) =~= v@.skip(i + pat@.len()));
            }
            let mut k: usize = 0;
            let ghost out_pre = out@;
            while k < rep.len()
                invariant
                    k <= rep@.len(),
                    out@ == out_pre + rep@.subrange(0, k as int),
                decreases rep@.len() - k,
            {
                out.push(rep[k]);
                k = k + 1;
                assert(out@ =~= out_pre + rep@.subrange(0, k as int));
            }
            assert(rep@.subrange(0, rep@.len() as int) =~= rep@);
            i = i + pat.len();
            proof {
                assert(out@ + replaced(v@.skip(i as int), pat@, rep@) =~= out_pre + (rep@
                    + replaced(v@.skip(i as int), pat@, rep@)));
            }
        } else {
            proof {
                if pre.len() >= pat@.len() {
                    assert(pre.subrange(0, pat@.len() as int) =~= v@.subrange(
                        i as int,
                        i + pat@.len(),
                    ));
                }
                assert(pre.skip(1) =~= v@.skip(i as int + 1));
                assert(pre[0] == v@[i as int]);
            }
            out.push(v[i]);
            i = i + 1;
            proof {
                if pre.len() < pat@.len() {
                    // the unchanged tail shrinks one character at a time
                    assert(replaced(pre, pat@, rep@) == pre);
                    assert(replaced(v@.skip(i as int), pat@, rep@) == v@.skip(i as int));
                    assert(out@ + v@.skip(i as int) =~= out@.drop_last() + pre);
                } else {
                    assert(out@ + replaced(v@.skip(i as int), pat@, rep@) =~= out@.drop_last()
                        + (seq![pre[0]] + replaced(pre.skip(1), pat@, rep@)));
                }
            }
        }
    }
    proof {
        assert(v@.skip(v@.len() as int) =~= Seq::<char>::empty());
        assert(out@ + Seq::<char>::empty() =~= out@);
        assert(v@.skip(0) =~= v@);
    }
    out
}

} // verus!
