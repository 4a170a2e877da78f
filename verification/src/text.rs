//! Searching and cutting texts, as sequences of characters.

use vstd::prelude::*;
use crate::strings::{from_chars_range, to_chars};

verus! {

/// Whether the pattern stands in the text at place `i`.
pub open spec fn matches_at(s: Seq<char>, p: Seq<char>, i: int) -> bool {
    0 <= i && i + p.len() <= s.len() && s.subrange(i, i + p.len()) == p
}

/// The first place from `from` on at which the pattern stands in the
/// text, or -1 where it stands at none.
pub open spec fn first_match(s: Seq<char>, p: Seq<char>, from: int) -> int
    decreases s.len() - from,
{
    if from < 0 || from + p.len() > s.len() {
        -1
    } else if matches_at(s, p, from) {
        from
    } else if from >= s.len() {
        -1
    } else {
        first_match(s, p, from + 1)
    }
}

/// Whether the pattern stands in the text at place `i`.
pub fn check_match(s: &Vec<char>, p: &Vec<char>, i: usize) -> (r: bool)
    requires
        i + p@.len() <= s@.len(),
    ensures
        r == matches_at(s@, p@, i as int),
{
    let n = s.len();
    let mut k: usize = 0;
    while k < p.len()
        invariant
            k <= p.len(),
            n == s@.len(),
            i + p@.len() <= s@.len(),
            forall|j: int| 0 <= j < k ==> s@[i + j] == p@[j],
        decreases p.len() - k,
    {
        if s[i + k] != p[k] {
            assert(s@.subrange(i as int, i + p@.len())[k as int] != p@[k as int]);
            return false;
        }
        k += 1;
    }
    assert(s@.subrange(i as int, i + p@.len()) =~= p@);
    true
}

/// Finds the first place from `from` on at which the pattern stands in the
/// text.
pub fn find_from(s: &Vec<char>, p: &Vec<char>, from: usize) -> (r: Option<usize>)
    ensures
        match r {
            Some(k) => first_match(s@, p@, from as int) == k && from <= k && k + p@.len() <= s@.len(),
            None => first_match(s@, p@, from as int) == -1,
        },
{
    if p.len() > s.len() {
        return None;
    }
    let last = s.len() - p.len();
    if from > last {
        return None;
    }
    let mut i: usize = from;
    loop
        invariant
            from <= i <= last,
            last == s@.len() - p@.len(),
            first_match(s@, p@, from as int) == first_match(s@, p@, i as int),
        decreases last - i,
    {
        if check_match(s, p, i) {
            return Some(i);
        }
        if i == last {
            assert(first_match(s@, p@, i + 1) == -1);
            return None;
        }
        i += 1;
    }
}

/// The text with each of the non-overlapping occurrences of `from`, found
/// from the left, replaced by `to`. Where `from` is empty, `to` is put
/// before each character and at the end.
pub open spec fn replaced(s: Seq<char>, from: Seq<char>, to: Seq<char>) -> Seq<char>
    decreases s.len(),
{
    if from.len() == 0 {
        if s.len() == 0 {
            to
        } else {
            to + seq![s[0]] + replaced(s.drop_first(), from, to)
        }
    } else {
        let k = first_match(s, from, 0);
        if k < 0 || k + from.len() > s.len() {
            s
        } else {
            s.take(k) + to + replaced(s.skip(k + from.len()), from, to)
        }
    }
}

/// The part of a text with the given number, from 0, when the text is
/// split at each occurrence of a delimiter that is not empty; the empty
/// text where there are fewer parts.
pub open spec fn split_nth(s: Seq<char>, delim: Seq<char>, n: int) -> Seq<char>
    decreases s.len(),
{
    let k = first_match(s, delim, 0);
    if delim.len() == 0 || n < 0 {
        Seq::empty()
    } else if k < 0 || k + delim.len() > s.len() {
        if n == 0 {
            s
        } else {
            Seq::empty()
        }
    } else if n == 0 {
        s.take(k)
    } else {
        split_nth(s.skip(k + delim.len()), delim, n - 1)
    }
}

/// A match in what is left of a text behind `base` is a match in the text,
/// `base` further on.
pub proof fn lemma_first_match_skip(s: Seq<char>, p: Seq<char>, base: int, from: int)
    requires
        0 <= base <= s.len(),
        0 <= from,
    ensures
        first_match(s.skip(base), p, from) == if first_match(s, p, base + from) < 0 {
            -1
        } else {
            first_match(s, p, base + from) - base
        },
    decreases s.len() - base - from,
{
    let t = s.skip(base);
    if from + p.len() > t.len() {
    } else {
        assert(t.subrange(from, from + p.len()) =~= s.subrange(base + from, base + from + p.len()));
        if !matches_at(t, p, from) && from < t.len() {
            lemma_first_match_skip(s, p, base, from + 1);
        }
    }
}

/// How many characters to take from a text so that none of the last ones
/// taken is white space.
pub open spec fn trimmed_end_len(s: Seq<char>) -> int {
    s.len() - crate::strings::trailing_spaces(s)
}

/// The number of leading characters of a text that are among the given
/// ones.
pub open spec fn leading_in(s: Seq<char>, set: Seq<char>) -> int
    decreases s.len(),
{
    if s.len() == 0 || !set.contains(s[0]) {
        0
    } else {
        1 + leading_in(s.drop_first(), set)
    }
}

/// The number of trailing characters of a text that are among the given
/// ones.
pub open spec fn trailing_in(s: Seq<char>, set: Seq<char>) -> int
    decreases s.len(),
{
    if s.len() == 0 || !set.contains(s.last()) {
        0
    } else {
        1 + trailing_in(s.drop_last(), set)
    }
}

/// Whether a character is among the given ones.
pub fn char_in(c: char, set: &Vec<char>) -> (r: bool)
    ensures
        r == set@.contains(c),
{
    let mut i: usize = 0;
    while i < set.len()
        invariant
            i <= set.len(),
            forall|j: int| 0 <= j < i ==> set@[j] != c,
        decreases set.len() - i,
    {
        if set[i] == c {
            return true;
        }
        i += 1;
    }
    false
}

proof fn lemma_leading_in(s: Seq<char>, set: Seq<char>, k: int)
    requires
        0 <= k <= s.len(),
        forall|j: int| 0 <= j < k ==> set.contains(#[trigger] s[j]),
        k < s.len() ==> !set.contains(s[k]),
    ensures
        leading_in(s, set) == k,
    decreases k,
{
    if k > 0 {
        let t = s.drop_first();
        assert forall|j: int| 0 <= j < k - 1 implies set.contains(#[trigger] t[j]) by {
            assert(t[j] == s[j + 1]);
        }
        lemma_leading_in(t, set, k - 1);
    }
}

proof fn lemma_trailing_in(s: Seq<char>, set: Seq<char>, k: int)
    requires
        0 <= k <= s.len(),
        forall|j: int| s.len() - k <= j < s.len() ==> set.contains(#[trigger] s[j]),
        k < s.len() ==> !set.contains(s[s.len() - k - 1]),
    ensures
        trailing_in(s, set) == k,
    decreases k,
{
    if k > 0 {
        let t = s.drop_last();
        assert forall|j: int| t.len() - (k - 1) <= j < t.len() implies set.contains(#[trigger] t[j]) by {
            assert(t[j] == s[j]);
        }
        lemma_trailing_in(t, set, k - 1);
    }
}

/// Counts the leading characters from `from` on that are among the given
/// ones.
pub fn count_leading_in(s: &Vec<char>, from: usize, to: usize, set: &Vec<char>) -> (r: usize)
    requires
        from <= to <= s@.len(),
    ensures
        r == leading_in(s@.subrange(from as int, to as int), set@),
        from + r <= to,
{
    let ghost t = s@.subrange(from as int, to as int);
    let mut k: usize = from;
    while k < to && char_in(s[k], set)
        invariant
            from <= k <= to,
            to <= s@.len(),
            t == s@.subrange(from as int, to as int),
            forall|j: int| 0 <= j < k - from ==> set@.contains(#[trigger] t[j]),
        decreases to - k,
    {
        k += 1;
    }
    proof {
        lemma_leading_in(t, set@, (k - from) as int);
    }
    k - from
}

/// Counts the trailing characters before `to` that are among the given
/// ones.
pub fn count_trailing_in(s: &Vec<char>, from: usize, to: usize, set: &Vec<char>) -> (r: usize)
    requires
        from <= to <= s@.len(),
    ensures
        r == trailing_in(s@.subrange(from as int, to as int), set@),
        from + r <= to,
{
    let ghost t = s@.subrange(from as int, to as int);
    let mut k: usize = to;
    while k > from && char_in(s[k - 1], set)
        invariant
            from <= k <= to,
            to <= s@.len(),
            t == s@.subrange(from as int, to as int),
            forall|j: int| k - from <= j < to - from ==> set@.contains(#[trigger] t[j]),
        decreases k,
    {
        k -= 1;
    }
    proof {
        lemma_trailing_in(t, set@, (to - k) as int);
    }
    to - k
}

/// A text without its leading and trailing characters that are among the
/// given ones.
pub open spec fn trimmed_of(s: Seq<char>, set: Seq<char>) -> Seq<char> {
    let a = leading_in(s, set);
    let rest = s.skip(a);
    rest.take(rest.len() - trailing_in(rest, set))
}

/// A text without its leading characters that are among the given ones.
pub open spec fn trimmed_start_of(s: Seq<char>, set: Seq<char>) -> Seq<char> {
    s.skip(leading_in(s, set))
}

/// A text without its trailing characters that are among the given ones.
pub open spec fn trimmed_end_of(s: Seq<char>, set: Seq<char>) -> Seq<char> {
    s.take(s.len() - trailing_in(s, set))
}

/// Trims a text at both ends.
pub fn trim_text(s: &str, set: &Vec<char>) -> (r: String)
    ensures
        r@ == trimmed_of(s@, set@),
{
    let v = to_chars(s);
    assert(v@.subrange(0, v@.len() as int) =~= v@);
    let a = count_leading_in(&v, 0, v.len(), set);
    let b = count_trailing_in(&v, a, v.len(), set);
    assert(v@.subrange(a as int, v@.len() as int) =~= v@.skip(a as int));
    let r = from_chars_range(&v, a, v.len() - b);
    assert(v@.subrange(a as int, v@.len() - b) =~= trimmed_of(s@, set@));
    r
}

/// Trims a text at its start.
pub fn trim_text_start(s: &str, set: &Vec<char>) -> (r: String)
    ensures
        r@ == trimmed_start_of(s@, set@),
{
    let v = to_chars(s);
    assert(v@.subrange(0, v@.len() as int) =~= v@);
    let a = count_leading_in(&v, 0, v.len(), set);
    let r = from_chars_range(&v, a, v.len());
    assert(v@.subrange(a as int, v@.len() as int) =~= v@.skip(a as int));
    r
}

/// Trims a text at its end.
pub fn trim_text_end(s: &str, set: &Vec<char>) -> (r: String)
    ensures
        r@ == trimmed_end_of(s@, set@),
{
    let v = to_chars(s);
    assert(v@.subrange(0, v@.len() as int) =~= v@);
    let b = count_trailing_in(&v, 0, v.len(), set);
    let r = from_chars_range(&v, 0, v.len() - b);
    assert(v@.subrange(0, v@.len() - b) =~= v@.take(v@.len() - b));
    r
}

/// Replaces the occurrences of `from` in a text by `to`.
#[verifier::loop_isolation(false)]
pub fn replace_text(s: &str, from: &str, to: &str) -> (r: String)
    ensures
        r@ == replaced(s@, from@, to@),
{
    let v = to_chars(s);
    let f = to_chars(from);
    let t = to_chars(to);
    let mut out: Vec<char> = Vec::new();
    if f.len() == 0 {
        let mut i: usize = 0;
        assert(v@.skip(0) =~= v@);
        assert(out@ + replaced(v@, f@, t@) =~= replaced(v@, f@, t@));
        while i < v.len()
            invariant
                i <= v.len(),
                f@.len() == 0,
                out@ + replaced(v@.skip(i as int), f@, t@) == replaced(v@, f@, t@),
            decreases v.len() - i,
        {
            let ghost before = out@;
            push_all(&mut out, &t);
            out.push(v[i]);
            proof {
                let rest = v@.skip(i as int);
                assert(rest.drop_first() =~= v@.skip(i + 1));
                assert(rest[0] == v@[i as int]);
                assert(out@ + replaced(v@.skip(i + 1), f@, t@) =~= before + (t@ + seq![v@[i as int]] + replaced(
                    v@.skip(i + 1),
                    f@,
                    t@,
                )));
            }
            i += 1;
        }
        let ghost before = out@;
        push_all(&mut out, &t);
        assert(v@.skip(v@.len() as int) =~= Seq::<char>::empty());
        let r = crate::strings::from_chars(&out);
        return r;
    }
    let mut i: usize = 0;
    let mut done = false;
    assert(v@.skip(0) =~= v@);
    assert(out@ + replaced(v@, f@, t@) =~= replaced(v@, f@, t@));
    while !done
        invariant
            i <= v.len(),
            f@.len() > 0,
            !done ==> out@ + replaced(v@.skip(i as int), f@, t@) == replaced(v@, f@, t@),
            done ==> out@ == replaced(v@, f@, t@),
        decreases
            if done {
                0
            } else {
                v.len() - i + 1
            },
    {
        let ghost before = out@;
        let ghost rest = v@.skip(i as int);
        proof {
            lemma_first_match_skip(v@, f@, i as int, 0);
        }
        match find_from(&v, &f, i) {
            None => {
                push_range(&mut out, &v, i, v.len());
                assert(v@.subrange(i as int, v@.len() as int) =~= rest);
                done = true;
            },
            Some(k) => {
                push_range(&mut out, &v, i, k);
                push_all(&mut out, &t);
                proof {
                    assert(first_match(rest, f@, 0) == k - i);
                    assert(rest.take(k - i) =~= v@.subrange(i as int, k as int));
                    assert(rest.skip(k - i + f@.len()) =~= v@.skip(k + f@.len()));
                    assert(out@ + replaced(v@.skip(k + f@.len()), f@, t@) =~= before + (rest.take(k - i) + t@
                        + replaced(rest.skip(k - i + f@.len()), f@, t@)));
                }
                i = k + f.len();
            },
        }
    }
    crate::strings::from_chars(&out)
}

/// Appends the characters of `t`.
pub fn push_all(out: &mut Vec<char>, t: &Vec<char>)
    ensures
        final(out)@ == old(out)@ + t@,
{
    push_range(out, t, 0, t.len());
    assert(t@.subrange(0, t@.len() as int) =~= t@);
}

/// Appends the characters of `v` from `from` up to `to`.
pub fn push_range(out: &mut Vec<char>, v: &Vec<char>, from: usize, to: usize)
    requires
        from <= to <= v@.len(),
    ensures
        final(out)@ == old(out)@ + v@.subrange(from as int, to as int),
{
    let ghost before = out@;
    let mut i: usize = from;
    while i < to
        invariant
            from <= i <= to,
            to <= v@.len(),
            out@ == before + v@.subrange(from as int, i as int),
        decreases to - i,
    {
        out.push(v[i]);
        assert(before + v@.subrange(from as int, i + 1) =~= (before + v@.subrange(from as int, i as int)).push(
            v@[i as int],
        ));
        i += 1;
    }
}

/// The part of a text with the given number when the text is split at a
/// delimiter that is not empty.
#[verifier::loop_isolation(false)]
pub fn split_part_text(s: &str, delim: &str, n: usize) -> (r: String)
    requires
        delim@.len() > 0,
    ensures
        r@ == split_nth(s@, delim@, n as int),
{
    let v = to_chars(s);
    let d = to_chars(delim);
    let mut i: usize = 0;
    let mut left: usize = n;
    assert(v@.skip(0) =~= v@);
    loop
        invariant
            i <= v.len(),
            d@.len() > 0,
            left <= n,
            split_nth(v@, d@, n as int) == split_nth(v@.skip(i as int), d@, left as int),
        decreases v.len() - i + 1, left,
    {
        let ghost rest = v@.skip(i as int);
        proof {
            lemma_first_match_skip(v@, d@, i as int, 0);
        }
        match find_from(&v, &d, i) {
            None => {
                if left == 0 {
                    let r = from_chars_range(&v, i, v.len());
                    assert(v@.subrange(i as int, v@.len() as int) =~= rest);
                    return r;
                } else {
                    return String::new();
                }
            },
            Some(k) => {
                assert(first_match(rest, d@, 0) == k - i);
                if left == 0 {
                    let r = from_chars_range(&v, i, k);
                    assert(rest.take(k - i) =~= v@.subrange(i as int, k as int));
                    return r;
                }
                assert(rest.skip(k - i + d@.len()) =~= v@.skip(k + d@.len()));
                i = k + d.len();
                left -= 1;
            },
        }
    }
}

} // verus!
