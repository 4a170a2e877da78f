//! Keyed datums: sorting them by key and keeping one datum for each key,
//! as a map datum requires.

use vstd::prelude::*;
use crate::datum::{pairs_view, Datum, DatumV};
use crate::order::{order_text, text_order, Order};

verus! {

/// A key with its value, as values.
pub type PairV = (Seq<char>, DatumV);

/// `x` put into `s` behind the last pair whose key is not above its key.
pub open spec fn pair_insert_stable(s: Seq<PairV>, x: PairV) -> Seq<PairV>
    decreases s.len(),
{
    if s.len() == 0 {
        seq![x]
    } else if text_order(x.0, s.last().0, 0) == Order::Less {
        pair_insert_stable(s.drop_last(), x).push(s.last())
    } else {
        s.push(x)
    }
}

/// The pairs in ascending order of their keys, pairs of one key in the order
/// in which they came.
pub open spec fn pairs_sorted(s: Seq<PairV>) -> Seq<PairV>
    decreases s.len(),
{
    if s.len() == 0 {
        Seq::empty()
    } else {
        pair_insert_stable(pairs_sorted(s.drop_last()), s.last())
    }
}

/// Of each run of pairs with one key, the last.
pub open spec fn dedup_keep_last(s: Seq<PairV>) -> Seq<PairV>
    decreases s.len(),
{
    if s.len() == 0 {
        Seq::empty()
    } else {
        let rest = dedup_keep_last(s.drop_last());
        if rest.len() > 0 && rest.last().0 == s.last().0 {
            rest.drop_last().push(s.last())
        } else {
            rest.push(s.last())
        }
    }
}

/// Of each run of pairs with one key, the first.
pub open spec fn dedup_keep_first(s: Seq<PairV>) -> Seq<PairV>
    decreases s.len(),
{
    if s.len() == 0 {
        Seq::empty()
    } else {
        let rest = dedup_keep_first(s.drop_last());
        if rest.len() > 0 && rest.last().0 == s.last().0 {
            rest
        } else {
            rest.push(s.last())
        }
    }
}

/// Inserting behind the pairs that are not above `x` and before those that
/// are is what `pair_insert_stable` does.
pub proof fn lemma_pair_insert_at(s: Seq<PairV>, x: PairV, k: int)
    requires
        0 <= k <= s.len(),
        forall|j: int| k <= j < s.len() ==> text_order(x.0, (#[trigger] s[j]).0, 0) == Order::Less,
        k > 0 ==> text_order(x.0, s[k - 1].0, 0) != Order::Less,
    ensures
        pair_insert_stable(s, x) == s.insert(k, x),
    decreases s.len(),
{
    if s.len() == 0 {
        assert(s.insert(k, x) =~= seq![x]);
    } else if k == s.len() {
        assert(s.insert(k, x) =~= s.push(x));
    } else {
        assert(text_order(x.0, s[s.len() - 1].0, 0) == Order::Less);
        lemma_pair_insert_at(s.drop_last(), x, k);
        assert(s.insert(k, x) =~= s.drop_last().insert(k, x).push(s.last()));
    }
}

/// Sorts pairs by their keys, leaving pairs of one key in their order.
pub fn sort_pairs(pairs: &Vec<(String, Datum)>) -> (r: Vec<(String, Datum)>)
    ensures
        pairs_view(r@) == pairs_sorted(pairs_view(pairs@)),
{
    let ghost s = pairs_view(pairs@);
    let mut out: Vec<(String, Datum)> = Vec::new();
    let mut i: usize = 0;
    while i < pairs.len()
        invariant
            i <= pairs.len(),
            s == pairs_view(pairs@),
            pairs_view(out@) == pairs_sorted(s.take(i as int)),
            out.len() <= i,
        decreases pairs.len() - i,
    {
        let key = pairs[i].0.clone();
        let value = pairs[i].1.clone();
        let ghost x: PairV = (key@, value@);
        let ghost before = pairs_view(out@);
        let mut k: usize = out.len();
        while k > 0 && order_text(key.as_str(), out[k - 1].0.as_str()) == Order::Less
            invariant
                k <= out.len(),
                before == pairs_view(out@),
                x.0 == key@,
                forall|j: int| k <= j < out.len() ==> text_order(x.0, (#[trigger] before[j]).0, 0) == Order::Less,
            decreases k,
        {
            k -= 1;
        }
        proof {
            lemma_pair_insert_at(before, x, k as int);
            assert(s.take(i + 1).drop_last() =~= s.take(i as int));
            assert(s.take(i + 1).last() == x);
        }
        out.insert(k, (key, value));
        assert(pairs_view(out@) =~= before.insert(k as int, x));
        i += 1;
    }
    assert(s.take(pairs.len() as int) =~= s);
    out
}

/// Keeps the last pair of each run of pairs with one key.
pub fn keep_last(pairs: Vec<(String, Datum)>) -> (r: Vec<(String, Datum)>)
    ensures
        pairs_view(r@) == dedup_keep_last(pairs_view(pairs@)),
{
    let ghost s = pairs_view(pairs@);
    let mut out: Vec<(String, Datum)> = Vec::new();
    let mut i: usize = 0;
    while i < pairs.len()
        invariant
            i <= pairs.len(),
            s == pairs_view(pairs@),
            pairs_view(out@) == dedup_keep_last(s.take(i as int)),
        decreases pairs.len() - i,
    {
        let key = pairs[i].0.clone();
        let value = pairs[i].1.clone();
        let ghost before = pairs_view(out@);
        proof {
            assert(s.take(i + 1).drop_last() =~= s.take(i as int));
            assert(s.take(i + 1).last() == (key@, value@));
        }
        let n = out.len();
        if n > 0 && out[n - 1].0 == key {
            assert(before.last().0 == key@);
            out.pop();
            assert(pairs_view(out@) =~= before.drop_last());
            let ghost mid = pairs_view(out@);
            out.push((key, value));
            assert(pairs_view(out@) =~= mid.push((key@, value@)));
        } else {
            out.push((key, value));
            assert(pairs_view(out@) =~= before.push((key@, value@)));
        }
        i += 1;
    }
    assert(s.take(pairs.len() as int) =~= s);
    out
}

/// Keeps the first pair of each run of pairs with one key.
pub fn keep_first(pairs: Vec<(String, Datum)>) -> (r: Vec<(String, Datum)>)
    ensures
        pairs_view(r@) == dedup_keep_first(pairs_view(pairs@)),
{
    let ghost s = pairs_view(pairs@);
    let mut out: Vec<(String, Datum)> = Vec::new();
    let mut i: usize = 0;
    while i < pairs.len()
        invariant
            i <= pairs.len(),
            s == pairs_view(pairs@),
            pairs_view(out@) == dedup_keep_first(s.take(i as int)),
        decreases pairs.len() - i,
    {
        let ghost before = pairs_view(out@);
        proof {
            assert(s.take(i + 1).drop_last() =~= s.take(i as int));
            assert(s.take(i + 1).last() == s[i as int]);
        }
        let n = out.len();
        if n > 0 && out[n - 1].0 == pairs[i].0 {
            assert(before.last().0 == s[i as int].0);
        } else {
            let key = pairs[i].0.clone();
            let value = pairs[i].1.clone();
            out.push((key, value));
            assert(pairs_view(out@) =~= before.push(s[i as int]));
        }
        i += 1;
    }
    assert(s.take(pairs.len() as int) =~= s);
    out
}

/// The value of the first pair with the given key, if there is one.
pub open spec fn lookup(s: Seq<PairV>, key: Seq<char>) -> Option<DatumV>
    decreases s.len(),
{
    if s.len() == 0 {
        None
    } else if s[0].0 == key {
        Some(s[0].1)
    } else {
        lookup(s.drop_first(), key)
    }
}

/// Finds the first pair with the given key.
pub fn find_key<'a>(pairs: &'a Vec<(String, Datum)>, key: &str) -> (r: Option<&'a Datum>)
    ensures
        match r {
            Some(d) => lookup(pairs_view(pairs@), key@) == Some(d@),
            None => lookup(pairs_view(pairs@), key@) is None,
        },
{
    let ghost s = pairs_view(pairs@);
    assert(s.skip(0) =~= s);
    let mut i: usize = 0;
    while i < pairs.len()
        invariant
            i <= pairs.len(),
            s == pairs_view(pairs@),
            lookup(s, key@) == lookup(s.skip(i as int), key@),
        decreases pairs.len() - i,
    {
        proof {
            assert(s.skip(i as int).drop_first() =~= s.skip(i + 1));
            assert(s.skip(i as int)[0] == s[i as int]);
        }
        if same_text(pairs[i].0.as_str(), key) {
            return Some(&pairs[i].1);
        }
        i += 1;
    }
    None
}

/// Whether two texts are the same.
pub fn same_text(a: &str, b: &str) -> (r: bool)
    ensures
        r == (a@ == b@),
{
    let la = a.unicode_len();
    let lb = b.unicode_len();
    if la != lb {
        return false;
    }
    let mut i: usize = 0;
    while i < la
        invariant
            la == a@.len(),
            lb == b@.len(),
            la == lb,
            i <= la,
            forall|j: int| 0 <= j < i ==> a@[j] == b@[j],
        decreases la - i,
    {
        if a.get_char(i) != b.get_char(i) {
            return false;
        }
        i += 1;
    }
    assert(a@ =~= b@);
    true
}

} // verus!
