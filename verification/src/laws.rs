//! General properties of extraction, stated and proved over its spec.

use vstd::prelude::*;

use crate::extract::fold_lookup;
use crate::extract::spec_extract;
use crate::extract::split_dots;
use crate::extract::split_from;
use crate::extract::strip_dots;
use crate::value::lookup;
use crate::value::Value;

verus! {

/// A pattern with no dots splits into the one segment it is, appended to
/// whatever was read before it.
proof fn lemma_split_no_dots(p: Seq<char>, cur: Seq<char>)
    requires
        forall|i: int| 0 <= i < p.len() ==> p[i] != '.',
    ensures
        split_from(p, cur) == seq![cur + p],
    decreases p.len(),
{
    if p.len() == 0 {
        assert(cur + p =~= cur);
    } else {
        let q = p.drop_first();
        assert(forall|i: int| 0 <= i < q.len() ==> q[i] == p[i + 1] && q[i] != '.');
        lemma_split_no_dots(q, cur.push(p[0]));
        assert(cur.push(p[0]) + q =~= cur + p);
    }
}

/// A dot-free prefix of the pattern moves whole into the current segment.
proof fn lemma_split_prefix_no_dots(p: Seq<char>, cur: Seq<char>, rest: Seq<char>)
    requires
        forall|i: int| 0 <= i < p.len() ==> p[i] != '.',
    ensures
        split_from(p + rest, cur) == split_from(rest, cur + p),
    decreases p.len(),
{
    if p.len() == 0 {
        assert(p + rest =~= rest);
        assert(cur + p =~= cur);
    } else {
        let whole = p + rest;
        assert(whole.len() > 0);
        assert(whole[0] == p[0]);
        let q = p.drop_first();
        assert(forall|i: int| 0 <= i < q.len() ==> q[i] == p[i + 1] && q[i] != '.');
        assert(whole.drop_first() =~= q + rest);
        lemma_split_prefix_no_dots(q, cur.push(p[0]), rest);
        assert(cur.push(p[0]) + q =~= cur + p);
    }
}

/// Identity: the empty pattern and the pattern `.` both denote the document
/// root, for every document.
pub proof fn lemma_extract_identity(d: Value)
    ensures
        spec_extract(d, Seq::<char>::empty()) == Some(d),
        spec_extract(d, seq!['.']) == Some(d),
{
}

/// A leading dot is transparent: `.p` extracts the same value as `p`. The
/// one pattern left out is the bare `.`, where `.` denotes the root while
/// `..` strips to the empty pattern and looks up an empty key.
pub proof fn lemma_leading_dot(d: Value, p: Seq<char>)
    requires
        !(p.len() == 1 && p[0] == '.'),
    ensures
        spec_extract(d, seq!['.'] + p) == spec_extract(d, p),
{
    let q = seq!['.'] + p;
    if p.len() == 0 {
        assert(q =~= seq!['.']);
    } else {
        assert(q.len() >= 2);
        assert(q[0] == '.');
        assert(q.drop_first() =~= p);
        assert(strip_dots(q) == strip_dots(p));
    }
}

/// A key present at top level is extracted directly, provided the key is
/// non-empty and holds no dot (a dot inside a key would be read as a
/// separator, and the empty pattern denotes the root).
pub proof fn lemma_top_level_key(d: Value, k: Seq<char>, v: Value)
    requires
        lookup(d, k) == Some(v),
        k.len() > 0,
        forall|i: int| 0 <= i < k.len() ==> k[i] != '.',
    ensures
        spec_extract(d, k) == Some(v),
{
    assert(k[0] != '.');
    assert(strip_dots(k) == k);
    lemma_split_no_dots(k, Seq::empty());
    assert(Seq::empty() + k =~= k);
    assert(split_dots(k) == seq![k]);
    assert(seq![k].drop_first() =~= Seq::<Seq<char>>::empty());
    assert(fold_lookup(Some(d), seq![k]) == fold_lookup(Some(v), Seq::empty()));
}

/// Nested lookup: extracting under `k1.k2` is looking up `k1`, then `k2` in
/// what was found, for dot-free keys with `k1` non-empty.
pub proof fn lemma_nested_lookup(d: Value, k1: Seq<char>, k2: Seq<char>)
    requires
        k1.len() > 0,
        forall|i: int| 0 <= i < k1.len() ==> k1[i] != '.',
        forall|i: int| 0 <= i < k2.len() ==> k2[i] != '.',
    ensures
        spec_extract(d, k1 + seq!['.'] + k2) == (match lookup(d, k1) {
            Some(v) => lookup(v, k2),
            None => None,
        }),
{
    let q = k1 + seq!['.'] + k2;
    assert(q.len() >= 2);
    assert(q[0] == k1[0]);
    assert(strip_dots(q) == q);
    let rest = seq!['.'] + k2;
    assert(q =~= k1 + rest);
    lemma_split_prefix_no_dots(k1, Seq::empty(), rest);
    assert(Seq::empty() + k1 =~= k1);
    assert(split_dots(q) == split_from(rest, k1));
    assert(rest[0] == '.');
    assert(rest.drop_first() =~= k2);
    assert(split_from(rest, k1) == seq![k1] + split_from(k2, Seq::empty()));
    lemma_split_no_dots(k2, Seq::empty());
    assert(Seq::empty() + k2 =~= k2);
    let segs = seq![k1] + seq![k2];
    assert(split_dots(q) == segs);
    assert(segs.len() == 2);
    assert(segs[0] == k1);
    assert(segs.drop_first() =~= seq![k2]);
    assert(seq![k2].drop_first() =~= Seq::<Seq<char>>::empty());
    let step1 = lookup(d, k1);
    assert(fold_lookup(Some(d), segs) == fold_lookup(step1, seq![k2]));
    let step2 = match step1 {
        Some(v) => lookup(v, k2),
        None => None,
    };
    assert(fold_lookup(step1, seq![k2]) == fold_lookup(step2, seq![k2].drop_first()));
    assert(fold_lookup(step2, seq![k2].drop_first()) == step2);
}

/// Once a lookup has failed, the remaining segments change nothing: the
/// walk short-circuits to not-found.
pub proof fn lemma_none_propagates(segs: Seq<Seq<char>>)
    ensures
        fold_lookup(None, segs) is None,
    decreases segs.len(),
{
    if segs.len() > 0 {
        lemma_none_propagates(segs.drop_first());
    }
}

/// A value that is not a table resolves no segment: with any segments still
/// to walk, the result is not-found, whatever those segments are.
pub proof fn lemma_non_table_fails(v: Value, segs: Seq<Seq<char>>)
    requires
        !(v is Table),
        segs.len() > 0,
    ensures
        fold_lookup(Some(v), segs) is None,
{
    lemma_none_propagates(segs.drop_first());
}

/// Walking the segments decomposes: the fold over all of them is the fold
/// over a prefix, continued from what the prefix reached.
pub proof fn lemma_fold_decomposes(acc: Option<Value>, segs: Seq<Seq<char>>, j: int)
    requires
        0 <= j <= segs.len(),
    ensures
        fold_lookup(acc, segs) == fold_lookup(fold_lookup(acc, segs.take(j)), segs.skip(j)),
    decreases j,
{
    if j == 0 {
        assert(segs.take(0) =~= Seq::<Seq<char>>::empty());
        assert(segs.skip(0) =~= segs);
    } else {
        let next = match acc {
            Some(v) => lookup(v, segs[0]),
            None => None,
        };
        lemma_fold_decomposes(next, segs.drop_first(), j - 1);
        assert(segs.drop_first().take(j - 1) =~= segs.take(j).drop_first());
        assert(segs.drop_first().skip(j - 1) =~= segs.skip(j));
        assert(segs.take(j)[0] == segs[0]);
        assert(fold_lookup(acc, segs.take(j)) == fold_lookup(next, segs.take(j).drop_first()));
    }
}

/// If any intermediate segment of the walk reaches a value that is not a
/// table while segments remain, the whole walk fails, regardless of the
/// remaining segments.
pub proof fn lemma_intermediate_non_table(d: Value, segs: Seq<Seq<char>>, j: int, v: Value)
    requires
        0 <= j < segs.len(),
        fold_lookup(Some(d), segs.take(j)) == Some(v),
        !(v is Table),
    ensures
        fold_lookup(Some(d), segs) is None,
{
    lemma_fold_decomposes(Some(d), segs, j);
    lemma_non_table_fails(v, segs.skip(j));
}

} // verus!
