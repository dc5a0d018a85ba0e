//! The path extractor: walking nested table lookups along a dotted pattern.

use vstd::prelude::*;
use vstd::string::StrSliceExecFns;
use vstd::string::StringExecFns;

use crate::error::ToError;
use crate::value::lookup;
use crate::value::Value;

verus! {

/// The pattern with every leading `.` removed.
pub open spec fn strip_dots(p: Seq<char>) -> Seq<char>
    decreases p.len(),
{
    if p.len() > 0 && p[0] == '.' {
        strip_dots(p.drop_first())
    } else {
        p
    }
}

/// Splitting on `.`, read left to right: `cur` is the segment read so far.
/// Empty segments are kept, so `a..b` splits into `a`, the empty segment,
/// and `b`, and the empty pattern splits into one empty segment.
pub open spec fn split_from(p: Seq<char>, cur: Seq<char>) -> Seq<Seq<char>>
    decreases p.len(),
{
    if p.len() == 0 {
        seq![cur]
    } else if p[0] == '.' {
        seq![cur] + split_from(p.drop_first(), Seq::empty())
    } else {
        split_from(p.drop_first(), cur.push(p[0]))
    }
}

/// The segments of a stripped pattern.
pub open spec fn split_dots(p: Seq<char>) -> Seq<Seq<char>> {
    split_from(p, Seq::empty())
}

/// The fold of table lookups over the remaining segments: once a lookup has
/// failed the accumulator stays empty, whatever segments remain.
pub open spec fn fold_lookup(acc: Option<Value>, segs: Seq<Seq<char>>) -> Option<Value>
    decreases segs.len(),
{
    if segs.len() == 0 {
        acc
    } else {
        let next = match acc {
            Some(v) => lookup(v, segs[0]),
            None => None,
        };
        fold_lookup(next, segs.drop_first())
    }
}

/// A pattern that denotes the document root itself: the empty pattern, or
/// the single character `.`.
pub open spec fn is_root_pattern(p: Seq<char>) -> bool {
    p.len() == 0 || (p.len() == 1 && p[0] == '.')
}

/// What extraction returns: the root for a root pattern, and otherwise the
/// fold of lookups over the segments of the stripped pattern.
pub open spec fn spec_extract(d: Value, p: Seq<char>) -> Option<Value> {
    if is_root_pattern(p) {
        Some(d)
    } else {
        fold_lookup(Some(d), split_dots(strip_dots(p)))
    }
}

/// The views of a vector of owned segments.
pub open spec fn views_of(ss: Seq<String>) -> Seq<Seq<char>> {
    Seq::new(ss.len(), |i: int| ss[i]@)
}

/// The borrowed accumulator, as a value.
pub open spec fn acc_value(acc: Option<&Value>) -> Option<Value> {
    match acc {
        Some(v) => Some(*v),
        None => None,
    }
}

/// Stripping leading dots reaches the first non-dot position.
proof fn lemma_strip_dots_at(p: Seq<char>, i: int)
    requires
        0 <= i <= p.len(),
        forall|k: int| 0 <= k < i ==> p[k] == '.',
        i < p.len() ==> p[i] != '.',
    ensures
        strip_dots(p) == p.skip(i),
    decreases i,
{
    if i == 0 {
        assert(p.skip(0) =~= p);
    } else {
        assert(p[0] == '.');
        let q = p.drop_first();
        assert(forall|k: int| 0 <= k < i - 1 ==> q[k] == p[k + 1] && q[k] == '.');
        lemma_strip_dots_at(q, i - 1);
        assert(q.skip(i - 1) =~= p.skip(i));
    }
}

/// Locates the sub-value of `toml_file` under the dot-separated `pattern`.
///
/// The empty pattern and the pattern `.` return the document root. Any other
/// pattern has its leading dots stripped and is split on `.`; the segments
/// are looked up in turn, each in the table the previous one reached. When
/// any lookup fails the result is a pattern-not-found error carrying the
/// stripped pattern.
pub fn extract_pattern<'a>(toml_file: &'a Value, pattern: &str) -> (r: Result<&'a Value, ToError>)
    ensures
        r is Ok <==> spec_extract(*toml_file, pattern@) is Some,
        (r matches Ok(v) ==> spec_extract(*toml_file, pattern@) == Some(*v)),
        (r matches Err(e) ==> e matches ToError::PatternNotFoundError { pattern: q } && q@
            == strip_dots(pattern@)),
{
    let n = pattern.unicode_len();
    if n == 0 {
        return Ok(toml_file);
    }
    if n == 1 && pattern.get_char(0) == '.' {
        return Ok(toml_file);
    }
    // Strip the leading dots.
    let mut i: usize = 0;
    while i < n && pattern.get_char(i) == '.'
        invariant
            i <= n,
            n == pattern@.len(),
            forall|k: int| 0 <= k < i ==> pattern@[k] == '.',
        decreases n - i,
    {
        i += 1;
    }
    let stripped: &str = pattern.substring_char(i, n);
    proof {
        lemma_strip_dots_at(pattern@, i as int);
        assert(pattern@.skip(i as int) =~= pattern@.subrange(i as int, n as int));
        assert(stripped@ == strip_dots(pattern@));
    }
    // Split the stripped pattern on `.` into its segments.
    let m = n - i;
    let mut segs: Vec<String> = Vec::new();
    let mut start: usize = 0;
    let mut j: usize = 0;
    proof {
        assert(stripped@.skip(0) =~= stripped@);
        assert(stripped@.subrange(0, 0) =~= Seq::<char>::empty());
        assert(views_of(segs@) =~= Seq::<Seq<char>>::empty());
        assert(views_of(segs@) + split_from(stripped@, Seq::empty()) =~= split_from(
            stripped@,
            Seq::empty(),
        ));
    }
    while j < m
        invariant
            start <= j <= m,
            m == stripped@.len(),
            split_dots(stripped@) == views_of(segs@) + split_from(
                stripped@.skip(j as int),
                stripped@.subrange(start as int, j as int),
            ),
        decreases m - j,
    {
        let ghost p = stripped@;
        let ghost rem = p.skip(j as int);
        let ghost cur = p.subrange(start as int, j as int);
        proof {
            assert(rem[0] == p[j as int]);
            assert(rem.drop_first() =~= p.skip(j as int + 1));
        }
        let c = stripped.get_char(j);
        if c == '.' {
            let seg = String::from_str(stripped.substring_char(start, j));
            proof {
                assert(split_from(rem, cur) == seq![cur] + split_from(
                    rem.drop_first(),
                    Seq::empty(),
                ));
                assert(views_of(segs@.push(seg)) =~= views_of(segs@).push(cur));
                assert(views_of(segs@).push(cur) + split_from(
                    p.skip(j as int + 1),
                    Seq::empty(),
                ) =~= views_of(segs@) + (seq![cur] + split_from(p.skip(j as int + 1), Seq::empty())));
                assert(p.subrange(j as int + 1, j as int + 1) =~= Seq::<char>::empty());
            }
            segs.push(seg);
            start = j + 1;
        } else {
            proof {
                assert(split_from(rem, cur) == split_from(rem.drop_first(), cur.push(p[j as int])));
                assert(cur.push(p[j as int]) =~= p.subrange(start as int, j as int + 1));
            }
        }
        j += 1;
    }
    let last = String::from_str(stripped.substring_char(start, m));
    proof {
        let p = stripped@;
        assert(p.skip(m as int).len() == 0);
        assert(split_from(p.skip(m as int), p.subrange(start as int, m as int)) == seq![
            p.subrange(start as int, m as int),
        ]);
        assert(views_of(segs@.push(last)) =~= views_of(segs@) + seq![
            p.subrange(start as int, m as int),
        ]);
    }
    segs.push(last);
    proof {
        assert(views_of(segs@) == split_dots(stripped@));
    }
    // Fold the lookups over the segments.
    let nsegs = segs.len();
    let mut acc: Option<&'a Value> = Some(toml_file);
    let mut k: usize = 0;
    proof {
        assert(views_of(segs@).skip(0) =~= views_of(segs@));
    }
    while k < nsegs
        invariant
            k <= nsegs,
            nsegs == segs@.len(),
            fold_lookup(Some(*toml_file), views_of(segs@)) == fold_lookup(
                acc_value(acc),
                views_of(segs@).skip(k as int),
            ),
        decreases nsegs - k,
    {
        let ghost vs = views_of(segs@);
        proof {
            assert(vs.skip(k as int)[0] == vs[k as int]);
            assert(vs[k as int] == segs@[k as int]@);
            assert(vs.skip(k as int).drop_first() =~= vs.skip(k as int + 1));
        }
        acc = match acc {
            Some(v) => v.get(segs[k].as_str()),
            None => None,
        };
        k += 1;
    }
    proof {
        assert(views_of(segs@).skip(nsegs as int).len() == 0);
        assert(fold_lookup(Some(*toml_file), views_of(segs@)) == acc_value(acc));
    }
    match acc {
        Some(v) => Ok(v),
        None => Err(
            ToError::PatternNotFoundError { pattern: String::from_str(stripped) },
        ),
    }
}

} // verus!
