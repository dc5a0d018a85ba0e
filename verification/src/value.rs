//! The document model: a tree of primitive values, arrays and tables.

use vstd::prelude::*;
use vstd::string::StrSliceExecFns;

verus! {

/// A parsed configuration document: a tagged union over the primitive and
/// container shapes a TOML document can hold.
///
/// A table is an ordered sequence of key/value entries, so insertion order is
/// preserved; a lookup takes the first entry with a matching key. A float is
/// carried as its decimal text rendering and a datetime as its text
/// rendering, so the tree itself holds plain values only.
#[derive(Debug, PartialEq)]
pub enum Value {
    String(String),
    Integer(i64),
    Float(String),
    Boolean(bool),
    Datetime(String),
    Array(Vec<Value>),
    Table(Vec<(String, Value)>),
}

/// The first entry of `entries` whose key is `key`, if any.
pub open spec fn lookup_entries(entries: Seq<(String, Value)>, key: Seq<char>) -> Option<Value>
    decreases entries.len(),
{
    if entries.len() == 0 {
        None
    } else if entries[0].0@ == key {
        Some(entries[0].1)
    } else {
        lookup_entries(entries.drop_first(), key)
    }
}

/// What a single table lookup yields: the entry under `key` where `v` is a
/// table; any other value yields nothing, so a missing key and a non-table
/// value fail alike.
pub open spec fn lookup(v: Value, key: Seq<char>) -> Option<Value> {
    match v {
        Value::Table(entries) => lookup_entries(entries@, key),
        _ => None,
    }
}

/// Character-by-character string comparison.
fn str_eq(a: &str, b: &str) -> (r: bool)
    ensures
        r == (a@ == b@),
{
    let n = a.unicode_len();
    if n != b.unicode_len() {
        return false;
    }
    let mut i: usize = 0;
    while i < n
        invariant
            i <= n,
            n == a@.len(),
            n == b@.len(),
            forall|k: int| 0 <= k < i ==> a@[k] == b@[k],
        decreases n - i,
    {
        if a.get_char(i) != b.get_char(i) {
            return false;
        }
        i += 1;
    }
    proof {
        assert(a@ =~= b@);
    }
    true
}

impl Value {
    /// Looks up `key` in this value: the first entry under that key if this
    /// is a table, and nothing otherwise.
    pub fn get<'a>(&'a self, key: &str) -> (r: Option<&'a Value>)
        ensures
            match r {
                Some(v) => lookup(*self, key@) == Some(*v),
                None => lookup(*self, key@) is None,
            },
    {
        match self {
            Value::Table(entries) => {
                let n = entries.len();
                let mut idx: usize = 0;
                proof {
                    assert(entries@.skip(0) =~= entries@);
                }
                while idx < n
                    invariant
                        idx <= n,
                        n == entries@.len(),
                        *self == Value::Table(*entries),
                        lookup_entries(entries@, key@) == lookup_entries(
                            entries@.skip(idx as int),
                            key@,
                        ),
                    decreases n - idx,
                {
                    let e = &entries[idx];
                    if str_eq(e.0.as_str(), key) {
                        proof {
                            assert(entries@.skip(idx as int)[0] == entries@[idx as int]);
                            assert(lookup_entries(entries@.skip(idx as int), key@) == Some(
                                entries@[idx as int].1,
                            ));
                            assert(*self == Value::Table(*entries));
                        }
                        return Some(&e.1);
                    }
                    proof {
                        assert(entries@.skip(idx as int)[0] == entries@[idx as int]);
                        assert(entries@.skip(idx as int).drop_first() =~= entries@.skip(
                            idx as int + 1,
                        ));
                    }
                    idx += 1;
                }
                proof {
                    assert(entries@.skip(idx as int).len() == 0);
                }
                None
            },
            _ => None,
        }
    }
}

} // verus!
