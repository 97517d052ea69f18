//! A plain tree model of a parsed JSON document, and the parsing step that
//! produces one from response bytes.
//!
//! The tree holds only plain values, so every rule that reads it — error
//! classification, typed decoding — is stated and verified over it. Numbers
//! are kept as signed 64-bit integers, which covers everything this API
//! sends for the models the library decodes.

use vstd::prelude::*;

verus! {

/// One node of a parsed JSON document.
pub enum JsonValue {
    Null,
    Bool(bool),
    /// An integral JSON number. A number outside the signed 64-bit range,
    /// or with a fractional part, is represented as `Null`, which no decode
    /// rule of this library accepts where a number is expected.
    Int(i64),
    Str(String),
    Array(Vec<JsonValue>),
    /// The members of a JSON object, in document order.
    Object(Vec<(String, JsonValue)>),
}

/// The value under key `k`, taking the last occurrence when a key repeats,
/// as a later member of a JSON object overwrites an earlier one.
pub open spec fn spec_lookup(es: Seq<(String, JsonValue)>, k: Seq<char>) -> Option<JsonValue>
    decreases es.len(),
{
    if es.len() == 0 {
        None
    } else if es.last().0@ == k {
        Some(es.last().1)
    } else {
        spec_lookup(es.drop_last(), k)
    }
}

/// Looking a key up after appending one member: the new member answers
/// for its own key and for nothing else.
pub proof fn lemma_lookup_push(es: Seq<(String, JsonValue)>, e: (String, JsonValue), k: Seq<char>)
    ensures
        spec_lookup(es.push(e), k) == (if e.0@ == k {
            Some(e.1)
        } else {
            spec_lookup(es, k)
        }),
{
    assert(es.push(e).last() == e);
    assert(es.push(e).drop_last() =~= es);
}

/// Looks a key up among an object's members; the last occurrence wins.
pub fn lookup<'a>(es: &'a Vec<(String, JsonValue)>, key: &String) -> (r: Option<&'a JsonValue>)
    ensures
        match r {
            Some(v) => spec_lookup(es@, key@) == Some(*v),
            None => spec_lookup(es@, key@) is None,
        },
{
    let n = es.len();
    proof {
        assert(es@.take(n as int) =~= es@);
    }
    let mut i: usize = n;
    while i > 0
        invariant
            i <= n,
            n == es.len(),
            spec_lookup(es@, key@) == spec_lookup(es@.take(i as int), key@),
        decreases i,
    {
        i = i - 1;
        if es[i].0 == *key {
            proof {
                let cur = es@.take(i + 1);
                assert(cur.last() == es@[i as int]);
                assert(spec_lookup(cur, key@) == Some(es@[i as int].1));
            }
            return Some(&es[i].1);
        }
        proof {
            let cur = es@.take(i + 1);
            assert(cur.last() == es@[i as int]);
            assert(cur.drop_last() =~= es@.take(i as int));
        }
    }
    proof {
        assert(es@.take(0) =~= Seq::<(String, JsonValue)>::empty());
    }
    None
}

} // verus!
