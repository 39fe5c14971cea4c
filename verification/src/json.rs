//! A plain model of JSON values.
//!
//! Vendor token endpoints answer with JSON. The library holds such a payload
//! in its own `Json` type so that contracts can speak about its structure:
//! which keys an object carries, what value a key maps to, and what remains
//! after a secret field is scrubbed. An object is a sequence of key/value
//! pairs in insertion order; a well-formed vendor payload has unique keys,
//! and lookup takes the first match.
use vstd::prelude::*;

verus! {

/// A JSON value, with numbers restricted to integers (the only numeric
/// fields in token responses, such as `expires_in`, are integral).
pub enum Json {
    Null,
    Bool(bool),
    Int(i64),
    Str(String),
    Arr(Vec<Json>),
    Obj(Vec<(String, Json)>),
}

/// Whether some pair in `entries` has key `key`.
pub open spec fn obj_has_key(entries: Seq<(String, Json)>, key: Seq<char>) -> bool {
    exists|i: int| 0 <= i < entries.len() && entries[i].0@ == key
}

/// The value of the first pair in `entries` whose key is `key`.
pub open spec fn obj_lookup(entries: Seq<(String, Json)>, key: Seq<char>) -> Json
    recommends
        obj_has_key(entries, key),
    decreases entries.len(),
{
    if entries.len() == 0 {
        Json::Null
    } else if entries[0].0@ == key {
        entries[0].1
    } else {
        obj_lookup(entries.drop_first(), key)
    }
}

/// `entries` with every pair keyed `key` removed, order otherwise kept.
pub open spec fn remove_key(entries: Seq<(String, Json)>, key: Seq<char>) -> Seq<(String, Json)>
    decreases entries.len(),
{
    if entries.len() == 0 {
        Seq::empty()
    } else {
        let rest = remove_key(entries.drop_first(), key);
        if entries[0].0@ == key {
            rest
        } else {
            seq![entries[0]] + rest
        }
    }
}

/// Skipping a prefix in which `key` does not occur changes neither whether
/// `key` occurs nor what it maps to.
proof fn lemma_lookup_skip(entries: Seq<(String, Json)>, key: Seq<char>, i: int)
    requires
        0 <= i <= entries.len(),
        forall|j: int| 0 <= j < i ==> entries[j].0@ != key,
    ensures
        obj_has_key(entries, key) <==> obj_has_key(entries.skip(i), key),
        obj_has_key(entries, key) ==> obj_lookup(entries, key) == obj_lookup(
            entries.skip(i),
            key,
        ),
    decreases i,
{
    if i > 0 {
        let rest = entries.drop_first();
        assert(rest.skip(i - 1) =~= entries.skip(i));
        assert forall|j: int| 0 <= j < i - 1 implies rest[j].0@ != key by {
            assert(rest[j] == entries[j + 1]);
        }
        if obj_has_key(entries, key) {
            let w = choose|w: int| 0 <= w < entries.len() && entries[w].0@ == key;
            assert(rest[w - 1] == entries[w]);
            assert(obj_has_key(rest, key));
        }
        if obj_has_key(rest, key) {
            let w = choose|w: int| 0 <= w < rest.len() && rest[w].0@ == key;
            assert(entries[w + 1] == rest[w]);
            assert(obj_has_key(entries, key));
        }
        lemma_lookup_skip(rest, key, i - 1);
    } else {
        assert(entries.skip(0) =~= entries);
    }
}

/// The value the first pair keyed `key` carries, or `None` when no pair
/// has that key.
pub fn obj_get<'a>(entries: &'a Vec<(String, Json)>, key: &String) -> (r: Option<&'a Json>)
    ensures
        r is Some <==> obj_has_key(entries@, key@),
        (r matches Some(v) ==> *v == obj_lookup(entries@, key@)),
{
    let n: usize = entries.len();
    let mut i: usize = 0;
    while i < n
        invariant
            n == entries@.len(),
            i <= n,
            forall|j: int| 0 <= j < i ==> entries@[j].0@ != key@,
        decreases n - i,
    {
        let pair = &entries[i];
        if pair.0 == *key {
            proof {
                lemma_lookup_skip(entries@, key@, i as int);
                assert(entries@.skip(i as int)[0] == entries@[i as int]);
                assert(obj_has_key(entries@, key@));
            }
            return Some(&pair.1);
        }
        i += 1;
    }
    None
}

/// `entries` with every pair keyed `key` taken out, the rest kept in
/// order.
pub fn remove_obj_key(entries: Vec<(String, Json)>, key: &String) -> (r: Vec<(String, Json)>)
    ensures
        r@ == remove_key(entries@, key@),
{
    let ghost orig = entries@;
    let mut v = entries;
    let mut out: Vec<(String, Json)> = Vec::new();
    while v.len() > 0
        invariant
            remove_key(orig, key@) == out@ + remove_key(v@, key@),
        decreases v@.len(),
    {
        let ghost before = v@;
        let ghost out_before = out@;
        let e = v.remove(0);
        proof {
            assert(v@ =~= before.drop_first());
        }
        if e.0 == *key {
            proof {
                assert(remove_key(before, key@) == remove_key(v@, key@));
            }
        } else {
            out.push(e);
            proof {
                assert(out@ =~= out_before + seq![e]);
                assert(remove_key(before, key@) == seq![e] + remove_key(v@, key@));
                assert(out_before + (seq![e] + remove_key(v@, key@)) =~= (out_before + seq![e])
                    + remove_key(v@, key@));
            }
        }
    }
    proof {
        assert(out@ + remove_key(v@, key@) =~= out@);
    }
    out
}

/// Where no pair in `entries` has key `key`, removal changes nothing.
proof fn lemma_remove_key_absent(entries: Seq<(String, Json)>, key: Seq<char>)
    requires
        forall|i: int| 0 <= i < entries.len() ==> entries[i].0@ != key,
    ensures
        remove_key(entries, key) == entries,
    decreases entries.len(),
{
    if entries.len() > 0 {
        let rest = entries.drop_first();
        assert forall|j: int| 0 <= j < rest.len() implies rest[j].0@ != key by {
            assert(rest[j] == entries[j + 1]);
        }
        lemma_remove_key_absent(rest, key);
        assert(seq![entries[0]] + rest =~= entries);
    }
}

/// Removal leaves no pair with the removed key behind.
proof fn lemma_remove_key_removes(entries: Seq<(String, Json)>, key: Seq<char>)
    ensures
        forall|i: int|
            0 <= i < remove_key(entries, key).len() ==> remove_key(entries, key)[i].0@ != key,
    decreases entries.len(),
{
    if entries.len() > 0 {
        let rest = remove_key(entries.drop_first(), key);
        lemma_remove_key_removes(entries.drop_first(), key);
        if entries[0].0@ != key {
            assert forall|i: int|
                0 <= i < remove_key(entries, key).len() implies remove_key(entries, key)[i].0@
                != key by {
                if i > 0 {
                    assert(remove_key(entries, key)[i] == rest[i - 1]);
                }
            }
        }
    }
}

/// Removing a key is idempotent: the result carries no pair with that
/// key, so removing it once more returns the result unchanged.
pub proof fn lemma_remove_key_idempotent(entries: Seq<(String, Json)>, key: Seq<char>)
    ensures
        !obj_has_key(remove_key(entries, key), key),
        remove_key(remove_key(entries, key), key) == remove_key(entries, key),
{
    lemma_remove_key_removes(entries, key);
    lemma_remove_key_absent(remove_key(entries, key), key);
}

} // verus!
