//! The JSON value model that events carry through the pipeline.

use vstd::prelude::*;

verus! {

broadcast use vstd::std_specs::vec::group_vec_axioms;

/// A JSON number, as a JSON reader hands it over.
#[derive(Clone, Copy, Debug, PartialEq, Eq, Structural)]
pub enum Num {
    /// A signed integer.
    Int(i64),
    /// An unsigned integer (readers use this for values above `i64::MAX`).
    UInt(u64),
    /// A floating-point number, held as its IEEE-754 binary64 bit pattern.
    Float(u64),
}

/// A JSON value. Objects keep their members in order; their keys are unique.
#[derive(Debug)]
pub enum Json {
    Null,
    Bool(bool),
    Num(Num),
    Str(String),
    Array(Vec<Json>),
    Object(Vec<(String, Json)>),
}

/// The integer that a number denotes, where it is integral and fits in `i64`.
pub open spec fn number_as_i64(n: Num) -> Option<i64> {
    match n {
        Num::Int(i) => Some(i),
        Num::UInt(u) => if u <= i64::MAX as u64 {
            Some(u as i64)
        } else {
            None
        },
        Num::Float(_) => None,
    }
}

/// The integer that a JSON value denotes, where it is an integral number that fits in `i64`.
pub open spec fn json_as_i64(v: Json) -> Option<i64> {
    match v {
        Json::Num(n) => number_as_i64(n),
        _ => None,
    }
}

/// The value of the first member of `entries` whose key is `key`.
pub open spec fn lookup<'a>(entries: Seq<(String, Json)>, key: Seq<char>) -> Option<&'a Json>
    decreases entries.len(),
{
    if entries.len() == 0 {
        None
    } else if entries[0].0@ == key {
        Some(&entries[0].1)
    } else {
        lookup(entries.drop_first(), key)
    }
}

/// Whether two strings hold the same characters.
pub fn text_eq(a: &str, b: &str) -> (r: bool)
    ensures
        r == (a@ == b@),
{
    let n = a.unicode_len();
    if n != b.unicode_len() {
        return false;
    }
    let mut i: usize = 0;
    while i < n
        invariant
            n == a@.len(),
            n == b@.len(),
            i <= n,
            forall|j: int| 0 <= j < i ==> a@[j] == b@[j],
        decreases n - i,
    {
        if a.get_char(i) != b.get_char(i) {
            return false;
        }
        i = i + 1;
    }
    assert(a@ =~= b@);
    true
}

/// The value of the member named `key` of an object's members.
pub fn object_get<'a>(entries: &'a Vec<(String, Json)>, key: &str) -> (r: Option<&'a Json>)
    ensures
        r == lookup(entries@, key@),
{
    let mut i: usize = 0;
    assert(entries@.subrange(0, entries@.len() as int) =~= entries@);
    while i < entries.len()
        invariant
            i <= entries@.len(),
            lookup(entries@, key@) == lookup(entries@.subrange(i as int, entries@.len() as int), key@),
        decreases entries.len() - i,
    {
        let ghost rest = entries@.subrange(i as int, entries@.len() as int);
        assert(rest.drop_first() =~= entries@.subrange(i + 1, entries@.len() as int));
        if text_eq(entries[i].0.as_str(), key) {
            return Some(&entries[i].1);
        }
        i = i + 1;
    }
    None
}

impl Json {
    /// The member named `key`, where this value is an object that has one.
    pub fn get<'a>(&'a self, key: &str) -> (r: Option<&'a Json>)
        ensures
            r == (match self {
                Json::Object(entries) => lookup(entries@, key@),
                _ => None,
            }),
    {
        match self {
            Json::Object(entries) => object_get(entries, key),
            _ => None,
        }
    }
}


/// Two values are the same JSON: equal numbers and booleans, strings with the same
/// characters, and the same members or items, in the same order.
pub open spec fn same(a: Json, b: Json) -> bool
    decreases a,
{
    match (a, b) {
        (Json::Null, Json::Null) => true,
        (Json::Bool(x), Json::Bool(y)) => x == y,
        (Json::Num(x), Json::Num(y)) => x == y,
        (Json::Str(x), Json::Str(y)) => x@ == y@,
        (Json::Array(x), Json::Array(y)) => x@.len() == y@.len() && forall|i: int|
            0 <= i < x@.len() ==> same(#[trigger] x@[i], y@[i]),
        (Json::Object(x), Json::Object(y)) => x@.len() == y@.len() && forall|i: int|
            0 <= i < x@.len() ==> (#[trigger] x@[i]).0@ == y@[i].0@ && same(x@[i].1, y@[i].1),
        _ => false,
    }
}

/// `same` on optional values.
pub open spec fn opt_same(a: Option<&Json>, b: Option<&Json>) -> bool {
    match (a, b) {
        (None, None) => true,
        (Some(x), Some(y)) => same(*x, *y),
        _ => false,
    }
}

/// Members that match one for one: same keys, same values.
pub open spec fn entries_same(s: Seq<(String, Json)>, t: Seq<(String, Json)>) -> bool {
    s.len() == t.len() && forall|i: int| 0 <= i < s.len() ==> (#[trigger] s[i]).0@ == t[i].0@ && same(s[i].1, t[i].1)
}

/// The characters of a string value.
pub open spec fn str_of(v: Option<&Json>) -> Option<Seq<char>> {
    match v {
        Some(Json::Str(s)) => Some(s@),
        _ => None,
    }
}

/// The member `key` of `v`, where `v` is an object.
pub open spec fn member<'a>(v: &'a Json, key: Seq<char>) -> Option<&'a Json> {
    match *v {
        Json::Object(entries) => lookup(entries@, key),
        _ => None,
    }
}

/// Whether no two members share a key.
pub open spec fn keys_unique(s: Seq<(String, Json)>) -> bool {
    forall|i: int, j: int| 0 <= i < j < s.len() ==> (#[trigger] s[i]).0@ != (#[trigger] s[j]).0@
}

/// Looking a key up in members that match one for one gives the same value.
pub proof fn lemma_lookup_same(s: Seq<(String, Json)>, t: Seq<(String, Json)>, k: Seq<char>)
    requires
        entries_same(s, t),
    ensures
        opt_same(lookup(s, k), lookup(t, k)),
    decreases s.len(),
{
    if s.len() > 0 {
        assert(s[0].0@ == t[0].0@);
        assert forall|i: int| 0 <= i < s.drop_first().len() implies (#[trigger] s.drop_first()[i]).0@ == t.drop_first()[i].0@
            && same(s.drop_first()[i].1, t.drop_first()[i].1) by {
            assert(s.drop_first()[i] == s[i + 1]);
            assert(t.drop_first()[i] == t[i + 1]);
        }
        lemma_lookup_same(s.drop_first(), t.drop_first(), k);
    }
}

/// A member added at the end is found only where no earlier member has its key.
pub proof fn lemma_lookup_push(s: Seq<(String, Json)>, x: (String, Json), k: Seq<char>)
    ensures
        lookup(s.push(x), k) == (if lookup(s, k) is Some {
            lookup(s, k)
        } else if x.0@ == k {
            Some(&x.1)
        } else {
            None
        }),
    decreases s.len(),
{
    if s.len() > 0 {
        assert(s.push(x)[0] == s[0]);
        assert(s.push(x).drop_first() =~= s.drop_first().push(x));
        lemma_lookup_push(s.drop_first(), x, k);
    } else {
        assert(s.push(x)[0] == x);
        assert(s.push(x).drop_first() =~= Seq::<(String, Json)>::empty());
        assert(lookup(s.push(x).drop_first(), k) is None);
    }
}

/// Replacing the value of the first member with a key changes only what that key finds.
pub proof fn lemma_lookup_update(s: Seq<(String, Json)>, i: int, v: Json, k: Seq<char>)
    requires
        0 <= i < s.len(),
        forall|j: int| 0 <= j < i ==> (#[trigger] s[j]).0@ != s[i].0@,
    ensures
        lookup(s.update(i, (s[i].0, v)), k) == (if k == s[i].0@ {
            Some(&v)
        } else {
            lookup(s, k)
        }),
    decreases i,
{
    assert(s.update(i, (s[i].0, v))[0] == (if i == 0 {
        (s[i].0, v)
    } else {
        s[0]
    }));
    if i == 0 {
        assert(s.update(i, (s[i].0, v)).drop_first() =~= s.drop_first());
    } else {
        assert(s[0].0@ != s[i].0@);
        assert(s.update(i, (s[i].0, v)).drop_first() =~= s.drop_first().update(i - 1, (s[i].0, v)));
        assert forall|j: int| 0 <= j < i - 1 implies (#[trigger] s.drop_first()[j]).0@ != s.drop_first()[i - 1].0@ by {
            assert(s.drop_first()[j] == s[j + 1]);
        }
        lemma_lookup_update(s.drop_first(), i - 1, v, k);
    }
}

/// A copy of `v` that is the same JSON.
pub fn clone_json(v: &Json) -> (r: Json)
    ensures
        same(r, *v),
    decreases v, 0int,
{
    match v {
        Json::Null => Json::Null,
        Json::Bool(b) => Json::Bool(*b),
        Json::Num(n) => Json::Num(*n),
        Json::Str(s) => Json::Str(s.clone()),
        Json::Array(items) => {
            let mut out: Vec<Json> = Vec::new();
            let mut i: usize = 0;
            while i < items.len()
                invariant
                    *v == Json::Array(*items),
                    i <= items@.len(),
                    out@.len() == i,
                    forall|j: int| 0 <= j < i ==> same(#[trigger] out@[j], items@[j]),
                decreases items.len() - i,
            {
                let item = &items[i];
                proof {
                    assert(decreases_to!(*v => (*v)->Array_0));
                    assert(decreases_to!(*items => items@));
                    assert(decreases_to!(items@ => items@[i as int]));
                }
                let c = clone_json(item);
                out.push(c);
                i = i + 1;
            }
            Json::Array(out)
        },
        Json::Object(entries) => Json::Object(clone_entries(entries)),
    }
}

/// A copy of an object's members that matches them one for one.
pub fn clone_entries(entries: &Vec<(String, Json)>) -> (r: Vec<(String, Json)>)
    ensures
        entries_same(r@, entries@),
    decreases entries, 1int,
{
    let mut out: Vec<(String, Json)> = Vec::new();
    let mut i: usize = 0;
    while i < entries.len()
        invariant
            i <= entries@.len(),
            out@.len() == i,
            forall|j: int| 0 <= j < i ==> (#[trigger] out@[j]).0@ == entries@[j].0@ && same(out@[j].1, entries@[j].1),
        decreases entries.len() - i,
    {
        let k = entries[i].0.clone();
        let c = clone_json(&entries[i].1);
        out.push((k, c));
        i = i + 1;
    }
    out
}

/// Sets member `key` of an object's members to `value`: the first member with that
/// key gets the value, and where there is none a member is added at the end.
pub fn upsert(entries: &mut Vec<(String, Json)>, key: String, value: Json)
    ensures
        forall|k: Seq<char>| #[trigger] lookup(final(entries)@, k) == (if k == key@ {
            Some(&value)
        } else {
            lookup(old(entries)@, k)
        }),
        keys_unique(old(entries)@) ==> keys_unique(final(entries)@),
{
    let mut i: usize = 0;
    while i < entries.len()
        invariant
            i <= entries@.len(),
            entries@ == old(entries)@,
            forall|j: int| 0 <= j < i ==> (#[trigger] entries@[j]).0@ != key@,
        decreases entries.len() - i,
    {
        if text_eq(entries[i].0.as_str(), key.as_str()) {
            let ghost before = entries@;
            let k = entries[i].0.clone();
            let ghost kv = entries@[i as int].0;
            entries.set(i, (k, value));
            proof {
                assert forall|k2: Seq<char>| #[trigger] lookup(entries@, k2) == (if k2 == key@ {
                    Some(&value)
                } else {
                    lookup(before, k2)
                }) by {
                    assert(entries@ =~= before.update(i as int, (kv, value)).update(i as int, (entries@[i as int].0, value)));
                    lemma_lookup_update(before, i as int, value, k2);
                    assert(before.update(i as int, (before[i as int].0, value))[i as int].0@ == entries@[i as int].0@);
                    assert forall|j: int| 0 <= j < before.len() implies
                        (#[trigger] entries@[j]).0@ == before.update(i as int, (before[i as int].0, value))[j].0@ by {}
                    lemma_lookup_keys_only(entries@, before.update(i as int, (before[i as int].0, value)), k2);
                }
                assert forall|a: int, b: int| keys_unique(before) && 0 <= a < b < entries@.len() implies
                    (#[trigger] entries@[a]).0@ != (#[trigger] entries@[b]).0@ by {
                    assert(before[a].0@ != before[b].0@);
                }
            }
            return;
        }
        i = i + 1;
    }
    let ghost before = entries@;
    entries.push((key, value));
    proof {
        assert forall|k: Seq<char>| #[trigger] lookup(entries@, k) == (if k == key@ {
            Some(&value)
        } else {
            lookup(before, k)
        }) by {
            lemma_lookup_push(before, (key, value), k);
            lemma_lookup_absent(before, key@);
        }
    }
}

/// What a lookup finds depends on the keys' characters and on the values alone.
pub proof fn lemma_lookup_keys_only(s: Seq<(String, Json)>, t: Seq<(String, Json)>, k: Seq<char>)
    requires
        s.len() == t.len(),
        forall|j: int| 0 <= j < s.len() ==> (#[trigger] s[j]).0@ == t[j].0@ && s[j].1 == t[j].1,
    ensures
        lookup(s, k) == lookup(t, k),
    decreases s.len(),
{
    if s.len() > 0 {
        assert forall|j: int| 0 <= j < s.drop_first().len() implies (#[trigger] s.drop_first()[j]).0@ == t.drop_first()[j].0@
            && s.drop_first()[j].1 == t.drop_first()[j].1 by {
            assert(s.drop_first()[j] == s[j + 1]);
        }
        lemma_lookup_keys_only(s.drop_first(), t.drop_first(), k);
    }
}

/// A key that no member has is not found.
pub proof fn lemma_lookup_absent(s: Seq<(String, Json)>, k: Seq<char>)
    requires
        forall|j: int| 0 <= j < s.len() ==> (#[trigger] s[j]).0@ != k,
    ensures
        lookup(s, k) is None,
    decreases s.len(),
{
    if s.len() > 0 {
        assert forall|j: int| 0 <= j < s.drop_first().len() implies (#[trigger] s.drop_first()[j]).0@ != k by {
            assert(s.drop_first()[j] == s[j + 1]);
        }
        lemma_lookup_absent(s.drop_first(), k);
    }
}


/// Whether no two members share a key.
pub fn keys_unique_entries(entries: &Vec<(String, Json)>) -> (r: bool)
    ensures
        r == keys_unique(entries@),
{
    let n = entries.len();
    let mut j: usize = 0;
    while j < n
        invariant
            n == entries@.len(),
            j <= n,
            forall|a: int, b: int| 0 <= a < b < j ==> (#[trigger] entries@[a]).0@ != (#[trigger] entries@[b]).0@,
        decreases n - j,
    {
        let mut i: usize = 0;
        while i < j
            invariant
                n == entries@.len(),
                i <= j < n,
                forall|a: int, b: int| 0 <= a < b < j ==> (#[trigger] entries@[a]).0@ != (#[trigger] entries@[b]).0@,
                forall|a: int| 0 <= a < i ==> (#[trigger] entries@[a]).0@ != entries@[j as int].0@,
            decreases j - i,
        {
            if text_eq(entries[i].0.as_str(), entries[j].0.as_str()) {
                return false;
            }
            i = i + 1;
        }
        j = j + 1;
    }
    true
}

/// Looking up the key of the first member that has it finds that member.
pub proof fn lemma_lookup_at(s: Seq<(String, Json)>, i: int)
    requires
        0 <= i < s.len(),
        forall|j: int| 0 <= j < i ==> (#[trigger] s[j]).0@ != s[i].0@,
    ensures
        lookup(s, s[i].0@) == Some(&s[i].1),
    decreases i,
{
    if i > 0 {
        assert forall|j: int| 0 <= j < i - 1 implies (#[trigger] s.drop_first()[j]).0@ != s.drop_first()[i - 1].0@ by {
            assert(s.drop_first()[j] == s[j + 1]);
        }
        assert(s[0].0@ != s[i].0@);
        lemma_lookup_at(s.drop_first(), i - 1);
    }
}

/// Removing the only member with a key hides that key and nothing else.
pub proof fn lemma_lookup_remove(s: Seq<(String, Json)>, i: int, k: Seq<char>)
    requires
        0 <= i < s.len(),
        keys_unique(s),
    ensures
        lookup(s.remove(i), k) == (if k == s[i].0@ {
            None
        } else {
            lookup(s, k)
        }),
    decreases i,
{
    if i == 0 {
        assert(s.remove(0) =~= s.drop_first());
        if k == s[0].0@ {
            assert forall|j: int| 0 <= j < s.drop_first().len() implies (#[trigger] s.drop_first()[j]).0@ != k by {
                assert(s.drop_first()[j] == s[j + 1]);
            }
            lemma_lookup_absent(s.drop_first(), k);
        }
    } else {
        assert(s.remove(i)[0] == s[0]);
        assert(s.remove(i).drop_first() =~= s.drop_first().remove(i - 1));
        assert forall|a: int, b: int| 0 <= a < b < s.drop_first().len() implies
            (#[trigger] s.drop_first()[a]).0@ != (#[trigger] s.drop_first()[b]).0@ by {
            assert(s[a + 1].0@ != s[b + 1].0@);
        }
        assert(s[0].0@ != s[i].0@);
        lemma_lookup_remove(s.drop_first(), i - 1, k);
    }
}

/// Removes the member named `key` and hands back its value.
pub fn remove_member(entries: &mut Vec<(String, Json)>, key: &str) -> (r: Option<Json>)
    requires
        keys_unique(old(entries)@),
    ensures
        r == (match lookup(old(entries)@, key@) {
            Some(v) => Some(*v),
            None => None,
        }),
        forall|k: Seq<char>| #[trigger] lookup(final(entries)@, k) == (if k == key@ {
            None
        } else {
            lookup(old(entries)@, k)
        }),
        keys_unique(final(entries)@),
{
    let ghost before = entries@;
    let mut i: usize = 0;
    while i < entries.len()
        invariant
            entries@ == before,
            before == old(entries)@,
            keys_unique(before),
            i <= before.len(),
            forall|j: int| 0 <= j < i ==> (#[trigger] before[j]).0@ != key@,
        decreases before.len() - i,
    {
        if text_eq(entries[i].0.as_str(), key) {
            let pair = entries.remove(i);
            let v = pair.1;
            proof {
                lemma_lookup_at(before, i as int);
                assert forall|k: Seq<char>| #[trigger] lookup(entries@, k) == (if k == key@ {
                    None
                } else {
                    lookup(before, k)
                }) by {
                    lemma_lookup_remove(before, i as int, k);
                }
                assert forall|a: int, b: int| 0 <= a < b < entries@.len() implies
                    (#[trigger] entries@[a]).0@ != (#[trigger] entries@[b]).0@ by {
                    let a2 = if a < i { a } else { a + 1 };
                    let b2 = if b < i { b } else { b + 1 };
                    assert(before[a2].0@ != before[b2].0@);
                }
            }
            return Some(v);
        }
        i = i + 1;
    }
    proof {
        lemma_lookup_absent(before, key@);
    }
    None
}

} // verus!
