//! Ordered collections of string pairs, used for query parameters and headers.

use vstd::prelude::*;

verus! {

/// The mathematical model of a parameter list: pairs of name and value, in
/// the order in which the names were first set.
pub type Pairs = Seq<(Seq<char>, Seq<char>)>;

/// The position of the first pair named `key`, or the length of `s` if there
/// is none.
pub open spec fn key_index(s: Pairs, key: Seq<char>) -> int
    decreases s.len(),
{
    if s.len() == 0 {
        0
    } else if s[0].0 == key {
        0
    } else {
        1 + key_index(s.drop_first(), key)
    }
}

/// Whether some pair of `s` is named `key`.
pub open spec fn has_key(s: Pairs, key: Seq<char>) -> bool {
    key_index(s, key) < s.len()
}

/// The value of the first pair named `key`.
pub open spec fn lookup(s: Pairs, key: Seq<char>) -> Option<Seq<char>> {
    if has_key(s, key) {
        Some(s[key_index(s, key)].1)
    } else {
        None
    }
}

/// `s` with `key` set to `value`: an existing pair keeps its place and takes
/// the new value, a new name goes to the end.
pub open spec fn put(s: Pairs, key: Seq<char>, value: Seq<char>) -> Pairs {
    if has_key(s, key) {
        s.update(key_index(s, key), (key, value))
    } else {
        s.push((key, value))
    }
}

/// `base` with every pair of `extra` set on it in turn, so that on a name
/// that both hold the value of `extra` stands.
pub open spec fn merged(base: Pairs, extra: Pairs) -> Pairs
    decreases extra.len(),
{
    if extra.len() == 0 {
        base
    } else {
        merged(put(base, extra[0].0, extra[0].1), extra.drop_first())
    }
}

/// No name occurs twice.
pub open spec fn distinct_keys(s: Pairs) -> bool {
    forall|i: int, j: int| 0 <= i < j < s.len() ==> (#[trigger] s[i]).0 != (#[trigger] s[j]).0
}

/// `key_index` is within bounds, and no pair before it is named `key`.
pub proof fn lemma_key_index_bounds(s: Pairs, key: Seq<char>)
    ensures
        0 <= key_index(s, key) <= s.len(),
        forall|j: int| 0 <= j < key_index(s, key) ==> (#[trigger] s[j]).0 != key,
        key_index(s, key) < s.len() ==> s[key_index(s, key)].0 == key,
    decreases s.len(),
{
    if s.len() > 0 && s[0].0 != key {
        let rest = s.drop_first();
        lemma_key_index_bounds(rest, key);
        assert forall|j: int| 0 <= j < key_index(s, key) implies (#[trigger] s[j]).0 != key by {
            if j > 0 {
                assert(s[j] == rest[j - 1]);
            }
        }
        if key_index(rest, key) < rest.len() {
            assert(s[key_index(rest, key) + 1] == rest[key_index(rest, key)]);
        }
    }
}

/// A position before which no pair is named `key`, and which is the end or
/// holds `key`, is `key_index`.
pub proof fn lemma_key_index_is(s: Pairs, key: Seq<char>, i: int)
    requires
        0 <= i <= s.len(),
        forall|j: int| 0 <= j < i ==> (#[trigger] s[j]).0 != key,
        i < s.len() ==> s[i].0 == key,
    ensures
        key_index(s, key) == i,
{
    lemma_key_index_bounds(s, key);
    let k = key_index(s, key);
    if k < i {
        assert(s[k].0 != key);
    } else if i < k {
        assert(s[i].0 != key);
    }
}

/// Setting a name keeps the names distinct.
pub proof fn lemma_put_distinct(s: Pairs, key: Seq<char>, value: Seq<char>)
    requires
        distinct_keys(s),
    ensures
        distinct_keys(put(s, key, value)),
{
    lemma_key_index_bounds(s, key);
    let t = put(s, key, value);
    assert forall|i: int, j: int| 0 <= i < j < t.len() implies (#[trigger] t[i]).0 != (
    #[trigger] t[j]).0 by {
        if has_key(s, key) {
            let k = key_index(s, key);
            assert(t[i].0 == s[i].0);
            assert(t[j].0 == s[j].0);
        } else if j == s.len() {
            assert(t[i] == s[i]);
        } else {
            assert(t[i] == s[i]);
            assert(t[j] == s[j]);
        }
    }
}

/// After `key` is set to `value`, looking `key` up gives `value`.
pub proof fn lemma_lookup_put_same(s: Pairs, key: Seq<char>, value: Seq<char>)
    ensures
        lookup(put(s, key, value), key) == Some(value),
{
    lemma_key_index_bounds(s, key);
    let t = put(s, key, value);
    let k = key_index(s, key);
    assert forall|j: int| 0 <= j < k implies (#[trigger] t[j]).0 != key by {
        assert(t[j] == s[j]);
    }
    lemma_key_index_is(t, key, k);
}

/// Setting `key` changes what no other name is set to.
pub proof fn lemma_lookup_put_other(s: Pairs, key: Seq<char>, value: Seq<char>, other: Seq<char>)
    requires
        other != key,
    ensures
        lookup(put(s, key, value), other) == lookup(s, other),
        has_key(put(s, key, value), other) == has_key(s, other),
{
    lemma_key_index_bounds(s, key);
    lemma_key_index_bounds(s, other);
    let t = put(s, key, value);
    let k = key_index(s, other);
    assert forall|j: int| 0 <= j < k && j < t.len() implies (#[trigger] t[j]).0 != other by {
        if j != key_index(s, key) {
            assert(t[j] == s[j]);
        }
    }
    if k < s.len() {
        assert(t[k] == s[k]);
        lemma_key_index_is(t, other, k);
    } else {
        lemma_key_index_is(t, other, t.len() as int);
    }
}

/// Setting the same pair a second time changes nothing.
pub proof fn lemma_put_twice(s: Pairs, key: Seq<char>, value: Seq<char>)
    ensures
        put(put(s, key, value), key, value) == put(s, key, value),
{
    lemma_key_index_bounds(s, key);
    lemma_lookup_put_same(s, key, value);
    let t = put(s, key, value);
    lemma_key_index_bounds(t, key);
    assert(put(t, key, value) =~= t);
}

/// Merging keeps the names distinct.
pub proof fn lemma_merged_distinct(base: Pairs, extra: Pairs)
    requires
        distinct_keys(base),
    ensures
        distinct_keys(merged(base, extra)),
    decreases extra.len(),
{
    if extra.len() > 0 {
        lemma_put_distinct(base, extra[0].0, extra[0].1);
        lemma_merged_distinct(put(base, extra[0].0, extra[0].1), extra.drop_first());
    }
}

/// In a merged list the value of `extra` stands for every name that `extra`
/// holds, and the value of `base` for every other name.
pub proof fn lemma_merged_lookup(base: Pairs, extra: Pairs, key: Seq<char>)
    requires
        distinct_keys(extra),
    ensures
        has_key(merged(base, extra), key) == (has_key(extra, key) || has_key(base, key)),
        lookup(merged(base, extra), key) == if has_key(extra, key) {
            lookup(extra, key)
        } else {
            lookup(base, key)
        },
    decreases extra.len(),
{
    if extra.len() > 0 {
        let first = extra[0];
        let rest = extra.drop_first();
        let next = put(base, first.0, first.1);
        assert forall|i: int, j: int| 0 <= i < j < rest.len() implies (#[trigger] rest[i]).0 != (
        #[trigger] rest[j]).0 by {
            assert(rest[i] == extra[i + 1]);
            assert(rest[j] == extra[j + 1]);
        }
        lemma_merged_lookup(next, rest, key);
        lemma_key_index_bounds(rest, key);
        if key == first.0 {
            if has_key(rest, key) {
                let k = key_index(rest, key);
                assert(rest[k] == extra[k + 1]);
                assert(extra[0].0 != extra[k + 1].0);
            }
            lemma_lookup_put_same(base, first.0, first.1);
        } else {
            lemma_lookup_put_other(base, first.0, first.1, key);
        }
    }
}

/// A list of named string values in which no name occurs twice. It keeps the
/// order in which the names were first set.
pub struct Params {
    entries: Vec<(String, String)>,
}

impl View for Params {
    type V = Pairs;

    closed spec fn view(&self) -> Pairs {
        Seq::new(self.entries@.len(), |i: int| (self.entries@[i].0@, self.entries@[i].1@))
    }
}

impl Params {
    #[verifier::type_invariant]
    spec fn names_are_distinct(self) -> bool {
        distinct_keys(self@)
    }

    /// The empty list.
    pub fn new() -> (res: Params)
        ensures
            res@ == Seq::<(Seq<char>, Seq<char>)>::empty(),
    {
        let res = Params { entries: Vec::new() };
        assert(res@ =~= Seq::<(Seq<char>, Seq<char>)>::empty());
        res
    }

    /// The number of pairs. No two of them have the same name.
    pub fn len(&self) -> (n: usize)
        ensures
            n == self@.len(),
            distinct_keys(self@),
    {
        proof {
            use_type_invariant(self);
        }
        self.entries.len()
    }

    /// Whether the list holds no pair.
    pub fn is_empty(&self) -> (b: bool)
        ensures
            b == (self@.len() == 0),
    {
        self.entries.len() == 0
    }

    /// The name of the pair at position `i`.
    pub fn key_at(&self, i: usize) -> (key: &String)
        requires
            i < self@.len(),
        ensures
            key@ == self@[i as int].0,
    {
        &self.entries[i].0
    }

    /// The value of the pair at position `i`.
    pub fn value_at(&self, i: usize) -> (value: &String)
        requires
            i < self@.len(),
        ensures
            value@ == self@[i as int].1,
    {
        &self.entries[i].1
    }

    /// The position of `key`, or the length of the list if it is not there.
    fn find(&self, key: &String) -> (i: usize)
        ensures
            i == key_index(self@, key@),
            i <= self@.len(),
    {
        let mut i: usize = 0;
        while i < self.entries.len()
            invariant
                i <= self.entries@.len(),
                forall|j: int| 0 <= j < i ==> (#[trigger] self@[j]).0 != key@,
            decreases self.entries@.len() - i,
        {
            if self.entries[i].0 == *key {
                proof {
                    lemma_key_index_is(self@, key@, i as int);
                }
                return i;
            }
            i += 1;
        }
        proof {
            lemma_key_index_is(self@, key@, i as int);
        }
        i
    }

    /// The value set for `key`, if any.
    pub fn get(&self, key: &str) -> (res: Option<&String>)
        ensures
            res is Some == has_key(self@, key@),
            res matches Some(v) ==> lookup(self@, key@) == Some(v@),
    {
        let owned = key.to_owned();
        let i = self.find(&owned);
        if i < self.entries.len() {
            Some(&self.entries[i].1)
        } else {
            None
        }
    }

    /// Whether a value is set for `key`.
    pub fn contains_key(&self, key: &str) -> (b: bool)
        ensures
            b == has_key(self@, key@),
    {
        let owned = key.to_owned();
        let i = self.find(&owned);
        i < self.entries.len()
    }

    /// This list with `key` set to `value`. A name that is already there keeps
    /// its place.
    pub fn with(self, key: String, value: String) -> (res: Params)
        ensures
            res@ == put(self@, key@, value@),
    {
        proof {
            use_type_invariant(&self);
            lemma_put_distinct(self@, key@, value@);
        }
        let i = self.find(&key);
        let ghost before = self@;
        let mut entries = self.entries;
        if i < entries.len() {
            entries.set(i, (key, value));
        } else {
            entries.push((key, value));
        }
        let ghost after = Seq::new(entries@.len(), |i: int| (entries@[i].0@, entries@[i].1@));
        assert(after =~= put(before, key@, value@));
        Params { entries }
    }

    /// Sets `key` to `value`. A name that is already there keeps its place.
    pub fn insert(&mut self, key: String, value: String)
        ensures
            final(self)@ == put(old(self)@, key@, value@),
    {
        let mut taken = Params::new();
        core::mem::swap(self, &mut taken);
        *self = taken.with(key, value);
    }

    /// Sets every pair of `extra` on this list, in the order of `extra`.
    pub fn extend(&mut self, extra: &Params)
        ensures
            final(self)@ == merged(old(self)@, extra@),
    {
        let mut i: usize = 0;
        assert(extra@.skip(0) =~= extra@);
        while i < extra.entries.len()
            invariant
                i <= extra.entries@.len(),
                merged(self@, extra@.skip(i as int)) == merged(old(self)@, extra@),
            decreases extra.entries@.len() - i,
        {
            proof {
                let rest = extra@.skip(i as int);
                assert(rest[0] == extra@[i as int]);
                assert(rest.drop_first() =~= extra@.skip(i + 1));
            }
            self.insert(extra.entries[i].0.clone(), extra.entries[i].1.clone());
            i += 1;
        }
        assert(extra@.skip(i as int).len() == 0);
    }
}

impl Clone for Params {
    fn clone(&self) -> (res: Params)
        ensures
            res@ == self@,
    {
        proof {
            use_type_invariant(self);
        }
        let mut entries: Vec<(String, String)> = Vec::new();
        let mut i: usize = 0;
        while i < self.entries.len()
            invariant
                i <= self.entries@.len(),
                entries@.len() == i,
                forall|j: int|
                    0 <= j < i ==> (#[trigger] entries@[j]).0@ == self.entries@[j].0@
                        && entries@[j].1@ == self.entries@[j].1@,
            decreases self.entries@.len() - i,
        {
            entries.push((self.entries[i].0.clone(), self.entries[i].1.clone()));
            i += 1;
        }
        let ghost view_of = Seq::new(
            entries@.len(),
            |i: int| (entries@[i].0@, entries@[i].1@),
        );
        assert(view_of =~= self@);
        Params { entries }
    }
}

} // verus!
