//! The data of a cookie session: string values under string keys.
use vstd::prelude::*;

use crate::text::str_eq;

verus! {

/// The key under which the signed-in user's ID is kept.
pub const USER_ID_KEY: &'static str = "user_id";

/// Whether some entry has the key `k`.
pub open spec fn has_key(s: Seq<(String, String)>, k: Seq<char>) -> bool {
    exists|i: int| 0 <= i < s.len() && (#[trigger] s[i]).0@ == k
}

/// The position of an entry with the key `k`, where there is one.
pub open spec fn index_of_key(s: Seq<(String, String)>, k: Seq<char>) -> int {
    choose|i: int| 0 <= i < s.len() && (#[trigger] s[i]).0@ == k
}

/// No two entries have the same key.
pub open spec fn unique_keys(s: Seq<(String, String)>) -> bool {
    forall|i: int, j: int|
        0 <= i < s.len() && 0 <= j < s.len() && (#[trigger] s[i]).0@ == (#[trigger] s[j]).0@
            ==> i == j
}

/// The map from keys to values that the entries hold.
pub open spec fn entries_map(s: Seq<(String, String)>) -> Map<Seq<char>, Seq<char>> {
    Map::new(|k: Seq<char>| has_key(s, k), |k: Seq<char>| s[index_of_key(s, k)].1@)
}

/// An entry's key maps to the entry's value.
pub proof fn lemma_entry_lookup(s: Seq<(String, String)>, i: int)
    requires
        unique_keys(s),
        0 <= i < s.len(),
    ensures
        entries_map(s).contains_key(s[i].0@),
        entries_map(s)[s[i].0@] == s[i].1@,
{
    let k = s[i].0@;
    assert(has_key(s, k));
    let j = index_of_key(s, k);
    assert(s[j].0@ == k);
}

/// The map that results from putting each pair in turn, a later value for a key
/// replacing an earlier one.
pub open spec fn pairs_map(s: Seq<(String, String)>) -> Map<Seq<char>, Seq<char>>
    decreases s.len(),
{
    if s.len() == 0 {
        Map::empty()
    } else {
        pairs_map(s.drop_last()).insert(s.last().0@, s.last().1@)
    }
}

/// The data of one session: each key holds at most one value.
pub struct SessionData {
    entries: Vec<(String, String)>,
}

impl View for SessionData {
    type V = Map<Seq<char>, Seq<char>>;

    closed spec fn view(&self) -> Map<Seq<char>, Seq<char>> {
        entries_map(self.entries@)
    }
}

impl SessionData {
    #[verifier::type_invariant]
    spec fn keys_are_unique(self) -> bool {
        unique_keys(self.entries@)
    }

    /// A session that holds nothing.
    pub fn new() -> (s: Self)
        ensures
            s@ == Map::<Seq<char>, Seq<char>>::empty(),
    {
        let s = SessionData { entries: Vec::new() };
        assert(s@ =~= Map::<Seq<char>, Seq<char>>::empty());
        s
    }

    /// A session holding the given pairs, each put in turn, so that a later
    /// value for a key replaces an earlier one.
    pub fn from_pairs(pairs: Vec<(String, String)>) -> (s: Self)
        ensures
            s@ == pairs_map(pairs@),
    {
        let mut session = SessionData::new();
        let n = pairs.len();
        let mut i: usize = 0;
        assert(pairs@.take(0) =~= Seq::<(String, String)>::empty());
        while i < n
            invariant
                n == pairs@.len(),
                i <= n,
                session@ == pairs_map(pairs@.take(i as int)),
            decreases n - i,
        {
            let key = pairs[i].0.clone();
            let value = pairs[i].1.clone();
            assert(pairs@.take(i + 1).drop_last() =~= pairs@.take(i as int));
            assert(pairs@.take(i + 1).last() == pairs@[i as int]);
            session.insert(key, value);
            i = i + 1;
        }
        assert(pairs@.take(n as int) =~= pairs@);
        session
    }

    /// The entries of the session, one per key.
    pub fn pairs(&self) -> (r: Vec<(String, String)>)
        ensures
            unique_keys(r@),
            entries_map(r@) == self@,
    {
        proof {
            use_type_invariant(self);
        }
        let mut r: Vec<(String, String)> = Vec::new();
        let n = self.entries.len();
        let mut i: usize = 0;
        while i < n
            invariant
                n == self.entries@.len(),
                i <= n,
                r@ == self.entries@.take(i as int),
            decreases n - i,
        {
            let k = self.entries[i].0.clone();
            let v = self.entries[i].1.clone();
            r.push((k, v));
            assert(r@ =~= self.entries@.take(i + 1));
            i = i + 1;
        }
        assert(self.entries@.take(n as int) =~= self.entries@);
        r
    }

    /// The position of the entry with the given key, if there is one.
    fn find(&self, key: &str) -> (r: Option<usize>)
        ensures
            match r {
                Some(i) => i < self.entries@.len() && self.entries@[i as int].0@ == key@,
                None => !has_key(self.entries@, key@),
            },
    {
        let n = self.entries.len();
        let mut i: usize = 0;
        while i < n
            invariant
                n == self.entries@.len(),
                i <= n,
                forall|j: int| 0 <= j < i ==> (#[trigger] self.entries@[j]).0@ != key@,
            decreases n - i,
        {
            if str_eq(self.entries[i].0.as_str(), key) {
                return Some(i);
            }
            i = i + 1;
        }
        None
    }

    /// The value under `key`.
    pub fn get(&self, key: &str) -> (r: Option<String>)
        ensures
            match r {
                Some(v) => self@.contains_key(key@) && v@ == self@[key@],
                None => !self@.contains_key(key@),
            },
    {
        proof {
            use_type_invariant(self);
        }
        match self.find(key) {
            Some(i) => {
                proof {
                    lemma_entry_lookup(self.entries@, i as int);
                }
                Some(self.entries[i].1.clone())
            },
            None => None,
        }
    }

    /// Puts `value` under `key`, and returns the value that was there before.
    pub fn insert(&mut self, key: String, value: String) -> (r: Option<String>)
        ensures
            final(self)@ == old(self)@.insert(key@, value@),
            match r {
                Some(v) => old(self)@.contains_key(key@) && v@ == old(self)@[key@],
                None => !old(self)@.contains_key(key@),
            },
    {
        proof {
            use_type_invariant(&*self);
        }
        let ghost s = self.entries@;
        match self.find(key.as_str()) {
            Some(i) => {
                proof {
                    lemma_entry_lookup(s, i as int);
                }
                let previous = self.entries[i].1.clone();
                let ghost entry = (key, value);
                proof {
                    lemma_update_entry(s, i as int, entry);
                }
                let mut entries = Vec::new();
                std::mem::swap(&mut entries, &mut self.entries);
                entries.set(i, (key, value));
                assert(entries@ == s.update(i as int, entry));
                self.entries = entries;
                Some(previous)
            },
            None => {
                let ghost entry = (key, value);
                proof {
                    lemma_push_entry(s, entry);
                }
                let mut entries = Vec::new();
                std::mem::swap(&mut entries, &mut self.entries);
                entries.push((key, value));
                assert(entries@ == s.push(entry));
                self.entries = entries;
                None
            },
        }
    }

    /// Takes the value under `key` out of the session.
    pub fn remove(&mut self, key: &str) -> (r: Option<String>)
        ensures
            final(self)@ == old(self)@.remove(key@),
            match r {
                Some(v) => old(self)@.contains_key(key@) && v@ == old(self)@[key@],
                None => !old(self)@.contains_key(key@),
            },
    {
        proof {
            use_type_invariant(&*self);
        }
        let ghost s = self.entries@;
        match self.find(key) {
            Some(i) => {
                proof {
                    lemma_entry_lookup(s, i as int);
                    lemma_remove_entry(s, i as int);
                }
                let mut entries = Vec::new();
                std::mem::swap(&mut entries, &mut self.entries);
                let (_, value) = entries.remove(i);
                self.entries = entries;
                Some(value)
            },
            None => {
                assert(old(self)@.remove(key@) =~= old(self)@);
                None
            },
        }
    }
}

/// Replacing the entry of a key changes only that key's value.
proof fn lemma_update_entry(s: Seq<(String, String)>, i: int, e: (String, String))
    requires
        unique_keys(s),
        0 <= i < s.len(),
        s[i].0@ == e.0@,
    ensures
        unique_keys(s.update(i, e)),
        entries_map(s.update(i, e)) == entries_map(s).insert(e.0@, e.1@),
{
    let t = s.update(i, e);
    assert forall|a: int, b: int|
        0 <= a < t.len() && 0 <= b < t.len() && (#[trigger] t[a]).0@ == (#[trigger] t[b]).0@
        implies a == b by {
        assert(s[a].0@ == t[a].0@);
        assert(s[b].0@ == t[b].0@);
    }
    let m = entries_map(s).insert(e.0@, e.1@);
    assert forall|k: Seq<char>| #[trigger] entries_map(t).contains_key(k) <==> m.contains_key(k) by {
        if has_key(s, k) {
            let j = index_of_key(s, k);
            assert(t[j].0@ == k);
        }
        if has_key(t, k) {
            let j = index_of_key(t, k);
            assert(s[j].0@ == k);
        }
    }
    assert forall|k: Seq<char>| #[trigger] entries_map(t).contains_key(k) implies entries_map(
        t,
    )[k] == m[k] by {
        let j = index_of_key(t, k);
        lemma_entry_lookup(t, j);
        if j != i {
            assert(s[j] == t[j]);
            lemma_entry_lookup(s, j);
        }
    }
    assert(entries_map(t) =~= m);
}

/// Adding an entry for a new key adds just that key.
proof fn lemma_push_entry(s: Seq<(String, String)>, e: (String, String))
    requires
        unique_keys(s),
        !has_key(s, e.0@),
    ensures
        unique_keys(s.push(e)),
        entries_map(s.push(e)) == entries_map(s).insert(e.0@, e.1@),
{
    let t = s.push(e);
    let n = s.len() as int;
    assert forall|a: int, b: int|
        0 <= a < t.len() && 0 <= b < t.len() && (#[trigger] t[a]).0@ == (#[trigger] t[b]).0@
        implies a == b by {
        if a < n && b < n {
            assert(s[a] == t[a] && s[b] == t[b]);
        } else if a < n {
            assert(s[a] == t[a]);
        } else if b < n {
            assert(s[b] == t[b]);
        }
    }
    let m = entries_map(s).insert(e.0@, e.1@);
    assert forall|k: Seq<char>| #[trigger] entries_map(t).contains_key(k) <==> m.contains_key(k) by {
        if has_key(s, k) {
            let j = index_of_key(s, k);
            assert(t[j] == s[j]);
        }
        if k == e.0@ {
            assert(t[n].0@ == k);
        }
        if has_key(t, k) && k != e.0@ {
            let j = index_of_key(t, k);
            assert(j < n);
            assert(s[j] == t[j]);
        }
    }
    assert forall|k: Seq<char>| #[trigger] entries_map(t).contains_key(k) implies entries_map(
        t,
    )[k] == m[k] by {
        let j = index_of_key(t, k);
        lemma_entry_lookup(t, j);
        if j < n {
            assert(s[j] == t[j]);
            lemma_entry_lookup(s, j);
        }
    }
    assert(entries_map(t) =~= m);
}

/// Removing the entry of a key removes just that key.
proof fn lemma_remove_entry(s: Seq<(String, String)>, i: int)
    requires
        unique_keys(s),
        0 <= i < s.len(),
    ensures
        unique_keys(s.remove(i)),
        entries_map(s.remove(i)) == entries_map(s).remove(s[i].0@),
{
    let t = s.remove(i);
    let key = s[i].0@;
    assert forall|a: int, b: int|
        0 <= a < t.len() && 0 <= b < t.len() && (#[trigger] t[a]).0@ == (#[trigger] t[b]).0@
        implies a == b by {
        let sa = if a < i { a } else { a + 1 };
        let sb = if b < i { b } else { b + 1 };
        assert(t[a] == s[sa]);
        assert(t[b] == s[sb]);
    }
    let m = entries_map(s).remove(key);
    assert forall|k: Seq<char>| #[trigger] entries_map(t).contains_key(k) <==> m.contains_key(k) by {
        if has_key(s, k) && k != key {
            let j = index_of_key(s, k);
            assert(j != i);
            let tj = if j < i { j } else { j - 1 };
            assert(t[tj] == s[j]);
        }
        if has_key(t, k) {
            let j = index_of_key(t, k);
            let sj = if j < i { j } else { j + 1 };
            assert(t[j] == s[sj]);
            assert(sj != i);
        }
    }
    assert forall|k: Seq<char>| #[trigger] entries_map(t).contains_key(k) implies entries_map(
        t,
    )[k] == m[k] by {
        let j = index_of_key(t, k);
        lemma_entry_lookup(t, j);
        let sj = if j < i { j } else { j + 1 };
        assert(t[j] == s[sj]);
        lemma_entry_lookup(s, sj);
    }
    assert(entries_map(t) =~= m);
}

/// Putting in turn the pairs that a session gives back restores that session:
/// for pairs with distinct keys, the map they hold is the same whichever way it
/// is read.
pub proof fn lemma_pairs_round_trip(s: Seq<(String, String)>)
    requires
        unique_keys(s),
    ensures
        pairs_map(s) == entries_map(s),
    decreases s.len(),
{
    if s.len() == 0 {
        assert(entries_map(s) =~= Map::<Seq<char>, Seq<char>>::empty());
    } else {
        let p = s.drop_last();
        let last = s.last();
        assert forall|i: int, j: int|
            0 <= i < p.len() && 0 <= j < p.len() && (#[trigger] p[i]).0@ == (#[trigger] p[j]).0@
            implies i == j by {
            assert(p[i] == s[i] && p[j] == s[j]);
        }
        lemma_pairs_round_trip(p);
        if has_key(p, last.0@) {
            let j = index_of_key(p, last.0@);
            assert(s[j] == p[j]);
            assert(s[s.len() - 1] == last);
        }
        lemma_push_entry(p, last);
        assert(p.push(last) =~= s);
    }
}

} // verus!
