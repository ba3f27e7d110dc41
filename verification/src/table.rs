//! A table of values keyed by strings, with expiry-based pruning.

use vstd::prelude::*;
use crate::text::str_eq;

verus! {

/// Values that carry an expiry time, in milliseconds.
pub trait Expires {
    spec fn expiry(&self) -> u128;

    fn expires_at(&self) -> (r: u128)
        ensures
            r == self.expiry(),
    ;
}

/// Whether no two entries share a key.
pub open spec fn unique_keys<V>(s: Seq<(String, V)>) -> bool {
    forall|i: int, j: int| 0 <= i < s.len() && 0 <= j < s.len() && i != j ==> s[i].0@ != s[j].0@
}

/// Whether some entry has key `k`.
pub open spec fn has_entry<V>(s: Seq<(String, V)>, k: Seq<char>) -> bool {
    exists|i: int| 0 <= i < s.len() && s[i].0@ == k
}

/// The map that a list of entries with distinct keys stands for.
pub open spec fn entries_map<V>(s: Seq<(String, V)>) -> Map<Seq<char>, V> {
    Map::new(
        |k: Seq<char>| has_entry(s, k),
        |k: Seq<char>| s[choose|i: int| 0 <= i < s.len() && s[i].0@ == k].1,
    )
}

/// A table of values keyed by strings; no key appears twice.
pub struct Table<V> {
    entries: Vec<(String, V)>,
}

impl<V> Table<V> {
    #[verifier::type_invariant]
    spec fn keys_distinct(self) -> bool {
        unique_keys(self.entries@)
    }

    /// The table as a map.
    pub closed spec fn view(&self) -> Map<Seq<char>, V> {
        entries_map(self.entries@)
    }

    /// The value at `k` in a list with distinct keys is the one at its
    /// position.
    proof fn lemma_at(s: Seq<(String, V)>, i: int)
        requires
            unique_keys(s),
            0 <= i < s.len(),
        ensures
            entries_map(s).contains_key(s[i].0@),
            entries_map(s)[s[i].0@] == s[i].1,
    {
        let k = s[i].0@;
        assert(has_entry(s, k));
        let j = choose|j: int| 0 <= j < s.len() && s[j].0@ == k;
        assert(j == i);
    }

    /// An empty table.
    pub fn new() -> (t: Self)
        ensures
            t@ == Map::<Seq<char>, V>::empty(),
    {
        let t = Table { entries: Vec::new() };
        assert(t@ =~= Map::<Seq<char>, V>::empty());
        t
    }

    fn position(&self, key: &str) -> (r: Option<usize>)
        ensures
            match r {
                Some(i) => i < self.entries@.len() && self.entries@[i as int].0@ == key@,
                None => !has_entry(self.entries@, key@),
            },
    {
        let mut i: usize = 0;
        while i < self.entries.len()
            invariant
                i <= self.entries@.len(),
                forall|j: int| 0 <= j < i ==> self.entries@[j].0@ != key@,
            decreases self.entries@.len() - i,
        {
            if str_eq(self.entries[i].0.as_str(), key) {
                return Some(i);
            }
            i = i + 1;
        }
        None
    }

    /// The value stored at `key`.
    pub fn get(&self, key: &str) -> (r: Option<&V>)
        ensures
            match r {
                Some(v) => self@.contains_key(key@) && self@[key@] == *v,
                None => !self@.contains_key(key@),
            },
    {
        proof {
            use_type_invariant(self);
        }
        match self.position(key) {
            Some(i) => {
                proof {
                    Self::lemma_at(self.entries@, i as int);
                }
                Some(&self.entries[i].1)
            },
            None => None,
        }
    }

    /// Stores `value` at `key`, replacing what was there.
    pub fn insert(&mut self, key: String, value: V)
        ensures
            final(self)@ == old(self)@.insert(key@, value),
    {
        proof {
            use_type_invariant(&*self);
        }
        let ghost old_entries = self.entries@;
        let ghost k = key@;
        let ghost v = value;
        let pos = self.position(key.as_str());
        let mut entries = Vec::new();
        std::mem::swap(&mut entries, &mut self.entries);
        match pos {
            Some(i) => {
                entries.set(i, (key, value));
            },
            None => {
                entries.push((key, value));
            },
        }
        let ghost s = entries@;
        assert(unique_keys(s));
        proof {
            assert forall|k2: Seq<char>| #![auto] entries_map(s).contains_key(k2) == entries_map(old_entries).insert(k, v).contains_key(k2) by {
                if has_entry(s, k2) {
                    let j = choose|j: int| 0 <= j < s.len() && s[j].0@ == k2;
                    if k2 != k {
                        assert(old_entries[j].0@ == k2);
                    }
                }
                if k2 != k && has_entry(old_entries, k2) {
                    let j = choose|j: int| 0 <= j < old_entries.len() && old_entries[j].0@ == k2;
                    assert(s[j].0@ == k2);
                }
                if k2 == k {
                    match pos {
                        Some(i) => assert(s[i as int].0@ == k),
                        None => assert(s[s.len() - 1].0@ == k),
                    }
                }
            }
            assert forall|k2: Seq<char>| #![auto] entries_map(s).contains_key(k2) implies entries_map(s)[k2] == entries_map(old_entries).insert(k, v)[k2] by {
                let j = choose|j: int| 0 <= j < s.len() && s[j].0@ == k2;
                Self::lemma_at(s, j);
                if k2 != k {
                    assert(old_entries[j].0@ == k2);
                    Self::lemma_at(old_entries, j);
                } else {
                    match pos {
                        Some(i) => {
                            assert(j == i);
                        },
                        None => {
                            assert(j == s.len() - 1);
                        },
                    }
                }
            }
            assert(entries_map(s) =~= entries_map(old_entries).insert(k, v));
        }
        self.entries = entries;
    }

    /// Removes the value at `key` and gives it back.
    pub fn remove(&mut self, key: &str) -> (r: Option<V>)
        ensures
            final(self)@ == old(self)@.remove(key@),
            match r {
                Some(v) => old(self)@.contains_key(key@) && old(self)@[key@] == v,
                None => !old(self)@.contains_key(key@),
            },
    {
        proof {
            use_type_invariant(&*self);
        }
        let ghost old_entries = self.entries@;
        let ghost k = key@;
        match self.position(key) {
            Some(i) => {
                proof {
                    Self::lemma_at(old_entries, i as int);
                }
                let mut entries = Vec::new();
                std::mem::swap(&mut entries, &mut self.entries);
                let (_, v) = entries.remove(i);
                let ghost s = entries@;
                assert(s =~= old_entries.remove(i as int));
                assert(unique_keys(s));
                proof {
                    assert forall|k2: Seq<char>| #![auto] entries_map(s).contains_key(k2) == entries_map(old_entries).remove(k).contains_key(k2) by {
                        if has_entry(s, k2) {
                            let j = choose|j: int| 0 <= j < s.len() && s[j].0@ == k2;
                            if j < i {
                                assert(old_entries[j].0@ == k2);
                            } else {
                                assert(old_entries[j + 1].0@ == k2);
                            }
                        }
                        if k2 != k && has_entry(old_entries, k2) {
                            let j = choose|j: int| 0 <= j < old_entries.len() && old_entries[j].0@ == k2;
                            if j < i {
                                assert(s[j].0@ == k2);
                            } else {
                                assert(j != i);
                                assert(s[j - 1].0@ == k2);
                            }
                        }
                    }
                    assert forall|k2: Seq<char>| #![auto] entries_map(s).contains_key(k2) implies entries_map(s)[k2] == entries_map(old_entries).remove(k)[k2] by {
                        let j = choose|j: int| 0 <= j < s.len() && s[j].0@ == k2;
                        Self::lemma_at(s, j);
                        if j < i {
                            Self::lemma_at(old_entries, j);
                        } else {
                            Self::lemma_at(old_entries, j + 1);
                        }
                    }
                    assert(entries_map(s) =~= entries_map(old_entries).remove(k));
                }
                self.entries = entries;
                Some(v)
            },
            None => {
                assert(entries_map(old_entries) =~= entries_map(old_entries).remove(k));
                None
            },
        }
    }
}

/// The entries of a map that expire after `now`.
pub open spec fn unexpired<V: Expires>(m: Map<Seq<char>, V>, now: u128) -> Map<Seq<char>, V> {
    Map::new(|k: Seq<char>| m.contains_key(k) && m[k].expiry() > now, |k: Seq<char>| m[k])
}

/// The entries of a list that expire after `now`, in order.
pub open spec fn keep_unexpired<V: Expires>(s: Seq<(String, V)>, now: u128) -> Seq<(String, V)>
    decreases s.len(),
{
    if s.len() == 0 {
        s
    } else if s.last().1.expiry() > now {
        keep_unexpired(s.drop_last(), now).push(s.last())
    } else {
        keep_unexpired(s.drop_last(), now)
    }
}

/// Every kept entry is an unexpired entry of the list, and every
/// unexpired entry of the list is kept.
proof fn lemma_keep<V: Expires>(s: Seq<(String, V)>, now: u128)
    ensures
        forall|j: int| #![trigger keep_unexpired(s, now)[j]] 0 <= j < keep_unexpired(s, now).len() ==> exists|m: int| #![trigger s[m]] 0 <= m < s.len() && keep_unexpired(s, now)[j] == s[m] && s[m].1.expiry() > now,
        forall|m: int| #![trigger s[m]] 0 <= m < s.len() && s[m].1.expiry() > now ==> exists|j: int| #![trigger keep_unexpired(s, now)[j]] 0 <= j < keep_unexpired(s, now).len() && keep_unexpired(s, now)[j] == s[m],
        unique_keys(s) ==> unique_keys(keep_unexpired(s, now)),
    decreases s.len(),
{
    if s.len() > 0 {
        let p = s.drop_last();
        lemma_keep(p, now);
        let kp = keep_unexpired(p, now);
        let k = keep_unexpired(s, now);
        assert forall|j: int| #![trigger k[j]] 0 <= j < k.len() implies exists|m: int| #![trigger s[m]] 0 <= m < s.len() && k[j] == s[m] && s[m].1.expiry() > now by {
            if j < kp.len() {
                let m = choose|m: int| 0 <= m < p.len() && kp[j] == p[m] && p[m].1.expiry() > now;
                assert(s[m] == p[m]);
            } else {
                assert(k[j] == s[s.len() - 1]);
            }
        }
        assert forall|m: int| #![trigger s[m]] 0 <= m < s.len() && s[m].1.expiry() > now implies exists|j: int| #![trigger k[j]] 0 <= j < k.len() && k[j] == s[m] by {
            if m < p.len() {
                assert(p[m] == s[m]);
                let j = choose|j: int| 0 <= j < kp.len() && kp[j] == p[m];
                assert(k[j] == kp[j]);
            } else {
                assert(k[k.len() - 1] == s[m]);
            }
        }
        if unique_keys(s) {
            assert(unique_keys(p));
            assert forall|i: int, j: int| 0 <= i < k.len() && 0 <= j < k.len() && i != j implies k[i].0@ != k[j].0@ by {
                let mi = choose|m: int| 0 <= m < s.len() && k[i] == s[m] && s[m].1.expiry() > now;
                let mj = choose|m: int| 0 <= m < s.len() && k[j] == s[m] && s[m].1.expiry() > now;
                if mi == mj {
                    if i < kp.len() && j < kp.len() {
                    } else {
                        let last = s.len() - 1;
                        if i < kp.len() {
                            let m2 = choose|m: int| 0 <= m < p.len() && kp[i] == p[m] && p[m].1.expiry() > now;
                            assert(s[m2] == k[i]);
                            assert(m2 != last);
                            assert(k[j] == s[last]);
                            assert(s[m2].0@ != s[last].0@);
                        } else if j < kp.len() {
                            let m2 = choose|m: int| 0 <= m < p.len() && kp[j] == p[m] && p[m].1.expiry() > now;
                            assert(s[m2] == k[j]);
                            assert(m2 != last);
                            assert(k[i] == s[last]);
                            assert(s[m2].0@ != s[last].0@);
                        }
                    }
                }
            }
        }
    }
}

impl<V: Expires> Table<V> {
    /// Drops the entries that expire at or before `now`.
    pub fn retain_unexpired(&mut self, now: u128)
        ensures
            final(self)@ == unexpired(old(self)@, now),
    {
        proof {
            use_type_invariant(&*self);
        }
        let ghost orig = self.entries@;
        let mut rest = Vec::new();
        std::mem::swap(&mut rest, &mut self.entries);
        let mut kept: Vec<(String, V)> = Vec::new();
        let ghost mut taken: int = 0;
        assert(orig.skip(0) =~= orig);
        assert(keep_unexpired(orig.take(0), now) =~= kept@);
        while rest.len() > 0
            invariant
                0 <= taken <= orig.len(),
                rest@ == orig.skip(taken),
                kept@ == keep_unexpired(orig.take(taken), now),
            decreases rest@.len(),
        {
            let entry = rest.remove(0);
            assert(entry == orig[taken]);
            assert(orig.take(taken + 1).drop_last() =~= orig.take(taken));
            let t = entry.1.expires_at();
            if t > now {
                kept.push(entry);
            }
            proof {
                taken = taken + 1;
            }
            assert(rest@ =~= orig.skip(taken));
        }
        assert(orig.take(taken) =~= orig);
        let ghost s = kept@;
        proof {
            lemma_keep(orig, now);
            assert forall|k2: Seq<char>| #![auto] entries_map(s).contains_key(k2) == unexpired(entries_map(orig), now).contains_key(k2) by {
                if has_entry(s, k2) {
                    let j = choose|j: int| 0 <= j < s.len() && s[j].0@ == k2;
                    let m = choose|m: int| 0 <= m < orig.len() && s[j] == orig[m] && orig[m].1.expiry() > now;
                    Self::lemma_at(orig, m);
                }
                if has_entry(orig, k2) {
                    let m = choose|m: int| 0 <= m < orig.len() && orig[m].0@ == k2;
                    Self::lemma_at(orig, m);
                    if orig[m].1.expiry() > now {
                        let j = choose|j: int| 0 <= j < s.len() && s[j] == orig[m];
                        assert(s[j].0@ == k2);
                    }
                }
            }
            assert forall|k2: Seq<char>| #![auto] entries_map(s).contains_key(k2) implies entries_map(s)[k2] == unexpired(entries_map(orig), now)[k2] by {
                let j = choose|j: int| 0 <= j < s.len() && s[j].0@ == k2;
                Self::lemma_at(s, j);
                let m = choose|m: int| 0 <= m < orig.len() && s[j] == orig[m] && orig[m].1.expiry() > now;
                Self::lemma_at(orig, m);
            }
            assert(entries_map(s) =~= unexpired(entries_map(orig), now));
        }
        self.entries = kept;
    }
}

} // verus!
