//! A small keyed store of content snapshots, used to model the collaborator
//! stores the handler writes through: the last recorded content per path and
//! the search index.
//!
//! The store keeps one entry per key; writing an existing key replaces its
//! value. Its abstract value is a map from the key's characters to the
//! value's bytes, so replaying the same write twice leaves the same map.

use vstd::prelude::*;

verus! {

/// One keyed content snapshot.
#[derive(Debug)]
pub struct KvEntry {
    pub key: String,
    pub value: Vec<u8>,
}

/// A keyed store with at most one entry per key.
#[derive(Debug)]
pub struct KvStore {
    pub entries: Vec<KvEntry>,
}

/// True when a key occurs among the entries.
pub open spec fn kv_contains(s: Seq<KvEntry>, k: Seq<char>) -> bool {
    exists|i: int| 0 <= i < s.len() && s[i].key@ == k
}

/// The value stored under a key that occurs among the entries.
pub open spec fn kv_value(s: Seq<KvEntry>, k: Seq<char>) -> Seq<u8> {
    s[choose|i: int| 0 <= i < s.len() && s[i].key@ == k].value@
}

impl View for KvStore {
    type V = Map<Seq<char>, Seq<u8>>;

    open spec fn view(&self) -> Map<Seq<char>, Seq<u8>> {
        Map::new(
            |k: Seq<char>| kv_contains(self.entries@, k),
            |k: Seq<char>| kv_value(self.entries@, k),
        )
    }
}

impl KvStore {
    /// No two entries share a key.
    pub open spec fn wf(&self) -> bool {
        forall|i: int, j: int|
            0 <= i < self.entries@.len() && 0 <= j < self.entries@.len() && i != j
                ==> self.entries@[i].key@ != self.entries@[j].key@
    }

    /// An empty store.
    pub fn new() -> (r: KvStore)
        ensures
            r.wf(),
            r@ == Map::<Seq<char>, Seq<u8>>::empty(),
    {
        let r = KvStore { entries: Vec::new() };
        proof {
            assert(r@ =~= Map::<Seq<char>, Seq<u8>>::empty());
        }
        r
    }

    /// The value last stored under the key, if any.
    pub fn get(&self, key: &String) -> (r: Option<&Vec<u8>>)
        requires
            self.wf(),
        ensures
            match r {
                Some(v) => self@.contains_key(key@) && v@ == self@[key@],
                None => !self@.contains_key(key@),
            },
    {
        let n = self.entries.len();
        let mut i: usize = 0;
        while i < n
            invariant
                self.wf(),
                0 <= i <= n,
                n == self.entries@.len(),
                forall|j: int| 0 <= j < i ==> self.entries@[j].key@ != key@,
            decreases n - i,
        {
            if self.entries[i].key.eq(key) {
                proof {
                    let w = choose|w: int|
                        0 <= w < self.entries@.len() && self.entries@[w].key@ == key@;
                    assert(self.entries@[i as int].key@ == key@);
                    assert(w == i);
                }
                return Some(&self.entries[i].value);
            }
            i += 1;
        }
        proof {
            assert(!kv_contains(self.entries@, key@));
        }
        None
    }

    /// Stores the value under the key, replacing any earlier value.
    pub fn set(&mut self, key: String, value: Vec<u8>)
        requires
            old(self).wf(),
        ensures
            final(self).wf(),
            final(self)@ == old(self)@.insert(key@, value@),
    {
        let ghost old_entries = self.entries@;
        let n = self.entries.len();
        let mut i: usize = 0;
        while i < n
            invariant
                self.wf(),
                0 <= i <= n,
                n == self.entries@.len(),
                self.entries@ == old_entries,
                old(self).entries@ == old_entries,
                forall|j: int| 0 <= j < i ==> self.entries@[j].key@ != key@,
            decreases n - i,
        {
            if self.entries[i].key.eq(&key) {
                self.entries.remove(i);
                self.entries.insert(i, KvEntry { key, value });
                proof {
                    assert(self.entries@ =~= old_entries.update(i as int, self.entries@[i as int]));
                    self.lemma_view_after_update(old_entries, i as int);
                    assert(old(self)@ =~= Map::new(
                        |k: Seq<char>| kv_contains(old_entries, k),
                        |k: Seq<char>| kv_value(old_entries, k),
                    ));
                }
                return ;
            }
            i += 1;
        }
        self.entries.push(KvEntry { key, value });
        proof {
            self.lemma_view_after_push(old_entries);
            assert(old(self)@ =~= Map::new(
                |k: Seq<char>| kv_contains(old_entries, k),
                |k: Seq<char>| kv_value(old_entries, k),
            ));
        }
    }

    proof fn lemma_view_after_update(&self, old_entries: Seq<KvEntry>, i: int)
        requires
            0 <= i < old_entries.len(),
            self.entries@.len() == old_entries.len(),
            forall|j: int| 0 <= j < old_entries.len() && j != i ==> self.entries@[j] == old_entries[j],
            self.entries@[i].key@ == old_entries[i].key@,
            forall|p: int, q: int|
                0 <= p < old_entries.len() && 0 <= q < old_entries.len() && p != q
                    ==> old_entries[p].key@ != old_entries[q].key@,
        ensures
            self.wf(),
            self@ == Map::new(
                |k: Seq<char>| kv_contains(old_entries, k),
                |k: Seq<char>| kv_value(old_entries, k),
            ).insert(self.entries@[i].key@, self.entries@[i].value@),
    {
        let s = self.entries@;
        let key = s[i].key@;
        assert forall|p: int, q: int|
            0 <= p < s.len() && 0 <= q < s.len() && p != q implies s[p].key@ != s[q].key@ by {
            assert(old_entries[p].key@ != old_entries[q].key@);
        }
        let m_old = Map::new(
            |k: Seq<char>| kv_contains(old_entries, k),
            |k: Seq<char>| kv_value(old_entries, k),
        );
        assert forall|k: Seq<char>| kv_contains(s, k) implies (k == key || kv_contains(
            old_entries,
            k,
        )) by {
            let w = choose|w: int| 0 <= w < s.len() && s[w].key@ == k;
            if w != i {
                assert(old_entries[w].key@ == k);
            }
        }
        assert forall|k: Seq<char>| kv_contains(old_entries, k) implies kv_contains(s, k) by {
            let w = choose|w: int| 0 <= w < old_entries.len() && old_entries[w].key@ == k;
            if w == i {
                assert(s[i].key@ == k);
            } else {
                assert(s[w].key@ == k);
            }
        }
        assert forall|k: Seq<char>| kv_contains(s, k) && k != key implies kv_value(s, k)
            == kv_value(old_entries, k) by {
            let w = choose|w: int| 0 <= w < s.len() && s[w].key@ == k;
            assert(w != i);
            assert(old_entries[w].key@ == k);
            let w2 = choose|w2: int| 0 <= w2 < old_entries.len() && old_entries[w2].key@ == k;
            assert(old_entries[w2].key@ == old_entries[w].key@);
            assert(w2 == w);
        }
        assert(kv_contains(s, key));
        assert(kv_value(s, key) == s[i].value@) by {
            let w = choose|w: int| 0 <= w < s.len() && s[w].key@ == key;
            assert(w == i);
        }
        assert(self@ =~= m_old.insert(key, s[i].value@));
    }

    proof fn lemma_view_after_push(&self, old_entries: Seq<KvEntry>)
        requires
            self.entries@.len() == old_entries.len() + 1,
            forall|j: int| 0 <= j < old_entries.len() ==> self.entries@[j] == old_entries[j],
            forall|j: int|
                0 <= j < old_entries.len()
                    ==> old_entries[j].key@ != self.entries@[old_entries.len() as int].key@,
            forall|p: int, q: int|
                0 <= p < old_entries.len() && 0 <= q < old_entries.len() && p != q
                    ==> old_entries[p].key@ != old_entries[q].key@,
        ensures
            self.wf(),
            self@ == Map::new(
                |k: Seq<char>| kv_contains(old_entries, k),
                |k: Seq<char>| kv_value(old_entries, k),
            ).insert(
                self.entries@[old_entries.len() as int].key@,
                self.entries@[old_entries.len() as int].value@,
            ),
    {
        let s = self.entries@;
        let n = old_entries.len() as int;
        let key = s[n].key@;
        assert forall|p: int, q: int|
            0 <= p < s.len() && 0 <= q < s.len() && p != q implies s[p].key@ != s[q].key@ by {
            if p < n && q < n {
                assert(old_entries[p].key@ != old_entries[q].key@);
            } else if p < n && q == n {
                assert(old_entries[p].key@ != s[n].key@);
            } else {
                assert(old_entries[q].key@ != s[n].key@);
            }
        }
        let m_old = Map::new(
            |k: Seq<char>| kv_contains(old_entries, k),
            |k: Seq<char>| kv_value(old_entries, k),
        );
        assert forall|k: Seq<char>| kv_contains(s, k) implies (k == key || kv_contains(
            old_entries,
            k,
        )) by {
            let w = choose|w: int| 0 <= w < s.len() && s[w].key@ == k;
            if w != n {
                assert(old_entries[w].key@ == k);
            }
        }
        assert forall|k: Seq<char>| kv_contains(old_entries, k) implies kv_contains(s, k) by {
            let w = choose|w: int| 0 <= w < old_entries.len() && old_entries[w].key@ == k;
            assert(s[w].key@ == k);
        }
        assert forall|k: Seq<char>| kv_contains(s, k) && k != key implies kv_value(s, k)
            == kv_value(old_entries, k) by {
            let w = choose|w: int| 0 <= w < s.len() && s[w].key@ == k;
            assert(w != n);
            assert(old_entries[w].key@ == k);
            let w2 = choose|w2: int| 0 <= w2 < old_entries.len() && old_entries[w2].key@ == k;
            assert(old_entries[w2].key@ == old_entries[w].key@);
            assert(w2 == w);
        }
        assert(kv_contains(s, key));
        assert(kv_value(s, key) == s[n].value@) by {
            let w = choose|w: int| 0 <= w < s.len() && s[w].key@ == key;
            assert(w == n);
        }
        assert(self@ =~= m_old.insert(key, s[n].value@));
    }
}

} // verus!
