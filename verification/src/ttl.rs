//! A key-value table whose cells may expire.
//!
//! This is the shape of the volatile store's key space: every cell carries
//! an optional absolute expiry, and a cell past its expiry reads as absent.
//! The table is viewed as a map from key to value-and-expiry, so contracts
//! above it speak in map algebra: `set` is `insert`, `remove` is `remove`,
//! and a read returns the value exactly when its cell is live.

use vstd::prelude::*;

verus! {

/// Whether a cell with the given expiry is still live at `now` (Unix
/// seconds). A cell without an expiry never lapses on its own.
pub open spec fn is_live_at(expires_at: Option<u64>, now: u64) -> bool {
    match expires_at {
        None => true,
        Some(t) => now < t,
    }
}

struct TtlEntry<V> {
    key: String,
    value: V,
    expires_at: Option<u64>,
}

spec fn unique_keys<V>(s: Seq<TtlEntry<V>>) -> bool {
    forall|i: int, j: int| 0 <= i < j < s.len() ==> s[i].key@ != s[j].key@
}

spec fn entry_map<V>(s: Seq<TtlEntry<V>>) -> Map<Seq<char>, (V, Option<u64>)>
    decreases s.len(),
{
    if s.len() == 0 {
        Map::empty()
    } else {
        entry_map(s.drop_last()).insert(s.last().key@, (s.last().value, s.last().expires_at))
    }
}

proof fn lemma_entry_map_domain<V>(s: Seq<TtlEntry<V>>, k: Seq<char>)
    ensures
        entry_map(s).contains_key(k) <==> exists|i: int| 0 <= i < s.len() && s[i].key@ == k,
    decreases s.len(),
{
    if s.len() == 0 {
    } else {
        lemma_entry_map_domain(s.drop_last(), k);
        if s.last().key@ == k {
            assert(s[s.len() - 1].key@ == k);
        } else {
            if entry_map(s).contains_key(k) {
                let i = choose|i: int| 0 <= i < s.drop_last().len() && s.drop_last()[i].key@ == k;
                assert(s[i].key@ == k);
            }
            if exists|i: int| 0 <= i < s.len() && s[i].key@ == k {
                let i = choose|i: int| 0 <= i < s.len() && s[i].key@ == k;
                assert(i < s.len() - 1);
                assert(s.drop_last()[i].key@ == k);
            }
        }
    }
}

proof fn lemma_entry_map_index<V>(s: Seq<TtlEntry<V>>, i: int)
    requires
        unique_keys(s),
        0 <= i < s.len(),
    ensures
        entry_map(s).contains_key(s[i].key@),
        entry_map(s)[s[i].key@] == (s[i].value, s[i].expires_at),
    decreases s.len(),
{
    if i == s.len() - 1 {
    } else {
        assert(unique_keys(s.drop_last()));
        lemma_entry_map_index(s.drop_last(), i);
        assert(s.drop_last()[i] == s[i]);
        assert(s[i].key@ != s.last().key@);
    }
}

proof fn lemma_entry_map_remove<V>(s: Seq<TtlEntry<V>>, i: int)
    requires
        unique_keys(s),
        0 <= i < s.len(),
    ensures
        entry_map(s.remove(i)) == entry_map(s).remove(s[i].key@),
    decreases s.len(),
{
    let k = s[i].key@;
    if i == s.len() - 1 {
        assert(s.remove(i) =~= s.drop_last());
        assert(!entry_map(s.drop_last()).contains_key(k)) by {
            lemma_entry_map_domain(s.drop_last(), k);
            if entry_map(s.drop_last()).contains_key(k) {
                let j = choose|j: int|
                    0 <= j < s.drop_last().len() && s.drop_last()[j].key@ == k;
                assert(s[j].key@ == s[i].key@);
            }
        };
        assert(entry_map(s).remove(k) =~= entry_map(s.drop_last()));
    } else {
        let t = s.remove(i);
        assert(t.last() == s.last());
        assert(t.drop_last() =~= s.drop_last().remove(i));
        assert(unique_keys(s.drop_last()));
        lemma_entry_map_remove(s.drop_last(), i);
        assert(s[i].key@ != s.last().key@);
        assert(entry_map(s.drop_last()).remove(k).insert(
            s.last().key@,
            (s.last().value, s.last().expires_at),
        ) =~= entry_map(s.drop_last()).insert(
            s.last().key@,
            (s.last().value, s.last().expires_at),
        ).remove(k));
    }
}

/// A TTL key-value table, one prefix of the volatile store's key space.
pub struct TtlTable<V> {
    entries: Vec<TtlEntry<V>>,
}

impl<V> View for TtlTable<V> {
    type V = Map<Seq<char>, (V, Option<u64>)>;

    closed spec fn view(&self) -> Map<Seq<char>, (V, Option<u64>)> {
        entry_map(self.entries@)
    }
}

impl<V> TtlTable<V> {
    /// No two cells share a key.
    pub closed spec fn wf(&self) -> bool {
        unique_keys(self.entries@)
    }

    /// The value stored under `k`, provided its cell exists and is live at
    /// `now`.
    pub open spec fn live_value(&self, k: Seq<char>, now: u64) -> Option<V> {
        if self@.contains_key(k) && is_live_at(self@[k].1, now) {
            Some(self@[k].0)
        } else {
            None
        }
    }

    pub fn new() -> (r: Self)
        ensures
            r.wf(),
            r@ == Map::<Seq<char>, (V, Option<u64>)>::empty(),
    {
        TtlTable { entries: Vec::new() }
    }

    /// Read the live value under `key`, treating an expired cell as absent.
    pub fn get<'a>(&'a self, key: &String, now: u64) -> (r: Option<&'a V>)
        requires
            self.wf(),
        ensures
            match r {
                Some(v) => self.live_value(key@, now) == Some(*v),
                None => self.live_value(key@, now) is None,
            },
    {
        let n = self.entries.len();
        let mut i: usize = 0;
        while i < n
            invariant
                n == self.entries@.len(),
                i <= n,
                self.wf(),
                forall|j: int| 0 <= j < i ==> self.entries@[j].key@ != key@,
            decreases n - i,
        {
            if self.entries[i].key == *key {
                proof {
                    lemma_entry_map_index(self.entries@, i as int);
                }
                let live = match self.entries[i].expires_at {
                    None => true,
                    Some(t) => now < t,
                };
                if live {
                    return Some(&self.entries[i].value);
                } else {
                    return None;
                }
            }
            i = i + 1;
        }
        proof {
            lemma_entry_map_domain(self.entries@, key@);
        }
        None
    }

    /// Read the live value under `key` together with the cell's expiry.
    pub fn get_with_expiry<'a>(&'a self, key: &String, now: u64) -> (r: Option<
        (&'a V, Option<u64>),
    >)
        requires
            self.wf(),
        ensures
            match r {
                Some(p) => self@.contains_key(key@) && is_live_at(self@[key@].1, now) && *p.0
                    == self@[key@].0 && p.1 == self@[key@].1,
                None => self.live_value(key@, now) is None,
            },
    {
        let n = self.entries.len();
        let mut i: usize = 0;
        while i < n
            invariant
                n == self.entries@.len(),
                i <= n,
                self.wf(),
                forall|j: int| 0 <= j < i ==> self.entries@[j].key@ != key@,
            decreases n - i,
        {
            if self.entries[i].key == *key {
                proof {
                    lemma_entry_map_index(self.entries@, i as int);
                }
                let live = match self.entries[i].expires_at {
                    None => true,
                    Some(t) => now < t,
                };
                if live {
                    return Some((&self.entries[i].value, self.entries[i].expires_at));
                } else {
                    return None;
                }
            }
            i = i + 1;
        }
        proof {
            lemma_entry_map_domain(self.entries@, key@);
        }
        None
    }

    /// Drop the cell under `key`, live or not; absent keys are left as they
    /// are.
    pub fn remove(&mut self, key: &String)
        requires
            old(self).wf(),
        ensures
            final(self).wf(),
            final(self)@ == old(self)@.remove(key@),
    {
        let n = self.entries.len();
        let mut i: usize = 0;
        while i < n
            invariant
                n == self.entries@.len(),
                i <= n,
                self.wf(),
                self.entries@ == old(self).entries@,
                forall|j: int| 0 <= j < i ==> self.entries@[j].key@ != key@,
            decreases n - i,
        {
            if self.entries[i].key == *key {
                proof {
                    lemma_entry_map_remove(self.entries@, i as int);
                    let s = self.entries@;
                    let t = s.remove(i as int);
                    assert forall|a: int, b: int| 0 <= a < b < t.len() implies
                        t[a].key@ != t[b].key@ by {
                        if a < i && b < i {
                            assert(t[a] == s[a] && t[b] == s[b]);
                        } else if a < i {
                            assert(t[a] == s[a] && t[b] == s[b + 1]);
                        } else {
                            assert(t[a] == s[a + 1] && t[b] == s[b + 1]);
                        }
                    };
                }
                self.entries.remove(i);
                return;
            }
            i = i + 1;
        }
        proof {
            lemma_entry_map_domain(self.entries@, key@);
            assert(self@.remove(key@) =~= self@);
        }
    }

    /// Write `value` under `key` with the given expiry, replacing whatever
    /// cell was there.
    pub fn set(&mut self, key: String, value: V, expires_at: Option<u64>)
        requires
            old(self).wf(),
        ensures
            final(self).wf(),
            final(self)@ == old(self)@.insert(key@, (value, expires_at)),
    {
        self.remove(&key);
        proof {
            lemma_entry_map_domain(self.entries@, key@);
        }
        let ghost mid = self.entries@;
        self.entries.push(TtlEntry { key, value, expires_at });
        proof {
            assert(self.entries@.drop_last() =~= mid);
            assert(self@ == old(self)@.remove(key@).insert(key@, (value, expires_at)));
            assert(old(self)@.remove(key@).insert(key@, (value, expires_at)) =~= old(
                self,
            )@.insert(key@, (value, expires_at)));
        }
    }
}

} // verus!
