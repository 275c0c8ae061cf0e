//! Executable model of the TTL key-value store that backs sessions and locks.
//!
//! The store binds string keys to string values; every binding carries an
//! absolute expiry instant, measured in milliseconds. A binding whose expiry
//! instant has been reached is treated as absent by every operation, which
//! models the backing store's automatic removal of expired entries. Time is
//! explicit: each operation takes the current instant `now_ms`.
//!
//! Besides plain `GET`, `SET`-with-TTL and `DEL`, the store offers the two
//! atomic compare-then-act operations that lock release and lock renewal
//! need: delete-if-value-matches and extend-if-value-matches. Each operation
//! is one indivisible step, so a sequence of calls models any serialization
//! of concurrent requests against the real store.

use vstd::map::*;
use vstd::prelude::*;

verus! {

/// One stored binding: a key, its value, and the absolute instant
/// (milliseconds) at which the binding lapses.
pub struct StoreEntry {
    pub key: String,
    pub value: String,
    pub expires_at_ms: u64,
}

/// Mathematical image of one binding.
#[verifier::ext_equal]
pub struct EntryView {
    pub value: Seq<char>,
    pub expires_at_ms: u64,
}

impl View for StoreEntry {
    type V = EntryView;

    open spec fn view(&self) -> EntryView {
        EntryView { value: self.value@, expires_at_ms: self.expires_at_ms }
    }
}

/// No two entries of `s` bind the same key.
pub open spec fn uniq_keys(s: Seq<StoreEntry>) -> bool {
    forall|i: int, j: int| 0 <= i < j < s.len() ==> s[i].key@ != s[j].key@
}

/// Some entry of `s` binds `k`.
pub open spec fn has_key(s: Seq<StoreEntry>, k: Seq<char>) -> bool {
    exists|i: int| 0 <= i < s.len() && s[i].key@ == k
}

/// The index of the entry of `s` that binds `k` (unique when `uniq_keys(s)`).
pub open spec fn index_of(s: Seq<StoreEntry>, k: Seq<char>) -> int {
    choose|i: int| 0 <= i < s.len() && s[i].key@ == k
}

/// The map that a sequence of entries denotes.
pub open spec fn map_of(s: Seq<StoreEntry>) -> Map<Seq<char>, EntryView> {
    Map::new(|k: Seq<char>| has_key(s, k), |k: Seq<char>| s[index_of(s, k)]@)
}

/// `k` is bound in `m` and its binding has not lapsed at `now_ms`.
pub open spec fn live(m: Map<Seq<char>, EntryView>, k: Seq<char>, now_ms: u64) -> bool {
    m.contains_key(k) && now_ms < m[k].expires_at_ms
}

/// `k` is live at `now_ms` and holds exactly the value `v`.
pub open spec fn value_is(m: Map<Seq<char>, EntryView>, k: Seq<char>, v: Seq<char>, now_ms: u64) -> bool {
    live(m, k, now_ms) && m[k].value == v
}

/// What `GET k` returns at `now_ms`.
pub open spec fn spec_get(m: Map<Seq<char>, EntryView>, k: Seq<char>, now_ms: u64) -> Option<Seq<char>> {
    if live(m, k, now_ms) {
        Some(m[k].value)
    } else {
        None
    }
}

/// The store after an unconditional `SET k v PX ttl_ms` at `now_ms`.
pub open spec fn spec_set(
    m: Map<Seq<char>, EntryView>,
    k: Seq<char>,
    v: Seq<char>,
    ttl_ms: u64,
    now_ms: u64,
) -> Map<Seq<char>, EntryView> {
    m.insert(k, EntryView { value: v, expires_at_ms: (now_ms + ttl_ms) as u64 })
}

/// The store after `SET k v NX PX ttl_ms` at `now_ms`: the write happens
/// exactly when no live binding of `k` exists.
pub open spec fn spec_set_nx(
    m: Map<Seq<char>, EntryView>,
    k: Seq<char>,
    v: Seq<char>,
    ttl_ms: u64,
    now_ms: u64,
) -> Map<Seq<char>, EntryView> {
    if live(m, k, now_ms) {
        m
    } else {
        spec_set(m, k, v, ttl_ms, now_ms)
    }
}

/// The store after `DEL k`.
pub open spec fn spec_del(m: Map<Seq<char>, EntryView>, k: Seq<char>) -> Map<Seq<char>, EntryView> {
    m.remove(k)
}

/// The store after the atomic delete-if-value-matches script: `k` is removed
/// exactly when it is live and holds `v`; otherwise nothing changes.
pub open spec fn spec_compare_and_delete(
    m: Map<Seq<char>, EntryView>,
    k: Seq<char>,
    v: Seq<char>,
    now_ms: u64,
) -> Map<Seq<char>, EntryView> {
    if value_is(m, k, v, now_ms) {
        m.remove(k)
    } else {
        m
    }
}

/// The store after the atomic extend-if-value-matches script: the expiry of
/// `k` is reset to `now_ms + ttl_ms` exactly when `k` is live and holds `v`;
/// otherwise nothing changes.
pub open spec fn spec_compare_and_extend(
    m: Map<Seq<char>, EntryView>,
    k: Seq<char>,
    v: Seq<char>,
    ttl_ms: u64,
    now_ms: u64,
) -> Map<Seq<char>, EntryView> {
    if value_is(m, k, v, now_ms) {
        m.insert(k, EntryView { value: v, expires_at_ms: (now_ms + ttl_ms) as u64 })
    } else {
        m
    }
}

/// An in-memory store with the semantics above. Its view is the map from
/// bound keys to their entries, expired bindings included; liveness is
/// decided against `now_ms` on each operation.
pub struct StoreModel {
    entries: Vec<StoreEntry>,
}

proof fn lemma_unique_index(s: Seq<StoreEntry>, i: int, k: Seq<char>)
    requires
        uniq_keys(s),
        0 <= i < s.len(),
        s[i].key@ == k,
    ensures
        has_key(s, k),
        index_of(s, k) == i,
{
    assert(has_key(s, k));
    let j = index_of(s, k);
    assert(0 <= j < s.len() && s[j].key@ == k);
    if i < j {
        assert(s[i].key@ != s[j].key@);
    } else if j < i {
        assert(s[j].key@ != s[i].key@);
    }
}

proof fn lemma_map_of_update(s: Seq<StoreEntry>, i: int, e: StoreEntry)
    requires
        uniq_keys(s),
        0 <= i < s.len(),
        e.key@ == s[i].key@,
    ensures
        uniq_keys(s.update(i, e)),
        map_of(s.update(i, e)) == map_of(s).insert(e.key@, e@),
{
    let s2 = s.update(i, e);
    assert(forall|j: int| 0 <= j < s.len() ==> s2[j].key@ == s[j].key@);
    assert_maps_equal!(map_of(s.update(i, e)), map_of(s).insert(e.key@, e@), k => {
        if k == e.key@ {
            lemma_unique_index(s2, i, k);
        } else {
            if has_key(s, k) {
                let j = index_of(s, k);
                assert(0 <= j < s.len() && s[j].key@ == k);
                lemma_unique_index(s2, j, k);
            }
            if has_key(s2, k) {
                let j = index_of(s2, k);
                assert(0 <= j < s2.len() && s2[j].key@ == k);
                lemma_unique_index(s, j, k);
            }
        }
    });
}

proof fn lemma_map_of_push(s: Seq<StoreEntry>, e: StoreEntry)
    requires
        uniq_keys(s),
        !has_key(s, e.key@),
    ensures
        uniq_keys(s.push(e)),
        map_of(s.push(e)) == map_of(s).insert(e.key@, e@),
{
    let s2 = s.push(e);
    assert(forall|j: int| 0 <= j < s.len() ==> s2[j] == s[j]);
    assert(s2[s.len() as int] == e);
    assert forall|x: int, y: int| 0 <= x < y < s2.len() implies s2[x].key@ != s2[y].key@ by {
        if y < s.len() {
            assert(s[x].key@ != s[y].key@);
        } else {
            assert(s2[y] == e);
            assert(s2[x] == s[x]);
            assert(!(s[x].key@ == e.key@));
        }
    }
    assert_maps_equal!(map_of(s.push(e)), map_of(s).insert(e.key@, e@), k => {
        if k == e.key@ {
            lemma_unique_index(s2, s.len() as int, k);
        } else {
            if has_key(s, k) {
                let j = index_of(s, k);
                assert(0 <= j < s.len() && s[j].key@ == k);
                lemma_unique_index(s2, j, k);
            }
            if has_key(s2, k) {
                let j = index_of(s2, k);
                assert(0 <= j < s2.len() && s2[j].key@ == k);
                assert(j < s.len());
                lemma_unique_index(s, j, k);
            }
        }
    });
}

proof fn lemma_map_of_remove(s: Seq<StoreEntry>, i: int)
    requires
        uniq_keys(s),
        0 <= i < s.len(),
    ensures
        uniq_keys(s.remove(i)),
        map_of(s.remove(i)) == map_of(s).remove(s[i].key@),
{
    let k0 = s[i].key@;
    let s2 = s.remove(i);
    assert(s2.len() == s.len() - 1);
    assert(forall|j: int| 0 <= j < i ==> s2[j] == s[j]);
    assert(forall|j: int| i <= j < s2.len() ==> s2[j] == s[j + 1]);
    assert forall|x: int, y: int| 0 <= x < y < s2.len() implies s2[x].key@ != s2[y].key@ by {
        let x0 = if x < i { x } else { x + 1 };
        let y0 = if y < i { y } else { y + 1 };
        assert(s2[x] == s[x0]);
        assert(s2[y] == s[y0]);
        assert(s[x0].key@ != s[y0].key@);
    }
    assert_maps_equal!(map_of(s.remove(i)), map_of(s).remove(s[i].key@), k => {
        if k == k0 {
            if has_key(s2, k) {
                let j = index_of(s2, k);
                assert(0 <= j < s2.len() && s2[j].key@ == k);
                let j0 = if j < i { j } else { j + 1 };
                assert(s[j0].key@ == k);
                lemma_unique_index(s, j0, k);
                lemma_unique_index(s, i, k);
                assert(false);
            }
        } else {
            if has_key(s, k) {
                let j = index_of(s, k);
                assert(0 <= j < s.len() && s[j].key@ == k);
                assert(j != i);
                if j < i {
                    lemma_unique_index(s2, j, k);
                } else {
                    assert(s2[j - 1] == s[j]);
                    lemma_unique_index(s2, j - 1, k);
                }
                lemma_unique_index(s, j, k);
            }
            if has_key(s2, k) {
                let j = index_of(s2, k);
                assert(0 <= j < s2.len() && s2[j].key@ == k);
                let j0 = if j < i { j } else { j + 1 };
                assert(s[j0].key@ == k);
                lemma_unique_index(s, j0, k);
            }
        }
    });
}

impl View for StoreModel {
    type V = Map<Seq<char>, EntryView>;

    closed spec fn view(&self) -> Map<Seq<char>, EntryView> {
        map_of(self.entries@)
    }
}

impl StoreModel {
    /// Internal well-formedness: no key is bound twice. Established by
    /// `new` and preserved by every operation.
    pub closed spec fn wf(self) -> bool {
        uniq_keys(self.entries@)
    }

    /// A fresh store with no bindings.
    pub fn new() -> (s: Self)
        ensures
            s.wf(),
            s@ == Map::<Seq<char>, EntryView>::empty(),
    {
        let s = StoreModel { entries: Vec::new() };
        proof {
            assert_maps_equal!(s@, Map::<Seq<char>, EntryView>::empty());
        }
        s
    }

    /// The index of the entry binding `key`, expired or not.
    fn find_index(&self, key: &String) -> (r: Option<usize>)
        ensures
            match r {
                Some(i) => i < self.entries@.len() && self.entries@[i as int].key@ == key@,
                None => !has_key(self.entries@, key@),
            },
    {
        let n = self.entries.len();
        let mut i: usize = 0;
        while i < n
            invariant
                n == self.entries@.len(),
                i <= n,
                forall|j: int| 0 <= j < i ==> self.entries@[j].key@ != key@,
            decreases n - i,
        {
            if self.entries[i].key == *key {
                return Some(i);
            }
            i += 1;
        }
        None
    }

    /// `GET key`: the bound value, if a live binding exists at `now_ms`.
    pub fn get(&self, key: &String, now_ms: u64) -> (r: Option<String>)
        requires
            self.wf(),
        ensures
            match r {
                Some(v) => spec_get(self@, key@, now_ms) == Some(v@),
                None => spec_get(self@, key@, now_ms) is None,
            },
    {
        match self.find_index(key) {
            Some(i) => {
                proof {
                    lemma_unique_index(self.entries@, i as int, key@);
                }
                if now_ms < self.entries[i].expires_at_ms {
                    Some(self.entries[i].value.clone())
                } else {
                    None
                }
            },
            None => None,
        }
    }

    /// Unconditional `SET key value PX ttl_ms` at `now_ms`: upserts the
    /// binding and resets its expiry to `now_ms + ttl_ms`.
    pub fn set_px(&mut self, key: &String, value: &String, ttl_ms: u64, now_ms: u64)
        requires
            old(self).wf(),
            now_ms + ttl_ms <= u64::MAX,
        ensures
            final(self).wf(),
            final(self)@ == spec_set(old(self)@, key@, value@, ttl_ms, now_ms),
    {
        let e = StoreEntry { key: key.clone(), value: value.clone(), expires_at_ms: now_ms + ttl_ms };
        match self.find_index(key) {
            Some(i) => {
                proof {
                    lemma_map_of_update(self.entries@, i as int, e);
                }
                self.entries[i] = e;
            },
            None => {
                proof {
                    lemma_map_of_push(self.entries@, e);
                }
                self.entries.push(e);
            },
        }
    }

    /// `SET key value NX PX ttl_ms` at `now_ms`: writes the binding exactly
    /// when no live binding of `key` exists, and says whether it did.
    pub fn set_nx_px(&mut self, key: &String, value: &String, ttl_ms: u64, now_ms: u64) -> (r: bool)
        requires
            old(self).wf(),
            now_ms + ttl_ms <= u64::MAX,
        ensures
            final(self).wf(),
            r == !live(old(self)@, key@, now_ms),
            final(self)@ == spec_set_nx(old(self)@, key@, value@, ttl_ms, now_ms),
    {
        let e = StoreEntry { key: key.clone(), value: value.clone(), expires_at_ms: now_ms + ttl_ms };
        match self.find_index(key) {
            Some(i) => {
                proof {
                    lemma_unique_index(self.entries@, i as int, key@);
                }
                if now_ms < self.entries[i].expires_at_ms {
                    false
                } else {
                    proof {
                        lemma_map_of_update(self.entries@, i as int, e);
                    }
                    self.entries[i] = e;
                    true
                }
            },
            None => {
                proof {
                    lemma_map_of_push(self.entries@, e);
                }
                self.entries.push(e);
                true
            },
        }
    }

    /// `DEL key`: drops the binding whether live or lapsed; absent keys are
    /// left alone, so deletion is idempotent.
    pub fn del(&mut self, key: &String)
        requires
            old(self).wf(),
        ensures
            final(self).wf(),
            final(self)@ == spec_del(old(self)@, key@),
    {
        match self.find_index(key) {
            Some(i) => {
                proof {
                    lemma_unique_index(self.entries@, i as int, key@);
                    lemma_map_of_remove(self.entries@, i as int);
                }
                self.entries.remove(i);
            },
            None => {
                proof {
                    assert_maps_equal!(self@, spec_del(self@, key@));
                }
            },
        }
    }

    /// The atomic delete-if-value-matches script: removes `key` exactly when
    /// it is live at `now_ms` and holds `expected`, and says whether it did.
    pub fn compare_and_delete(&mut self, key: &String, expected: &String, now_ms: u64) -> (r: bool)
        requires
            old(self).wf(),
        ensures
            final(self).wf(),
            r == value_is(old(self)@, key@, expected@, now_ms),
            final(self)@ == spec_compare_and_delete(old(self)@, key@, expected@, now_ms),
    {
        match self.find_index(key) {
            Some(i) => {
                proof {
                    lemma_unique_index(self.entries@, i as int, key@);
                }
                if now_ms < self.entries[i].expires_at_ms && self.entries[i].value == *expected {
                    proof {
                        lemma_map_of_remove(self.entries@, i as int);
                    }
                    self.entries.remove(i);
                    true
                } else {
                    false
                }
            },
            None => false,
        }
    }

    /// The atomic extend-if-value-matches script: resets the expiry of `key`
    /// to `now_ms + ttl_ms` exactly when it is live at `now_ms` and holds
    /// `expected`, and says whether it did.
    pub fn compare_and_extend(&mut self, key: &String, expected: &String, ttl_ms: u64, now_ms: u64) -> (r: bool)
        requires
            old(self).wf(),
            now_ms + ttl_ms <= u64::MAX,
        ensures
            final(self).wf(),
            r == value_is(old(self)@, key@, expected@, now_ms),
            final(self)@ == spec_compare_and_extend(old(self)@, key@, expected@, ttl_ms, now_ms),
    {
        match self.find_index(key) {
            Some(i) => {
                proof {
                    lemma_unique_index(self.entries@, i as int, key@);
                }
                if now_ms < self.entries[i].expires_at_ms && self.entries[i].value == *expected {
                    let e = StoreEntry {
                        key: key.clone(),
                        value: self.entries[i].value.clone(),
                        expires_at_ms: now_ms + ttl_ms,
                    };
                    proof {
                        lemma_map_of_update(self.entries@, i as int, e);
                    }
                    self.entries[i] = e;
                    true
                } else {
                    false
                }
            },
            None => false,
        }
    }
}

} // verus!
