//! The function cache: a bounded, keyed store of previously generated
//! native functions. A lookup hit returns the cached artifact and records
//! a hit; a miss invokes the builder exactly once, stores the result and
//! returns it. When an insertion would exceed capacity, the
//! least-recently-used entry is evicted first — never the entry about to
//! be returned.

use vstd::prelude::*;
use crate::error::BuildError;
use crate::ir::{IrFunction, IrFunctionV, clone_native_types};
use crate::strutil::str_eq;
use crate::value_type::NativeType;

verus! {

/// The identity a cached function is addressed by: its name and signature.
#[derive(Debug)]
pub struct CacheKey {
    pub name: String,
    pub params: Vec<NativeType>,
    pub ret: Option<NativeType>,
}

/// Ghost mirror of a cache key.
pub struct CacheKeyV {
    pub name: Seq<char>,
    pub params: Seq<NativeType>,
    pub ret: Option<NativeType>,
}

impl View for CacheKey {
    type V = CacheKeyV;

    open spec fn view(&self) -> CacheKeyV {
        CacheKeyV { name: self.name@, params: self.params@, ret: self.ret }
    }
}

impl Clone for CacheKey {
    fn clone(&self) -> (r: Self)
        ensures
            r@ == self@,
    {
        CacheKey {
            name: self.name.clone(),
            params: clone_native_types(&self.params),
            ret: self.ret,
        }
    }
}

/// Whether two keys denote the same function identity.
pub fn key_eq(a: &CacheKey, b: &CacheKey) -> (r: bool)
    ensures
        r == (a@ == b@),
{
    if !str_eq(a.name.as_str(), b.name.as_str()) {
        return false;
    }
    if a.ret != b.ret {
        return false;
    }
    if a.params.len() != b.params.len() {
        return false;
    }
    let mut i: usize = 0;
    while i < a.params.len()
        invariant
            i <= a.params@.len(),
            a.params@.len() == b.params@.len(),
            forall|j: int| 0 <= j < i ==> a.params@[j] == b.params@[j],
        decreases a.params@.len() - i,
    {
        if a.params[i] != b.params[i] {
            return false;
        }
        i = i + 1;
    }
    proof {
        assert(a.params@ =~= b.params@);
    }
    true
}

/// A compiled artifact under its cache identity: a distinct handle number
/// and the generated function. Two handles refer to the same artifact
/// exactly when their numbers are equal.
#[derive(Debug)]
pub struct CompiledHandle {
    pub id: u64,
    pub func: IrFunction,
}

/// Ghost mirror of one cache entry, in recency order inside the model.
pub struct EntryV {
    pub key: CacheKeyV,
    pub id: u64,
    pub func: IrFunctionV,
}

/// Cumulative counters; each saturates rather than wrapping.
#[derive(Debug, Clone, Copy, PartialEq, Eq, Structural)]
pub struct CacheStats {
    pub hits: u64,
    pub misses: u64,
    pub evictions: u64,
}

/// A counter bump that saturates at the maximum.
pub open spec fn spec_bump(c: u64) -> u64 {
    if c == u64::MAX {
        c
    } else {
        (c + 1) as u64
    }
}

fn bump(c: u64) -> (r: u64)
    ensures
        r == spec_bump(c),
{
    if c < u64::MAX {
        c + 1
    } else {
        c
    }
}

/// The first position holding the key, searching from `i`.
pub open spec fn find_from(s: Seq<EntryV>, k: CacheKeyV, i: nat) -> Option<int>
    decreases s.len() - i,
{
    if i >= s.len() {
        None
    } else if s[i as int].key == k {
        Some(i as int)
    } else {
        find_from(s, k, i + 1)
    }
}

/// No two entries share a key.
pub open spec fn distinct_keys(s: Seq<EntryV>) -> bool {
    forall|i: int, j: int| 0 <= i < j < s.len() ==> s[i].key != s[j].key
}

/// The model change of a lookup hit at position `i`: the entry moves to
/// the most-recent end, otherwise nothing changes.
pub open spec fn spec_hit(s: Seq<EntryV>, i: int) -> Seq<EntryV> {
    s.remove(i).push(s[i])
}

/// The model change of inserting a fresh entry: the least-recently-used
/// entry (position zero) is evicted first exactly when the cache is full.
pub open spec fn spec_insert(s: Seq<EntryV>, e: EntryV, capacity: nat) -> Seq<EntryV> {
    if s.len() >= capacity {
        s.drop_first().push(e)
    } else {
        s.push(e)
    }
}

/// The function cache.
pub struct FunctionCache {
    entries: Vec<(CacheKey, CompiledHandle)>,
    capacity: usize,
    next_id: u64,
    hits: u64,
    misses: u64,
    evictions: u64,
}

impl View for FunctionCache {
    type V = Seq<EntryV>;

    closed spec fn view(&self) -> Seq<EntryV> {
        self.entries@.map_values(
            |p: (CacheKey, CompiledHandle)| EntryV { key: p.0@, id: p.1.id, func: p.1.func@ },
        )
    }
}

impl FunctionCache {
    /// Well-formed: distinct keys, within capacity, and a nonzero bound.
    pub closed spec fn wf(&self) -> bool {
        &&& distinct_keys(self@)
        &&& self.entries@.len() <= self.capacity
        &&& self.capacity >= 1
    }

    pub closed spec fn spec_capacity(&self) -> nat {
        self.capacity as nat
    }

    pub closed spec fn spec_stats(&self) -> CacheStats {
        CacheStats { hits: self.hits, misses: self.misses, evictions: self.evictions }
    }

    /// An empty cache with the given capacity bound.
    pub fn new(capacity: usize) -> (r: Self)
        requires
            capacity >= 1,
        ensures
            r.wf(),
            r@ == Seq::<EntryV>::empty(),
            r.spec_capacity() == capacity,
            r.spec_stats() == (CacheStats { hits: 0, misses: 0, evictions: 0 }),
    {
        let r = FunctionCache {
            entries: Vec::new(),
            capacity,
            next_id: 0,
            hits: 0,
            misses: 0,
            evictions: 0,
        };
        proof {
            assert(r@ =~= Seq::<EntryV>::empty());
        }
        r
    }

    /// The cumulative counters: hits, misses, evictions.
    pub fn stats(&self) -> (r: CacheStats)
        ensures
            r == self.spec_stats(),
    {
        CacheStats { hits: self.hits, misses: self.misses, evictions: self.evictions }
    }

    fn position(&self, key: &CacheKey) -> (r: Option<usize>)
        ensures
            match r {
                Some(i) => i < self@.len() && find_from(self@, key@, 0) == Some(i as int),
                None => find_from(self@, key@, 0) is None,
            },
    {
        self.position_from(key, 0)
    }

    fn position_from(&self, key: &CacheKey, i: usize) -> (r: Option<usize>)
        requires
            i <= self@.len(),
        ensures
            match r {
                Some(j) => i <= j < self@.len() && find_from(self@, key@, i as nat) == Some(
                    j as int,
                ),
                None => find_from(self@, key@, i as nat) is None,
            },
        decreases self@.len() - i,
    {
        if i == self.entries.len() {
            return None;
        }
        if key_eq(&self.entries[i].0, key) {
            proof {
                assert(self@[i as int].key == key@);
            }
            Some(i)
        } else {
            proof {
                assert(self@[i as int].key != key@);
            }
            self.position_from(key, i + 1)
        }
    }

    /// A borrow of the artifact cached under a key, most recently returned
    /// handle included.
    pub fn handle(&self, key: &CacheKey) -> (r: Option<&CompiledHandle>)
        ensures
            match r {
                Some(h) => ({
                    let f = find_from(self@, key@, 0);
                    &&& f matches Some(i)
                    &&& self@[f->Some_0].id == h.id
                    &&& self@[f->Some_0].func == h.func@
                }),
                None => find_from(self@, key@, 0) is None,
            },
    {
        match self.position(key) {
            Some(i) => Some(&self.entries[i].1),
            None => None,
        }
    }

    /// Looks the key up; on a hit, records the hit, refreshes recency and
    /// returns the cached handle number. On a miss, invokes the builder
    /// exactly once; if it yields a function, the artifact is stored under
    /// a fresh handle number — evicting the least-recently-used entry first
    /// if the cache is full — and that number is returned; a builder
    /// failure is passed through with nothing stored.
    pub fn get_or_compile<F: FnOnce() -> Result<IrFunction, BuildError>>(
        &mut self,
        key: CacheKey,
        builder: F,
    ) -> (r: Result<u64, BuildError>)
        requires
            old(self).wf(),
            call_requires(builder, ()),
        ensures
            final(self).wf(),
            final(self).spec_capacity() == old(self).spec_capacity(),
            match find_from(old(self)@, key@, 0) {
                Some(i) => {
                    &&& r == Ok::<u64, BuildError>(old(self)@[i].id)
                    &&& final(self)@ == spec_hit(old(self)@, i)
                    &&& final(self).spec_stats() == (CacheStats {
                        hits: spec_bump(old(self).spec_stats().hits),
                        misses: old(self).spec_stats().misses,
                        evictions: old(self).spec_stats().evictions,
                    })
                },
                None => {
                    &&& exists|b: Result<IrFunction, BuildError>| #[trigger] call_ensures(
                        builder,
                        (),
                        b,
                    ) && match (b, r) {
                        (Ok(f), Ok(id)) => {
                            &&& final(self)@ == spec_insert(
                                old(self)@,
                                EntryV { key: key@, id, func: f@ },
                                old(self).spec_capacity(),
                            )
                            &&& final(self).spec_stats() == (CacheStats {
                                hits: old(self).spec_stats().hits,
                                misses: spec_bump(old(self).spec_stats().misses),
                                evictions: if old(self)@.len() == old(self).spec_capacity() {
                                    spec_bump(old(self).spec_stats().evictions)
                                } else {
                                    old(self).spec_stats().evictions
                                },
                            })
                        },
                        (Err(e1), Err(e2)) => {
                            &&& e1 == e2
                            &&& final(self)@ == old(self)@
                            &&& final(self).spec_stats() == (CacheStats {
                                hits: old(self).spec_stats().hits,
                                misses: spec_bump(old(self).spec_stats().misses),
                                evictions: old(self).spec_stats().evictions,
                            })
                        },
                        _ => false,
                    }
                },
            },
    {
        let ghost pre = self@;
        match self.position(&key) {
            Some(i) => {
                let entry = self.entries.remove(i);
                self.entries.push(entry);
                self.hits = bump(self.hits);
                proof {
                    assert(self@ =~= spec_hit(pre, i as int));
                    assert forall|a: int, b: int| 0 <= a < b < self@.len() implies self@[a].key
                        != self@[b].key by {
                        assert(distinct_keys(pre));
                    }
                }
                Ok(self.entries[self.entries.len() - 1].1.id)
            },
            None => {
                self.misses = bump(self.misses);
                match builder() {
                    Ok(func) => {
                        let id = self.next_id;
                        self.next_id = bump(self.next_id);
                        if self.entries.len() == self.capacity {
                            self.entries.remove(0);
                            self.evictions = bump(self.evictions);
                            proof {
                                assert(self@ =~= pre.drop_first());
                            }
                        }
                        let ghost mid = self@;
                        self.entries.push((key, CompiledHandle { id, func }));
                        proof {
                            assert(self@ =~= mid.push(self@.last()));
                            assert forall|a: int, b: int|
                                0 <= a < b < self@.len() implies self@[a].key != self@[b].key by {
                                lemma_find_none_all(pre, self@.last().key, 0);
                                assert(distinct_keys(pre));
                            }
                        }
                        Ok(id)
                    },
                    Err(er) => Err(er),
                }
            },
        }
    }
}

/// When a search from `i` finds nothing, no position at or past `i` holds
/// the key.
pub proof fn lemma_find_none_all(s: Seq<EntryV>, k: CacheKeyV, i: nat)
    requires
        find_from(s, k, i) is None,
    ensures
        forall|j: int| i <= j < s.len() ==> s[j].key != k,
    decreases s.len() - i,
{
    if i < s.len() {
        lemma_find_none_all(s, k, i + 1);
    }
}


/// A found position holds the key.
pub proof fn lemma_find_some(s: Seq<EntryV>, k: CacheKeyV, i: nat)
    requires
        find_from(s, k, i) is Some,
    ensures
        ({
            let j = find_from(s, k, i)->Some_0;
            &&& i <= j < s.len()
            &&& s[j].key == k
        }),
    decreases s.len() - i,
{
    if i < s.len() {
        if s[i as int].key == k {
        } else {
            lemma_find_some(s, k, i + 1);
        }
    }
}

/// When no position at or past `i` holds the key, the search misses.
pub proof fn lemma_find_absent(s: Seq<EntryV>, k: CacheKeyV, i: nat)
    requires
        forall|j: int| i <= j < s.len() ==> s[j].key != k,
    ensures
        find_from(s, k, i) is None,
    decreases s.len() - i,
{
    if i < s.len() {
        lemma_find_absent(s, k, i + 1);
    }
}

proof fn lemma_find_at(s: Seq<EntryV>, k: CacheKeyV, i: nat, idx: int)
    requires
        i <= idx < s.len(),
        s[idx].key == k,
        forall|j: int| i <= j < idx ==> s[j].key != k,
    ensures
        find_from(s, k, i) == Some(idx),
    decreases idx - i,
{
    if i < idx {
        lemma_find_at(s, k, i + 1, idx);
    }
}

/// Cache idempotence: after a miss stores an artifact under a key, an
/// immediately following `get_or_compile` of the same key — with no
/// intervening eviction — is a hit that yields the very same handle and
/// changes no stored entry, so the builder runs exactly once for that key.
pub proof fn lemma_cache_idempotent(s: Seq<EntryV>, e: EntryV, capacity: nat)
    requires
        distinct_keys(s),
        find_from(s, e.key, 0) is None,
        capacity >= 1,
        s.len() <= capacity,
    ensures
        ({
            let s1 = spec_insert(s, e, capacity);
            let f = find_from(s1, e.key, 0);
            &&& f is Some
            &&& s1[f->Some_0] == e
            &&& spec_hit(s1, f->Some_0) == s1
        }),
{
    let s1 = spec_insert(s, e, capacity);
    lemma_find_none_all(s, e.key, 0);
    let last = s1.len() - 1;
    assert(s1[last] == e);
    if s.len() >= capacity {
        assert forall|j: int| 0 <= j < last implies s1[j].key != e.key by {
            assert(s1[j] == s.drop_first()[j]);
            assert(s.drop_first()[j] == s[j + 1]);
        }
    } else {
        assert forall|j: int| 0 <= j < last implies s1[j].key != e.key by {
            assert(s1[j] == s[j]);
        }
    }
    lemma_find_at(s1, e.key, 0, last);
    assert(spec_hit(s1, last) =~= s1);
}

/// The model after inserting each entry in order from position `i`.
pub open spec fn spec_insert_all(s: Seq<EntryV>, es: Seq<EntryV>, capacity: nat, i: nat) -> Seq<
    EntryV,
>
    decreases es.len() - i,
{
    if i >= es.len() {
        s
    } else {
        spec_insert_all(spec_insert(s, es[i as int], capacity), es, capacity, i + 1)
    }
}

proof fn lemma_evict_steps(es: Seq<EntryV>, capacity: nat, i: nat)
    requires
        capacity >= 1,
        es.len() == capacity + 1,
        i <= capacity,
    ensures
        spec_insert_all(es.take(i as int), es, capacity, i) == es.drop_first(),
    decreases es.len() - i,
{
    if i < capacity {
        assert(es.take(i as int).len() < capacity);
        assert(spec_insert(es.take(i as int), es[i as int], capacity) == es.take(i as int).push(
            es[i as int],
        ));
        assert(es.take(i as int).push(es[i as int]) =~= es.take(i as int + 1));
        lemma_evict_steps(es, capacity, i + 1);
    } else {
        let full = es.take(capacity as int);
        assert(full.len() == capacity);
        assert(spec_insert(full, es[capacity as int], capacity) == full.drop_first().push(
            es[capacity as int],
        ));
        assert(full.drop_first().push(es[capacity as int]) =~= es.drop_first());
        assert(spec_insert_all(es.drop_first(), es, capacity, capacity + 1) == es.drop_first());
    }
}

/// Eviction correctness: inserting capacity + 1 entries with pairwise
/// distinct keys into an empty cache evicts exactly the least-recently-used
/// (first-inserted) one — what remains is exactly the later entries, in
/// order — and a subsequent lookup of the evicted key misses, so it
/// triggers exactly one rebuild.
pub proof fn lemma_eviction_lru(es: Seq<EntryV>, capacity: nat)
    requires
        capacity >= 1,
        es.len() == capacity + 1,
        distinct_keys(es),
    ensures
        ({
            let fin = spec_insert_all(Seq::empty(), es, capacity, 0);
            &&& fin == es.drop_first()
            &&& find_from(fin, es[0].key, 0) is None
        }),
{
    assert(es.take(0) =~= Seq::<EntryV>::empty());
    lemma_evict_steps(es, capacity, 0);
    let fin = spec_insert_all(Seq::empty(), es, capacity, 0);
    assert forall|j: int| 0 <= j < fin.len() implies fin[j].key != es[0].key by {
        assert(fin[j] == es[j + 1]);
    }
    lemma_find_absent(fin, es[0].key, 0);
}

} // verus!
