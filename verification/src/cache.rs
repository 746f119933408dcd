//! Bounded least-recently-used response cache.
//!
//! Responses are keyed by a 64-bit fingerprint of (model id, prompt text).
//! The fingerprint is not collision-free: two distinct prompts could in
//! principle map to the same slot and return each other's answer; that is an
//! accepted risk of the design, not masked here.
//!
//! The store itself is `lru::LruCache`, held behind trusted wrappers whose
//! contracts speak of the entries in recency order, most recent first.

use vstd::prelude::*;

verus! {

use crate::text::str_to_chars;

/// The concrete store: keys are 64-bit fingerprints, values cached
/// responses, hashed with the standard library's default hasher.
pub type LruStore = lru::LruCache<u64, CachedResponse, std::collections::hash_map::RandomState>;

/// A cached response: the serialized payload and when it was stored.
#[derive(Clone, Debug)]
pub struct CachedResponse {
    pub data: String,
    pub timestamp: i64,
}

#[verifier::external_type_specification]
#[verifier::external_body]
#[verifier::reject_recursive_types(K)]
#[verifier::reject_recursive_types(V)]
#[verifier::reject_recursive_types(S)]
pub struct ExLruCache<K, V, S>(lru::LruCache<K, V, S>);

/// The entries of the store in recency order, most recently used first.
pub uninterp spec fn spec_cache_entries(c: LruStore) -> Seq<(u64, CachedResponse)>;

/// The capacity the store was created with.
pub uninterp spec fn spec_cache_cap(c: LruStore) -> nat;

/// Whether some entry carries the key.
pub open spec fn spec_entries_contain(s: Seq<(u64, CachedResponse)>, k: u64) -> bool {
    exists|i: int| 0 <= i < s.len() && s[i].0 == k
}

/// The value stored under a key: the first entry that carries it.
pub open spec fn spec_entries_lookup(s: Seq<(u64, CachedResponse)>, k: u64) -> Option<
    CachedResponse,
>
    decreases s.len(),
{
    if s.len() == 0 {
        None
    } else if s[0].0 == k {
        Some(s[0].1)
    } else {
        spec_entries_lookup(s.drop_first(), k)
    }
}

/// The entries with every entry for key `k` removed.
pub open spec fn spec_remove_key(s: Seq<(u64, CachedResponse)>, k: u64) -> Seq<
    (u64, CachedResponse),
> {
    s.filter(|p: (u64, CachedResponse)| p.0 != k)
}

/// What `put` does to the entries: an existing key is updated and promoted;
/// a new key is inserted in front, evicting the least-recently-used entry
/// when the store is full.
pub open spec fn spec_cache_put(
    s: Seq<(u64, CachedResponse)>,
    cap: nat,
    k: u64,
    v: CachedResponse,
) -> Seq<(u64, CachedResponse)> {
    if spec_entries_contain(s, k) {
        seq![(k, v)] + spec_remove_key(s, k)
    } else if s.len() >= cap {
        seq![(k, v)] + s.drop_last()
    } else {
        seq![(k, v)] + s
    }
}

/// What a hit does to the entries on `get`: the entry is promoted to the
/// front.
pub open spec fn spec_cache_promote(s: Seq<(u64, CachedResponse)>, k: u64) -> Seq<
    (u64, CachedResponse),
> {
    match spec_entries_lookup(s, k) {
        Some(v) => seq![(k, v)] + spec_remove_key(s, k),
        None => s,
    }
}

/// Relies on `lru::LruCache::new`: an empty cache with the given capacity.
#[verifier::external_body]
fn lru_new(cap: usize) -> (r: LruStore)
    requires
        cap >= 1,
    ensures
        spec_cache_entries(r) == Seq::<(u64, CachedResponse)>::empty(),
        spec_cache_cap(r) == cap as nat,
{
    lru::LruCache::with_hasher(
        std::num::NonZeroUsize::new(cap).unwrap(),
        std::collections::hash_map::RandomState::new(),
    )
}

/// Relies on `lru::LruCache::put`: an existing key has its value updated and
/// is moved to the front of the recency list; a new key is inserted in
/// front, and when the cache is already full the least-recently-used entry
/// is removed to make room.
#[verifier::external_body]
fn lru_put(c: &mut LruStore, k: u64, v: CachedResponse)
    ensures
        spec_cache_entries(*final(c)) == spec_cache_put(
            spec_cache_entries(*old(c)),
            spec_cache_cap(*old(c)),
            k,
            v,
        ),
        spec_cache_cap(*final(c)) == spec_cache_cap(*old(c)),
{
    c.put(k, v);
}

/// Relies on `lru::LruCache::get`: returns the value stored under the key,
/// moving the entry to the front of the recency list on a hit.
#[verifier::external_body]
fn lru_get(c: &mut LruStore, k: u64) -> (r: Option<CachedResponse>)
    ensures
        r == spec_entries_lookup(spec_cache_entries(*old(c)), k),
        spec_cache_entries(*final(c)) == spec_cache_promote(spec_cache_entries(*old(c)), k),
        spec_cache_cap(*final(c)) == spec_cache_cap(*old(c)),
{
    c.get(&k).cloned()
}

/// Relies on `lru::LruCache::len`: the number of entries.
#[verifier::external_body]
fn lru_len(c: &LruStore) -> (r: usize)
    ensures
        r == spec_cache_entries(*c).len(),
{
    c.len()
}

/// The FNV-1a offset basis.
pub open spec fn spec_fnv_offset() -> u64 {
    0xcbf29ce484222325
}

/// One FNV-1a step: mix one value into the running hash.
pub open spec fn spec_fnv_step(h: u64, x: u64) -> u64 {
    vstd::wrapping::u64_specs::wrapping_mul(h ^ x, 0x100000001b3)
}

/// FNV-1a over a sequence of characters, starting from hash `h`.
pub open spec fn spec_fnv_seq(h: u64, s: Seq<char>) -> u64
    decreases s.len(),
{
    if s.len() == 0 {
        h
    } else {
        spec_fnv_seq(spec_fnv_step(h, s[0] as u64), s.drop_first())
    }
}

/// The 64-bit fingerprint of a (model id, prompt text) pair: FNV-1a over the
/// model name, a separator, and the prompt.
pub open spec fn spec_fingerprint(model: Seq<char>, prompt: Seq<char>) -> u64 {
    spec_fnv_seq(spec_fnv_step(spec_fnv_seq(spec_fnv_offset(), model), 0x1f), prompt)
}

/// Mix a character vector into the running hash.
fn fnv_mix(h: u64, v: &Vec<char>) -> (r: u64)
    ensures
        r == spec_fnv_seq(h, v@),
{
    let n = v.len();
    let mut acc = h;
    let mut i: usize = 0;
    assert(v@.skip(0) =~= v@);
    while i < n
        invariant
            n == v@.len(),
            i <= n,
            spec_fnv_seq(h, v@) == spec_fnv_seq(acc, v@.skip(i as int)),
        decreases n - i,
    {
        proof {
            assert(v@.skip(i as int).drop_first() =~= v@.skip(i as int + 1));
        }
        let c = v[i];
        acc = (acc ^ (c as u64)).wrapping_mul(0x100000001b3);
        i = i + 1;
    }
    proof {
        assert(v@.skip(n as int) =~= Seq::<char>::empty());
    }
    acc
}

/// Generate the cache key from a model name and prompt.
pub fn cache_key(model: &str, prompt: &str) -> (r: u64)
    ensures
        r == spec_fingerprint(model@, prompt@),
{
    let mv = str_to_chars(model);
    let pv = str_to_chars(prompt);
    let h1 = fnv_mix(0xcbf29ce484222325, &mv);
    let h2 = (h1 ^ 0x1f).wrapping_mul(0x100000001b3);
    fnv_mix(h2, &pv)
}

/// The bounded response cache.
pub struct ResponseCache {
    inner: LruStore,
}

impl ResponseCache {
    /// The entries in recency order, most recently used first.
    pub closed spec fn entries(&self) -> Seq<(u64, CachedResponse)> {
        spec_cache_entries(self.inner)
    }

    /// The fixed capacity.
    pub closed spec fn capacity(&self) -> nat {
        spec_cache_cap(self.inner)
    }

    /// Well-formedness: each key appears at most once and the size stays
    /// within the positive capacity.  Established at construction and kept
    /// by every operation.
    pub open spec fn wf(&self) -> bool {
        &&& spec_unique_keys(self.entries())
        &&& self.entries().len() <= self.capacity()
        &&& self.capacity() >= 1
    }

    /// Create a cache that holds at most `cap` entries.
    pub fn new(cap: usize) -> (r: ResponseCache)
        requires
            cap >= 1,
        ensures
            r.entries() == Seq::<(u64, CachedResponse)>::empty(),
            r.capacity() == cap as nat,
            r.wf(),
    {
        ResponseCache { inner: lru_new(cap) }
    }

    /// Create a cache with the default capacity of 200 entries.
    pub fn with_default_capacity() -> (r: ResponseCache)
        ensures
            r.entries() == Seq::<(u64, CachedResponse)>::empty(),
            r.capacity() == 200,
            r.wf(),
    {
        ResponseCache::new(200)
    }

    /// Look up the response cached under (model, prompt), promoting its
    /// recency on a hit.
    pub fn load(&mut self, model: &str, prompt: &str) -> (r: Option<CachedResponse>)
        ensures
            r == spec_entries_lookup(
                old(self).entries(),
                spec_fingerprint(model@, prompt@),
            ),
            final(self).entries() == spec_cache_promote(
                old(self).entries(),
                spec_fingerprint(model@, prompt@),
            ),
            final(self).capacity() == old(self).capacity(),
            old(self).wf() ==> final(self).wf(),
    {
        let key = cache_key(model, prompt);
        let r = lru_get(&mut self.inner, key);
        proof {
            if old(self).wf() {
                lemma_promote_preserves_wf(old(self).entries(), key);
            }
        }
        r
    }

    /// Store a response under (model, prompt), evicting the
    /// least-recently-used entry on overflow.
    pub fn store(&mut self, model: &str, prompt: &str, response: CachedResponse)
        ensures
            final(self).entries() == spec_cache_put(
                old(self).entries(),
                old(self).capacity(),
                spec_fingerprint(model@, prompt@),
                response,
            ),
            final(self).capacity() == old(self).capacity(),
            old(self).wf() ==> final(self).wf(),
    {
        let key = cache_key(model, prompt);
        let ghost resp = response;
        lru_put(&mut self.inner, key, response);
        proof {
            if old(self).wf() {
                lemma_put_preserves_wf(
                    old(self).entries(),
                    old(self).capacity(),
                    key,
                    resp,
                );
            }
        }
    }

    /// The number of cached entries.
    pub fn len(&self) -> (r: usize)
        ensures
            r == self.entries().len(),
    {
        lru_len(&self.inner)
    }
}

/// Storing then loading the same key returns the stored value: the lookup
/// after a `put` under key `k` finds exactly the new response.
pub proof fn lemma_store_then_load(
    s: Seq<(u64, CachedResponse)>,
    cap: nat,
    k: u64,
    v: CachedResponse,
)
    ensures
        spec_entries_lookup(spec_cache_put(s, cap, k, v), k) == Some(v),
{
    let s2 = spec_cache_put(s, cap, k, v);
    assert(s2[0] == (k, v));
}

/// Keys are unique among the entries.
pub open spec fn spec_unique_keys(s: Seq<(u64, CachedResponse)>) -> bool {
    forall|i: int, j: int| 0 <= i < j < s.len() ==> s[i].0 != s[j].0
}

/// When a full cache takes a new key, the evicted entry is exactly the
/// least-recently-used one: the last entry of the recency order, whose key
/// then no longer appears.
pub proof fn lemma_put_evicts_lru(
    s: Seq<(u64, CachedResponse)>,
    cap: nat,
    k: u64,
    v: CachedResponse,
)
    requires
        spec_unique_keys(s),
        !spec_entries_contain(s, k),
        s.len() == cap,
        cap >= 1,
    ensures
        spec_cache_put(s, cap, k, v) == seq![(k, v)] + s.drop_last(),
        k != s.last().0 ==> !spec_entries_contain(spec_cache_put(s, cap, k, v), s.last().0),
{
    let s2 = spec_cache_put(s, cap, k, v);
    assert(s2 == seq![(k, v)] + s.drop_last());
    if k != s.last().0 {
        let lk = s.last().0;
        assert forall|i: int| 0 <= i < s2.len() implies s2[i].0 != lk by {
            if i == 0 {
            } else {
                assert(s2[i] == s.drop_last()[i - 1]);
                assert(s.drop_last()[i - 1] == s[i - 1]);
                assert(s[i - 1].0 != s[s.len() - 1].0);
            }
        }
    }
}

/// What removing a key does to unique-keyed entries: the result is shorter,
/// never carries `k`, keeps every surviving entry of the original, and stays
/// unique.
pub proof fn lemma_remove_key_props(s: Seq<(u64, CachedResponse)>, k: u64)
    requires
        spec_unique_keys(s),
    ensures
        spec_remove_key(s, k).len() <= s.len(),
        spec_entries_contain(s, k) ==> spec_remove_key(s, k).len() < s.len(),
        forall|i: int| 0 <= i < spec_remove_key(s, k).len() ==> (#[trigger] spec_remove_key(
            s,
            k,
        )[i]).0 != k,
        forall|i: int|
            0 <= i < spec_remove_key(s, k).len() ==> exists|j: int|
                0 <= j < s.len() && s[j] == #[trigger] spec_remove_key(s, k)[i],
        spec_unique_keys(spec_remove_key(s, k)),
    decreases s.len(),
{
    reveal(Seq::filter);
    let f = spec_remove_key(s, k);
    if s.len() == 0 {
        assert(f =~= Seq::<(u64, CachedResponse)>::empty());
    } else {
        let prefix = s.drop_last();
        assert(spec_unique_keys(prefix)) by {
            assert(forall|i: int, j: int|
                0 <= i < j < prefix.len() ==> prefix[i] == s[i] && prefix[j] == s[j]);
        }
        lemma_remove_key_props(prefix, k);
        let fp = spec_remove_key(prefix, k);
        if spec_entries_contain(s, k) && s.last().0 != k {
            let wit = choose|i: int| 0 <= i < s.len() && s[i].0 == k;
            assert(prefix[wit] == s[wit]);
            assert(spec_entries_contain(prefix, k));
        }
        if s.last().0 != k {
            assert(f == fp.push(s.last()));
            assert forall|i: int| 0 <= i < f.len() implies exists|j: int|
                0 <= j < s.len() && s[j] == #[trigger] f[i] by {
                if i < f.len() - 1 {
                    assert(f[i] == fp[i]);
                    let j0 = choose|j: int| 0 <= j < prefix.len() && prefix[j] == fp[i];
                    assert(s[j0] == f[i]);
                } else {
                    assert(f[i] == s.last());
                    assert(s[s.len() - 1] == f[i]);
                }
            }
            assert forall|i: int, j: int| 0 <= i < j < f.len() implies f[i].0 != f[j].0 by {
                if j < f.len() - 1 {
                    assert(f[i] == fp[i] && f[j] == fp[j]);
                } else {
                    assert(f[j] == s.last());
                    assert(f[i] == fp[i]);
                    let j0 = choose|jj: int| 0 <= jj < prefix.len() && prefix[jj] == fp[i];
                    assert(s[j0] == fp[i]);
                    assert(s[j0].0 != s[s.len() - 1].0);
                }
            }
        } else {
            assert(f == fp);
            assert forall|i: int| 0 <= i < f.len() implies exists|j: int|
                0 <= j < s.len() && s[j] == #[trigger] f[i] by {
                let j0 = choose|j: int| 0 <= j < prefix.len() && prefix[j] == fp[i];
                assert(s[j0] == f[i]);
            }
        }
    }
}

/// A successful lookup means some entry carries the key.
pub proof fn lemma_lookup_some_means_contains(s: Seq<(u64, CachedResponse)>, k: u64)
    requires
        spec_entries_lookup(s, k) is Some,
    ensures
        spec_entries_contain(s, k),
    decreases s.len(),
{
    if s.len() > 0 {
        if s[0].0 == k {
        } else {
            lemma_lookup_some_means_contains(s.drop_first(), k);
            let wit = choose|i: int|
                0 <= i < s.drop_first().len() && s.drop_first()[i].0 == k;
            assert(s[wit + 1].0 == k);
        }
    }
}

/// Promoting an entry keeps the keys unique and the size within capacity.
pub proof fn lemma_promote_preserves_wf(s: Seq<(u64, CachedResponse)>, k: u64)
    requires
        spec_unique_keys(s),
    ensures
        spec_unique_keys(spec_cache_promote(s, k)),
        spec_cache_promote(s, k).len() <= s.len(),
{
    match spec_entries_lookup(s, k) {
        Some(_) => {
            lemma_lookup_some_means_contains(s, k);
            lemma_remove_key_props(s, k);
            let f = spec_remove_key(s, k);
            let s2 = spec_cache_promote(s, k);
            assert forall|i: int, j: int| 0 <= i < j < s2.len() implies s2[i].0 != s2[j].0 by {
                if i == 0 {
                    assert(s2[j] == f[j - 1]);
                } else {
                    assert(s2[i] == f[i - 1] && s2[j] == f[j - 1]);
                }
            }
        },
        None => {},
    }
}

/// `put` keeps the keys unique and the size within capacity.
pub proof fn lemma_put_preserves_wf(
    s: Seq<(u64, CachedResponse)>,
    cap: nat,
    k: u64,
    v: CachedResponse,
)
    requires
        spec_unique_keys(s),
        s.len() <= cap,
        cap >= 1,
    ensures
        spec_unique_keys(spec_cache_put(s, cap, k, v)),
        spec_cache_put(s, cap, k, v).len() <= cap,
{
    let s2 = spec_cache_put(s, cap, k, v);
    if spec_entries_contain(s, k) {
        lemma_remove_key_props(s, k);
        let f = spec_remove_key(s, k);
        assert forall|i: int, j: int| 0 <= i < j < s2.len() implies s2[i].0 != s2[j].0 by {
            if i == 0 {
                assert(s2[j] == f[j - 1]);
            } else {
                assert(s2[i] == f[i - 1] && s2[j] == f[j - 1]);
            }
        }
    } else if s.len() >= cap {
        assert forall|i: int, j: int| 0 <= i < j < s2.len() implies s2[i].0 != s2[j].0 by {
            if i == 0 {
                assert(s2[j] == s.drop_last()[j - 1]);
                assert(s.drop_last()[j - 1] == s[j - 1]);
                assert(s[j - 1].0 != k);
            } else {
                assert(s2[i] == s[i - 1] && s2[j] == s[j - 1]);
            }
        }
    } else {
        assert forall|i: int, j: int| 0 <= i < j < s2.len() implies s2[i].0 != s2[j].0 by {
            if i == 0 {
                assert(s2[j] == s[j - 1]);
                assert(s[j - 1].0 != k);
            } else {
                assert(s2[i] == s[i - 1] && s2[j] == s[j - 1]);
            }
        }
    }
}

} // verus!
