//! A bounded cache of sampled slices with least-recently-used eviction.
//!
//! A slice is stored as the bit patterns of its samples, which this crate
//! never interprets, and is found again by the integers of its key: two
//! depths are the same key only if they agree bit for bit.

use vstd::prelude::*;
use crate::utils::sampling::SliceAxis;

verus! {

/// The integers by which a cached slice is found again: the index of the cut
/// axis, the bit patterns of the depth and of the fill value, and the two
/// sides of the resolution.
pub type SliceKey = (usize, u64, u64, usize, usize);

/// What a cache holds: each key with the samples stored under it, the most
/// recently requested entry first.
pub type Entries = Seq<(SliceKey, Seq<u64>)>;

/// The number of entries that `SliceCache::new` makes room for.
pub const DEFAULT_CAPACITY: usize = 50;

/// The largest number of entries that a cache can be made for; room for the
/// bookkeeping of that many is set aside when the cache is made.
pub const MAX_CAPACITY: usize = 65_536;

/// What is asked of the sampler, in the form in which it serves as a key.
#[derive(Debug, Clone, Copy, PartialEq, Eq, Hash)]
pub struct CachableSlicerParams {
    pub axis: SliceAxis,
    /// The bit pattern of the depth along the cut axis.
    pub depth: u64,
    /// The bit pattern of the value for samples outside the volume.
    pub default_value: u64,
    pub resolution: (usize, usize),
}

impl CachableSlicerParams {
    /// The key that stands for these parameters.
    pub open spec fn spec_key(self) -> SliceKey {
        (
            self.axis.spec_index() as usize,
            self.depth,
            self.default_value,
            self.resolution.0,
            self.resolution.1,
        )
    }

    pub fn new(axis: SliceAxis, depth: u64, default_value: u64, resolution: (usize, usize)) -> (p:
        Self)
        ensures
            p.axis == axis,
            p.depth == depth,
            p.default_value == default_value,
            p.resolution == resolution,
    {
        Self { axis, depth, default_value, resolution }
    }

    /// The key that stands for these parameters.
    pub fn key(&self) -> (k: SliceKey)
        ensures
            k == self.spec_key(),
    {
        (self.axis.index(), self.depth, self.default_value, self.resolution.0, self.resolution.1)
    }
}

/// Parameters with the same key are the same parameters: a key loses
/// nothing, so requests that differ in a single bit are cached apart.
pub proof fn lemma_key_is_injective(a: CachableSlicerParams, b: CachableSlicerParams)
    requires
        a.spec_key() == b.spec_key(),
    ensures
        a == b,
{
    assert(a.axis.spec_index() == b.axis.spec_index());
    assert(a.resolution.0 == b.resolution.0 && a.resolution.1 == b.resolution.1);
}

/// Whether an entry is stored under `key`.
pub open spec fn spec_holds(entries: Entries, key: SliceKey) -> bool {
    exists|i: int| 0 <= i < entries.len() && (#[trigger] entries[i]).0 == key
}

/// The place of the entry stored under `key`, counted from the most recently
/// requested one.
pub open spec fn spec_position(entries: Entries, key: SliceKey) -> int {
    choose|i: int| 0 <= i < entries.len() && (#[trigger] entries[i]).0 == key
}

/// No key is stored twice.
pub open spec fn spec_distinct_keys(entries: Entries) -> bool {
    forall|i: int, j: int|
        0 <= i < j < entries.len() ==> (#[trigger] entries[i]).0 != (#[trigger] entries[j]).0
}

/// The entries after the one at place `i` became the most recently requested.
pub open spec fn spec_promote(entries: Entries, i: int) -> Entries {
    seq![entries[i]] + entries.remove(i)
}

/// The entries after `entry` was stored as the most recently requested one:
/// a cache that is full gives up its least recently requested entry.
pub open spec fn spec_insert(entries: Entries, cap: nat, entry: (SliceKey, Seq<u64>)) -> Entries {
    if entries.len() == cap {
        seq![entry] + entries.drop_last()
    } else {
        seq![entry] + entries
    }
}

/// The entries after a request for `key`: a stored entry is promoted, and
/// otherwise `computed` is stored under the key.
pub open spec fn spec_after_get(entries: Entries, cap: nat, key: SliceKey, computed: Seq<u64>) -> Entries {
    if spec_holds(entries, key) {
        spec_promote(entries, spec_position(entries, key))
    } else {
        spec_insert(entries, cap, (key, computed))
    }
}

/// The samples that a request for `key` returns.
pub open spec fn spec_got(entries: Entries, key: SliceKey, computed: Seq<u64>) -> Seq<u64> {
    if spec_holds(entries, key) {
        entries[spec_position(entries, key)].1
    } else {
        computed
    }
}

/// `lru::LruCache`, of which nothing is known but what the two names below
/// and the wrappers say.
#[verifier::external_type_specification]
#[verifier::external_body]
#[verifier::reject_recursive_types(K)]
#[verifier::reject_recursive_types(V)]
#[verifier::reject_recursive_types(S)]
pub struct ExLruCache<K, V, S>(lru::LruCache<K, V, S>);

/// `lru::DefaultHasher`, the hasher of an `lru::LruCache` that is made by
/// `lru::LruCache::new`. It is only carried along.
#[verifier::external_type_specification]
#[verifier::external_body]
pub struct ExLruHasher(lru::DefaultHasher);

/// What an `lru::LruCache` holds, the most recently used entry first.
pub uninterp spec fn lru_entries(cache: lru::LruCache<SliceKey, Vec<u64>>) -> Entries;

/// The number of entries that an `lru::LruCache` was made to hold.
pub uninterp spec fn lru_cap(cache: lru::LruCache<SliceKey, Vec<u64>>) -> nat;

/// `lru::LruCache::new`: an empty cache that holds at most `cap` entries.
/// The call sets aside room for `cap` entries, which fails for a `cap` that
/// no memory holds; a `cap` of zero is no capacity.
#[verifier::external_body]
fn lru_new(cap: usize) -> (cache: lru::LruCache<SliceKey, Vec<u64>>)
    requires
        0 < cap <= MAX_CAPACITY,
    ensures
        lru_entries(cache) == Entries::empty(),
        lru_cap(cache) == cap,
{
    lru::LruCache::new(std::num::NonZeroUsize::new(cap).unwrap())
}

/// `lru::LruCache::get_or_insert`: where an entry is stored under `k`, it
/// becomes the most recently used one and its value is returned. Otherwise
/// `f` is called, a full cache drops its least recently used entry, and what
/// `f` returned is stored under `k` as the most recently used entry and
/// returned. The capacity stays.
#[verifier::external_body]
fn lru_get_or_insert<'a, F: FnOnce() -> Vec<u64>>(
    cache: &'a mut lru::LruCache<SliceKey, Vec<u64>>,
    k: SliceKey,
    f: F,
) -> (r: &'a Vec<u64>)
    requires
        f.requires(()),
    ensures
        lru_cap(*final(cache)) == lru_cap(*old(cache)),
        lru_entries(*final(cache)) == spec_after_get(
            lru_entries(*old(cache)),
            lru_cap(*old(cache)),
            k,
            r@,
        ),
        r@ == spec_got(lru_entries(*old(cache)), k, r@),
        !spec_holds(lru_entries(*old(cache)), k) ==> f.ensures((), *r),
{
    cache.get_or_insert(k, f)
}

/// A cache of sampled slices that keeps the most recently requested ones.
pub struct SliceCache {
    cache: lru::LruCache<SliceKey, Vec<u64>>,
}

impl SliceCache {
    /// The stored entries, the most recently requested first.
    pub closed spec fn entries(&self) -> Entries {
        lru_entries(self.cache)
    }

    /// The number of entries that the cache holds at most.
    pub closed spec fn capacity(&self) -> nat {
        lru_cap(self.cache)
    }

    /// No key is stored twice and the capacity is kept.
    pub open spec fn wf(&self) -> bool {
        &&& spec_distinct_keys(self.entries())
        &&& self.entries().len() <= self.capacity()
        &&& self.capacity() >= 1
    }

    /// An empty cache for `DEFAULT_CAPACITY` slices.
    pub fn new() -> (cache: Self)
        ensures
            cache.wf(),
            cache.entries() == Entries::empty(),
            cache.capacity() == DEFAULT_CAPACITY,
    {
        Self { cache: lru_new(DEFAULT_CAPACITY) }
    }

    /// An empty cache for `capacity` slices.
    pub fn with_capacity(capacity: usize) -> (cache: Self)
        requires
            0 < capacity <= MAX_CAPACITY,
        ensures
            cache.wf(),
            cache.entries() == Entries::empty(),
            cache.capacity() == capacity,
    {
        Self { cache: lru_new(capacity) }
    }

    /// The slice for `sample`. One that is stored is returned as it is and
    /// becomes the most recently requested entry. Otherwise `compute` samples
    /// it, and it is stored in place of the least recently requested entry
    /// if the cache is full.
    pub fn get<F: FnOnce() -> Vec<u64>>(&mut self, sample: CachableSlicerParams, compute: F) -> (slice:
        &Vec<u64>)
        requires
            old(self).wf(),
            sample.resolution.0 > 0,
            sample.resolution.1 > 0,
            compute.requires(()),
        ensures
            final(self).wf(),
            final(self).capacity() == old(self).capacity(),
            final(self).entries() == spec_after_get(
                old(self).entries(),
                old(self).capacity(),
                sample.spec_key(),
                slice@,
            ),
            slice@ == spec_got(old(self).entries(), sample.spec_key(), slice@),
            !spec_holds(old(self).entries(), sample.spec_key()) ==> compute.ensures((), *slice),
            final(self).entries()[0] == (sample.spec_key(), slice@),
    {
        let key = sample.key();
        proof {
            lemma_after_get_keeps_wf(self.entries(), self.capacity(), key);
        }
        lru_get_or_insert(&mut self.cache, key, compute)
    }
}

/// A request leaves a well-formed cache well-formed, with the requested
/// entry in front.
pub proof fn lemma_after_get_keeps_wf(entries: Entries, cap: nat, key: SliceKey)
    requires
        spec_distinct_keys(entries),
        entries.len() <= cap,
        cap >= 1,
    ensures
        forall|computed: Seq<u64>|
            {
                let after = #[trigger] spec_after_get(entries, cap, key, computed);
                &&& spec_distinct_keys(after)
                &&& 1 <= after.len() <= cap
                &&& after[0] == (key, spec_got(entries, key, computed))
            },
{
    assert forall|computed: Seq<u64>|
        {
            let after = #[trigger] spec_after_get(entries, cap, key, computed);
            &&& spec_distinct_keys(after)
            &&& 1 <= after.len() <= cap
            &&& after[0] == (key, spec_got(entries, key, computed))
        } by {
        let after = spec_after_get(entries, cap, key, computed);
        if spec_holds(entries, key) {
            let p = spec_position(entries, key);
            assert forall|i: int, j: int| 0 <= i < j < after.len() implies (#[trigger] after[i]).0
                != (#[trigger] after[j]).0 by {
                if i == 0 {
                    let jj = if j - 1 < p { j - 1 } else { j };
                    assert(after[j] == entries[jj]);
                } else {
                    let ii = if i - 1 < p { i - 1 } else { i };
                    let jj = if j - 1 < p { j - 1 } else { j };
                    assert(after[i] == entries[ii]);
                    assert(after[j] == entries[jj]);
                }
            }
        } else {
            assert forall|i: int, j: int| 0 <= i < j < after.len() implies (#[trigger] after[i]).0
                != (#[trigger] after[j]).0 by {
                assert(after[j] == entries[j - 1]);
                if i > 0 {
                    assert(after[i] == entries[i - 1]);
                }
            }
        }
    }
}

/// The entries after a run of requests, served one after the other. Each
/// request is a key with the samples that would be computed for it.
pub open spec fn spec_replay(entries: Entries, cap: nat, requests: Entries) -> Entries
    decreases requests.len(),
{
    if requests.len() == 0 {
        entries
    } else {
        spec_after_get(
            spec_replay(entries, cap, requests.drop_last()),
            cap,
            requests.last().0,
            requests.last().1,
        )
    }
}

/// The number of requests of a run for which the slice had to be computed.
pub open spec fn spec_misses(entries: Entries, cap: nat, requests: Entries) -> nat
    decreases requests.len(),
{
    if requests.len() == 0 {
        0
    } else {
        let served: nat = if spec_holds(
            spec_replay(entries, cap, requests.drop_last()),
            requests.last().0,
        ) {
            0
        } else {
            1
        };
        spec_misses(entries, cap, requests.drop_last()) + served
    }
}

/// A request for the key that was requested last finds its entry: the same
/// samples come back, nothing is computed and the cache stays as it is.
pub proof fn lemma_repeated_get_is_hit(
    entries: Entries,
    cap: nat,
    key: SliceKey,
    first: Seq<u64>,
    second: Seq<u64>,
)
    requires
        spec_distinct_keys(entries),
        entries.len() <= cap,
        cap >= 1,
    ensures
        spec_holds(spec_after_get(entries, cap, key, first), key),
        spec_got(spec_after_get(entries, cap, key, first), key, second) == spec_got(
            entries,
            key,
            first,
        ),
        spec_after_get(spec_after_get(entries, cap, key, first), cap, key, second)
            == spec_after_get(entries, cap, key, first),
{
    lemma_after_get_keeps_wf(entries, cap, key);
    let after = spec_after_get(entries, cap, key, first);
    assert(after[0].0 == key);
    let p = spec_position(after, key);
    assert(p == 0) by {
        if p != 0 {
            assert(after[0].0 != after[p].0);
        }
    }
    assert(spec_promote(after, 0) =~= after);
}

/// A cache that is full and is asked for a key it does not hold gives up
/// exactly its least recently requested entry: that key is gone, and every
/// other entry stays, one place further back.
pub proof fn lemma_full_cache_evicts_lru(
    entries: Entries,
    cap: nat,
    key: SliceKey,
    computed: Seq<u64>,
)
    requires
        spec_distinct_keys(entries),
        entries.len() == cap,
        cap >= 1,
        !spec_holds(entries, key),
    ensures
        spec_after_get(entries, cap, key, computed).len() == cap,
        spec_after_get(entries, cap, key, computed)[0] == (key, computed),
        forall|i: int|
            0 <= i < cap - 1 ==> spec_after_get(entries, cap, key, computed)[i + 1]
                == #[trigger] entries[i],
        !spec_holds(spec_after_get(entries, cap, key, computed), entries.last().0),
{
    let after = spec_after_get(entries, cap, key, computed);
    assert(after[0] == (key, computed));
    assert forall|i: int| 0 <= i < cap - 1 implies after[i + 1] == #[trigger] entries[i] by {}
    let gone = entries.last().0;
    assert(entries[cap - 1].0 == gone);
    assert(gone != key);
    if spec_holds(after, gone) {
        let j = spec_position(after, gone);
        assert(j != 0);
        assert(after[j] == entries[j - 1]);
        assert(entries[j - 1].0 != entries[cap - 1].0);
    }
}

/// A run of requests for keys that all differ, served by an empty cache,
/// computes every slice once and leaves the last `cap` of them stored, the
/// latest first. So a run of no more than `cap` requests keeps them all, and
/// one request more drops the first.
pub proof fn lemma_replay_of_distinct_keys(cap: nat, requests: Entries)
    requires
        cap >= 1,
        spec_distinct_keys(requests),
    ensures
        spec_misses(Entries::empty(), cap, requests) == requests.len(),
        spec_replay(Entries::empty(), cap, requests).len() == if requests.len() <= cap {
            requests.len()
        } else {
            cap
        },
        forall|i: int|
            0 <= i < spec_replay(Entries::empty(), cap, requests).len() ==> #[trigger] spec_replay(
                Entries::empty(),
                cap,
                requests,
            )[i] == requests[requests.len() - 1 - i],
    decreases requests.len(),
{
    if requests.len() > 0 {
        let earlier = requests.drop_last();
        let n = earlier.len() as int;
        assert(spec_distinct_keys(earlier)) by {
            assert forall|i: int, j: int| 0 <= i < j < earlier.len() implies (
            #[trigger] earlier[i]).0 != (#[trigger] earlier[j]).0 by {
                assert(earlier[i] == requests[i]);
                assert(earlier[j] == requests[j]);
            }
        }
        lemma_replay_of_distinct_keys(cap, earlier);
        let before = spec_replay(Entries::empty(), cap, earlier);
        let key = requests.last().0;
        assert(!spec_holds(before, key)) by {
            if spec_holds(before, key) {
                let j = spec_position(before, key);
                assert(before[j] == earlier[n - 1 - j]);
                assert(earlier[n - 1 - j] == requests[n - 1 - j]);
                assert(requests[n - 1 - j].0 != requests[n].0);
            }
        }
        let after = spec_replay(Entries::empty(), cap, requests);
        assert(after == spec_insert(before, cap, requests.last()));
        assert forall|i: int| 0 <= i < after.len() implies #[trigger] after[i] == requests[requests.len()
            - 1 - i] by {
            if i > 0 {
                assert(after[i] == before[i - 1]);
                assert(before[i - 1] == earlier[n - 1 - (i - 1)]);
            }
        }
    }
}

} // verus!
