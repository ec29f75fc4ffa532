//! Decoded frames in memory, so that none is decoded twice. The least recently
//! used frame leaves first.

use crate::info::stream::Rational;
use crate::recency::{
    distinct_keys, has_key, keys_of, lemma_lookup, lemma_without_absent, lemma_without_joined,
    lookup, max_cache_capacity, stored, storing_evicts_least_recent, touched,
    touching_keeps_values, without,
};
use lru::LruCache;
use std::num::NonZeroUsize;
use std::sync::Arc;
use vstd::prelude::*;

verus! {

/// A point on a timeline: a frame number at a rate.
#[derive(Debug, Clone, Copy, PartialEq, Eq, Structural)]
pub struct TimeCode {
    pub value: i64,
    pub rate: Rational,
}

/// A decoded frame in main memory.
#[derive(Debug, Clone)]
pub struct RawVideoFrame {
    pub asset_id: u128,
    /// Presentation time.
    pub pts: TimeCode,
    pub width: u32,
    pub height: u32,
    /// The planes Y, U and V.
    pub planes: [Vec<u8>; 3],
    /// Bytes from row to row of each plane.
    pub strides: [u32; 3],
    pub frame_num: u64,
}

impl RawVideoFrame {
    /// Bytes of all planes.
    pub open spec fn spec_memory_size(&self) -> nat {
        self.planes@[0]@.len() + self.planes@[1]@.len() + self.planes@[2]@.len()
    }

    /// Bytes of all planes.
    pub fn memory_size(&self) -> (r: usize)
        requires
            self.spec_memory_size() <= usize::MAX,
        ensures
            r == self.spec_memory_size(),
    {
        self.planes[0].len() + self.planes[1].len() + self.planes[2].len()
    }
}

/// How large a frame cache is.
#[derive(Debug, Clone, Copy, PartialEq, Eq, Structural)]
pub struct FrameCacheConfig {
    /// Most frames that are kept.
    pub max_frames: usize,
}

impl Default for FrameCacheConfig {
    fn default() -> (r: FrameCacheConfig)
        ensures
            r.max_frames == 180,
    {
        FrameCacheConfig { max_frames: 180 }
    }
}

/// Frames by asset and frame number.
pub type FrameLru = LruCache<(u128, u64), Arc<RawVideoFrame>>;

/// The entries of a frame table, the most recently used first.
pub uninterp spec fn frame_entries(table: FrameLru) -> Seq<((u128, u64), Arc<RawVideoFrame>)>;

/// The capacity that a frame table was made with.
pub uninterp spec fn frame_capacity(table: FrameLru) -> nat;

/// Calls `LruCache::new`: an empty table with the given capacity.
#[verifier::external_body]
fn frame_lru_new(capacity: usize) -> (table: FrameLru)
    requires
        0 < capacity <= max_cache_capacity(),
    ensures
        frame_entries(table) == Seq::<((u128, u64), Arc<RawVideoFrame>)>::empty(),
        frame_capacity(table) == capacity,
{
    LruCache::new(NonZeroUsize::new(capacity).unwrap())
}

/// Calls `LruCache::get`: the value of the key, whose entry becomes the most
/// recent; nothing changes where there is none.
#[verifier::external_body]
fn frame_lru_get(table: &mut FrameLru, key: &(u128, u64)) -> (r: Option<Arc<RawVideoFrame>>)
    ensures
        r == lookup(frame_entries(*old(table)), *key),
        frame_entries(*final(table)) == touched(frame_entries(*old(table)), *key),
        frame_capacity(*final(table)) == frame_capacity(*old(table)),
{
    table.get(key).cloned()
}

/// Calls `LruCache::put`: the entry becomes the most recent and replaces that of
/// its key; a new key in a full table takes the place of the least recent entry.
#[verifier::external_body]
fn frame_lru_put(table: &mut FrameLru, key: (u128, u64), frame: Arc<RawVideoFrame>)
    ensures
        frame_entries(*final(table)) == stored(
            frame_entries(*old(table)),
            frame_capacity(*old(table)),
            key,
            frame,
        ),
        frame_capacity(*final(table)) == frame_capacity(*old(table)),
{
    table.put(key, frame);
}

/// Calls `LruCache::pop`: the entry of the key is gone, all others stay in order.
#[verifier::external_body]
fn frame_lru_pop(table: &mut FrameLru, key: &(u128, u64))
    ensures
        frame_entries(*final(table)) == without(frame_entries(*old(table)), *key),
        frame_capacity(*final(table)) == frame_capacity(*old(table)),
{
    table.pop(key);
}

/// Calls `LruCache::clear`: no entry is left.
#[verifier::external_body]
fn frame_lru_clear(table: &mut FrameLru)
    ensures
        frame_entries(*final(table)) == Seq::<((u128, u64), Arc<RawVideoFrame>)>::empty(),
        frame_capacity(*final(table)) == frame_capacity(*old(table)),
{
    table.clear();
}

/// Calls `LruCache::len`: the number of entries.
#[verifier::external_body]
fn frame_lru_len(table: &FrameLru) -> (r: usize)
    ensures
        r == frame_entries(*table).len(),
{
    table.len()
}

/// Calls `LruCache::iter`: the keys, the most recently used first.
#[verifier::external_body]
fn frame_lru_keys(table: &FrameLru) -> (keys: Vec<(u128, u64)>)
    ensures
        keys@ == keys_of(frame_entries(*table)),
{
    table.iter().map(|(key, _)| *key).collect()
}

/// Counters of a frame cache.
#[derive(Debug, Clone, Copy, PartialEq, Eq, Structural)]
pub struct CacheStats {
    pub hits: u64,
    pub misses: u64,
    pub size: usize,
}

/// A cache of decoded frames.
pub struct FrameCache {
    table: FrameLru,
    hits: u64,
    misses: u64,
}

/// The entries but those of an asset.
pub open spec fn without_asset(
    entries: Seq<((u128, u64), Arc<RawVideoFrame>)>,
    asset_id: u128,
) -> Seq<((u128, u64), Arc<RawVideoFrame>)>
    decreases entries.len(),
{
    if entries.len() == 0 {
        entries
    } else if entries.last().0.0 == asset_id {
        without_asset(entries.drop_last(), asset_id)
    } else {
        without_asset(entries.drop_last(), asset_id).push(entries.last())
    }
}

/// Evicting an asset removes all of its frames and no other.
pub proof fn evicting_an_asset_is_exact(
    entries: Seq<((u128, u64), Arc<RawVideoFrame>)>,
    asset_id: u128,
    key: (u128, u64),
)
    ensures
        lookup(without_asset(entries, asset_id), key) == (if key.0 == asset_id {
            None
        } else {
            lookup(entries, key)
        }),
    decreases entries.len(),
{
    if entries.len() > 0 {
        evicting_an_asset_is_exact(entries.drop_last(), asset_id, key);
        let rest = without_asset(entries.drop_last(), asset_id);
        if entries.last().0.0 != asset_id {
            assert(rest.push(entries.last()).drop_last() =~= rest);
        }
    }
}

proof fn lemma_without_asset_inside(
    entries: Seq<((u128, u64), Arc<RawVideoFrame>)>,
    asset_id: u128,
    key: (u128, u64),
)
    requires
        has_key(without_asset(entries, asset_id), key),
    ensures
        has_key(entries, key),
{
    evicting_an_asset_is_exact(entries, asset_id, key);
    lemma_lookup(without_asset(entries, asset_id), key);
    lemma_lookup(entries, key);
}

proof fn lemma_without_asset_distinct(
    entries: Seq<((u128, u64), Arc<RawVideoFrame>)>,
    asset_id: u128,
)
    requires
        distinct_keys(entries),
    ensures
        distinct_keys(without_asset(entries, asset_id)),
        without_asset(entries, asset_id).len() <= entries.len(),
    decreases entries.len(),
{
    if entries.len() > 0 {
        let front = entries.drop_last();
        assert(distinct_keys(front)) by {
            assert forall|i: int, j: int|
                0 <= i < front.len() && 0 <= j < front.len() && (#[trigger] front[i]).0 == (
                #[trigger] front[j]).0 implies i == j by {
                assert(entries[i].0 == entries[j].0);
            }
        }
        lemma_without_asset_distinct(front, asset_id);
        let rest = without_asset(front, asset_id);
        let last = entries.last();
        if last.0.0 != asset_id {
            let out = rest.push(last);
            assert forall|i: int, j: int|
                0 <= i < out.len() && 0 <= j < out.len() && (#[trigger] out[i]).0 == (
                #[trigger] out[j]).0 implies i == j by {
                if i < rest.len() && j < rest.len() {
                    assert(rest[i].0 == rest[j].0);
                } else if i != j {
                    let k = if i < rest.len() {
                        i
                    } else {
                        j
                    };
                    assert(rest[k].0 == last.0);
                    assert(has_key(rest, last.0));
                    lemma_without_asset_inside(front, asset_id, last.0);
                    let m = choose|m: int|
                        0 <= m < front.len() && (#[trigger] front[m]).0 == last.0;
                    assert(entries[m].0 == entries[entries.len() - 1].0);
                }
            }
        }
    }
}

impl FrameCache {
    /// The frames, the most recently used first.
    pub closed spec fn entries(&self) -> Seq<((u128, u64), Arc<RawVideoFrame>)> {
        frame_entries(self.table)
    }

    /// Most frames that are kept.
    pub closed spec fn capacity(&self) -> nat {
        frame_capacity(self.table)
    }

    /// Number of requests that found their frame, up to wrapping.
    pub closed spec fn spec_hits(&self) -> u64 {
        self.hits
    }

    /// Number of requests that did not find their frame, up to wrapping.
    pub closed spec fn spec_misses(&self) -> u64 {
        self.misses
    }

    /// No frame is kept twice and no more than fit.
    pub open spec fn wf(&self) -> bool {
        &&& distinct_keys(self.entries())
        &&& self.entries().len() <= self.capacity()
        &&& self.capacity() > 0
    }

    /// An empty cache; it keeps one frame at least.
    pub fn new(config: FrameCacheConfig) -> (r: FrameCache)
        requires
            config.max_frames <= max_cache_capacity(),
        ensures
            r.wf(),
            r.entries() == Seq::<((u128, u64), Arc<RawVideoFrame>)>::empty(),
            r.capacity() == (if config.max_frames == 0 {
                1
            } else {
                config.max_frames as nat
            }),
            r.spec_hits() == 0,
            r.spec_misses() == 0,
    {
        let capacity: usize = if config.max_frames == 0 {
            1
        } else {
            config.max_frames
        };
        FrameCache { table: frame_lru_new(capacity), hits: 0, misses: 0 }
    }

    /// The frame of an asset, where it is kept; it becomes the most recent.
    pub fn get(&mut self, asset_id: u128, frame_num: u64) -> (r: Option<Arc<RawVideoFrame>>)
        requires
            old(self).wf(),
        ensures
            final(self).wf(),
            r == lookup(old(self).entries(), (asset_id, frame_num)),
            final(self).entries() == touched(old(self).entries(), (asset_id, frame_num)),
            final(self).capacity() == old(self).capacity(),
            r is Some ==> final(self).spec_hits() == old(self).spec_hits().wrapping_add(1)
                && final(self).spec_misses() == old(self).spec_misses(),
            r is None ==> final(self).spec_misses() == old(self).spec_misses().wrapping_add(1)
                && final(self).spec_hits() == old(self).spec_hits(),
    {
        let key = (asset_id, frame_num);
        let result = frame_lru_get(&mut self.table, &key);
        proof {
            touching_keeps_values(old(self).entries(), key);
        }
        if result.is_some() {
            self.hits = self.hits.wrapping_add(1);
        } else {
            self.misses = self.misses.wrapping_add(1);
        }
        result
    }

    /// Keeps a frame.
    pub fn insert(&mut self, frame: Arc<RawVideoFrame>)
        requires
            old(self).wf(),
        ensures
            final(self).wf(),
            final(self).entries() == stored(
                old(self).entries(),
                old(self).capacity(),
                (frame.asset_id, frame.frame_num),
                frame,
            ),
            final(self).capacity() == old(self).capacity(),
            final(self).spec_hits() == old(self).spec_hits(),
            final(self).spec_misses() == old(self).spec_misses(),
    {
        let key = (frame.asset_id, frame.frame_num);
        proof {
            storing_evicts_least_recent(old(self).entries(), old(self).capacity(), key, frame);
        }
        frame_lru_put(&mut self.table, key, frame);
    }

    /// Drops all frames of an asset, because it was deleted or replaced.
    pub fn evict_asset(&mut self, asset_id: u128)
        requires
            old(self).wf(),
        ensures
            final(self).wf(),
            final(self).entries() == without_asset(old(self).entries(), asset_id),
            final(self).capacity() == old(self).capacity(),
            final(self).spec_hits() == old(self).spec_hits(),
            final(self).spec_misses() == old(self).spec_misses(),
    {
        let keys = frame_lru_keys(&self.table);
        let ghost all = self.entries();
        let mut i: usize = 0;
        assert(without_asset(all.take(0), asset_id) + all.skip(0) =~= all);
        while i < keys.len()
            invariant
                i <= keys.len(),
                keys@ == keys_of(all),
                distinct_keys(all),
                self.entries() == without_asset(all.take(i as int), asset_id) + all.skip(i as int),
                self.capacity() == old(self).capacity(),
                self.spec_hits() == old(self).spec_hits(),
                self.spec_misses() == old(self).spec_misses(),
            decreases keys.len() - i,
        {
            let ghost done = without_asset(all.take(i as int), asset_id);
            let ghost rest = all.skip(i as int);
            let ghost key = all[i as int].0;
            assert(keys@[i as int] == key);
            assert(all.take(i + 1).drop_last() =~= all.take(i as int));
            assert(rest =~= seq![all[i as int]] + all.skip(i + 1));
            if keys[i].0 == asset_id {
                frame_lru_pop(&mut self.table, &keys[i]);
                proof {
                    lemma_without_joined(done, rest, key);
                    if has_key(done, key) {
                        lemma_without_asset_inside(all.take(i as int), asset_id, key);
                        let m = choose|m: int|
                            0 <= m < all.take(i as int).len() && (#[trigger] all.take(i as int)[m]).0
                                == key;
                        assert(all[m].0 == all[i as int].0);
                    }
                    lemma_without_absent(done, key);
                    let tail = all.skip(i + 1);
                    if has_key(tail, key) {
                        let m = choose|m: int|
                            0 <= m < tail.len() && (#[trigger] tail[m]).0 == key;
                        assert(all[m + i + 1].0 == all[i as int].0);
                    }
                    lemma_without_absent(tail, key);
                    lemma_without_joined(seq![all[i as int]], tail, key);
                    let single = seq![all[i as int]];
                    assert(single.drop_last() =~= Seq::empty());
                    assert(without(single.drop_last(), key) =~= Seq::empty());
                    assert(without(single, key) =~= Seq::empty());
                    assert(without(rest, key) =~= tail);
                    assert(self.entries() =~= without_asset(all.take(i + 1), asset_id) + tail);
                }
            } else {
                assert(done.push(all[i as int]) + all.skip(i + 1) =~= done + rest);
            }
            i = i + 1;
        }
        proof {
            assert(all.take(all.len() as int) =~= all);
            assert(without_asset(all, asset_id) + all.skip(all.len() as int) =~= without_asset(
                all,
                asset_id,
            ));
            lemma_without_asset_distinct(all, asset_id);
        }
    }

    /// Drops all frames.
    pub fn clear_all(&mut self)
        requires
            old(self).wf(),
        ensures
            final(self).wf(),
            final(self).entries() == Seq::<((u128, u64), Arc<RawVideoFrame>)>::empty(),
            final(self).capacity() == old(self).capacity(),
            final(self).spec_hits() == old(self).spec_hits(),
            final(self).spec_misses() == old(self).spec_misses(),
    {
        frame_lru_clear(&mut self.table);
    }

    /// Counters of the cache.
    pub fn stats(&self) -> (r: CacheStats)
        ensures
            r.hits == self.spec_hits(),
            r.misses == self.spec_misses(),
            r.size == self.entries().len(),
    {
        CacheStats { hits: self.hits, misses: self.misses, size: frame_lru_len(&self.table) }
    }
}

/// The entries that stay when an asset is evicted keep their order of use.
pub proof fn evicting_keeps_the_order_of_use(
    entries: Seq<((u128, u64), Arc<RawVideoFrame>)>,
    asset_id: u128,
)
    ensures
        without_asset(entries, asset_id) == entries.filter(
            |entry: ((u128, u64), Arc<RawVideoFrame>)| entry.0.0 != asset_id,
        ),
    decreases entries.len(),
{
    reveal(Seq::filter);
    if entries.len() > 0 {
        evicting_keeps_the_order_of_use(entries.drop_last(), asset_id);
    }
}

} // verus!
