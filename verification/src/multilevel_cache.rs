//! Where media is played from. Tier one remembers resolved paths in memory, tier
//! two is an index of proxies on disk, tier three is the source itself.

use crate::path::{same_path, MediaPath, PathView};
use crate::recency::{
    distinct_keys, lookup, max_cache_capacity, removing_keeps_others, stored,
    storing_evicts_least_recent, touched, touching_keeps_values, without,
};
use lru::LruCache;
use std::collections::HashMap;
use std::num::NonZeroUsize;
use vstd::prelude::*;

verus! {

broadcast use vstd::std_specs::hash::group_hash_axioms;

/// The tier that answered.
#[derive(Debug, Clone, Copy, PartialEq, Eq, Structural)]
pub enum CacheTier {
    MemoryL1,
    DiskProxyL2,
    SourceL3,
}

/// A path to play from.
#[derive(Debug, Clone, PartialEq, Eq)]
pub struct ResolvedMediaPath {
    pub path: MediaPath,
    pub tier: CacheTier,
    pub is_proxy: bool,
}

/// Mathematical counterpart of [`ResolvedMediaPath`].
#[verifier::ext_equal]
pub struct ResolvedView {
    pub path: PathView,
    pub tier: CacheTier,
    pub is_proxy: bool,
}

impl ResolvedView {
    /// The same path, answered from memory.
    pub open spec fn from_memory(self) -> ResolvedView {
        ResolvedView { tier: CacheTier::MemoryL1, ..self }
    }
}

impl View for ResolvedMediaPath {
    type V = ResolvedView;

    open spec fn view(&self) -> ResolvedView {
        ResolvedView { path: self.path@, tier: self.tier, is_proxy: self.is_proxy }
    }
}

impl ResolvedMediaPath {
    fn duplicate(&self) -> (r: ResolvedMediaPath)
        ensures
            r@ == self@,
    {
        ResolvedMediaPath {
            path: self.path.duplicate(),
            tier: self.tier,
            is_proxy: self.is_proxy,
        }
    }
}

/// A proxy in the index.
#[derive(Debug, Clone, PartialEq, Eq)]
pub struct ProxyIndexEntry {
    pub asset_id: u128,
    pub source_path: MediaPath,
    pub proxy_path: MediaPath,
}

/// Mathematical counterpart of [`ProxyIndexEntry`].
#[verifier::ext_equal]
pub struct ProxyIndexView {
    pub asset_id: u128,
    pub source_path: PathView,
    pub proxy_path: PathView,
}

impl View for ProxyIndexEntry {
    type V = ProxyIndexView;

    open spec fn view(&self) -> ProxyIndexView {
        ProxyIndexView {
            asset_id: self.asset_id,
            source_path: self.source_path@,
            proxy_path: self.proxy_path@,
        }
    }
}

/// The entries of a list, in its order.
pub open spec fn entry_views(entries: Seq<ProxyIndexEntry>) -> Seq<ProxyIndexView> {
    Seq::new(entries.len(), |i: int| entries[i]@)
}

impl ProxyIndexEntry {
    fn duplicate(&self) -> (r: ProxyIndexEntry)
        ensures
            r@ == self@,
    {
        ProxyIndexEntry {
            asset_id: self.asset_id,
            source_path: self.source_path.duplicate(),
            proxy_path: self.proxy_path.duplicate(),
        }
    }
}

/// Resolved paths by asset.
pub type PathLru = LruCache<u128, ResolvedMediaPath>;

/// The entries of a path table, the most recently used first.
pub uninterp spec fn path_entries(table: PathLru) -> Seq<(u128, ResolvedView)>;

/// The capacity that a path table was made with.
pub uninterp spec fn path_capacity(table: PathLru) -> nat;

/// Calls `LruCache::new`: an empty table with the given capacity.
#[verifier::external_body]
fn path_lru_new(capacity: usize) -> (table: PathLru)
    requires
        0 < capacity <= max_cache_capacity(),
    ensures
        path_entries(table) == Seq::<(u128, ResolvedView)>::empty(),
        path_capacity(table) == capacity,
{
    LruCache::new(NonZeroUsize::new(capacity).unwrap())
}

/// Calls `LruCache::get`: the value of the key, whose entry becomes the most recent;
/// nothing changes where there is none.
#[verifier::external_body]
fn path_lru_get<'a>(table: &'a mut PathLru, key: u128) -> (r: Option<&'a ResolvedMediaPath>)
    ensures
        match (r, lookup(path_entries(*old(table)), key)) {
            (Some(value), Some(expected)) => value@ == expected,
            (None, None) => true,
            _ => false,
        },
        path_entries(*final(table)) == touched(path_entries(*old(table)), key),
        path_capacity(*final(table)) == path_capacity(*old(table)),
{
    table.get(&key)
}

/// Calls `LruCache::put`: the entry becomes the most recent and replaces that of
/// its key; a new key in a full table takes the place of the least recent entry.
#[verifier::external_body]
fn path_lru_put(table: &mut PathLru, key: u128, value: ResolvedMediaPath)
    ensures
        path_entries(*final(table)) == stored(
            path_entries(*old(table)),
            path_capacity(*old(table)),
            key,
            value@,
        ),
        path_capacity(*final(table)) == path_capacity(*old(table)),
{
    table.put(key, value);
}

/// Calls `LruCache::pop`: the entry of the key is gone, all others stay in order.
#[verifier::external_body]
fn path_lru_pop(table: &mut PathLru, key: u128)
    ensures
        path_entries(*final(table)) == without(path_entries(*old(table)), key),
        path_capacity(*final(table)) == path_capacity(*old(table)),
{
    table.pop(&key);
}

/// Calls `LruCache::clear`: no entry is left.
#[verifier::external_body]
fn path_lru_clear(table: &mut PathLru)
    ensures
        path_entries(*final(table)) == Seq::<(u128, ResolvedView)>::empty(),
        path_capacity(*final(table)) == path_capacity(*old(table)),
{
    table.clear();
}

/// What is known of the proxy of a source: its expected path, and whether the proxy
/// there is fresh.
#[derive(Debug, Clone)]
pub struct ProxyState {
    pub expected_path: Option<MediaPath>,
    pub fresh: bool,
}

/// What is known of a proxy that the index names, at the time it is looked up.
#[derive(Debug, Clone, Copy, PartialEq, Eq, Structural)]
pub struct IndexedProxyState {
    pub exists: bool,
    pub fresh: bool,
}

/// What the disk says while a path is resolved: when memory is asked, when the
/// proxy itself is asked, and when the index is asked.
#[derive(Debug, Clone)]
pub struct PlaybackObservations {
    pub at_memory: ProxyState,
    pub at_proxy: ProxyState,
    pub at_index: IndexedProxyState,
}

/// A resolved path, and whether the index changed and has to be written.
#[derive(Debug)]
pub struct PlaybackResolution {
    pub resolved: ResolvedMediaPath,
    pub index_changed: bool,
}

/// Whether a remembered path still answers a request: without proxies the source
/// itself; with proxies the expected one while it is fresh, and the source only as
/// long as no fresh proxy exists.
pub open spec fn still_answers(
    hit: ResolvedView,
    source_path: PathView,
    prefer_proxy: bool,
    proxy: ProxyState,
) -> bool {
    if !prefer_proxy {
        !hit.is_proxy && same_path(hit.path, source_path)
    } else if hit.is_proxy {
        proxy.fresh && (proxy.expected_path matches Some(path) && same_path(hit.path, path@))
    } else {
        same_path(hit.path, source_path) && !proxy.fresh
    }
}

/// Whether an index entry names the expected proxy of a source, which is there and
/// fresh.
pub open spec fn entry_answers(
    entry: ProxyIndexView,
    source_path: PathView,
    expected_path: PathView,
    proxy: IndexedProxyState,
) -> bool {
    &&& same_path(entry.source_path, source_path)
    &&& same_path(entry.proxy_path, expected_path)
    &&& proxy.exists
    &&& proxy.fresh
}

/// How a path is found once memory had no answer.
pub enum Found {
    /// The proxy itself is fresh.
    FreshProxy,
    /// The index names a fresh proxy.
    IndexedProxy,
    /// The source.
    Source,
}

/// How a path is found once memory had no answer.
pub open spec fn find_path(
    entry: Option<ProxyIndexView>,
    source_path: PathView,
    prefer_proxy: bool,
    proxy: ProxyState,
    indexed: IndexedProxyState,
) -> Found {
    match (prefer_proxy, proxy.expected_path) {
        (true, Some(expected)) => if proxy.fresh {
            Found::FreshProxy
        } else {
            match entry {
                Some(entry) => if entry_answers(entry, source_path, expected@, indexed) {
                    Found::IndexedProxy
                } else {
                    Found::Source
                },
                None => Found::Source,
            }
        },
        _ => Found::Source,
    }
}

/// Whether each number is larger than the one before.
pub open spec fn ascending(ids: Seq<u128>) -> bool {
    forall|i: int, j: int| 0 <= i < j < ids.len() ==> #[trigger] ids[i] < #[trigger] ids[j]
}

proof fn lemma_insert_ascending(ids: Seq<u128>, at: int, id: u128)
    requires
        ascending(ids),
        0 <= at <= ids.len(),
        at > 0 ==> ids[at - 1] < id,
        forall|k: int| at <= k < ids.len() ==> id < #[trigger] ids[k],
    ensures
        ascending(ids.insert(at, id)),
        forall|x: u128| #[trigger]
            ids.insert(at, id).contains(x) <==> ids.contains(x) || x == id,
{
    let out = ids.insert(at, id);
    assert forall|i: int, j: int| 0 <= i < j < out.len() implies #[trigger] out[i]
        < #[trigger] out[j] by {
        if i < at && j == at {
            if i < at - 1 {
                assert(ids[i] < ids[at - 1]);
            }
        }
    }
    assert forall|x: u128| #[trigger] out.contains(x) <==> ids.contains(x) || x == id by {
        if ids.contains(x) {
            let k = choose|k: int| 0 <= k < ids.len() && ids[k] == x;
            assert(out[if k < at {
                k
            } else {
                k + 1
            }] == x);
        }
        if x == id {
            assert(out[at] == x);
        }
        if out.contains(x) && x != id {
            let k = choose|k: int| 0 <= k < out.len() && out[k] == x;
            assert(ids[if k < at {
                k
            } else {
                k - 1
            }] == x);
        }
    }
}

/// The entries of an index by their assets.
pub open spec fn index_view(index: Map<u128, ProxyIndexEntry>) -> Map<u128, ProxyIndexView> {
    index.map_values(|entry: ProxyIndexEntry| entry@)
}

/// Resolved paths and the proxy index.
pub struct MultiLevelCache {
    l1_path_cache: PathLru,
    l2_proxy_index: HashMap<u128, ProxyIndexEntry>,
}

impl MultiLevelCache {
    /// Remembered paths, the most recently used first.
    pub closed spec fn remembered(&self) -> Seq<(u128, ResolvedView)> {
        path_entries(self.l1_path_cache)
    }

    /// Most paths that are remembered.
    pub closed spec fn capacity(&self) -> nat {
        path_capacity(self.l1_path_cache)
    }

    /// The proxy index.
    pub closed spec fn index(&self) -> Map<u128, ProxyIndexView> {
        index_view(self.l2_proxy_index@)
    }

    /// No asset is remembered twice and no more than fit; every index entry stands
    /// under its own asset.
    pub open spec fn wf(&self) -> bool {
        &&& distinct_keys(self.remembered())
        &&& self.remembered().len() <= self.capacity()
        &&& self.capacity() > 0
        &&& forall|id: u128| #[trigger]
            self.index().contains_key(id) ==> self.index()[id].asset_id == id
    }

    /// The index that a list of entries stands for; of entries for the same asset the
    /// last one counts.
    pub open spec fn index_of(entries: Seq<ProxyIndexView>) -> Map<u128, ProxyIndexView>
        decreases entries.len(),
    {
        if entries.len() == 0 {
            Map::empty()
        } else {
            MultiLevelCache::index_of(entries.drop_last()).insert(
                entries.last().asset_id,
                entries.last(),
            )
        }
    }

    /// A cache with a stored index; it remembers one path at least.
    pub fn new(entries: &Vec<ProxyIndexEntry>, l1_capacity: usize) -> (r: MultiLevelCache)
        requires
            l1_capacity <= max_cache_capacity(),
        ensures
            r.wf(),
            r.remembered() == Seq::<(u128, ResolvedView)>::empty(),
            r.capacity() == (if l1_capacity == 0 {
                1
            } else {
                l1_capacity as nat
            }),
            r.index() == MultiLevelCache::index_of(entry_views(entries@)),
    {
        let capacity: usize = if l1_capacity == 0 {
            1
        } else {
            l1_capacity
        };
        let mut index: HashMap<u128, ProxyIndexEntry> = HashMap::new();
        let mut i: usize = 0;
        let ghost views = entry_views(entries@);
        assert(views.take(0) =~= Seq::empty());
        assert(index_view(index@) =~= Map::empty());
        while i < entries.len()
            invariant
                i <= entries.len(),
                views == entry_views(entries@),
                index_view(index@) == MultiLevelCache::index_of(views.take(i as int)),
                forall|id: u128| #[trigger] index@.contains_key(id) ==> index@[id].asset_id == id,
            decreases entries.len() - i,
        {
            assert(views.take(i + 1).drop_last() =~= views.take(i as int));
            let ghost before = index@;
            let entry = entries[i].duplicate();
            let asset_id: u128 = entry.asset_id;
            index.insert(asset_id, entry);
            assert(index_view(index@) =~= index_view(before).insert(asset_id, views[i as int]));
            i = i + 1;
        }
        assert(views.take(views.len() as int) =~= views);
        MultiLevelCache { l1_path_cache: path_lru_new(capacity), l2_proxy_index: index }
    }

    /// The remembered path of an asset, where it still answers. One that does not is
    /// forgotten.
    pub fn fresh_l1_hit(
        &mut self,
        asset_id: u128,
        source_path: &MediaPath,
        prefer_proxy: bool,
        proxy: &ProxyState,
    ) -> (r: Option<ResolvedMediaPath>)
        requires
            old(self).wf(),
        ensures
            final(self).wf(),
            final(self).capacity() == old(self).capacity(),
            final(self).index() == old(self).index(),
            match lookup(old(self).remembered(), asset_id) {
                Some(hit) => if still_answers(hit, source_path@, prefer_proxy, *proxy) {
                    (r matches Some(path) && path@ == hit.from_memory())
                        && final(self).remembered() == touched(
                        old(self).remembered(),
                        asset_id,
                    )
                } else {
                    r is None && final(self).remembered() == without(
                        touched(old(self).remembered(), asset_id),
                        asset_id,
                    )
                },
                None => r is None && final(self).remembered() == old(self).remembered(),
            },
            r matches Some(path) ==> {
                &&& path.tier == CacheTier::MemoryL1
                &&& !path.is_proxy ==> path.path@.components == source_path@.components
                &&& path.is_proxy ==> prefer_proxy && proxy.fresh && (
                proxy.expected_path matches Some(expected) && path.path@.components
                    == expected@.components)
            },
            r is None ==> lookup(final(self).remembered(), asset_id) is None,
    {
        proof {
            touching_keeps_values(self.remembered(), asset_id);
            removing_keeps_others(touched(self.remembered(), asset_id), asset_id);
            crate::recency::lemma_without(touched(self.remembered(), asset_id), asset_id);
        }
        let found = match path_lru_get(&mut self.l1_path_cache, asset_id) {
            Some(hit) => Some(hit.duplicate()),
            None => None,
        };
        assert(self.index() == old(self).index());
        let hit = match found {
            Some(hit) => hit,
            None => return None,
        };
        let answers = if !prefer_proxy {
            !hit.is_proxy && hit.path.same(source_path)
        } else if hit.is_proxy {
            proxy.fresh && match &proxy.expected_path {
                Some(path) => hit.path.same(path),
                None => false,
            }
        } else {
            hit.path.same(source_path) && !proxy.fresh
        };
        if answers {
            Some(
                ResolvedMediaPath {
                    path: hit.path,
                    tier: CacheTier::MemoryL1,
                    is_proxy: hit.is_proxy,
                },
            )
        } else {
            path_lru_pop(&mut self.l1_path_cache, asset_id);
            assert(self.index() == old(self).index());
            None
        }
    }

    /// Tests whether an index entry names the expected proxy of a source, which is
    /// there and fresh.
    pub fn l2_entry_is_fresh(
        entry: &ProxyIndexEntry,
        source_path: &MediaPath,
        expected_proxy_path: &MediaPath,
        proxy: IndexedProxyState,
    ) -> (r: bool)
        ensures
            r == entry_answers(entry@, source_path@, expected_proxy_path@, proxy),
    {
        entry.source_path.same(source_path) && entry.proxy_path.same(expected_proxy_path)
            && proxy.exists && proxy.fresh
    }

    fn put_l1(&mut self, asset_id: u128, resolved: ResolvedMediaPath)
        requires
            old(self).wf(),
        ensures
            final(self).wf(),
            final(self).capacity() == old(self).capacity(),
            final(self).index() == old(self).index(),
            final(self).remembered() == stored(
                old(self).remembered(),
                old(self).capacity(),
                asset_id,
                resolved@,
            ),
    {
        proof {
            storing_evicts_least_recent(self.remembered(), self.capacity(), asset_id, resolved@);
        }
        path_lru_put(&mut self.l1_path_cache, asset_id, resolved);
        assert(self.index() == old(self).index());
    }

    fn upsert_l2(&mut self, asset_id: u128, source_path: &MediaPath, proxy_path: &MediaPath)
        requires
            old(self).wf(),
        ensures
            final(self).wf(),
            final(self).capacity() == old(self).capacity(),
            final(self).remembered() == old(self).remembered(),
            final(self).index() == old(self).index().insert(
                asset_id,
                (ProxyIndexView { asset_id, source_path: source_path@, proxy_path: proxy_path@ }),
            ),
    {
        let entry = ProxyIndexEntry {
            asset_id,
            source_path: source_path.duplicate(),
            proxy_path: proxy_path.duplicate(),
        };
        self.l2_proxy_index.insert(asset_id, entry);
        assert(self.index() =~= old(self).index().insert(asset_id, entry@));
    }

    fn remember(&mut self, asset_id: u128, path: &MediaPath, tier: CacheTier, is_proxy: bool) -> (r:
        ResolvedMediaPath)
        requires
            old(self).wf(),
        ensures
            final(self).wf(),
            r@ == (ResolvedView { path: path@, tier, is_proxy }),
            final(self).capacity() == old(self).capacity(),
            final(self).index() == old(self).index(),
            final(self).remembered() == stored(
                old(self).remembered(),
                old(self).capacity(),
                asset_id,
                r@,
            ),
    {
        let resolved = ResolvedMediaPath { path: path.duplicate(), tier, is_proxy };
        let kept = resolved.duplicate();
        self.put_l1(asset_id, kept);
        resolved
    }

    /// Finds a path once memory had no answer, and remembers it. A proxy that is
    /// fresh also enters the index.
    pub fn resolve_after_miss(
        &mut self,
        asset_id: u128,
        source_path: &MediaPath,
        prefer_proxy: bool,
        proxy: &ProxyState,
        indexed: IndexedProxyState,
    ) -> (r: PlaybackResolution)
        requires
            old(self).wf(),
        ensures
            final(self).wf(),
            final(self).capacity() == old(self).capacity(),
            final(self).remembered() == stored(
                old(self).remembered(),
                old(self).capacity(),
                asset_id,
                r.resolved@,
            ),
            match find_path(
                old(self).entry_of(asset_id),
                source_path@,
                prefer_proxy,
                *proxy,
                indexed,
            ) {
                Found::FreshProxy => {
                    &&& r.resolved.path@ == proxy.expected_path.unwrap()@
                    &&& r.resolved.tier == CacheTier::DiskProxyL2
                    &&& r.resolved.is_proxy
                    &&& r.index_changed
                    &&& final(self).index() == old(self).index().insert(
                        asset_id,
                        ProxyIndexView {
                            asset_id,
                            source_path: source_path@,
                            proxy_path: proxy.expected_path.unwrap()@,
                        },
                    )
                },
                Found::IndexedProxy => {
                    &&& r.resolved.path@ == old(self).index()[asset_id].proxy_path
                    &&& r.resolved.tier == CacheTier::DiskProxyL2
                    &&& r.resolved.is_proxy
                    &&& !r.index_changed
                    &&& final(self).index() == old(self).index()
                },
                Found::Source => {
                    &&& r.resolved.path@ == source_path@
                    &&& r.resolved.tier == CacheTier::SourceL3
                    &&& !r.resolved.is_proxy
                    &&& !r.index_changed
                    &&& final(self).index() == old(self).index()
                },
            },
    {
        if prefer_proxy {
            match &proxy.expected_path {
                Some(expected) => {
                    if proxy.fresh {
                        let resolved = self.remember(
                            asset_id,
                            expected,
                            CacheTier::DiskProxyL2,
                            true,
                        );
                        self.upsert_l2(asset_id, source_path, expected);
                        return PlaybackResolution { resolved, index_changed: true };
                    }
                    let indexed_path: Option<MediaPath> = match self.l2_proxy_index.get(&asset_id) {
                        Some(entry) => if MultiLevelCache::l2_entry_is_fresh(
                            entry,
                            source_path,
                            expected,
                            indexed,
                        ) {
                            Some(entry.proxy_path.duplicate())
                        } else {
                            None
                        },
                        None => None,
                    };
                    match indexed_path {
                        Some(path) => {
                            let resolved = self.remember(
                                asset_id,
                                &path,
                                CacheTier::DiskProxyL2,
                                true,
                            );
                            return PlaybackResolution { resolved, index_changed: false };
                        },
                        None => {},
                    }
                },
                None => {},
            }
        }
        let resolved = self.remember(asset_id, source_path, CacheTier::SourceL3, false);
        PlaybackResolution { resolved, index_changed: false }
    }

    /// The index entry of an asset.
    pub open spec fn entry_of(&self, asset_id: u128) -> Option<ProxyIndexView> {
        if self.index().contains_key(asset_id) {
            Some(self.index()[asset_id])
        } else {
            None
        }
    }

    /// Resolves the path that an asset is played from.
    pub fn resolve_playback_path(
        &mut self,
        asset_id: u128,
        source_path: &MediaPath,
        prefer_proxy: bool,
        seen: &PlaybackObservations,
    ) -> (r: PlaybackResolution)
        requires
            old(self).wf(),
        ensures
            final(self).wf(),
            final(self).capacity() == old(self).capacity(),
            match lookup(old(self).remembered(), asset_id) {
                Some(hit) if still_answers(hit, source_path@, prefer_proxy, seen.at_memory) => {
                    &&& r.resolved@ == hit.from_memory()
                    &&& !r.index_changed
                    &&& final(self).index() == old(self).index()
                    &&& final(self).remembered() == touched(old(self).remembered(), asset_id)
                },
                _ => {
                    &&& final(self).remembered() == stored(
                        old(self).remembered(),
                        old(self).capacity(),
                        asset_id,
                        r.resolved@,
                    )
                    &&& lookup(final(self).remembered(), asset_id) == Some(r.resolved@)
                    &&& match find_path(
                        old(self).entry_of(asset_id),
                        source_path@,
                        prefer_proxy,
                        seen.at_proxy,
                        seen.at_index,
                    ) {
                        Found::FreshProxy => {
                            &&& r.resolved.path@ == seen.at_proxy.expected_path.unwrap()@
                            &&& r.resolved.tier == CacheTier::DiskProxyL2
                            &&& r.resolved.is_proxy
                            &&& r.index_changed
                            &&& final(self).index() == old(self).index().insert(
                                asset_id,
                                ProxyIndexView {
                                    asset_id,
                                    source_path: source_path@,
                                    proxy_path: r.resolved.path@,
                                },
                            )
                        },
                        Found::IndexedProxy => {
                            &&& r.resolved.path@ == old(self).index()[asset_id].proxy_path
                            &&& r.resolved.tier == CacheTier::DiskProxyL2
                            &&& r.resolved.is_proxy
                            &&& !r.index_changed
                            &&& final(self).index() == old(self).index()
                        },
                        Found::Source => {
                            &&& r.resolved.path@ == source_path@
                            &&& r.resolved.tier == CacheTier::SourceL3
                            &&& !r.resolved.is_proxy
                            &&& !r.index_changed
                            &&& final(self).index() == old(self).index()
                        },
                    }
                },
            },
            !r.resolved.is_proxy ==> r.resolved.path@.components == source_path@.components,
            r.resolved.is_proxy ==> prefer_proxy,
            r.resolved.is_proxy && r.resolved.tier == CacheTier::MemoryL1 ==> seen.at_memory.fresh
                && (seen.at_memory.expected_path matches Some(expected)
                && r.resolved.path@.components == expected@.components),
            r.resolved.is_proxy && r.resolved.tier != CacheTier::MemoryL1 ==> (
            seen.at_proxy.expected_path matches Some(expected) && r.resolved.path@.components
                == expected@.components) && (seen.at_proxy.fresh || (seen.at_index.exists
                && seen.at_index.fresh)),
            prefer_proxy && seen.at_memory.fresh && seen.at_proxy.fresh
                && seen.at_proxy.expected_path is Some ==> r.resolved.is_proxy,
            r.index_changed ==> r.resolved.is_proxy && r.resolved.tier == CacheTier::DiskProxyL2,
            (r.resolved.tier == CacheTier::SourceL3) ==> !r.resolved.is_proxy,
            (r.resolved.tier == CacheTier::DiskProxyL2) ==> r.resolved.is_proxy,
            forall|id: u128|
                id != asset_id ==> #[trigger] final(self).entry_of(id) == old(self).entry_of(id),
    {
        match self.fresh_l1_hit(asset_id, source_path, prefer_proxy, &seen.at_memory) {
            Some(hit) => {
                return PlaybackResolution { resolved: hit, index_changed: false };
            },
            None => {},
        }
        let ghost before = self.remembered();
        let r = self.resolve_after_miss(
            asset_id,
            source_path,
            prefer_proxy,
            &seen.at_proxy,
            seen.at_index,
        );
        proof {
            storing_evicts_least_recent(before, self.capacity(), asset_id, r.resolved@);
            let entries = old(self).remembered();
            crate::recency::lemma_lookup(entries, asset_id);
            crate::recency::lemma_without(entries, asset_id);
            match lookup(entries, asset_id) {
                Some(value) => {
                    crate::recency::lemma_without_first(
                        (asset_id, value),
                        without(entries, asset_id),
                    );
                },
                None => {},
            }
        }
        r
    }

    /// Forgets all that is known of an asset; the index has to be written.
    pub fn invalidate_asset(&mut self, asset_id: u128)
        requires
            old(self).wf(),
        ensures
            final(self).wf(),
            final(self).capacity() == old(self).capacity(),
            final(self).remembered() == without(old(self).remembered(), asset_id),
            final(self).index() == old(self).index().remove(asset_id),
    {
        proof {
            crate::recency::lemma_without(self.remembered(), asset_id);
        }
        path_lru_pop(&mut self.l1_path_cache, asset_id);
        self.l2_proxy_index.remove(&asset_id);
        assert(self.index() =~= old(self).index().remove(asset_id));
        assert forall|id: u128| #[trigger] self.index().contains_key(id) implies self.index()[id].asset_id
            == id by {
            assert(old(self).index().contains_key(id));
        }
    }

    /// The assets of the index, ascending.
    fn sorted_ids(&self) -> (ids: Vec<u128>)
        ensures
            ascending(ids@),
            forall|id: u128| #[trigger] ids@.contains(id) <==> self.index().contains_key(id),
    {
        let mut ids: Vec<u128> = Vec::new();
        for id in it: self.l2_proxy_index.keys()
            invariant
                it.seq().unref().to_set() == self.index().dom(),
                it.seq().no_duplicates(),
                ascending(ids@),
                forall|x: u128| #[trigger]
                    ids@.contains(x) <==> exists|j: int|
                        0 <= j < it.index() && *(#[trigger] it.seq()[j]) == x,
        {
            let ghost before = ids@;
            let ghost n = it.index() as int;
            let ghost all = it.seq();
            assert(!before.contains(*id)) by {
                if before.contains(*id) {
                    let j = choose|j: int| 0 <= j < n && *(#[trigger] all[j]) == *id;
                    assert(all[j] == all[n]);
                }
            }
            let mut at: usize = ids.len();
            while at > 0 && ids[at - 1] > *id
                invariant
                    ids@ == before,
                    at <= ids.len(),
                    ascending(before),
                    forall|k: int| at <= k < before.len() ==> *id < #[trigger] before[k],
                decreases at,
            {
                at = at - 1;
            }
            proof {
                if at > 0 {
                    assert(before.contains(before[at - 1]));
                }
                lemma_insert_ascending(before, at as int, *id);
            }
            ids.insert(at, *id);
            assert forall|x: u128| #[trigger] ids@.contains(x) <==> exists|j: int|
                0 <= j < n + 1 && *(#[trigger] all[j]) == x by {
                if ids@.contains(x) && x != *id {
                    assert(before.contains(x));
                }
                if x == *id {
                    assert(*all[n] == x);
                }
                if exists|j: int| 0 <= j < n + 1 && *(#[trigger] all[j]) == x {
                    let j = choose|j: int| 0 <= j < n + 1 && *(#[trigger] all[j]) == x;
                    if j < n {
                        assert(before.contains(x));
                    }
                }
            }
        }
        assert forall|id: u128| #[trigger] ids@.contains(id) <==> self.index().contains_key(id) by {
            let all = vstd::std_specs::iter::IteratorSpec::remaining(
                &vstd::std_specs::hash::spec_keys_iter(&self.l2_proxy_index),
            );
            let plain = all.unref();
            assert(plain.to_set().contains(id) <==> self.index().contains_key(id));
            if plain.to_set().contains(id) {
                let j = choose|j: int| 0 <= j < plain.len() && plain[j] == id;
                assert(*all[j] == id);
            }
            if ids@.contains(id) {
                let j = choose|j: int| 0 <= j < all.len() && *(#[trigger] all[j]) == id;
                assert(plain[j] == id);
            }
        }
        ids
    }

    /// The entries of the index as they are written to disk: by asset, ascending.
    pub fn index_entries(&self) -> (r: Vec<ProxyIndexEntry>)
        requires
            self.wf(),
        ensures
            MultiLevelCache::index_of(entry_views(r@)) == self.index(),
            forall|i: int, j: int|
                0 <= i < j < r@.len() ==> (#[trigger] r@[i]).asset_id < (#[trigger] r@[j]).asset_id,
    {
        let ids = self.sorted_ids();
        let mut out: Vec<ProxyIndexEntry> = Vec::new();
        let mut i: usize = 0;
        while i < ids.len()
            invariant
                self.wf(),
                i <= ids.len(),
                out@.len() == i,
                ascending(ids@),
                forall|id: u128| #[trigger] ids@.contains(id) <==> self.index().contains_key(id),
                forall|k: int|
                    0 <= k < i ==> (#[trigger] out@[k])@ == self.index()[ids@[k]]
                        && out@[k].asset_id
                        == ids@[k],
                MultiLevelCache::index_of(entry_views(out@)) == self.index().restrict(
                    ids@.take(i as int).to_set(),
                ),
            decreases ids.len() - i,
        {
            let ghost id = ids@[i as int];
            assert(ids@.contains(id));
            assert(self.index().contains_key(id));
            let ghost before = out@;
            match self.l2_proxy_index.get(&ids[i]) {
                Some(entry) => {
                    out.push(entry.duplicate());
                },
                None => {
                    assert(false);
                },
            }
            proof {
                assert(entry_views(out@).drop_last() =~= entry_views(before));
                let old_ids = ids@.take(i as int);
                let new_ids = ids@.take(i + 1);
                assert(new_ids =~= old_ids.push(id));
                assert(new_ids.to_set() =~= old_ids.to_set().insert(id)) by {
                    assert forall|x: u128|
                        new_ids.to_set().contains(x) == old_ids.to_set().insert(id).contains(x) by {
                        if old_ids.contains(x) {
                            let k = choose|k: int| 0 <= k < old_ids.len() && old_ids[k] == x;
                            assert(new_ids[k] == x);
                        }
                        if x == id {
                            assert(new_ids[i as int] == x);
                        }
                    }
                }
                assert(self.index().restrict(new_ids.to_set()) =~= self.index().restrict(
                    old_ids.to_set(),
                ).insert(id, self.index()[id]));
            }
            i = i + 1;
        }
        proof {
            assert(ids@.take(ids@.len() as int) =~= ids@);
            assert(self.index().restrict(ids@.to_set()) =~= self.index()) by {
                assert forall|id: u128| self.index().contains_key(id) implies ids@.to_set().contains(
                    id,
                ) by {
                    assert(ids@.contains(id));
                }
            }
        }
        out
    }

    /// Forgets all remembered paths.
    pub fn clear_l1(&mut self)
        requires
            old(self).wf(),
        ensures
            final(self).wf(),
            final(self).capacity() == old(self).capacity(),
            final(self).remembered() == Seq::<(u128, ResolvedView)>::empty(),
            final(self).index() == old(self).index(),
    {
        path_lru_clear(&mut self.l1_path_cache);
        assert(self.index() == old(self).index());
    }
}

/// What was resolved last is not answered from memory once its proxy is stale or
/// another proxy is expected.
pub proof fn stale_proxies_are_not_remembered(
    hit: ResolvedView,
    source_path: PathView,
    proxy: ProxyState,
)
    requires
        hit.is_proxy,
        !proxy.fresh || proxy.expected_path is None || !same_path(
            hit.path,
            proxy.expected_path.unwrap()@,
        ),
    ensures
        !still_answers(hit, source_path, true, proxy),
        !still_answers(hit, source_path, false, proxy),
{
}

/// A remembered source gives way as soon as a fresh proxy is wanted and there.
pub proof fn fresh_proxies_replace_the_source(
    hit: ResolvedView,
    source_path: PathView,
    proxy: ProxyState,
)
    requires
        !hit.is_proxy,
        proxy.fresh,
    ensures
        !still_answers(hit, source_path, true, proxy),
{
}

/// How a path is spelled does not matter: memory and the index answer requests for
/// equal paths alike, and a source that was remembered under one spelling answers under
/// every other.
pub proof fn spelling_does_not_matter(
    hit: ResolvedView,
    entry: ProxyIndexView,
    asked: PathView,
    respelled: PathView,
    expected: PathView,
    prefer_proxy: bool,
    proxy: ProxyState,
    indexed: IndexedProxyState,
)
    requires
        same_path(asked, respelled),
    ensures
        still_answers(hit, asked, prefer_proxy, proxy) == still_answers(
            hit,
            respelled,
            prefer_proxy,
            proxy,
        ),
        entry_answers(entry, asked, expected, indexed) == entry_answers(
            entry,
            respelled,
            expected,
            indexed,
        ),
        hit.path == asked && !hit.is_proxy ==> still_answers(hit, respelled, false, proxy),
{
}

/// Memory never answers for another source: a remembered path that is no proxy answers only
/// requests for that very path, whether or not a proxy is preferred, and a remembered proxy
/// only requests that prefer one, while the proxy expected then is that very path and fresh.
pub proof fn memory_never_answers_for_another_source(
    hit: ResolvedView,
    source_path: PathView,
    prefer_proxy: bool,
    proxy: ProxyState,
)
    requires
        still_answers(hit, source_path, prefer_proxy, proxy),
    ensures
        !hit.is_proxy ==> hit.path.components == source_path.components,
        hit.is_proxy ==> prefer_proxy && proxy.fresh && (proxy.expected_path matches Some(expected)
            && hit.path.components == expected@.components),
        prefer_proxy && proxy.fresh ==> hit.is_proxy,
        hit.from_memory().path == hit.path,
        hit.from_memory().is_proxy == hit.is_proxy,
        hit.from_memory().tier == CacheTier::MemoryL1,
{
}

/// What was resolved answers the same request again as long as the disk says the same.
pub proof fn resolved_paths_answer_again(
    source_path: PathView,
    prefer_proxy: bool,
    proxy: ProxyState,
    hit: ResolvedView,
)
    requires
        if hit.is_proxy {
            prefer_proxy && proxy.fresh && (proxy.expected_path matches Some(expected) && hit.path
                == expected@)
        } else {
            hit.path == source_path && !(prefer_proxy && proxy.fresh)
        },
    ensures
        still_answers(hit, source_path, prefer_proxy, proxy),
{
}

/// A proxy of the index is played only for the source that it was made of, under the path
/// that is expected of it, while it is there and fresh. A fresh proxy goes before the index,
/// and without a wish for proxies, or where no path is expected, the source is played.
pub proof fn the_index_never_answers_for_another_source(
    entry: ProxyIndexView,
    source_path: PathView,
    prefer_proxy: bool,
    proxy: ProxyState,
    indexed: IndexedProxyState,
)
    ensures
        find_path(Some(entry), source_path, prefer_proxy, proxy, indexed) is IndexedProxy ==> {
            &&& entry.source_path.components == source_path.components
            &&& proxy.expected_path matches Some(expected) && entry.proxy_path.components
                == expected@.components
            &&& indexed.exists && indexed.fresh && prefer_proxy && !proxy.fresh
        },
        find_path(Some(entry), source_path, prefer_proxy, proxy, indexed) is FreshProxy
            <==> prefer_proxy && proxy.fresh && proxy.expected_path is Some,
        !prefer_proxy || proxy.expected_path is None ==> find_path(
            Some(entry),
            source_path,
            prefer_proxy,
            proxy,
            indexed,
        ) is Source,
        find_path(None, source_path, prefer_proxy, proxy, indexed) is IndexedProxy ==> false,
        prefer_proxy && !proxy.fresh && indexed.exists && indexed.fresh && entry.source_path
            == source_path && (proxy.expected_path matches Some(expected) && entry.proxy_path
            == expected@) ==> find_path(Some(entry), source_path, prefer_proxy, proxy, indexed)
            is IndexedProxy,
{
}

/// A stored index is read back as it was: each asset has the entry that stands last in the
/// list for it, and an asset that the list does not name has none.
pub proof fn indexes_hold_the_last_entry(entries: Seq<ProxyIndexView>, i: int)
    requires
        0 <= i < entries.len(),
        forall|j: int| i < j < entries.len() ==> (#[trigger] entries[j]).asset_id
            != entries[i].asset_id,
    ensures
        MultiLevelCache::index_of(entries).contains_key(entries[i].asset_id),
        MultiLevelCache::index_of(entries)[entries[i].asset_id] == entries[i],
    decreases entries.len(),
{
    if i < entries.len() - 1 {
        let front = entries.drop_last();
        assert forall|j: int| i < j < front.len() implies (#[trigger] front[j]).asset_id
            != front[i].asset_id by {
            assert(front[j] == entries[j]);
        }
        indexes_hold_the_last_entry(front, i);
        assert(entries[entries.len() - 1].asset_id != entries[i].asset_id);
    }
}

/// An index holds nothing that its list does not name.
pub proof fn indexes_hold_nothing_else(entries: Seq<ProxyIndexView>, asset_id: u128)
    ensures
        MultiLevelCache::index_of(entries).contains_key(asset_id) <==> exists|i: int|
            0 <= i < entries.len() && (#[trigger] entries[i]).asset_id == asset_id,
    decreases entries.len(),
{
    if entries.len() > 0 {
        let front = entries.drop_last();
        indexes_hold_nothing_else(front, asset_id);
        if exists|i: int| 0 <= i < front.len() && (#[trigger] front[i]).asset_id == asset_id {
            let i = choose|i: int| 0 <= i < front.len() && (#[trigger] front[i]).asset_id
                == asset_id;
            assert(entries[i].asset_id == asset_id);
        }
        if exists|i: int| 0 <= i < entries.len() && (#[trigger] entries[i]).asset_id == asset_id {
            let i = choose|i: int| 0 <= i < entries.len() && (#[trigger] entries[i]).asset_id
                == asset_id;
            if i < front.len() {
                assert(front[i].asset_id == asset_id);
            }
        }
    }
}

} // verus!
