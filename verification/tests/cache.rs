use std::path::{Component, Path};
use std::sync::Arc;

use mondrian_media::cache::{FrameCache, FrameCacheConfig, RawVideoFrame, TimeCode};
use mondrian_media::info::stream::Rational;
use mondrian_media::multilevel_cache::{
    CacheTier, IndexedProxyState, MultiLevelCache, PlaybackObservations, ProxyIndexEntry,
    ProxyState,
};
use mondrian_media::path::{MediaPath, PathComponent};

/// A path as this system splits it.
fn media_path(text: &str) -> MediaPath {
    let path = Path::new(text);
    MediaPath {
        bytes: text.as_bytes().to_vec(),
        components: path
            .components()
            .map(|component| {
                let bytes = component.as_os_str().as_encoded_bytes().to_vec();
                match component {
                    Component::Prefix(_) => PathComponent::Prefix(bytes),
                    Component::RootDir => PathComponent::RootDir,
                    Component::CurDir => PathComponent::CurDir,
                    Component::ParentDir => PathComponent::ParentDir,
                    Component::Normal(_) => PathComponent::Normal(bytes),
                }
            })
            .collect(),
    }
}

fn asset(number: u128) -> u128 {
    0x6d6f_6e64_0000_0000_0000_0000_0000_0000 + number
}

fn make_frame(asset_id: u128, frame_num: u64) -> Arc<RawVideoFrame> {
    Arc::new(RawVideoFrame {
        asset_id,
        pts: TimeCode { value: frame_num as i64, rate: Rational { num: 30, den: 1 } },
        width: 1920,
        height: 1080,
        planes: [vec![0u8; 100], vec![0u8; 50], vec![0u8; 50]],
        strides: [1920, 960, 960],
        frame_num,
    })
}

#[test]
fn insert_and_get() {
    let mut cache = FrameCache::new(FrameCacheConfig { max_frames: 10 });
    let asset_id = asset(1);
    let frame = make_frame(asset_id, 0);
    cache.insert(frame);
    let retrieved = cache.get(asset_id, 0);
    assert!(retrieved.is_some());
    assert_eq!(retrieved.unwrap().frame_num, 0);
}

#[test]
fn get_missing_returns_none() {
    let mut cache = FrameCache::new(FrameCacheConfig { max_frames: 10 });
    assert!(cache.get(asset(2), 0).is_none());
}

#[test]
fn hit_miss_stats() {
    let mut cache = FrameCache::new(FrameCacheConfig { max_frames: 10 });
    let asset_id = asset(3);
    assert!(cache.get(asset_id, 0).is_none()); // miss
    cache.insert(make_frame(asset_id, 0));
    assert!(cache.get(asset_id, 0).is_some()); // hit
    cache.get(asset_id, 1); // miss
    let stats = cache.stats();
    assert_eq!(stats.hits, 1);
    assert_eq!(stats.misses, 2);
}

#[test]
fn evict_asset_removes_all_its_frames() {
    let mut cache = FrameCache::new(FrameCacheConfig { max_frames: 10 });
    let a1 = asset(4);
    let a2 = asset(5);
    cache.insert(make_frame(a1, 0));
    cache.insert(make_frame(a1, 1));
    cache.insert(make_frame(a2, 0));
    cache.evict_asset(a1);
    assert!(cache.get(a1, 0).is_none());
    assert!(cache.get(a1, 1).is_none());
    assert!(cache.get(a2, 0).is_some()); // a2 unaffected
}

#[test]
fn clear_all() {
    let mut cache = FrameCache::new(FrameCacheConfig { max_frames: 10 });
    cache.insert(make_frame(asset(6), 0));
    cache.clear_all();
    assert_eq!(cache.stats().size, 0);
}

#[test]
fn lru_eviction() {
    let mut cache = FrameCache::new(FrameCacheConfig { max_frames: 2 });
    let asset_id = asset(7);
    cache.insert(make_frame(asset_id, 0));
    cache.insert(make_frame(asset_id, 1));
    // cache at capacity; inserting a 3rd should evict frame 0 (LRU)
    cache.insert(make_frame(asset_id, 2));
    assert_eq!(cache.stats().size, 2);
    let total_present =
        [0, 1, 2].iter().filter(|&&n| cache.get(asset_id, n).is_some()).count();
    assert_eq!(total_present, 2);
}

#[test]
fn max_frames_zero_uses_minimum() {
    let mut cache = FrameCache::new(FrameCacheConfig { max_frames: 0 });
    cache.insert(make_frame(asset(8), 0));
    assert_eq!(cache.stats().size, 1);
}

#[test]
fn looking_up_a_frame_keeps_it() {
    let mut cache = FrameCache::new(FrameCacheConfig { max_frames: 2 });
    let asset_id = asset(40);
    cache.insert(make_frame(asset_id, 0));
    cache.insert(make_frame(asset_id, 1));
    assert!(cache.get(asset_id, 0).is_some());
    cache.insert(make_frame(asset_id, 2));
    assert!(cache.get(asset_id, 0).is_some());
    assert!(cache.get(asset_id, 1).is_none());
    assert_eq!(make_frame(asset_id, 0).memory_size(), 200);
    assert_eq!(FrameCacheConfig::default().max_frames, 180);
}

/// What the disk says when every look finds the same.
fn seen(expected: &str, fresh: bool) -> PlaybackObservations {
    let proxy = ProxyState { expected_path: Some(media_path(expected)), fresh };
    PlaybackObservations {
        at_memory: proxy.clone(),
        at_proxy: proxy,
        at_index: IndexedProxyState { exists: true, fresh },
    }
}

#[test]
fn resolve_playback_path_uses_fresh_proxy() {
    let mut cache = MultiLevelCache::new(&Vec::new(), 8);
    let resolution =
        cache.resolve_playback_path(asset(50), &media_path("source.mp4"), true, &seen("proxy.mp4", true));

    let resolved = resolution.resolved;
    assert_eq!(resolved.path.bytes, "proxy.mp4".as_bytes());
    assert_eq!(resolved.tier, CacheTier::DiskProxyL2);
    assert!(resolved.is_proxy);
    assert!(resolution.index_changed);
}

#[test]
fn resolve_playback_path_falls_back_to_source_when_proxy_is_stale() {
    let mut cache = MultiLevelCache::new(&Vec::new(), 8);
    let resolved = cache
        .resolve_playback_path(asset(51), &media_path("source.mp4"), true, &seen("proxy.mp4", false))
        .resolved;

    assert_eq!(resolved.path.bytes, "source.mp4".as_bytes());
    assert_eq!(resolved.tier, CacheTier::SourceL3);
    assert!(!resolved.is_proxy);
}

#[test]
fn resolve_playback_path_upgrades_source_l1_when_proxy_becomes_fresh() {
    let mut cache = MultiLevelCache::new(&Vec::new(), 8);
    let first = cache
        .resolve_playback_path(asset(52), &media_path("source.mp4"), true, &seen("proxy.mp4", false))
        .resolved;
    assert_eq!(first.path.bytes, "source.mp4".as_bytes());
    assert_eq!(first.tier, CacheTier::SourceL3);

    let second = cache
        .resolve_playback_path(asset(52), &media_path("source.mp4"), true, &seen("proxy.mp4", true))
        .resolved;

    assert_eq!(second.path.bytes, "proxy.mp4".as_bytes());
    assert_eq!(second.tier, CacheTier::DiskProxyL2);
    assert!(second.is_proxy);
}

#[test]
fn resolve_playback_path_does_not_return_stale_proxy_from_l1() {
    let mut cache = MultiLevelCache::new(&Vec::new(), 8);
    let first = cache
        .resolve_playback_path(asset(53), &media_path("source.mp4"), true, &seen("proxy.mp4", true))
        .resolved;
    assert_eq!(first.path.bytes, "proxy.mp4".as_bytes());
    assert!(first.is_proxy);

    let second = cache
        .resolve_playback_path(asset(53), &media_path("source.mp4"), true, &seen("proxy.mp4", false))
        .resolved;

    assert_eq!(second.path.bytes, "source.mp4".as_bytes());
    assert_eq!(second.tier, CacheTier::SourceL3);
    assert!(!second.is_proxy);
}

#[test]
fn resolve_playback_path_does_not_return_stale_proxy_from_l2_index() {
    let mut cache = MultiLevelCache::new(&Vec::new(), 8);
    let first = cache
        .resolve_playback_path(asset(54), &media_path("source.mp4"), true, &seen("proxy.mp4", true))
        .resolved;
    assert_eq!(first.path.bytes, "proxy.mp4".as_bytes());
    cache.clear_l1();

    let second = cache
        .resolve_playback_path(asset(54), &media_path("source.mp4"), true, &seen("proxy.mp4", false))
        .resolved;

    assert_eq!(second.path.bytes, "source.mp4".as_bytes());
    assert_eq!(second.tier, CacheTier::SourceL3);
    assert!(!second.is_proxy);
}

#[test]
fn resolve_playback_path_does_not_return_l2_proxy_from_old_config() {
    let mut cache = MultiLevelCache::new(&Vec::new(), 8);
    let first = cache
        .resolve_playback_path(asset(55), &media_path("source.mp4"), true, &seen("first/proxy.mp4", true))
        .resolved;
    assert_eq!(first.path.bytes, "first/proxy.mp4".as_bytes());
    cache.clear_l1();

    let mut other = seen("other/proxy.mp4", false);
    other.at_index = IndexedProxyState { exists: true, fresh: true };
    let second =
        cache.resolve_playback_path(asset(55), &media_path("source.mp4"), true, &other).resolved;

    assert_eq!(second.path.bytes, "source.mp4".as_bytes());
    assert_eq!(second.tier, CacheTier::SourceL3);
    assert!(!second.is_proxy);
}

#[test]
fn remembered_paths_answer_from_memory() {
    let mut cache = MultiLevelCache::new(&Vec::new(), 8);
    cache.resolve_playback_path(asset(56), &media_path("source.mp4"), false, &seen("proxy.mp4", true));
    let again =
        cache.resolve_playback_path(asset(56), &media_path("source.mp4"), false, &seen("proxy.mp4", true));
    assert_eq!(again.resolved.tier, CacheTier::MemoryL1);
    assert_eq!(again.resolved.path.bytes, "source.mp4".as_bytes());
    assert!(!again.index_changed);
}

#[test]
fn indexed_proxies_are_found_again_and_can_be_invalidated() {
    let entry = ProxyIndexEntry {
        asset_id: asset(57),
        source_path: media_path("source.mp4"),
        proxy_path: media_path("proxy.mp4"),
    };
    let mut cache = MultiLevelCache::new(&vec![entry.clone()], 8);
    assert_eq!(cache.index_entries(), vec![entry]);
    let mut found = seen("proxy.mp4", false);
    found.at_index = IndexedProxyState { exists: true, fresh: true };
    let resolved =
        cache.resolve_playback_path(asset(57), &media_path("source.mp4"), true, &found).resolved;
    assert_eq!(resolved.path.bytes, "proxy.mp4".as_bytes());
    assert_eq!(resolved.tier, CacheTier::DiskProxyL2);
    cache.invalidate_asset(asset(57));
    assert!(cache.index_entries().is_empty());
}

#[test]
fn remembered_paths_answer_under_every_spelling() {
    let mut cache = MultiLevelCache::new(&Vec::new(), 8);
    let unwanted = seen("proxy.mp4", false);
    cache.resolve_playback_path(asset(58), &media_path("a/b"), false, &unwanted);
    let again =
        cache.resolve_playback_path(asset(58), &media_path("a//b/."), false, &unwanted).resolved;
    assert_eq!(again.tier, CacheTier::MemoryL1);
    assert_eq!(again.path.bytes, b"a/b");
    let other =
        cache.resolve_playback_path(asset(58), &media_path("a/../b"), false, &unwanted).resolved;
    assert_eq!(other.tier, CacheTier::SourceL3);
    assert_eq!(other.path.bytes, b"a/../b");
}

#[test]
fn expected_proxies_answer_under_every_spelling() {
    let mut cache = MultiLevelCache::new(&Vec::new(), 8);
    let source = media_path("source.mp4");
    cache.resolve_playback_path(asset(59), &source, true, &seen("p/proxy.mp4", true));
    let hit =
        cache.resolve_playback_path(asset(59), &source, true, &seen("p//proxy.mp4", true)).resolved;
    assert_eq!(hit.tier, CacheTier::MemoryL1);
    assert_eq!(hit.path.bytes, b"p/proxy.mp4");

    cache.clear_l1();
    let mut indexed = seen("p/./proxy.mp4", false);
    indexed.at_index = IndexedProxyState { exists: true, fresh: true };
    let found = cache
        .resolve_playback_path(asset(59), &media_path("source.mp4/"), true, &indexed)
        .resolved;
    assert_eq!(found.tier, CacheTier::DiskProxyL2);
    assert_eq!(found.path.bytes, b"p/proxy.mp4");
}

#[test]
fn paths_need_not_be_text() {
    let odd = |byte: u8| MediaPath {
        bytes: vec![byte],
        components: vec![PathComponent::Normal(vec![byte])],
    };
    assert!(odd(0xff) != odd(0xfe));
    assert!(odd(0xff) == odd(0xff));
    let mut cache = MultiLevelCache::new(&Vec::new(), 8);
    let unwanted = seen("proxy.mp4", false);
    let first = cache.resolve_playback_path(asset(60), &odd(0xff), false, &unwanted).resolved;
    assert_eq!(first.path.bytes, vec![0xff]);
    let second = cache.resolve_playback_path(asset(60), &odd(0xfe), false, &unwanted).resolved;
    assert_eq!(second.tier, CacheTier::SourceL3);
}

#[test]
fn frames_can_be_copied() {
    let frame = make_frame(asset(61), 3);
    let copy = RawVideoFrame::clone(&frame);
    assert_eq!(copy.frame_num, 3);
    assert_eq!(copy.planes, frame.planes);
}
