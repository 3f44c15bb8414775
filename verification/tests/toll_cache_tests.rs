use etc_middleware::toll_cache::{fresh, wrapping_inc, TollCache};
use etc_middleware::toll_lane_cache::TollLaneCache;
use etc_middleware::toll_types::{TOLL, TOLL_LANE};

fn toll(id: i32, code: &str, toll_type: &str) -> TOLL {
    let mut t = TOLL::default();
    t.toll_id = id;
    t.toll_code = code.to_string();
    t.toll_type = toll_type.to_string();
    t
}

fn lane(lane_id: i32, toll_id: i32, lane_code: i32) -> TOLL_LANE {
    let mut l = TOLL_LANE::default();
    l.toll_lane_id = lane_id;
    l.toll_id = toll_id;
    l.lane_code = lane_code;
    l
}

#[test]
fn toll_cache_defaults() {
    let c = TollCache::new();
    let s = c.get_stats();
    assert_eq!(s.total_entries, 0);
    assert_eq!(s.hits, 0);
    assert_eq!(s.misses, 0);
    assert_eq!(s.evictions, 0);
}

#[test]
fn toll_put_then_get_same_time() {
    let mut c = TollCache::with_config(1000, 10);
    c.put_at(toll(7, "T07", "O"), 5_000);
    let got = c.get_at(7, 5_000).expect("stored station");
    assert_eq!(got.toll_id, 7);
    assert_eq!(got.toll_code, "T07");
    let s = c.get_stats();
    assert_eq!(s.hits, 1);
    assert_eq!(s.misses, 0);
}

#[test]
fn toll_get_expired_is_dropped_and_missed() {
    let mut c = TollCache::with_config(1000, 10);
    c.put_at(toll(1, "A", "C"), 0);
    assert!(c.get_at(1, 999).is_some());
    assert!(c.get_at(1, 1000).is_none());
    let s = c.get_stats();
    assert_eq!(s.total_entries, 0);
    assert_eq!(s.hits, 1);
    assert_eq!(s.misses, 1);
}

#[test]
fn toll_get_missing_is_a_miss() {
    let mut c = TollCache::new();
    assert!(c.get_at(42, 0).is_none());
    assert_eq!(c.get_stats().misses, 1);
}

#[test]
fn toll_eviction_removes_least_recently_read() {
    let mut c = TollCache::with_config(1_000_000, 2);
    c.put_at(toll(1, "A", "C"), 10);
    c.put_at(toll(2, "B", "C"), 20);
    assert!(c.get_at(1, 30).is_some());
    c.put_at(toll(3, "C", "C"), 40);
    let s = c.get_stats();
    assert_eq!(s.total_entries, 2);
    assert_eq!(s.evictions, 1);
    assert!(c.get_at(2, 50).is_none());
    assert!(c.get_at(1, 50).is_some());
    assert!(c.get_at(3, 50).is_some());
}

#[test]
fn toll_put_replaces_same_id() {
    let mut c = TollCache::with_config(1000, 10);
    c.put_at(toll(5, "OLD", "C"), 0);
    c.put_at(toll(5, "NEW", "O"), 1);
    assert_eq!(c.get_stats().total_entries, 1);
    assert_eq!(c.get_at(5, 2).unwrap().toll_code, "NEW");
}

#[test]
fn toll_remove_then_get() {
    let mut c = TollCache::new();
    c.put_at(toll(9, "X", "C"), 0);
    assert!(c.remove(9));
    assert!(!c.remove(9));
    assert!(c.get_at(9, 0).is_none());
}

#[test]
fn toll_get_by_code_live_only() {
    let mut c = TollCache::with_config(100, 10);
    c.put_at(toll(1, "AB", "C"), 0);
    c.put_at(toll(2, "CD", "C"), 50);
    assert_eq!(c.get_by_code_at("CD", 120).unwrap().toll_id, 2);
    assert!(c.get_by_code_at("AB", 120).is_none());
    assert_eq!(c.get_stats().total_entries, 2);
    assert_eq!(c.get_stats().hits, 1);
    assert_eq!(c.get_stats().misses, 1);
}

#[test]
fn toll_get_all_drops_expired() {
    let mut c = TollCache::with_config(100, 10);
    c.put_at(toll(1, "A", "C"), 0);
    c.put_at(toll(2, "B", "C"), 80);
    let all = c.get_all_at(150);
    assert_eq!(all.len(), 1);
    assert_eq!(all[0].toll_id, 2);
    assert_eq!(c.get_stats().total_entries, 1);
}

#[test]
fn toll_cleanup_expired_counts() {
    let mut c = TollCache::with_config(100, 10);
    c.put_at(toll(1, "A", "C"), 0);
    c.put_at(toll(2, "B", "C"), 4);
    c.put_at(toll(3, "C", "C"), 90);
    assert_eq!(c.cleanup_expired_at(105), 2);
    assert_eq!(c.get_stats().total_entries, 1);
}

#[test]
fn toll_replace_all_later_wins() {
    let mut c = TollCache::with_config(1000, 1);
    c.put_at(toll(99, "Z", "C"), 0);
    c.replace_all_at(vec![toll(1, "A", "C"), toll(2, "B", "C"), toll(1, "A2", "C")], 5);
    let s = c.get_stats();
    assert_eq!(s.total_entries, 2);
    assert_eq!(s.evictions, 0);
    assert_eq!(c.get_at(1, 6).unwrap().toll_code, "A2");
    assert!(c.get_at(99, 6).is_none());
}

#[test]
fn toll_clear_keeps_counters() {
    let mut c = TollCache::new();
    c.put_at(toll(1, "A", "C"), 0);
    c.get_at(1, 0);
    c.clear();
    let s = c.get_stats();
    assert_eq!(s.total_entries, 0);
    assert_eq!(s.hits, 1);
}

#[test]
fn freshness_and_wrapping() {
    assert!(fresh(0, 99, 100));
    assert!(!fresh(0, 100, 100));
    assert!(fresh(i64::MAX, i64::MIN, 1));
    assert_eq!(wrapping_inc(5), 6);
    assert_eq!(wrapping_inc(u64::MAX), 0);
}

#[test]
fn lane_put_get_and_index() {
    let mut c = TollLaneCache::with_config(1000, 10);
    c.put_at(lane(11, 1, 101), 0);
    c.put_at(lane(12, 1, 102), 0);
    c.put_at(lane(21, 2, 201), 0);
    assert_eq!(c.get_at(12, 1).unwrap().lane_code, 102);
    let l1 = c.get_by_toll_id_at(1, 1);
    assert_eq!(l1.iter().map(|l| l.toll_lane_id).collect::<Vec<_>>(), vec![11, 12]);
    assert!(c.get_by_toll_id_at(3, 1).is_empty());
}

#[test]
fn lane_repeated_store_lists_once() {
    let mut c = TollLaneCache::with_config(1000, 10);
    c.put_at(lane(11, 1, 101), 0);
    c.put_at(lane(11, 1, 101), 0);
    let l1 = c.get_by_toll_id_at(1, 1);
    assert_eq!(l1.len(), 1);
    assert!(c.get_at(11, 1).is_some());
    let s = c.get_stats();
    assert_eq!(s.total_entries, 1);
    assert_eq!(s.hits, 2);
}

#[test]
fn lane_moved_station_leaves_old_listing() {
    let mut c = TollLaneCache::with_config(1000, 10);
    c.put_at(lane(11, 1, 101), 0);
    c.put_at(lane(12, 1, 102), 0);
    c.put_at(lane(11, 2, 101), 0);
    let under_old = c.get_by_toll_id_at(1, 1);
    assert_eq!(under_old.len(), 1);
    assert_eq!(under_old[0].toll_lane_id, 12);
    let under_new = c.get_by_toll_id_at(2, 1);
    assert_eq!(under_new.len(), 1);
    assert_eq!(under_new[0].toll_id, 2);
}

#[test]
fn lane_expired_listing_is_dropped() {
    let mut c = TollLaneCache::with_config(100, 10);
    c.put_at(lane(11, 1, 101), 0);
    c.put_at(lane(12, 1, 102), 60);
    let l = c.get_by_toll_id_at(1, 120);
    assert_eq!(l.len(), 1);
    assert_eq!(l[0].toll_lane_id, 12);
    assert_eq!(c.get_stats().total_entries, 1);
    c.put_at(lane(12, 1, 102), 200);
    assert_eq!(c.get_by_toll_id_at(1, 201).len(), 1);
}

#[test]
fn lane_remove_unlists() {
    let mut c = TollLaneCache::new();
    c.put_at(lane(11, 1, 101), 0);
    assert!(c.remove(11));
    assert!(!c.remove(11));
    assert!(c.get_by_toll_id_at(1, 0).is_empty());
    assert!(c.get_at(11, 0).is_none());
}

#[test]
fn lane_eviction_by_last_read() {
    let mut c = TollLaneCache::with_config(1_000_000, 2);
    c.put_at(lane(1, 1, 1), 10);
    c.put_at(lane(2, 1, 2), 20);
    c.get_at(1, 30);
    c.put_at(lane(3, 1, 3), 40);
    assert_eq!(c.get_stats().evictions, 1);
    let ids: Vec<i32> = c.get_by_toll_id_at(1, 50).iter().map(|l| l.toll_lane_id).collect();
    assert_eq!(ids, vec![1, 3]);
}

#[test]
fn lane_cleanup_and_replace() {
    let mut c = TollLaneCache::with_config(100, 10);
    c.put_at(lane(1, 1, 1), 0);
    c.put_at(lane(2, 2, 2), 90);
    assert_eq!(c.cleanup_expired_at(110), 1);
    assert!(c.get_by_toll_id_at(1, 110).is_empty());
    c.replace_all_at(vec![lane(5, 3, 1), lane(6, 3, 2)], 200);
    assert_eq!(c.get_stats().total_entries, 2);
    assert_eq!(c.get_by_toll_id_at(3, 201).len(), 2);
    assert!(c.get_by_toll_id_at(2, 201).is_empty());
    c.clear();
    assert_eq!(c.get_stats().total_entries, 0);
}

#[test]
fn toll_get_all_lists_each_live_toll_once() {
    let mut c = TollCache::new();
    c.put_at(toll(1, "A", "O"), 10);
    c.put_at(toll(2, "B", "O"), 10);
    c.put_at(toll(1, "A2", "C"), 11);
    let mut ids: Vec<i32> = c.get_all_at(12).iter().map(|t| t.toll_id).collect();
    ids.sort();
    assert_eq!(ids, vec![1, 2]);
}

#[test]
fn lane_lookup_lists_every_live_lane_of_station() {
    let mut c = TollLaneCache::new();
    c.put_at(lane(1, 10, 1), 5);
    c.put_at(lane(2, 10, 2), 5);
    c.put_at(lane(3, 20, 1), 5);
    c.put_at(lane(4, 10, 3), 6);
    let mut ids: Vec<i32> = c.get_by_toll_id_at(10, 7).iter().map(|l| l.toll_lane_id).collect();
    ids.sort();
    assert_eq!(ids, vec![1, 2, 4]);
}
