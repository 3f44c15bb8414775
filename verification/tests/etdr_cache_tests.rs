use etc_middleware::etdr_cache::{etdr_within_ttl_at, saturating_sub_i64, ETDRCache, EtdrCheckinSource, ETDR_TTL_MS};
use etc_middleware::etdr_types::ETDR;

fn rec(etag: &str, ticket: i64, checkin: i64) -> ETDR {
    let mut e = ETDR::new();
    e.etag_id = etag.to_string();
    e.ticket_id = ticket;
    e.checkin_datetime = checkin;
    e
}

#[test]
fn etdr_cache_defaults() {
    let c = ETDRCache::new();
    let s = c.get_stats();
    assert_eq!(s.total_entries, 0);
    assert_eq!(s.total_etags, 0);
    assert_eq!(ETDRCache::default().count(), 0);
    assert_eq!(EtdrCheckinSource::default(), EtdrCheckinSource::VetcVdtc);
}

#[test]
fn latest_is_largest_ticket() {
    let mut c = ETDRCache::new();
    c.put_at(rec("E1", 5, 100), 1);
    c.put_at(rec("E1", 9, 50), 2);
    c.put_at(rec("E1", 7, 300), 3);
    let got = c.get_latest_checkin_at(" E1\0", 4).unwrap();
    assert_eq!(got.ticket_id, 9);
    assert_eq!(c.get_stats().hits, 1);
    assert_eq!(c.etag_count(), 1);
    assert_eq!(c.count(), 3);
}

#[test]
fn latest_skips_expired_checkout() {
    let mut c = ETDRCache::new();
    let mut old = rec("E1", 9, 10);
    old.checkout_datetime = 1_000;
    c.put_at(old, 1);
    c.put_at(rec("E1", 3, 20), 1);
    let now = 1_000 + ETDR_TTL_MS + 1;
    assert_eq!(c.get_latest_checkin_at("E1", now).unwrap().ticket_id, 3);
    assert_eq!(c.get_latest_checkin_at("E1", 1_000 + ETDR_TTL_MS).unwrap().ticket_id, 9);
}

#[test]
fn latest_miss_counts() {
    let mut c = ETDRCache::new();
    assert!(c.get_latest_checkin_at("NONE", 0).is_none());
    assert_eq!(c.get_stats().misses, 1);
}

#[test]
fn without_checkout_skips_exited() {
    let mut c = ETDRCache::new();
    let mut exited = rec("E2", 9, 10);
    exited.toll_out = 4;
    c.put_at(exited, 1);
    c.put_at(rec("E2", 2, 20), 1);
    assert_eq!(c.get_latest_checkin_without_checkout_at("E2", 5).unwrap().ticket_id, 2);
    assert_eq!(c.get_latest_checkin_at("E2", 5).unwrap().ticket_id, 9);
}

#[test]
fn put_replaces_same_ticket() {
    let mut c = ETDRCache::new();
    c.put_at(rec("E3", 7, 10), 1);
    let mut again = rec("E3", 7, 11);
    again.plate = "29A".to_string();
    c.put_at(again, 2);
    assert_eq!(c.count(), 1);
    assert_eq!(c.get_by_ticket_id_at(7, 3).unwrap().plate, "29A");
}

#[test]
fn put_ticket_zero_always_inserts() {
    let mut c = ETDRCache::new();
    c.put_at(rec("E4", 0, 10), 1);
    c.put_at(rec("E4", 0, 20), 2);
    assert_eq!(c.count(), 2);
    assert_eq!(c.get_latest_checkin_at("E4", 3).unwrap().checkin_datetime, 20);
}

#[test]
fn per_etag_cap_keeps_largest_tickets() {
    let mut c = ETDRCache::with_config(2, ETDR_TTL_MS, 100);
    c.put_at(rec("E5", 1, 0), 1);
    c.put_at(rec("E5", 3, 0), 2);
    c.put_at(rec("E5", 2, 0), 3);
    assert_eq!(c.count(), 2);
    assert_eq!(c.get_stats().evictions, 1);
    assert!(c.get_by_ticket_id_at(1, 4).is_none());
    assert!(c.get_by_ticket_id_at(2, 4).is_some());
}

#[test]
fn total_cap_evicts_least_recently_read() {
    let mut c = ETDRCache::with_config(10, ETDR_TTL_MS, 2);
    c.put_at(rec("A", 1, 0), 10);
    c.put_at(rec("B", 2, 0), 20);
    c.get_by_ticket_id_at(1, 30);
    c.put_at(rec("C", 3, 0), 40);
    assert_eq!(c.count(), 2);
    assert_eq!(c.get_stats().evictions, 1);
    assert!(c.get_by_ticket_id_at(2, 50).is_none());
    assert!(c.remove_etag("A"));
    assert!(!c.remove_etag("B"));
}

#[test]
fn hub_updates_and_ref_lookup() {
    let mut c = ETDRCache::new();
    let mut e = rec("H1", 4, 1);
    e.request_id = 77;
    e.ref_trans_id = 555;
    c.put_at(e, 1);
    assert!(c.update_hub_id_by_request_id_at(77, 12, 2));
    assert!(!c.update_hub_id_by_request_id_at(78, 12, 2));
    assert_eq!(c.get_by_ref_trans_id_at(555, 3).unwrap().hub_id, Some(12));
    assert!(c.update_hub_id_by_ticket_id_at(4, 13, 4));
    assert_eq!(c.get_by_ticket_id_at(4, 5).unwrap().hub_id, Some(13));
    assert!(c.get_by_ref_trans_id_at(556, 5).is_none());
}

#[test]
fn update_etdr_applies_updater() {
    let mut c = ETDRCache::new();
    let mut e = rec("U1", 4, 1);
    e.ref_trans_id = 900;
    c.put_at(e, 1);
    let done = c.update_etdr_at("U1", 900, |mut x: ETDR| {
        x.price = 15000;
        x
    }, 2);
    assert!(done);
    assert_eq!(c.get_by_ticket_id_at(4, 3).unwrap().price, 15000);
    assert!(!c.update_etdr_at("U1", 901, |x: ETDR| x, 4));
    assert!(!c.update_etdr_at("U2", 900, |x: ETDR| x, 4));
}

#[test]
fn get_all_by_etag_valid_only() {
    let mut c = ETDRCache::new();
    let mut gone = rec("G1", 8, 1);
    gone.checkout_datetime = 1;
    c.put_at(gone, 1);
    c.put_at(rec("G1", 6, 2), 1);
    c.put_at(rec("G2", 5, 2), 1);
    let all = c.get_all_by_etag_at("G1", 2 + ETDR_TTL_MS);
    assert_eq!(all.len(), 1);
    assert_eq!(all[0].ticket_id, 6);
}

#[test]
fn cleanups_count_removed() {
    let mut c = ETDRCache::new();
    let mut gone = rec("C1", 8, 1);
    gone.checkout_datetime = 1;
    c.put_at(gone, 1);
    c.put_at(rec("C1", 6, 10), 1);
    c.put_at(rec("C2", 5, 1_000), 1);
    assert_eq!(c.cleanup_expired_at(10 + ETDR_TTL_MS), 1);
    assert_eq!(c.cleanup_no_checkout_older_than_at(500, 1_000), 1);
    assert_eq!(c.count(), 1);
    assert_eq!(c.etag_count(), 1);
}

#[test]
fn remove_by_ticket_only_first_etag() {
    let mut c = ETDRCache::new();
    c.put_at(rec("R1", 3, 1), 1);
    c.put_at(rec("R2", 3, 1), 1);
    assert!(!c.remove_by_ticket_id(0));
    assert!(c.remove_by_ticket_id(3));
    assert_eq!(c.count(), 1);
    assert!(c.remove_by_ticket_id(3));
    assert!(!c.remove_by_ticket_id(3));
}

#[test]
fn max_ticket_and_unsaved() {
    let mut c = ETDRCache::new();
    assert_eq!(c.get_max_ticket_id_at(0), None);
    let mut a = rec("M1", 10, 1);
    a.boo_ticket_id = 40;
    c.put_at(a, 1);
    let mut b = rec("M2", 20, 1);
    b.db_saved = true;
    c.put_at(b, 1);
    assert_eq!(c.get_max_ticket_id_at(5), Some(40));
    let unsaved = c.get_all_unsaved_etdrs_at(5);
    assert_eq!(unsaved.len(), 1);
    assert_eq!(unsaved[0].0, "M1");
    assert_eq!(unsaved[0].1.ticket_id, 10);
    assert_eq!(unsaved[0].2, 1);
}

#[test]
fn validity_window() {
    let mut e = ETDR::new();
    assert!(etdr_within_ttl_at(&e, i64::MAX));
    e.checkout_datetime = 100;
    assert!(etdr_within_ttl_at(&e, 100 + ETDR_TTL_MS));
    assert!(!etdr_within_ttl_at(&e, 101 + ETDR_TTL_MS));
    assert_eq!(saturating_sub_i64(i64::MIN, 1), i64::MIN);
    assert_eq!(saturating_sub_i64(i64::MAX, -1), i64::MAX);
    assert_eq!(saturating_sub_i64(5, 7), -2);
}

#[test]
fn clear_resets_counters() {
    let mut c = ETDRCache::new();
    c.put_at(rec("X", 1, 1), 1);
    c.get_latest_checkin_at("X", 1);
    c.clear();
    let s = c.get_stats();
    assert_eq!(s.total_entries, 0);
    assert_eq!(s.hits, 0);
}

#[test]
fn put_then_read_etag_keeps_one_record_per_ticket() {
    let mut c = ETDRCache::new();
    c.put_at(rec(" E9\0", 5, 100), 100);
    c.put_at(rec("E9", 9, 120), 120);
    c.put_at(rec("E8", 1, 100), 100);
    assert_eq!(c.count(), 3);
    let mut again = rec("E9", 5, 130);
    again.plate = "P".to_string();
    c.put_at(again, 130);
    assert_eq!(c.count(), 3);
    let all = c.get_all_by_etag_at("E9", 140);
    let tickets: Vec<i64> = all.iter().map(|e| e.ticket_id).collect();
    assert_eq!(tickets, vec![9, 5]);
    assert_eq!(all[1].plate, "P");
    assert_eq!(c.get_all_by_etag_at("E8", 140).len(), 1);
}

#[test]
fn stats_count_latest_reads() {
    let mut c = ETDRCache::new();
    c.put_at(rec("E1", 5, 100), 100);
    assert!(c.get_latest_checkin_at("E1", 110).is_some());
    assert!(c.get_latest_checkin_at("E2", 110).is_none());
    assert!(c.get_latest_checkin_without_checkout_at("E1", 110).is_some());
    c.put_at(rec("E1", 6, 120), 120);
    let s = c.get_stats();
    assert_eq!(s.hits, 2);
    assert_eq!(s.misses, 1);
    c.clear();
    let s = c.get_stats();
    assert_eq!((s.hits, s.misses), (0, 0));
}

#[test]
fn order_kept_across_operations() {
    let mut c = ETDRCache::new();
    c.put_at(rec("E1", 4, 100), 1);
    c.put_at(rec("E2", 8, 100), 2);
    c.put_at(rec("E1", 11, 100), 3);
    c.put_at(rec("E2", 3, 100), 4);
    c.put_at(rec("E1", 6, 100), 5);
    assert!(c.update_hub_id_by_ticket_id_at(6, 77, 6));
    assert!(c.remove_etag("E2"));
    let tickets: Vec<i64> = c.get_all_by_etag_at("E1", 7).iter().map(|e| e.ticket_id).collect();
    assert_eq!(tickets, vec![11, 6, 4]);
    assert_eq!(c.get_latest_checkin_at("E1", 8).unwrap().ticket_id, 11);
}

#[test]
fn put_same_ticket_keeps_count_and_new_record() {
    let mut c = ETDRCache::new();
    c.put_at(rec("E1", 5, 100), 1);
    c.put_at(rec("E1", 6, 100), 2);
    let mut again = rec("E1", 5, 200);
    again.hub_id = Some(3);
    c.put_at(again, 3);
    assert_eq!(c.count(), 2);
    let all = c.get_all_by_etag_at("E1", 4);
    let fives: Vec<&ETDR> = all.iter().filter(|e| e.ticket_id == 5).collect();
    assert_eq!(fives.len(), 1);
    assert_eq!(fives[0].hub_id, Some(3));
    assert_eq!(fives[0].checkin_datetime, 200);
    c.put_at(rec("E1", 7, 100), 5);
    assert_eq!(c.count(), 3);
}
