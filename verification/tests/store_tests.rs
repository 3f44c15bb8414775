use etc_middleware::boo_codec::MessageError;
use etc_middleware::etdr_cache::{ETDRCache, EtdrCheckinSource};
use etc_middleware::etdr_sync::{
    collect_unsaved_etdrs, collect_unsaved_etdrs_at, is_duplicate_error, resolve_ticket_type_from_query_resp, resolve_ticket_type_from_query_resp_at, resolve_ticket_type_i32_from_query_resp_at,
    retry_save_candidate, retry_save_plan, text_contains, RetrySavePlan,
};
use etc_middleware::etdr_types::ETDR;
use etc_middleware::fe_codec::{parse_fe_checkin, parse_fe_commit_in, parse_fe_rollback, FE_CHECKIN_LEN, FE_COMMIT_IN_LEN, FE_ROLLBACK_LEN};
use etc_middleware::log_rules::{after_write, log_file_name_for, needs_new_file, needs_size_rotation, rotated_file_name_for};
use etc_middleware::rating_detail::RatingDetail;
use etc_middleware::tcd_rules::{checkout_tcd_records, tcd_records_from_rating_details, vdtc_rating_details_to_boo};
use etc_middleware::tcoc_rules::{body_i32_field, body_text_field, effective_message_len};

fn line(boo: i32, ticket_type: &str, subscription: &str) -> RatingDetail {
    RatingDetail {
        price_id: Some(70),
        boo,
        toll_a_id: 1,
        toll_b_id: 2,
        ticket_type: ticket_type.to_string(),
        subscription_id: subscription.to_string(),
        price_ticket_type: 4,
        price_amount: 15000,
        vehicle_type: 2,
        bot_id: None,
        stage_id: Some(9),
    }
}

fn rec(etag: &str, ticket: i64, checkin: i64, ticket_type: i32) -> ETDR {
    let mut e = ETDR::new();
    e.etag_id = etag.to_string();
    e.ticket_id = ticket;
    e.checkin_datetime = checkin;
    e.ticket_type = ticket_type;
    e
}

#[test]
fn tcd_rows_per_fee_line() {
    let lines = vec![line(1, " T\0", "  "), line(2, "", "SUB1")];
    let when = Some("2024-01-01 00:00:00".to_string());
    let rows = tcd_records_from_rating_details(&lines, 500, 3, &when);
    assert_eq!(rows.len(), 2);
    assert_eq!(rows[0].transport_stage_tcd_id, 0);
    assert_eq!(rows[0].transport_trans_id, 500);
    assert_eq!(rows[0].boo, 1);
    assert_eq!(rows[0].bot_id, Some(0));
    assert_eq!(rows[0].ticket_type.as_deref(), Some("T"));
    assert_eq!(rows[0].price_ticket_type.as_deref(), Some("4"));
    assert_eq!(rows[0].price_amount, Some(15000));
    assert_eq!(rows[0].subscription_id, None);
    assert_eq!(rows[0].stage_id, Some(9));
    assert_eq!(rows[0].checkin_datetime, when);
    assert_eq!(rows[1].ticket_type.as_deref(), Some("Q"));
    assert_eq!(rows[1].subscription_id.as_deref(), Some("SUB1"));
}

#[test]
fn tcd_summary_row_without_fee_lines() {
    let rows = checkout_tcd_records(&[], 600, 10, 20, 2, 5, 8000, "x", &None);
    assert_eq!(rows.len(), 1);
    let t = &rows[0];
    assert_eq!(t.boo, 3);
    assert_eq!(t.toll_a_id, Some(10));
    assert_eq!(t.toll_b_id, Some(20));
    assert_eq!(t.ticket_type.as_deref(), Some("T"));
    assert_eq!(t.price_ticket_type.as_deref(), Some("5"));
    assert_eq!(t.price_amount, Some(8000));
    assert_eq!(t.vehicle_type, Some(1));
    assert_eq!(t.bot_id, None);
    let rows2 = checkout_tcd_records(&[line(1, "L", "")], 600, 10, 20, 2, 5, 8000, "7", &None);
    assert_eq!(rows2.len(), 1);
    assert_eq!(rows2[0].boo, 1);
    let rows3 = checkout_tcd_records(&[], 600, 10, 20, 2, 5, 8000, "7", &None);
    assert_eq!(rows3[0].vehicle_type, Some(7));
}

#[test]
fn fee_lines_kept_with_record() {
    let out = vdtc_rating_details_to_boo(&[line(1, "L\0\0", " S1\0"), line(2, "T", "   ")]);
    assert_eq!(out.len(), 2);
    assert_eq!(out[0].ticket_type, "L");
    assert_eq!(out[0].subscription_id.as_deref(), Some(" S1"));
    assert_eq!(out[0].price_id, Some(70));
    assert_eq!(out[1].subscription_id, None);
    assert_eq!(out[1].boo, 2);
}

#[test]
fn ticket_type_completed_from_cache() {
    let mut c = ETDRCache::new();
    c.put_at(rec("E1", 5, 100, 3), 100);
    let src = EtdrCheckinSource::VetcVdtc;
    assert_eq!(resolve_ticket_type_from_query_resp_at("", "E1", src, &mut c, 200), "Q");
    assert_eq!(resolve_ticket_type_from_query_resp_at("0", "E9", src, &mut c, 200), "L");
    assert_eq!(resolve_ticket_type_from_query_resp_at(" N ", "E1", src, &mut c, 200), "N");
    assert_eq!(resolve_ticket_type_from_query_resp_at("Z", "E1", src, &mut c, 200), "L");
    assert_eq!(resolve_ticket_type_i32_from_query_resp_at("", "E1", src, &mut c, 200), 3);
    assert_eq!(resolve_ticket_type_i32_from_query_resp_at("", "E9", src, &mut c, 200), 0);
    assert_eq!(resolve_ticket_type_i32_from_query_resp_at("T", "E1", src, &mut c, 200), 2);
}

#[test]
fn unsaved_records_collected_after_stored_ones() {
    let mut c = ETDRCache::new();
    let mut saved = rec(" A ", 1, 100, 1);
    saved.db_saved = true;
    c.put_at(saved, 100);
    c.put_at(rec(" B ", 2, 100, 1), 100);
    let keydb = vec![("etdr:X".to_string(), rec("X", 9, 1, 1))];
    let out = collect_unsaved_etdrs_at(keydb, &c, 200);
    assert_eq!(out.len(), 2);
    assert_eq!(out[0].0, "etdr:X");
    assert_eq!(out[1].0, "etdr:B");
    assert_eq!(out[1].1.ticket_id, 2);
}

#[test]
fn retry_candidates_and_plans() {
    let mut e = rec(" E ", 4, 1, 1);
    e.station_id = 1;
    e.lane_id = 2;
    e.etag_number = " N1 ".to_string();
    let c = retry_save_candidate(e).unwrap();
    assert_eq!(c.etag_id, "E");
    assert_eq!(c.etag_number, "N1");
    let mut missing_lane = rec("E", 4, 1, 1);
    missing_lane.station_id = 1;
    missing_lane.etag_number = "N".to_string();
    assert!(retry_save_candidate(missing_lane).is_none());
    let mut blank = rec("E", 4, 1, 1);
    blank.station_id = 1;
    blank.lane_id = 1;
    blank.etag_number = "  ".to_string();
    assert!(retry_save_candidate(blank).is_none());
    assert_eq!(retry_save_plan(true, Some(3), true), RetrySavePlan::UpdateByTicket);
    assert_eq!(retry_save_plan(false, Some(3), true), RetrySavePlan::UpdateByTicketIn { ticket_in_id: 3 });
    assert_eq!(retry_save_plan(false, Some(3), false), RetrySavePlan::SkipOtherNode);
    assert_eq!(retry_save_plan(false, Some(0), false), RetrySavePlan::Insert);
    assert_eq!(retry_save_plan(false, None, true), RetrySavePlan::Insert);
}

#[test]
fn duplicate_errors() {
    assert!(text_contains("abcde", "cd"));
    assert!(text_contains("abc", ""));
    assert!(!text_contains("ab", "abc"));
    assert!(is_duplicate_error("ORA-00001: unique constraint violated"));
    assert!(is_duplicate_error("row already exists"));
    assert!(is_duplicate_error("duplicate key"));
    assert!(!is_duplicate_error("connection reset"));
    assert!(!is_duplicate_error("Duplicate key"));
}

fn put_i32(b: &mut [u8], off: usize, x: i32) {
    b[off..off + 4].copy_from_slice(&x.to_le_bytes());
}

fn put_i64(b: &mut [u8], off: usize, x: i64) {
    b[off..off + 8].copy_from_slice(&x.to_le_bytes());
}

#[test]
fn lane_requests_parsed() {
    assert_eq!(
        parse_fe_checkin(0, 0, &[0u8; 10]).unwrap_err(),
        MessageError::TooShort { len: 10, need: FE_CHECKIN_LEN }
    );
    let mut d = vec![0u8; FE_CHECKIN_LEN];
    put_i64(&mut d, 8, 31);
    put_i64(&mut d, 16, 32);
    d[24..27].copy_from_slice(b"TAG");
    put_i32(&mut d, 48, 101);
    put_i32(&mut d, 52, 4);
    d[56..59].copy_from_slice(b"51A");
    let c = parse_fe_checkin(106, 3, &d).unwrap();
    assert_eq!(c.message_length, 106);
    assert_eq!(c.command_id, 3);
    assert_eq!(c.request_id, 31);
    assert_eq!(c.session_id, 32);
    assert_eq!(c.etag.len(), 24);
    assert!(c.etag.starts_with("TAG\0"));
    assert_eq!(c.station, 101);
    assert_eq!(c.lane, 4);
    assert!(c.plate.starts_with("51A"));

    assert!(parse_fe_commit_in(0, 0, &[0u8; FE_COMMIT_IN_LEN - 1]).is_err());
    let mut m = vec![0u8; FE_COMMIT_IN_LEN];
    put_i64(&mut m, 56, 777);
    put_i32(&mut m, 78, 2);
    put_i32(&mut m, 90, 1500);
    put_i32(&mut m, 94, 6);
    let k = parse_fe_commit_in(98, 6, &m).unwrap();
    assert_eq!(k.ticket_id, 777);
    assert_eq!(k.image_count, 2);
    assert_eq!(k.weight, 1500);
    assert_eq!(k.reason_id, 6);

    assert_eq!(
        parse_fe_rollback(0, 0, &[0u8; 5]).unwrap_err(),
        MessageError::TooShort { len: 5, need: FE_ROLLBACK_LEN }
    );
    let mut r = vec![0u8; FE_ROLLBACK_LEN];
    put_i32(&mut r, 82, 900);
    put_i32(&mut r, 86, 12);
    let b = parse_fe_rollback(90, 7, &r).unwrap();
    assert_eq!(b.weight, 900);
    assert_eq!(b.reason_id, 12);
}

#[test]
fn request_body_fields() {
    assert_eq!(effective_message_len(0, 50), 50);
    assert_eq!(effective_message_len(60, 50), 50);
    assert_eq!(effective_message_len(40, 50), 40);
    let mut d = vec![0u8; 40];
    put_i32(&mut d, 30, -5);
    d[10..13].copy_from_slice(b"abc");
    assert_eq!(body_i32_field(&d, 30, 34), Some(-5));
    assert_eq!(body_i32_field(&d, 38, 42), None);
    assert_eq!(body_i32_field(&d, 0, 0), None);
    assert_eq!(body_text_field(&d, 10, 16).as_deref(), Some("abc"));
    assert_eq!(body_text_field(&d, 10, 41), None);
}

#[test]
fn log_writer_rules() {
    assert!(needs_new_file(false, "2024-01-01", "2024-01-01"));
    assert!(needs_new_file(true, "2024-01-01", "2024-01-02"));
    assert!(!needs_new_file(true, "2024-01-02", "2024-01-02"));
    assert!(!needs_size_rotation(0, "2024-01-01", Some(100)));
    assert!(!needs_size_rotation(10, "", Some(100)));
    assert!(!needs_size_rotation(10, "d", None));
    assert!(needs_size_rotation(10, "d", Some(10)));
    assert!(!needs_size_rotation(10, "d", Some(9)));
    assert_eq!(after_write(100, 50), (150, false));
    assert_eq!(after_write(65_000, 536), (0, true));
    assert_eq!(log_file_name_for("rct", "vetc-info"), "rct-vetc-info.log");
    assert_eq!(rotated_file_name_for("rct", "vetc", "18-32-44-123"), "rct-vetc-18-32-44-123.log");
}

#[test]
fn cache_reads_now() {
    let mut c = ETDRCache::new();
    c.put(rec("E5", 77, 1, 4));
    assert_eq!(resolve_ticket_type_from_query_resp(" ", "E5", EtdrCheckinSource::VetcVdtc, &mut c), "N");
    let out = collect_unsaved_etdrs(Vec::new(), &c);
    assert_eq!(out.len(), 1);
    assert_eq!(out[0].0, "etdr:E5");
}
