use etc_middleware::etdr_types::ETDR;
use etc_middleware::rollback_boo::{build_checkin_rollback_boo_at, pad_str};
use etc_middleware::tcoc_messages::FE_ROLLBACK;

#[test]
fn pad_str_cuts_or_fills() {
    assert_eq!(pad_str("ab", 4), "ab\0\0");
    assert_eq!(pad_str("abcdef", 3), "abc");
    assert_eq!(pad_str("", 2), "\0\0");
    assert_eq!(pad_str("xyz", 3), "xyz");
    assert_eq!(pad_str("éa", 2), "é");
}

#[test]
fn rollback_message_fields() {
    let mut fe = FE_ROLLBACK::default();
    fe.request_id = 41;
    fe.station = 7;
    fe.lane = 3;
    fe.plate = "  51A12345  ".to_string();
    let mut e = ETDR::new();
    e.ticket_id = 900;
    e.ref_trans_id = 77;
    e.t_id = " T-1 ".to_string();
    e.etag_number = "E123".to_string();
    e.boo_toll_type = Some("Open".to_string());
    e.boo_lane_type = None;
    let m = build_checkin_rollback_boo_at(&fe, &e, 55, 2, 1_000);
    assert_eq!(m.message_length, 152);
    assert_eq!(m.command_id, 106);
    assert_eq!(m.version_id, 2);
    assert_eq!(m.request_id, 41);
    assert_eq!(m.session_id, 55);
    assert_eq!(m.timestamp, 1_000);
    assert_eq!(m.commit_datetime, 1_000);
    assert_eq!(m.ticket_id, 900);
    assert_eq!(m.ref_trans_id, 77);
    assert_eq!(m.tid, format!("T-1{}", "\0".repeat(21)));
    assert_eq!(m.etag.len(), 24);
    assert!(m.etag.starts_with("E123\0"));
    assert_eq!(m.station, 7);
    assert_eq!(m.lane, 3);
    assert_eq!(m.station_type, "O");
    assert_eq!(m.lane_type, "I");
    assert_eq!(m.plate_from_toll, "51A12345\0\0");
    assert_eq!(m.general1, [0u8; 8]);
    assert_eq!(m.general2, [0u8; 16]);
}
