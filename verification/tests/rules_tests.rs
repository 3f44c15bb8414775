use etc_middleware::checkin_rules::{
    default_price_ticket_type, ensure_fe_resp_plate, get_mdh_id_from_checkin, get_price_ticket_type_from_rating_detail,
    is_etdr_invalid_for_checkout, is_etdr_invalid_for_commit_in, is_etdr_invalid_for_commit_out, lane_type_protocol_io,
    merge_latest_checkin_etdr, plate_empty_sentinel, price_ticket_type_for_etdr_from_rating_details,
    ticket_type_for_checkout_resp, ticket_type_from_query_only_for_checkin_resp, ticket_type_i32_to_str, ticket_type_str_to_i32,
    trimmed_plate_or_sentinel,
};
use etc_middleware::checkout_rules::{
    bect_account_check, checkin_plate, checkin_vehicle_type, checkout_marks, checkout_plate_for_db, checkout_resp_plate,
    fill_fe_resp_from_etdr_checkout, is_bect_checkout_invalid, normalize_station_type, resolve_toll_type_for_etdr_at,
    toll_type_from_checkin_toll_id_at, BectAccountCheck,
};
use etc_middleware::connect_rules::{connect_session, decide_connect, decide_connect_with_hash, hash_password, ConnectDecision, ConnectUserLookup};
use etc_middleware::etdr_types::ETDR;
use etc_middleware::kafka_payload::{
    build_checkin_payload_from_etdr, build_checkout_payload_from_etdr, CheckinPayloadOverrides, CheckoutPayloadOverrides,
};
use etc_middleware::log_rules::{log_entry_action, logging_config_from_settings, node_id_from, CleanupConfig, LogEntryAction, LoggingConfig, SanitizeWriter};
use etc_middleware::numtext::{i32_to_string, i64_to_string, parse_i32_or};
use etc_middleware::process_type::ProcessType;
use etc_middleware::tcoc_messages::{FE_CHECKIN, FE_CHECKIN_IN_RESP};
use etc_middleware::tcoc_rules::{response_status_text, response_toll_ids};
use etc_middleware::text::{is_blank, normalize_etag, trim_end_nul_str, trim_str};
use etc_middleware::toll_cache::TollCache;
use etc_middleware::toll_types::TOLL;

fn toll(id: i32, toll_type: &str) -> TOLL {
    TOLL { toll_id: id, toll_code: format!("C{}", id), toll_name: String::new(), toll_type: toll_type.to_string(), ..Default::default() }
}

#[test]
fn text_forms() {
    assert_eq!(trim_str("  a b \t"), "a b");
    assert_eq!(trim_end_nul_str("ab\0\0"), "ab");
    assert_eq!(normalize_etag(" E1 \0\0"), "E1");
    assert_eq!(normalize_etag(&normalize_etag(" x\0")), "x");
    assert!(is_blank(" \t\n"));
    assert!(!is_blank(" a"));
}

#[test]
fn numbers_as_text() {
    assert_eq!(response_status_text(Some(-120)), "-120");
    assert_eq!(response_status_text(Some(0)), "0");
    assert_eq!(parse_i32_or("42", 1), 42);
    assert_eq!(parse_i32_or("-2147483648", 1), i32::MIN);
    assert_eq!(parse_i32_or("2147483648", 1), 1);
    assert_eq!(parse_i32_or("7z", 1), 1);
    assert_eq!(parse_i32_or("3", 1), 3);
}

#[test]
fn plate_sentinel_fallback() {
    assert_eq!(plate_empty_sentinel(), "NOPLATE");
    assert_eq!(trimmed_plate_or_sentinel("  51A "), "51A");
    assert_eq!(trimmed_plate_or_sentinel("   "), "NOPLATE");
    let mut r = FE_CHECKIN_IN_RESP { plate: " ".to_string(), status: 3, ..Default::default() };
    ensure_fe_resp_plate(&mut r, " 29C ");
    assert_eq!(r.plate, "29C");
    assert_eq!(r.status, 3);
    let mut k = FE_CHECKIN_IN_RESP { plate: "KEEP".to_string(), ..Default::default() };
    ensure_fe_resp_plate(&mut k, "X");
    assert_eq!(k.plate, "KEEP");
}

#[test]
fn ticket_type_codes() {
    assert_eq!(ticket_type_str_to_i32(" T "), 2);
    assert_eq!(ticket_type_str_to_i32("Z"), 0);
    assert_eq!(ticket_type_i32_to_str(4), "N");
    assert_eq!(ticket_type_i32_to_str(9), "L");
    for n in 1..=4 {
        assert_eq!(ticket_type_str_to_i32(&ticket_type_i32_to_str(n)), n);
    }
    assert_eq!(default_price_ticket_type(), 0);
    assert_eq!(ticket_type_for_checkout_resp(0), 1);
    assert_eq!(ticket_type_for_checkout_resp(3), 3);
    assert_eq!(ticket_type_from_query_only_for_checkin_resp(""), 1);
    assert_eq!(ticket_type_from_query_only_for_checkin_resp("0"), 1);
    assert_eq!(ticket_type_from_query_only_for_checkin_resp("X"), 1);
    assert_eq!(ticket_type_from_query_only_for_checkin_resp("Q"), 3);
    assert_eq!(get_price_ticket_type_from_rating_detail(-5), Some("-5".to_string()));
    assert_eq!(price_ticket_type_for_etdr_from_rating_details(&[0, -1, 6, 2], 9), 6);
    assert_eq!(price_ticket_type_for_etdr_from_rating_details(&[0, -1], 9), 9);
}

#[test]
fn record_validity() {
    let mut e = ETDR::new();
    assert!(is_etdr_invalid_for_checkout(&e));
    e.checkin_datetime = 5;
    assert!(!is_etdr_invalid_for_checkout(&e));
    e.station_id = 10;
    assert!(!is_etdr_invalid_for_commit_in(&e, 10));
    assert!(is_etdr_invalid_for_commit_in(&e, 11));
    e.checkout_datetime = 6;
    e.toll_out = 20;
    assert!(is_etdr_invalid_for_checkout(&e));
    assert!(!is_etdr_invalid_for_commit_out(&e, 20));
    assert!(is_etdr_invalid_for_commit_out(&e, 21));
    e.checkout_commit_datetime = 7;
    assert!(is_etdr_invalid_for_commit_out(&e, 20));
}

#[test]
fn bect_checkout_validity() {
    let mut e = ETDR::new();
    e.checkin_datetime = 1;
    assert!(is_bect_checkout_invalid(&e));
    e.checkin_commit_datetime = 2;
    assert!(!is_bect_checkout_invalid(&e));
    e.toll_out = 1;
    assert!(is_bect_checkout_invalid(&e));
}

#[test]
fn lane_and_mdh() {
    assert_eq!(lane_type_protocol_io(" 1 "), "I");
    assert_eq!(lane_type_protocol_io("2"), "O");
    let f = FE_CHECKIN { request_id: 31, ..Default::default() };
    assert_eq!(get_mdh_id_from_checkin(&f), Some(31));
}

#[test]
fn latest_checkin_choice() {
    let mut a = ETDR::new();
    a.checkin_datetime = 10;
    a.ticket_id = 1;
    let mut b = ETDR::new();
    b.checkin_datetime = 10;
    b.ticket_id = 2;
    assert_eq!(merge_latest_checkin_etdr(Some(a), Some(b)).unwrap().ticket_id, 2);
    let mut c = ETDR::new();
    c.checkin_datetime = 11;
    c.ticket_id = 3;
    let mut d = ETDR::new();
    d.checkin_datetime = 10;
    d.ticket_id = 4;
    assert_eq!(merge_latest_checkin_etdr(Some(c), Some(d)).unwrap().ticket_id, 3);
    assert!(merge_latest_checkin_etdr(None, None).is_none());
}

#[test]
fn station_type_forms() {
    assert_eq!(normalize_station_type(" o "), "O");
    assert_eq!(normalize_station_type("  "), "C");
    assert_eq!(normalize_station_type("closed"), "C");
}

#[test]
fn toll_type_resolution_order() {
    let mut c = TollCache::with_config(1000, 10);
    c.put_at(toll(5, "o"), 0);
    c.put_at(toll(6, "C"), 0);
    assert_eq!(toll_type_from_checkin_toll_id_at(Some(5), &mut c, 10), "O");
    assert_eq!(toll_type_from_checkin_toll_id_at(Some(99), &mut c, 10), "C");
    assert_eq!(toll_type_from_checkin_toll_id_at(None, &mut c, 10), "C");
    let explicit = " x".to_string();
    assert_eq!(resolve_toll_type_for_etdr_at(Some(&explicit), Some(6), None, &mut c, 10), "X");
    assert_eq!(resolve_toll_type_for_etdr_at(None, Some(99), Some(5), &mut c, 10), "O");
    assert_eq!(resolve_toll_type_for_etdr_at(None, None, None, &mut c, 10), "C");
    assert_eq!(resolve_toll_type_for_etdr_at(None, Some(5), None, &mut c, 5000), "C");
}

#[test]
fn checkout_reply_from_record() {
    let mut e = ETDR::new();
    e.station_id = 7;
    e.lane_id = 8;
    e.ticket_id = 9;
    e.ticket_type = 0;
    e.plate = "  ".to_string();
    e.vehicle_type = "x".to_string();
    e.price_ticket_type = 0;
    let mut r = FE_CHECKIN_IN_RESP { price: 500, status: 1, ..Default::default() };
    fill_fe_resp_from_etdr_checkout(&mut r, &e, " 30K ");
    assert_eq!(r.station, 7);
    assert_eq!(r.lane, 8);
    assert_eq!(r.ticket_id, 9);
    assert_eq!(r.ticket_type, 1);
    assert_eq!(r.plate, "30K");
    assert_eq!(r.vehicle_type, 1);
    assert_eq!(r.price, 0);
    assert_eq!(r.price_ticket_type, 1);
    assert_eq!(r.status, 1);
}

#[test]
fn checkout_plates() {
    assert_eq!(checkout_resp_plate(" E ", Some("S"), "F"), " E ");
    assert_eq!(checkout_resp_plate("", Some(" S "), "F"), "S");
    assert_eq!(checkout_resp_plate("", Some(" "), " F "), "F");
    assert_eq!(checkout_resp_plate("", None, ""), "NOPLATE");
    assert_eq!(checkout_plate_for_db("", " E "), "E");
    assert_eq!(checkout_plate_for_db(" ", "E"), "NOPLATE");
    assert_eq!(checkout_plate_for_db("F", "E"), "F");
    assert_eq!(checkin_plate(Some(" S "), "F"), " S ");
    assert_eq!(checkin_plate(None, " "), "NOPLATE");
    assert_eq!(checkin_vehicle_type(Some("4"), Some(" ")), "4");
    assert_eq!(checkin_vehicle_type(Some("4"), Some("2")), "2");
    assert_eq!(checkin_vehicle_type(None, None), "1");
}

#[test]
fn account_check_and_marks() {
    assert_eq!(bect_account_check(true, None), BectAccountCheck::Passed);
    assert_eq!(bect_account_check(false, None), BectAccountCheck::SubscriberNotFound);
    assert_eq!(bect_account_check(false, Some(0)), BectAccountCheck::AccountNotActive);
    assert_eq!(bect_account_check(false, Some(3)), BectAccountCheck::Passed);
    let ok = checkout_marks(0, 0);
    assert_eq!(ok.charge_status, "PENDING");
    assert_eq!(ok.checkout_plate_status, "1");
    assert_eq!(ok.checkout_pass, "P");
    assert_eq!(ok.checkout_pass_reason_id, None);
    assert_eq!(ok.status, "1");
    let bad = checkout_marks(12, 4);
    assert_eq!(bad.charge_status, "FALL");
    assert_eq!(bad.checkout_pass, "F");
    assert_eq!(bad.checkout_pass_reason_id.as_deref(), Some("RT-12"));
    assert_eq!(bad.status, "0");
}

#[test]
fn password_hash_is_base64_sha1() {
    assert_eq!(hash_password("abc"), "qZk+NkcGgWq6PiVxeFDCbJzQ2J0=");
    assert_eq!(hash_password(" abc\0\0"), "qZk+NkcGgWq6PiVxeFDCbJzQ2J0=");
    assert_eq!(hash_password(""), "2jmj7l5rSw0yVb/vlWAYkK/YBwk=");
}

#[test]
fn connect_outcomes() {
    let found = |status: Option<&str>, pw: &str| {
        Some(ConnectUserLookup::Found { user_id: 8, status: status.map(|s| s.to_string()), password: pw.to_string() })
    };
    assert_eq!(decide_connect(true, &None, "x"), ConnectDecision::Accept { user_id: None });
    assert_eq!(decide_connect(false, &Some(ConnectUserLookup::NotFound), "x"), ConnectDecision::UserNotFound);
    assert_eq!(decide_connect(false, &Some(ConnectUserLookup::Failed), "x"), ConnectDecision::LookupFailed);
    assert_eq!(decide_connect(false, &None, "x"), ConnectDecision::LookupFailed);
    assert_eq!(decide_connect(false, &found(Some("0"), "h"), "abc"), ConnectDecision::AccountNotActivated { user_id: 8 });
    assert_eq!(decide_connect(false, &found(None, "h"), "abc"), ConnectDecision::AccountNotActivated { user_id: 8 });
    assert_eq!(decide_connect(false, &found(Some("1"), "wrong"), "abc"), ConnectDecision::InvalidPassword { user_id: 8 });
    assert_eq!(
        decide_connect(false, &found(Some("1"), "qZk+NkcGgWq6PiVxeFDCbJzQ2J0="), "abc"),
        ConnectDecision::Accept { user_id: Some(8) }
    );
    assert_eq!(decide_connect_with_hash(false, &found(Some("1"), "h"), "h"), ConnectDecision::Accept { user_id: Some(8) });
    assert_eq!(ConnectDecision::UserNotFound.description(), "CONNECT user not found");
    assert_eq!(ConnectDecision::Accept { user_id: None }.description(), "FE_CONNECT");
}

#[test]
fn reply_record_fields() {
    assert_eq!(response_toll_ids(Some("I"), Some(5), Some(9)), (Some(5), None));
    assert_eq!(response_toll_ids(Some("O"), Some(5), Some(9)), (Some(9), Some(5)));
    assert_eq!(response_toll_ids(Some("X"), Some(5), Some(9)), (None, None));
    assert_eq!(response_toll_ids(None, Some(5), Some(9)), (None, None));
    assert_eq!(response_status_text(Some(-3)), "-3");
    assert_eq!(response_status_text(None), "0");
}

#[test]
fn process_type_names() {
    assert_eq!(ProcessType::from_boo_type(1), ProcessType::VETC);
    assert_eq!(ProcessType::from_boo_type(2), ProcessType::VDTC);
    assert_eq!(ProcessType::from_boo_type(0), ProcessType::BETC);
    assert_eq!(ProcessType::VDTC.as_str(), "vdtc");
    assert_eq!(ProcessType::Local.as_str_upper(), "LOCAL");
    assert_eq!(ProcessType::all_data_process_types(), vec![ProcessType::VETC, ProcessType::VDTC, ProcessType::BETC]);
    assert_eq!(ProcessType::all().len(), 4);
    assert_eq!(ProcessType::all()[3], ProcessType::Local);
}

#[test]
fn logging_defaults_and_settings() {
    let d = LoggingConfig::default();
    assert_eq!(d.log_dir, "./logs");
    assert_eq!(d.log_file_name, "rct");
    assert_eq!(d.max_file_size, 5 * 1024 * 1024);
    assert_eq!(d.retention_days, 7);
    assert_eq!(d.log_level, "info");
    assert!(!d.enable_debug_file);
    let c = CleanupConfig::default();
    assert_eq!(c.cleanup_interval_seconds, 3600);
    assert_eq!(c.statistics_retention_days, Some(30));
    let s = logging_config_from_settings(
        Some("/var/log".to_string()),
        None,
        Some("1024".to_string()),
        Some("x".to_string()),
        Some("debug".to_string()),
        Some(" TRUE ".to_string()),
    );
    assert_eq!(s.log_dir, "/var/log");
    assert_eq!(s.log_file_name, "rct");
    assert_eq!(s.max_file_size, 1024);
    assert_eq!(s.retention_days, 7);
    assert_eq!(s.log_level, "debug");
    assert!(!s.enable_debug_file);
    let on = logging_config_from_settings(None, None, None, None, None, Some(" yes ".to_string()));
    assert!(on.enable_debug_file);
}

#[test]
fn node_ids() {
    assert_eq!(node_id_from(Some("n1".to_string())), "n1");
    let a = node_id_from(Some(String::new()));
    assert_eq!(a.len(), 6);
    assert!(a.chars().all(|c| c.is_ascii_hexdigit() && !c.is_ascii_uppercase()));
    assert_eq!(node_id_from(None).len(), 6);
}

#[test]
fn sanitize_bytes() {
    assert_eq!(SanitizeWriter::<Vec<u8>>::sanitize(b"a\0b\x01\tc\n"), b"a\\0b.\tc\n".to_vec());
    assert!(SanitizeWriter::<Vec<u8>>::has_bad_bytes(b"x\x1f"));
    assert!(!SanitizeWriter::<Vec<u8>>::has_bad_bytes(b"x\x7f"));
    assert!(!SanitizeWriter::<Vec<u8>>::has_bad_bytes(b"plain\r\n"));
    let clean = b"ok\tline\n".to_vec();
    assert_eq!(SanitizeWriter::<Vec<u8>>::sanitize(&clean), clean);
    let mut w = SanitizeWriter::new(Vec::<u8>::new());
    w.get_inner_mut().push(1);
    assert_eq!(w.get_inner_mut().len(), 1);
}

#[test]
fn log_cleanup_actions() {
    assert_eq!(log_entry_action(true, false, "statistics", "2024-01-10", Some(99), "rct", None, 0), LogEntryAction::CleanStatistics(99));
    assert_eq!(log_entry_action(true, false, "statistics", "2024-01-10", None, "rct", None, 0), LogEntryAction::Keep);
    assert_eq!(log_entry_action(true, false, "2024-01-09", "2024-01-10", None, "rct", None, 0), LogEntryAction::RemoveDir);
    assert_eq!(log_entry_action(true, false, "2024-01-10", "2024-01-10", None, "rct", None, 0), LogEntryAction::Keep);
    assert_eq!(log_entry_action(true, false, "other", "2024-01-10", None, "rct", None, 0), LogEntryAction::Keep);
    assert_eq!(log_entry_action(false, true, "rct.log.1", "", None, "rct", Some(5), 10), LogEntryAction::RemoveFile);
    assert_eq!(log_entry_action(false, true, "rct.log.1", "", None, "rct", Some(15), 10), LogEntryAction::Keep);
    assert_eq!(log_entry_action(false, true, "x.log", "", None, "rct", Some(5), 10), LogEntryAction::Keep);
    assert_eq!(log_entry_action(false, true, "rct.log", "", None, "rct", None, 10), LogEntryAction::Keep);
}

#[test]
fn kafka_checkin_payload() {
    let mut e = ETDR::new();
    e.request_id = 1;
    e.t_id = " T1\0".to_string();
    e.ticket_id = 50;
    e.ref_trans_id = 70;
    e.ticket_eTag_id = None;
    e.etag_number = "EN".to_string();
    e.plate = "P".to_string();
    e.station_id = 3;
    e.seat_num = Some(4);
    e.vehicle_type = "2".to_string();
    let p = build_checkin_payload_from_etdr(&e, CheckinPayloadOverrides::default());
    assert_eq!(p.request_id, 1);
    assert_eq!(p.tid, "T1");
    assert_eq!(p.ticket_in_id, 50);
    assert_eq!(p.ticket_eTag_id, 70);
    assert_eq!(p.etag, "EN");
    assert_eq!(p.seat, 4);
    assert_eq!(p.weight_goods, 0);
    assert_eq!(p.vehicle_type, 2);
    let o = CheckinPayloadOverrides { plate: Some("OV".to_string()), station_in: Some(9), ..Default::default() };
    let q = build_checkin_payload_from_etdr(&e, o);
    assert_eq!(q.plate, "OV");
    assert_eq!(q.station_in, 9);
}

#[test]
fn kafka_checkout_payload() {
    let mut e = ETDR::new();
    e.ticket_id = 50;
    e.toll_out = 12;
    e.price = 3000;
    e.vehicle_type = "bad".to_string();
    let p = build_checkout_payload_from_etdr(&e, CheckoutPayloadOverrides::default());
    assert_eq!(p.ticket_in_id, 50);
    assert_eq!(p.station_out, 12);
    assert_eq!(p.vehicle_type, 1);
    let o = CheckoutPayloadOverrides { trans_amount: Some(10), status: Some(2), ..Default::default() };
    let q = build_checkout_payload_from_etdr(&e, o);
    assert_eq!(q.trans_amount, 10);
    assert_eq!(q.status, 2);
}

#[test]
fn connect_session_rows() {
    let ok = connect_session(&ConnectDecision::Accept { user_id: Some(3) }, 900, "2024-01-01 00:00:00", Some("10.0.0.1"), " fe1\0");
    assert_eq!(ok.session_id, 900);
    assert_eq!(ok.user_id, Some(3));
    assert_eq!(ok.logout_datetime, None);
    assert_eq!(ok.valid_code.as_deref(), Some("VALID"));
    assert_eq!(ok.status.as_deref(), Some("ACTIVE"));
    assert_eq!(ok.description.as_deref(), Some("FE_CONNECT"));
    assert_eq!(ok.user_name.as_deref(), Some("fe1"));
    assert_eq!(ok.ip_address.as_deref(), Some("10.0.0.1"));
    assert_eq!(ok.toll_id, Some(0));
    assert_eq!(ok.server_id, Some(1));
    let bad = connect_session(&ConnectDecision::InvalidPassword { user_id: 4 }, 901, "T", None, "u");
    assert_eq!(bad.user_id, Some(4));
    assert_eq!(bad.logout_datetime.as_deref(), Some("T"));
    assert_eq!(bad.valid_code.as_deref(), Some("INVALID"));
    assert_eq!(bad.status.as_deref(), Some("FAILED"));
    assert_eq!(bad.description.as_deref(), Some("CONNECT invalid password"));
    assert_eq!(bad.ip_address, None);
    let missing = connect_session(&ConnectDecision::UserNotFound, 902, "T", None, "u");
    assert_eq!(missing.user_id, None);
}

#[test]
fn integer_texts_match_std() {
    for x in [0i64, 7, 10, 42, -1, -90, 1234567890123, i64::MAX, i64::MIN] {
        assert_eq!(i64_to_string(x), x.to_string());
    }
    for x in [0i32, 9, -10, i32::MAX, i32::MIN] {
        assert_eq!(i32_to_string(x), x.to_string());
    }
}
