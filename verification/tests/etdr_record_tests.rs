use etc_middleware::bect_messages::{CHECKIN_RESERVE_BOO_RESP, CHECKOUT_RESERVE_BOO, CHECKOUT_RESERVE_BOO_RESP, COMMIT_BOO_RESP, QUERY_VEHICLE_BOO_RESP};
use etc_middleware::etdr_build::compute_bect_ref_trans_id;
use etc_middleware::etdr_types::ETDR;
use etc_middleware::etdr_update::{dedupe_by_ticket_id, merge_etdr_same_ticket_id, retry_key_of};
use etc_middleware::tcoc_messages::FE_CHECKIN;
use etc_middleware::vetc_messages::{VETC_CHECKOUT_RESERVE_BOO, VETC_CHECKOUT_RESERVE_BOO_RESP, VETC_COMMIT_BOO_RESP};

fn fe(request_id: i64, etag: &str, plate: &str) -> FE_CHECKIN {
    FE_CHECKIN {
        message_length: 90,
        command_id: 0x66,
        request_id,
        session_id: 3,
        etag: etag.to_string(),
        station: 101,
        lane: 2,
        plate: plate.to_string(),
        tid: "TID-1".to_string(),
        hash_value: "hv".to_string(),
    }
}

fn rec(ticket: i64, checkin: i64) -> ETDR {
    let mut e = ETDR::new();
    e.ticket_id = ticket;
    e.checkin_datetime = checkin;
    e
}

#[test]
fn bect_ref_trans_id_keeps_last_six_digits() {
    assert_eq!(compute_bect_ref_trans_id(5, 1_234_567), 5_234_567);
    assert_eq!(compute_bect_ref_trans_id(0, 42), 42);
    assert_eq!(compute_bect_ref_trans_id(7, -1_000_001), 6_999_999);
}

#[test]
fn bect_checkin_record_fields() {
    let f = fe(12, "E-1", "51A");
    let e = ETDR::from_checkin_bect_at(&f, 3_000_123);
    assert_eq!(e.ticket_id, 12_000_123);
    assert_eq!(e.ref_trans_id, 12_000_123);
    assert_eq!(e.checkin_datetime, 3_000_123);
    assert_eq!(e.etag_id, "E-1");
    assert_eq!(e.plate, "51A");
    assert_eq!(e.vehicle_type, "1");
    assert_eq!(e.ticket_type, 1);
    assert_eq!(e.price_ticket_type, 1);
    assert_eq!(e.station_id, 101);
    assert_eq!(e.lane_id, 2);
    let now_built = ETDR::from_checkin_bect(&f).unwrap();
    assert_eq!(now_built.request_id, 12);
    assert_eq!(now_built.ticket_id / 1_000_000, 12);
}

#[test]
fn bect_checkin_refused_on_overflow() {
    let f = fe(i64::MAX, "E", "P");
    assert!(ETDR::from_checkin_bect(&f).is_none());
}

#[test]
fn operator_checkin_record_fields() {
    let f = fe(9, "E-9", "ignored");
    let resp = CHECKIN_RESERVE_BOO_RESP { status: 0, ref_trans_id: 777, ..Default::default() };
    let q = QUERY_VEHICLE_BOO_RESP {
        vehicle_type: 3,
        ticket_type: " T ".to_string(),
        register_vehicle_type: "R".to_string(),
        seat: 5,
        weight_goods: 6,
        weight_all: 7,
        plate: "29B".to_string(),
        min_balance_status: 0,
        ..Default::default()
    };
    let e = ETDR::from_checkin_vetc_at(&f, &resp, &q, 4242, 50);
    assert_eq!(e.ticket_id, 4242);
    assert_eq!(e.ticket_in_id, Some(4242));
    assert_eq!(e.ref_trans_id, 777);
    assert_eq!(e.boo_ticket_id, 777);
    assert_eq!(e.vehicle_type, "3");
    assert_eq!(e.ticket_type, 2);
    assert_eq!(e.plate, "29B");
    assert_eq!(e.seat_num, Some(5));
    assert_eq!(e.boo_lane_type.as_deref(), Some("I"));
    assert_eq!(e.boo_toll_type.as_deref(), Some("C"));
    assert!(e.enough_min_balance);
    assert_eq!(e.fe_trans_id, None);
    let e2 = ETDR::from_checkin_at(&f, &resp, &q, 4242, 50);
    assert_eq!(e2.ticket_type, e.ticket_type);
    assert_eq!(e2.checkin_datetime, 50);
    assert_eq!(e2.fe_trans_id.as_deref(), Some("9"));
}

#[test]
fn commit_sets_status_and_times() {
    let mut e = rec(1, 10);
    let resp = COMMIT_BOO_RESP { status: 4, ref_trans_id: 88, ..Default::default() };
    e.update_from_commit_at(&resp, 500);
    assert_eq!(e.status, 4);
    assert_eq!(e.ref_trans_id, 88);
    assert_eq!(e.checkin_commit_datetime, 500);
    assert_eq!(e.time_route_checkin_commit, 500);
    let mut v = rec(2, 10);
    let vr = VETC_COMMIT_BOO_RESP { status: 0, ref_trans_id: 99, ..Default::default() };
    v.update_from_commit_vetc_at(&vr, 600);
    assert_eq!(v.ref_trans_id, 99);
    assert_eq!(v.checkin_commit_datetime, 600);
}

#[test]
fn checkout_keeps_hub_unless_positive() {
    let mut e = rec(31, 10);
    e.hub_id = Some(5);
    let req = CHECKOUT_RESERVE_BOO { station_out: 7, lane_out: 8, trans_amount: 1500, trans_datetime: 900, ..Default::default() };
    let resp = CHECKOUT_RESERVE_BOO_RESP { status: 0, hub_id: Some(0), ticket_eTag_id: 44, ..Default::default() };
    e.update_from_checkout_at(&req, &resp, 1000);
    assert_eq!(e.hub_id, Some(5));
    assert_eq!(e.toll_out, 7);
    assert_eq!(e.lane_out, 8);
    assert_eq!(e.price, 1500);
    assert_eq!(e.ticket_out_id, Some(31));
    assert_eq!(e.ticket_eTag_id, Some(44));
    assert_eq!(e.checkout_datetime, 1000);
    assert_eq!(e.boo_lane_type.as_deref(), Some("O"));

    let mut v = rec(32, 10);
    let vreq = VETC_CHECKOUT_RESERVE_BOO { station_out: 3, lane_out: 4, trans_amount: 20, trans_datetime: 30, ..Default::default() };
    let vresp = VETC_CHECKOUT_RESERVE_BOO_RESP { status: 2, hub_id: Some(66), ticket_eTag_id: 1, ..Default::default() };
    v.update_from_checkout_vetc_at(&vreq, &vresp, 40);
    assert_eq!(v.hub_id, Some(66));
    assert_eq!(v.status, 2);
    assert_eq!(v.boo_trans_datetime, Some(30));
}

#[test]
fn local_checkout_takes_trimmed_plate() {
    let mut e = rec(5, 1);
    e.plate = "OLD".to_string();
    e.status = 9;
    e.update_from_checkout_local_at(&fe(1, "E", "  NEW1 "), 250, 77);
    assert_eq!(e.plate, "NEW1");
    assert_eq!(e.status, 0);
    assert_eq!(e.price, 250);
    assert_eq!(e.toll_out, 101);
    assert_eq!(e.boo_trans_datetime, Some(77));
    let mut k = rec(6, 1);
    k.plate = "KEEP".to_string();
    k.update_from_checkout_local_at(&fe(1, "E", "   "), 1, 2);
    assert_eq!(k.plate, "KEEP");
}

#[test]
fn merge_prefers_later_checkin_as_base() {
    let mut a = rec(10, 100);
    a.station_id = 0;
    a.lane_id = 3;
    a.plate = "AAA".to_string();
    a.db_save_retry_count = 1;
    let mut b = rec(10, 200);
    b.station_id = 55;
    b.lane_id = 0;
    b.plate = String::new();
    b.checkout_datetime = 0;
    b.db_save_retry_count = 4;
    a.checkout_datetime = 300;
    a.toll_out = 9;
    let m = merge_etdr_same_ticket_id(&a, &b);
    assert_eq!(m.checkin_datetime, 200);
    assert_eq!(m.station_id, 55);
    assert_eq!(m.lane_id, 3);
    assert_eq!(m.plate, "AAA");
    assert_eq!(m.checkout_datetime, 300);
    assert_eq!(m.toll_out, 9);
    assert_eq!(m.db_save_retry_count, 4);
}

#[test]
fn merge_with_itself_changes_nothing() {
    let mut a = rec(3, 70);
    a.plate = "P".to_string();
    a.price = 12;
    let m = merge_etdr_same_ticket_id(&a, &a);
    assert_eq!(m.plate, "P");
    assert_eq!(m.price, 12);
    assert_eq!(m.checkin_datetime, 70);
    assert_eq!(m.ticket_id, 3);
}

#[test]
fn merge_commutes_on_distinct_checkins() {
    let mut a = rec(3, 70);
    a.price = 5;
    let mut b = rec(3, 90);
    b.plate = "B".to_string();
    let x = merge_etdr_same_ticket_id(&a, &b);
    let y = merge_etdr_same_ticket_id(&b, &a);
    assert_eq!(x.price, y.price);
    assert_eq!(x.plate, y.plate);
    assert_eq!(x.checkin_datetime, y.checkin_datetime);
}

#[test]
fn retry_key_text() {
    assert_eq!(retry_key_of(42), "etdr_retry:42");
    assert_eq!(retry_key_of(-7), "etdr_retry:-7");
}

#[test]
fn dedupe_merges_and_drops_zero_tickets() {
    let input = vec![
        ("k1".to_string(), rec(1, 10)),
        ("k0".to_string(), rec(0, 10)),
        ("k2".to_string(), rec(2, 10)),
        ("k1b".to_string(), rec(1, 20)),
        (retry_key_of(2), rec(2, 5)),
    ];
    let out = dedupe_by_ticket_id(input);
    assert_eq!(out.len(), 2);
    assert_eq!(out[0].1.ticket_id, 1);
    assert_eq!(out[0].0, "k1b");
    assert_eq!(out[0].1.checkin_datetime, 20);
    assert_eq!(out[1].1.ticket_id, 2);
    assert_eq!(out[1].0, "etdr_retry:2");
    assert_eq!(out[1].1.checkin_datetime, 10);
}

#[test]
fn merge_keeps_later_checkout_times() {
    let mut a = rec(7, 200);
    a.checkout_datetime = 500;
    a.checkout_commit_datetime = 510;
    let mut b = rec(7, 100);
    b.checkout_datetime = 300;
    b.checkout_commit_datetime = 900;
    let m = merge_etdr_same_ticket_id(&a, &b);
    assert_eq!(m.ticket_id, 7);
    assert_eq!(m.checkin_datetime, 200);
    assert_eq!(m.checkout_datetime, 500);
    assert_eq!(m.checkout_commit_datetime, 900);
}
