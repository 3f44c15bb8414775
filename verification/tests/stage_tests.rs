use etc_middleware::etdr_types::ETDR;
use etc_middleware::transport_stage::{
    build_transport_stage_from_etdr, build_transport_stage_from_sync, create_transport_transaction_stage_from_bect_checkin, fill_etdr_from_sync_at,
    merge_etdr_into_transport_stage, SubscriberIds, TransportTransStageSync, TransportTransactionStage,
};
use etc_middleware::tcoc_messages::FE_CHECKIN;
use etc_middleware::toll_cache::TollCache;
use etc_middleware::toll_types::{TOLL, TOLL_LANE};

fn fe(etag: &str, plate: &str) -> FE_CHECKIN {
    FE_CHECKIN {
        message_length: 90,
        command_id: 0x66,
        request_id: 77,
        session_id: 3,
        etag: etag.to_string(),
        station: 101,
        lane: 4,
        plate: plate.to_string(),
        tid: " TID-9\0\0".to_string(),
        hash_value: "hv".to_string(),
    }
}

fn toll(id: i32, toll_type: &str) -> TOLL {
    let mut t = TOLL::default();
    t.toll_id = id;
    t.toll_type = toll_type.to_string();
    t
}

fn lane(code: i32) -> TOLL_LANE {
    let mut l = TOLL_LANE::default();
    l.lane_code = code;
    l
}

fn record() -> ETDR {
    let mut e = ETDR::new();
    e.ticket_id = 5000;
    e.plate = " 51A12345 ".to_string();
    e.image_count = 2;
    e.commit_amount = 15000;
    e.weight = 1200;
    e.reason_id = 0;
    e.vehicle_type = "1".to_string();
    e.hub_id = Some(9);
    e.charge_in = Some("CI".to_string());
    e
}

#[test]
fn checkin_stage_passed_with_subscriber() {
    let e = record();
    let sub = SubscriberIds { subscriber_id: 11, etag_id: 12, vehicle_id: 13, account_id: 14 };
    let r = create_transport_transaction_stage_from_bect_checkin(&fe(" E-1\0", " 30A999 "), &e, &toll(101, "open"), &lane(3), 5000, Some(sub), "2024-01-02 03:04:05", 24);
    assert_eq!(r.transport_trans_id, 5000);
    assert_eq!(r.subscriber_id, Some(11));
    assert_eq!(r.etag_id, Some(12));
    assert_eq!(r.vehicle_id, Some(13));
    assert_eq!(r.account_id, Some(14));
    assert_eq!(r.checkin_toll_id, Some(101));
    assert_eq!(r.checkin_lane_id, Some(3));
    assert_eq!(r.checkin_channel, Some(4));
    assert_eq!(r.checkin_pass.as_deref(), Some("P"));
    assert_eq!(r.checkin_pass_reason_id, None);
    assert_eq!(r.checkin_datetime.as_deref(), Some("2024-01-02 03:04:05"));
    assert_eq!(r.checkin_status.as_deref(), Some("1"));
    assert_eq!(r.etag_number.as_deref(), Some("E-1"));
    assert_eq!(r.request_id, Some(77));
    assert_eq!(r.checkin_plate.as_deref(), Some("51A12345"));
    assert_eq!(r.checkin_plate_status.as_deref(), Some("1"));
    assert_eq!(r.plate_from_toll.as_deref(), Some("30A999"));
    assert_eq!(r.img_count, Some(2));
    assert_eq!(r.checkin_img_count, Some(2));
    assert_eq!(r.toll_type.as_deref(), Some("O"));
    assert_eq!(r.rating_type.as_deref(), Some("E"));
    assert_eq!(r.plate.as_deref(), Some("51A12345"));
    assert_eq!(r.vehicle_type.as_deref(), Some("1"));
    assert_eq!(r.fe_commit_amount, Some(15000));
    assert_eq!(r.fe_weight, Some(1200));
    assert_eq!(r.fe_reason_id, Some(0));
    assert_eq!(r.vehicle_type_profile.as_deref(), Some("STD"));
    assert_eq!(r.boo, Some(3));
    assert_eq!(r.boo_transport_trans_id, Some(5000));
    assert_eq!(r.checkin_tid.as_deref(), Some("TID-9"));
    assert_eq!(r.charge_in.as_deref(), Some("CI"));
    assert_eq!(r.transition_close.as_deref(), Some("F"));
    assert_eq!(r.ticket_in_id, Some(5000));
    assert_eq!(r.hub_id, Some(9));
    assert_eq!(r.boo_etag.as_deref(), Some("E-1"));
}

#[test]
fn checkin_stage_failed_without_subscriber() {
    let mut e = record();
    e.check = 7;
    e.plate = "  ".to_string();
    e.rating_type = Some("R".to_string());
    let r = create_transport_transaction_stage_from_bect_checkin(&fe("E-2", "\0\0"), &e, &toll(7, " "), &lane(1), 42, None, "t", 24);
    assert_eq!(r.subscriber_id, None);
    assert_eq!(r.account_id, None);
    assert_eq!(r.checkin_pass.as_deref(), Some("F"));
    assert_eq!(r.checkin_pass_reason_id.as_deref(), Some("RT-7"));
    assert_eq!(r.checkin_plate_status.as_deref(), Some("0"));
    assert_eq!(r.checkin_plate.as_deref(), Some("NOPLATE"));
    assert_eq!(r.plate.as_deref(), Some("NOPLATE"));
    assert_eq!(r.plate_from_toll, None);
    assert_eq!(r.toll_type.as_deref(), Some("C"));
    assert_eq!(r.rating_type.as_deref(), Some("R"));
    assert_eq!(r.ticket_in_id, Some(42));
}

#[test]
fn merge_fills_empty_columns_from_record() {
    let mut e = record();
    e.sub_id = 21;
    e.etag_key = Some(22);
    e.vehicle_id = 0;
    e.station_id = 101;
    e.lane_id = 6;
    e.toll_out = 202;
    e.lane_out = 0;
    e.price = 30000;
    e.account_id = 23;
    e.checkin_datetime = 1;
    e.checkout_datetime = 0;
    e.etag_number = "E-5".to_string();
    e.request_id = 88;
    e.plate_status = 1;
    e.status = 0;
    e.vehicle_type_profile = "STD".to_string();
    e.t_id = "T".to_string();
    e.chd_ref_id = Some("123".to_string());
    e.sync_status = 4;
    let mut cache = TollCache::with_config(1000, 10);
    cache.put_at(toll(202, "open"), 100);
    let existing = TransportTransactionStage::default();
    let r = merge_etdr_into_transport_stage(&existing, &e, 3, "NOW", &mut cache, 500);
    assert_eq!(r.subscriber_id, Some(21));
    assert_eq!(r.etag_id, Some(22));
    assert_eq!(r.vehicle_id, None);
    assert_eq!(r.checkin_toll_id, Some(101));
    assert_eq!(r.checkin_lane_id, Some(6));
    assert_eq!(r.checkin_channel, Some(6));
    assert_eq!(r.checkin_pass.as_deref(), Some("P"));
    assert_eq!(r.checkout_toll_id, Some(202));
    assert_eq!(r.checkout_lane_id, None);
    assert_eq!(r.charge_type.as_deref(), Some("L"));
    assert_eq!(r.total_amount, Some(30000));
    assert_eq!(r.account_id, Some(23));
    assert_eq!(r.checkin_datetime.as_deref(), Some("1970-01-01 00:00:00"));
    assert_eq!(r.checkout_datetime, None);
    assert_eq!(r.checkin_status.as_deref(), Some("1"));
    assert_eq!(r.etag_number.as_deref(), Some("E-5"));
    assert_eq!(r.request_id, Some(88));
    assert_eq!(r.checkin_plate.as_deref(), Some(" 51A12345 "));
    assert_eq!(r.checkin_plate_status.as_deref(), Some("1"));
    assert_eq!(r.status.as_deref(), Some("1"));
    assert_eq!(r.last_update.as_deref(), Some("NOW"));
    // No station type on the record; the entry station is not cached, the exit station is.
    assert_eq!(r.toll_type.as_deref(), Some("O"));
    assert_eq!(r.fe_weight, Some(1200));
    assert_eq!(r.fe_reason_id, None);
    assert_eq!(r.boo, Some(3));
    assert_eq!(r.boo_transport_trans_id, Some(5000));
    assert_eq!(r.chd_ref_id, Some(123));
    assert_eq!(r.transition_close.as_deref(), Some("F"));
    assert_eq!(r.hub_id, Some(9));
    assert_eq!(r.sync_status, None);
}

#[test]
fn merge_keeps_stored_columns() {
    let e = record();
    let mut cache = TollCache::with_config(1000, 10);
    let mut existing = TransportTransactionStage::default();
    existing.subscriber_id = Some(1);
    existing.checkin_toll_id = Some(300);
    existing.toll_type = Some("X".to_string());
    existing.boo = Some(2);
    existing.last_update = Some("OLD".to_string());
    existing.charge_type = Some("Q".to_string());
    existing.checkin_plate = Some("P1".to_string());
    let r = merge_etdr_into_transport_stage(&existing, &e, 3, "NOW", &mut cache, 0);
    assert_eq!(r.subscriber_id, Some(1));
    assert_eq!(r.checkin_toll_id, Some(300));
    assert_eq!(r.toll_type.as_deref(), Some("X"));
    assert_eq!(r.boo, Some(2));
    assert_eq!(r.last_update.as_deref(), Some("NOW"));
    assert_eq!(r.charge_type.as_deref(), Some("Q"));
    assert_eq!(r.checkin_plate.as_deref(), Some("P1"));
}

#[test]
fn merge_resolves_station_type_from_cache() {
    let mut e = record();
    e.station_id = 101;
    let mut cache = TollCache::with_config(1000, 10);
    cache.put_at(toll(101, "open"), 100);
    let r = merge_etdr_into_transport_stage(&TransportTransactionStage::default(), &e, 3, "NOW", &mut cache, 500);
    assert_eq!(r.toll_type.as_deref(), Some("O"));
    e.boo_toll_type = Some(" closed ".to_string());
    let r2 = merge_etdr_into_transport_stage(&TransportTransactionStage::default(), &e, 3, "NOW", &mut cache, 500);
    assert_eq!(r2.toll_type.as_deref(), Some("C"));
    // Past the time to live the entry is no longer used.
    e.boo_toll_type = None;
    let r3 = merge_etdr_into_transport_stage(&TransportTransactionStage::default(), &e, 3, "NOW", &mut cache, 5000);
    assert_eq!(r3.toll_type.as_deref(), Some("C"));
}

#[test]
fn checkin_stage_leaves_exit_columns_empty() {
    let e = record();
    let r = create_transport_transaction_stage_from_bect_checkin(&fe("E-1", "P"), &e, &toll(1, "o"), &lane(1), 9, None, "t", 24);
    assert_eq!(r.checkout_toll_id, None);
    assert_eq!(r.checkout_datetime, None);
    assert_eq!(r.charge_type, None);
    assert_eq!(r.transport_sync_id, None);
    assert_eq!(r.sync_status, None);
    assert_eq!(r.checkin_commit_datetime, None);
}

#[test]
fn merge_keeps_columns_it_does_not_fill() {
    let e = record();
    let mut cache = TollCache::with_config(1000, 10);
    let mut existing = TransportTransactionStage::default();
    existing.transport_trans_id = 31;
    existing.checkout_pass = Some("P".to_string());
    existing.transport_sync_id = Some(8);
    existing.insert_datetime = Some("INS".to_string());
    let r = merge_etdr_into_transport_stage(&existing, &e, 3, "NOW", &mut cache, 0);
    assert_eq!(r.transport_trans_id, 31);
    assert_eq!(r.checkout_pass.as_deref(), Some("P"));
    assert_eq!(r.transport_sync_id, Some(8));
    assert_eq!(r.insert_datetime.as_deref(), Some("INS"));
    assert_eq!(r.balance, None);
}

#[test]
fn stage_from_record_without_store_row() {
    let mut e = record();
    e.sub_id = 0;
    e.vehicle_id = -4;
    e.account_id = 5;
    e.station_id = 101;
    e.lane_id = 2;
    e.toll_out = 0;
    e.checkin_datetime = 1000;
    e.status = 3;
    e.weight = 0;
    e.reason_id = 6;
    e.plate = String::new();
    e.chd_ref_id = Some("x".to_string());
    e.ticket_in_id = Some(77);
    let mut cache = TollCache::with_config(1000, 10);
    cache.put_at(toll(101, "open"), 100);
    let r = build_transport_stage_from_etdr(&e, 4, "NOW", &mut cache, 200);
    assert_eq!(r.transport_trans_id, 5000);
    assert_eq!(r.subscriber_id, None);
    assert_eq!(r.vehicle_id, None);
    assert_eq!(r.account_id, Some(5));
    assert_eq!(r.checkin_toll_id, Some(101));
    assert_eq!(r.checkin_channel, Some(2));
    assert_eq!(r.checkout_toll_id, None);
    assert_eq!(r.checkin_datetime.as_deref(), Some("1970-01-01 00:00:01"));
    assert_eq!(r.checkin_status.as_deref(), Some("2"));
    assert_eq!(r.plate_from_toll, None);
    assert_eq!(r.checkin_plate.as_deref(), Some(""));
    assert_eq!(r.status.as_deref(), Some("0"));
    assert_eq!(r.toll_type.as_deref(), Some("O"));
    assert_eq!(r.fe_weight, None);
    assert_eq!(r.fe_reason_id, Some(6));
    assert_eq!(r.boo, Some(4));
    assert_eq!(r.chd_ref_id, None);
    assert_eq!(r.ticket_in_id, Some(77));
    assert_eq!(r.ticket_out_id, None);
    assert_eq!(r.insert_datetime.as_deref(), Some("NOW"));
    e.checkin_datetime = 1_704_164_645_000;
    let r2 = build_transport_stage_from_etdr(&e, 4, "NOW", &mut cache, 200);
    assert_eq!(r2.checkin_datetime.as_deref(), Some("2024-01-02 03:04:05"));
    e.checkin_datetime = 0;
    let r3 = build_transport_stage_from_etdr(&e, 4, "NOW", &mut cache, 200);
    assert_eq!(r3.checkin_datetime.as_deref(), Some("NOW"));
}

fn sync_record() -> TransportTransStageSync {
    let mut s = TransportTransStageSync::default();
    s.transport_sync_id = 900;
    s.etag_number = Some("E-9".to_string());
    s.plate = Some(" 29B1 ".to_string());
    s.vehicle_type = Some("2".to_string());
    s.tid = Some("T9".to_string());
    s.checkin_toll_id = Some(55);
    s.checkin_lane_id = Some(3);
    s.checkin_datetime = Some(" 2024-01-02 03:04:05 ".to_string());
    s.request_id = Some(12);
    s.hub_id = Some(4);
    s.boo_etag = Some("1".to_string());
    s
}

#[test]
fn stage_from_synchronised_record() {
    let s = sync_record();
    let mut cache = TollCache::with_config(1000, 10);
    let r = build_transport_stage_from_sync(&s, "NOW", 123, 1, &mut cache, 0);
    assert_eq!(r.transport_trans_id, 123);
    assert_eq!(r.checkin_toll_id, Some(55));
    assert_eq!(r.checkin_pass.as_deref(), Some("P"));
    assert_eq!(r.checkin_status.as_deref(), Some("2"));
    assert_eq!(r.checkin_plate.as_deref(), Some(" 29B1 "));
    assert_eq!(r.toll_type.as_deref(), Some("C"));
    assert_eq!(r.rating_type.as_deref(), Some("E"));
    assert_eq!(r.boo, Some(1));
    assert_eq!(r.transport_sync_id, Some(900));
    assert_eq!(r.ticket_in_id, Some(123));
    assert_eq!(r.boo_etag.as_deref(), Some("1"));
    assert_eq!(r.subscriber_id, None);
    assert_eq!(r.checkin_channel, None);
    let mut s2 = sync_record();
    s2.ticket_in_id = Some(44);
    cache.put_at(toll(55, "closed"), 0);
    let r2 = build_transport_stage_from_sync(&s2, "NOW", 123, 1, &mut cache, 10);
    assert_eq!(r2.ticket_in_id, Some(44));
    assert_eq!(r2.toll_type.as_deref(), Some("C"));
}

#[test]
fn record_read_back_from_stage() {
    let mut st = TransportTransactionStage::default();
    st.transport_trans_id = 700;
    st.subscriber_id = Some(5);
    st.etag_id = Some(6);
    st.status = Some("1".to_string());
    st.checkin_datetime = Some("2024-01-02 03:04:05".to_string());
    st.checkout_datetime = Some("garbage".to_string());
    st.plate = Some("PL".to_string());
    st.checkin_plate_status = Some("x".to_string());
    st.charge_type = Some(" T ".to_string());
    st.chd_ref_id = Some(-12);
    st.transport_sync_id = Some(1);
    st.sync_status = Some(1);
    st.checkin_toll_id = Some(101);
    let e = ETDR::from_transport_transaction_stage_at(&st, 42);
    assert_eq!(e.time_update, 42);
    assert_eq!(e.ticket_id, 700);
    assert_eq!(e.ref_trans_id, 700);
    assert_eq!(e.boo_ticket_id, 700);
    assert_eq!(e.sub_id, 5);
    assert_eq!(e.etag_key, Some(6));
    assert_eq!(e.etag_number, "");
    assert_eq!(e.status, 0);
    assert_eq!(e.vehicle_type, "1");
    assert_eq!(e.vehicle_type_profile, "STD");
    assert_eq!(e.plate, "PL");
    assert_eq!(e.plate_status, 0);
    assert_eq!(e.ticket_type, 2);
    assert_eq!(e.checkin_datetime, 1_704_164_645_000);
    assert_eq!(e.time_route_checkin, 1_704_164_645_000);
    assert_eq!(e.checkout_datetime, 0);
    assert_eq!(e.station_id, 101);
    assert_eq!(e.boo_lane_type.as_deref(), Some("I"));
    assert_eq!(e.boo_toll_type.as_deref(), Some("C"));
    assert_eq!(e.chd_ref_id.as_deref(), Some("-12"));
    assert!(e.checkin_from_sync);
    assert!(e.db_saved);
    assert_eq!(e.sync_status, 1);
    let mut st2 = TransportTransactionStage::default();
    st2.status = Some("0".to_string());
    st2.insert_datetime = Some("2024-01-02 03:04:05".to_string());
    let e2 = ETDR::from_transport_transaction_stage_at(&st2, 42);
    assert_eq!(e2.status, 1);
    assert_eq!(e2.checkin_datetime, 1_704_164_645_000);
    assert_eq!(e2.ticket_type, 1);
    assert!(!e2.checkin_from_sync);
    let e3 = ETDR::from_transport_transaction_stage_at(&TransportTransactionStage::default(), 42);
    assert_eq!(e3.checkin_datetime, 42);
}

#[test]
fn record_filled_from_synchronised_record() {
    let mut e = record();
    e.ticket_type = 1;
    e.price_ticket_type = 1;
    let mut s = sync_record();
    s.ticket_type = Some("Q".to_string());
    s.price_ticket_type = Some("X".to_string());
    s.checkout_datetime = Some("bad".to_string());
    s.sync_status = Some(1);
    fill_etdr_from_sync_at(&mut e, &s, 3, 99);
    assert_eq!(e.plate, "29B1");
    assert_eq!(e.vehicle_type, "2");
    assert_eq!(e.ticket_type, 3);
    assert_eq!(e.price_ticket_type, 3);
    assert_eq!(e.checkin_datetime, 1_704_164_645_000);
    assert_eq!(e.checkout_datetime, 0);
    assert_eq!(e.station_id, 55);
    assert_eq!(e.lane_id, 3);
    assert_eq!(e.request_id, 12);
    assert_eq!(e.hub_id, Some(4));
    assert!(e.checkin_from_sync);
    assert_eq!(e.sync_status, 1);
    assert_eq!(e.time_update, 99);
    assert_eq!(e.ticket_id, 5000);
    let mut blank = TransportTransStageSync::default();
    blank.plate = Some("  ".to_string());
    fill_etdr_from_sync_at(&mut e, &blank, 7, 100);
    assert_eq!(e.plate, "29B1");
    assert_eq!(e.price_ticket_type, 3);
    assert_eq!(e.station_id, 55);
}

#[test]
fn stored_record_reads_back() {
    let mut e = record();
    e.sub_id = 3;
    e.account_id = -1;
    e.vehicle_id = 8;
    e.station_id = 101;
    e.lane_id = 2;
    e.toll_out = 202;
    e.lane_out = 4;
    e.request_id = 66;
    e.etag_number = "E-7".to_string();
    e.t_id = "T7".to_string();
    e.vehicle_type_profile = "STD".to_string();
    e.status = 5;
    e.etag_key = Some(-9);
    e.ticket_in_id = Some(5000);
    let mut cache = TollCache::with_config(1000, 10);
    let st = build_transport_stage_from_etdr(&e, 3, "NOW", &mut cache, 0);
    let r = ETDR::from_transport_transaction_stage_at(&st, 1);
    assert_eq!(r.ticket_id, e.ticket_id);
    assert_eq!(r.ref_trans_id, e.ticket_id);
    assert_eq!(r.station_id, 101);
    assert_eq!(r.lane_id, 2);
    assert_eq!(r.toll_out, 202);
    assert_eq!(r.lane_out, 4);
    assert_eq!(r.request_id, 66);
    assert_eq!(r.etag_number, "E-7");
    assert_eq!(r.plate, e.plate);
    assert_eq!(r.image_count, 2);
    assert_eq!(r.t_id, "T7");
    assert_eq!(r.etag_key, Some(-9));
    assert_eq!(r.sub_id, 3);
    assert_eq!(r.account_id, 0);
    assert_eq!(r.vehicle_id, 8);
    assert_eq!(r.weight, 1200);
    assert_eq!(r.status, 1);
    assert_eq!(r.hub_id, Some(9));
    assert_eq!(r.charge_in.as_deref(), Some("CI"));
    assert!(r.db_saved);
    assert!(!r.checkin_from_sync);
}

#[test]
fn checkin_stage_operator_tag_is_cut_tag_number() {
    let e = record();
    let r = create_transport_transaction_stage_from_bect_checkin(&fe("ETAG123\0\0", "P"), &e, &toll(1, "o"), &lane(1), 9, None, "t", 5);
    assert_eq!(r.boo_etag.as_deref(), Some("ETAG1"));
    assert_eq!(r.etag_number.as_deref(), Some("ETAG123"));
    let r2 = create_transport_transaction_stage_from_bect_checkin(&fe("ETAG123\0\0", "P"), &e, &toll(1, "o"), &lane(1), 9, None, "t", 24);
    assert_eq!(r2.boo_etag.as_deref(), Some("ETAG123"));
}
