use etc_middleware::bect_messages::{CHECKOUT_COMMIT_BOO_RESP, CHECKOUT_RESERVE_BOO_RESP, LOOKUP_VEHICLE_RESP, QUERY_VEHICLE_BOO_RESP};
use etc_middleware::boo_codec::{
    build_checkout_commit_boo_resp, build_checkout_reserve_boo_resp, parse_checkout_commit_boo, parse_checkout_reserve_boo,
    parse_lookup_vehicle, parse_query_vehicle_boo, serialize_lookup_vehicle_resp, serialize_query_vehicle_boo_resp, MessageError,
    CHECKOUT_COMMIT_BOO_LEN, CHECKOUT_RESERVE_BOO_MIN_LEN, LOOKUP_VEHICLE_LEN, QUERY_VEHICLE_BOO_LEN,
};
use etc_middleware::connect_rules::{parse_fe_connect, CONNECT_LEN};
use etc_middleware::wire::{push_i32_le, push_i64_le, push_padded, read_i32_le, read_i64_le, read_text};

fn put_i32(b: &mut [u8], off: usize, x: i32) {
    b[off..off + 4].copy_from_slice(&x.to_le_bytes());
}

fn put_i64(b: &mut [u8], off: usize, x: i64) {
    b[off..off + 8].copy_from_slice(&x.to_le_bytes());
}

fn put_text(b: &mut [u8], off: usize, s: &str) {
    b[off..off + s.len()].copy_from_slice(s.as_bytes());
}

#[test]
fn le_reads_and_writes() {
    let mut v: Vec<u8> = Vec::new();
    push_i32_le(&mut v, -2);
    push_i64_le(&mut v, 0x0102_0304_0506_0708);
    assert_eq!(v.len(), 12);
    assert_eq!(read_i32_le(&v, 0), -2);
    assert_eq!(read_i64_le(&v, 4), 0x0102_0304_0506_0708);
    assert_eq!(v[4], 0x08);
    let mut p: Vec<u8> = Vec::new();
    push_padded(&mut p, b"abcdef", 4);
    assert_eq!(p, b"abcd".to_vec());
    push_padded(&mut p, b"x", 3);
    assert_eq!(p, b"abcdx\0\0".to_vec());
}

#[test]
fn lossy_text() {
    assert_eq!(read_text(&[0x61, 0xff, 0x62], 0, 3), "a\u{fffd}b");
    assert_eq!(read_text(b"zzhi\0\0", 2, 4), "hi\0\0");
}

#[test]
fn checkout_commit_too_short() {
    let d = vec![0u8; CHECKOUT_COMMIT_BOO_LEN - 1];
    assert_eq!(parse_checkout_commit_boo(&d).unwrap_err(), MessageError::TooShort { len: 187, need: 188 });
}

#[test]
fn checkout_commit_fields() {
    let mut d = vec![0u8; CHECKOUT_COMMIT_BOO_LEN];
    put_i32(&mut d, 0, 188);
    put_i32(&mut d, 4, 0x9A);
    put_i64(&mut d, 12, 77);
    put_text(&mut d, 36, " TID9 ");
    put_text(&mut d, 60, "ETAG1");
    put_i64(&mut d, 84, 1001);
    put_i64(&mut d, 92, 5);
    put_i32(&mut d, 124, 300);
    put_text(&mut d, 132, "51F12345");
    put_i32(&mut d, 152, 25000);
    put_i64(&mut d, 156, 999);
    d[164] = 1;
    d[187] = 2;
    let m = parse_checkout_commit_boo(&d).unwrap();
    assert_eq!(m.message_length, 188);
    assert_eq!(m.command_id, 0x9A);
    assert_eq!(m.request_id, 77);
    assert_eq!(m.tid, "TID9");
    assert_eq!(m.etag, "ETAG1");
    assert_eq!(m.ticket_in_id, 1001);
    assert_eq!(m.hub_id, 5);
    assert_eq!(m.station_out, 300);
    assert_eq!(m.plate, "51F12345");
    assert_eq!(m.trans_amount, 25000);
    assert_eq!(m.trans_datetime, 999);
    assert_eq!(m.general1[0], 1);
    assert_eq!(m.general2[15], 2);
}

#[test]
fn checkout_commit_reply_layout() {
    let r = CHECKOUT_COMMIT_BOO_RESP {
        message_length: 96,
        command_id: 0x9B,
        request_id: 3,
        ticket_out_id: 4,
        status: -1,
        ..Default::default()
    };
    let b = build_checkout_commit_boo_resp(&r);
    assert_eq!(b.len(), 96);
    assert_eq!(read_i32_le(&b, 0), 96);
    assert_eq!(read_i32_le(&b, 4), 0x9B);
    assert_eq!(read_i64_le(&b, 12), 3);
    assert_eq!(read_i64_le(&b, 60), 4);
    assert_eq!(read_i32_le(&b, 68), -1);
}

#[test]
fn checkout_reserve_too_short() {
    let d = vec![0u8; 10];
    assert_eq!(
        parse_checkout_reserve_boo(&d).unwrap_err(),
        MessageError::TooShort { len: 10, need: CHECKOUT_RESERVE_BOO_MIN_LEN }
    );
}

#[test]
fn checkout_reserve_with_details_and_trailer() {
    let n = 2usize;
    let end = 179 + n * 74;
    let mut d = vec![0u8; end + 24];
    put_i64(&mut d, 92, 0);
    put_i64(&mut d, 116, 111);
    put_text(&mut d, 148, "30A");
    d[158] = b'T';
    put_i32(&mut d, 163, 4000);
    put_i32(&mut d, 175, n as i32);
    put_i64(&mut d, 179, 9);
    put_i32(&mut d, 179 + 8, 2);
    d[179 + 20] = b'L';
    put_text(&mut d, 179 + 21, "SUB");
    put_i32(&mut d, 179 + 50, 1200);
    put_i64(&mut d, 179 + 74 + 58, 6);
    d[end] = 7;
    d[end + 23] = 8;
    let m = parse_checkout_reserve_boo(&d).unwrap();
    assert_eq!(m.hub_id, None);
    assert_eq!(m.checkin_datetime, 111);
    assert_eq!(m.plate, "30A");
    assert_eq!(m.ticket_type, "T");
    assert_eq!(m.trans_amount, 4000);
    assert_eq!(m.rating_detail_line, 2);
    assert_eq!(m.rating_detail.len(), 2);
    assert_eq!(m.rating_detail[0].price_id, Some(9));
    assert_eq!(m.rating_detail[0].boo, 2);
    assert_eq!(m.rating_detail[0].ticket_type, "L");
    assert_eq!(m.rating_detail[0].subscription_id, "SUB");
    assert_eq!(m.rating_detail[0].price_amount, 1200);
    assert_eq!(m.rating_detail[0].bot_id, None);
    assert_eq!(m.rating_detail[1].price_id, None);
    assert_eq!(m.rating_detail[1].bot_id, Some(6));
    assert_eq!(m.rating_detail[1].ticket_type, "");
    assert_eq!(m.general1[0], 7);
    assert_eq!(m.general2[15], 8);
}

#[test]
fn checkout_reserve_details_missing() {
    let mut d = vec![0u8; 179 + 10];
    put_i64(&mut d, 92, 12);
    put_i32(&mut d, 175, 3);
    let m = parse_checkout_reserve_boo(&d).unwrap();
    assert_eq!(m.hub_id, Some(12));
    assert_eq!(m.rating_detail_line, 3);
    assert!(m.rating_detail.is_empty());
    assert_eq!(m.general1, [0u8; 8]);
}

#[test]
fn checkout_reserve_reply_layout() {
    let r = CHECKOUT_RESERVE_BOO_RESP { message_length: 100, hub_id: None, status: 7, ..Default::default() };
    let b = build_checkout_reserve_boo_resp(&r);
    assert_eq!(b.len(), 100);
    assert_eq!(read_i64_le(&b, 48), 0);
    assert_eq!(read_i32_le(&b, 72), 7);
    let r2 = CHECKOUT_RESERVE_BOO_RESP { hub_id: Some(33), ..Default::default() };
    let b2 = build_checkout_reserve_boo_resp(&r2);
    assert_eq!(read_i64_le(&b2, 48), 33);
}

#[test]
fn query_vehicle_fields() {
    assert_eq!(
        parse_query_vehicle_boo(&[0u8; 5]).unwrap_err(),
        MessageError::TooShort { len: 5, need: QUERY_VEHICLE_BOO_LEN }
    );
    let mut d = vec![0u8; QUERY_VEHICLE_BOO_LEN];
    put_text(&mut d, 36, "T1");
    put_text(&mut d, 60, " E2");
    put_i32(&mut d, 84, 10);
    put_i32(&mut d, 88, 11);
    d[92] = b'O';
    d[93] = b'I';
    put_i32(&mut d, 94, 5000);
    let m = parse_query_vehicle_boo(&d).unwrap();
    assert_eq!(m.tid, "T1");
    assert_eq!(m.etag, " E2");
    assert_eq!(m.station, 10);
    assert_eq!(m.lane, 11);
    assert_eq!(m.station_type, "O");
    assert_eq!(m.lane_type, "I");
    assert_eq!(m.min_balance, 5000);
}

#[test]
fn lookup_vehicle_fields() {
    assert!(parse_lookup_vehicle(&[0u8; LOOKUP_VEHICLE_LEN - 1]).is_err());
    let mut d = vec![0u8; LOOKUP_VEHICLE_LEN];
    put_text(&mut d, 60, "ETG");
    d[109] = 4;
    let m = parse_lookup_vehicle(&d).unwrap();
    assert_eq!(m.etag, "ETG");
    assert_eq!(m.station_type, "");
    assert_eq!(m.general2[7], 4);
}

#[test]
fn query_vehicle_reply_layout() {
    let r = QUERY_VEHICLE_BOO_RESP {
        message_length: 133,
        etag: "ABC".to_string(),
        vehicle_type: 2,
        ticket_type: "Q".to_string(),
        plate: "P1".to_string(),
        status: 1,
        ..Default::default()
    };
    let b = serialize_query_vehicle_boo_resp(&r);
    assert_eq!(b.len(), 133);
    assert_eq!(&b[40..43], b"ABC");
    assert_eq!(b[43], 0);
    assert_eq!(read_i32_le(&b, 64), 2);
    assert_eq!(b[68], b'Q');
    assert_eq!(&b[91..93], b"P1");
    assert_eq!(read_i32_le(&b, 101), 1);
    let empty = QUERY_VEHICLE_BOO_RESP::default();
    assert_eq!(serialize_query_vehicle_boo_resp(&empty)[68], b'L');
}

#[test]
fn lookup_vehicle_reply_layout() {
    let r = LOOKUP_VEHICLE_RESP {
        message_length: 197,
        command_id: 0x97,
        version_id: 1,
        request_id: 2,
        session_id: 3,
        timestamp: 4,
        process_time: 5,
        etag: "E".to_string(),
        vehicle_type: 1,
        ticket_type: String::new(),
        register_vehicle_type: String::new(),
        seat: 0,
        weight_goods: 0,
        weight_all: 0,
        plate: String::new(),
        status: 0,
        min_balance_status: 0,
        general1: [0u8; 8],
        general2: [0u8; 16],
        extra: [9u8; 64],
    };
    let b = serialize_lookup_vehicle_resp(&r);
    assert_eq!(b.len(), 197);
    assert_eq!(read_i64_le(&b, 12), 2);
    assert_eq!(b[133], 9);
    assert_eq!(b[196], 9);
}

#[test]
fn connect_request_fields() {
    assert_eq!(
        parse_fe_connect(44, 0, &[0u8; 20]).unwrap_err(),
        MessageError::TooShort { len: 20, need: CONNECT_LEN }
    );
    let mut d = vec![0u8; CONNECT_LEN];
    put_i32(&mut d, 8, 1);
    put_i64(&mut d, 12, 55);
    put_text(&mut d, 20, "user");
    put_text(&mut d, 30, "pass");
    put_i32(&mut d, 40, 30);
    let c = parse_fe_connect(44, 0, &d).unwrap();
    assert_eq!(c.message_length, 44);
    assert_eq!(c.version_id, 1);
    assert_eq!(c.request_id, 55);
    assert_eq!(c.username, "user\0\0\0\0\0\0");
    assert_eq!(c.password, "pass\0\0\0\0\0\0");
    assert_eq!(c.timeout, 30);
}
