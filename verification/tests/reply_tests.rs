use cbc::cipher::block_padding::Pkcs7;
use cbc::cipher::{BlockDecryptMut, KeyIvInit};
use etc_middleware::connect_rules::ConnectDecision;
use etc_middleware::fe_reply::{
    build_connect_resp, checkin_in_resp_layout, connect_reply_status, connect_resp_layout, serialize_and_encrypt_commit_response,
    serialize_and_encrypt_response, ConnectReplyCodes, ConnectReplyStatus,
};
use etc_middleware::tcoc_messages::{FE_CHECKIN_IN_RESP, FE_COMMIT_IN_RESP};

const KEY: [u8; 16] = *b"0123456789abcdef";
const IV: [u8; 16] = *b"fedcba9876543210";

fn decrypt(c: &[u8]) -> Vec<u8> {
    cbc::Decryptor::<aes::Aes128>::new_from_slices(&KEY, &IV).unwrap().decrypt_padded_vec_mut::<Pkcs7>(c).unwrap()
}

fn codes() -> ConnectReplyCodes {
    ConnectReplyCodes { message_length: 32, command_id: 0x01, account_not_activated: 305, user_not_found: 306, not_found_station_lane: 301 }
}

#[test]
fn connect_reply_statuses() {
    assert_eq!(connect_reply_status(&ConnectDecision::Accept { user_id: Some(1) }), ConnectReplyStatus::Success);
    assert_eq!(connect_reply_status(&ConnectDecision::AccountNotActivated { user_id: 1 }), ConnectReplyStatus::AccountNotActivated);
    assert_eq!(connect_reply_status(&ConnectDecision::InvalidPassword { user_id: 1 }), ConnectReplyStatus::NotFoundStationLane);
    assert_eq!(connect_reply_status(&ConnectDecision::UserNotFound), ConnectReplyStatus::UserNotFound);
    assert_eq!(connect_reply_status(&ConnectDecision::LookupFailed), ConnectReplyStatus::NotFoundStationLane);
}

#[test]
fn connect_reply_bytes_encrypted() {
    let ok = build_connect_resp(&ConnectDecision::Accept { user_id: None }, &codes(), 2, 77, 900, &KEY, &IV);
    assert_eq!(ok.len(), 48);
    let plain = decrypt(&ok);
    assert_eq!(plain, connect_resp_layout(32, 1, 2, 77, 900, 0));
    assert_ne!(&ok[..32], &plain[..]);
    let bad = build_connect_resp(&ConnectDecision::InvalidPassword { user_id: 4 }, &codes(), 2, 77, 900, &KEY, &IV);
    let p2 = decrypt(&bad);
    assert_eq!(p2, connect_resp_layout(32, 1, 2, 77, 0, 301));
    assert_eq!(&p2[28..32], &301i32.to_le_bytes());
}

#[test]
fn checkin_reply_layout_and_encryption() {
    let r = FE_CHECKIN_IN_RESP {
        message_length: 98,
        command_id: 0x67,
        request_id: 5,
        session_id: 6,
        status: 0,
        etag: "E1".to_string(),
        station: 7,
        lane: 8,
        ticket_id: 9,
        ticket_type: 1,
        price: 15000,
        vehicle_type: 2,
        plate: "29A".to_string(),
        plate_type: 0,
        price_ticket_type: 1,
    };
    let b = checkin_in_resp_layout(&r);
    assert_eq!(b.len(), 98);
    assert_eq!(&b[0..4], &98i32.to_le_bytes());
    assert_eq!(&b[28..30], b"E1");
    assert_eq!(b[30], 0);
    assert_eq!(&b[60..68], &9i64.to_le_bytes());
    assert_eq!(&b[80..83], b"29A");
    let c = serialize_and_encrypt_response(&r, &KEY, &IV);
    assert_eq!(c.len(), 112);
    assert_eq!(decrypt(&c), b);
}

#[test]
fn commit_reply_encrypted() {
    let r = FE_COMMIT_IN_RESP { message_length: 28, command_id: 0x69, request_id: 1, session_id: 2, status: 3 };
    let c = serialize_and_encrypt_commit_response(&r, &KEY, &IV);
    assert_eq!(c.len(), 32);
    let p = decrypt(&c);
    assert_eq!(p.len(), 28);
    assert_eq!(&p[24..28], &3i32.to_le_bytes());
}
