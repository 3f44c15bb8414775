//! The replies to the lane front-end: their bytes (little-endian integers, zero-padded text) and
//! their encryption with AES-128 in CBC mode with PKCS#7 padding under the connection's key and
//! initialisation vector; and the status a connect is answered with.

use vstd::prelude::*;
use cbc::cipher::block_padding::Pkcs7;
use cbc::cipher::{BlockEncryptMut, KeyIvInit};
use crate::boo_codec::utf8_of;
use crate::connect_rules::ConnectDecision;
use crate::tcoc_messages::{FE_CHECKIN_IN_RESP, FE_COMMIT_IN_RESP};
use crate::wire::{i32_le, i64_le, law_i32_le_roundtrip, law_i64_le_roundtrip, padded, push_i32_le, push_i64_le, push_padded};

verus! {

/// Name for what `cbc::Encryptor::<aes::Aes128>` under `key` and `iv` makes of `plain` with
/// `encrypt_padded_vec_mut::<Pkcs7>`.
pub uninterp spec fn aes128_cbc_pkcs7(key: Seq<u8>, iv: Seq<u8>, plain: Seq<u8>) -> Seq<u8>;

/// Wraps `cbc::Encryptor::<aes::Aes128>::new_from_slices(key, iv)` followed by
/// `encrypt_padded_vec_mut::<Pkcs7>(plain)`: AES-128-CBC with PKCS#7 padding. Key and vector
/// must be 16 bytes each, so the encryptor is always made. The ciphertext depends on its three
/// arguments alone; PKCS#7 always pads to the next whole block, so it has one block more than
/// the whole blocks of `plain`. What the bytes are is left to the name.
#[verifier::external_body]
fn encrypt_reply(key: &[u8], iv: &[u8], plain: &[u8]) -> (r: Vec<u8>)
    requires
        key@.len() == 16,
        iv@.len() == 16,
    ensures
        r@ == aes128_cbc_pkcs7(key@, iv@, plain@),
        r@.len() == 16 * (plain@.len() / 16 + 1),
{
    match cbc::Encryptor::<aes::Aes128>::new_from_slices(key, iv) {
        Ok(enc) => enc.encrypt_padded_vec_mut::<Pkcs7>(plain),
        Err(_) => Vec::new(),
    }
}

/// The bytes of a connect reply: length, command, protocol version, request, session, status.
pub open spec fn connect_resp_bytes(message_length: i32, command_id: i32, version_id: i32, request_id: i64, session_id: i64, status: i32) -> Seq<u8> {
    i32_le(message_length) + i32_le(command_id) + i32_le(version_id) + i64_le(request_id) + i64_le(session_id) + i32_le(status)
}

/// Lays out a connect reply (see [`connect_resp_bytes`]).
pub fn connect_resp_layout(message_length: i32, command_id: i32, version_id: i32, request_id: i64, session_id: i64, status: i32) -> (r: Vec<u8>)
    ensures
        r@ == connect_resp_bytes(message_length, command_id, version_id, request_id, session_id, status),
        r@.len() == 32,
{
    let mut b: Vec<u8> = Vec::new();
    push_i32_le(&mut b, message_length);
    push_i32_le(&mut b, command_id);
    push_i32_le(&mut b, version_id);
    push_i64_le(&mut b, request_id);
    push_i64_le(&mut b, session_id);
    push_i32_le(&mut b, status);
    proof {
        assert(b@ =~= connect_resp_bytes(message_length, command_id, version_id, request_id, session_id, status));
        law_i32_le_roundtrip(message_length);
        law_i32_le_roundtrip(command_id);
        law_i32_le_roundtrip(version_id);
        law_i64_le_roundtrip(request_id);
        law_i64_le_roundtrip(session_id);
        law_i32_le_roundtrip(status);
    }
    b
}

/// The status a connect is answered with.
#[derive(Debug, Clone, Copy, PartialEq, Eq, Structural)]
pub enum ConnectReplyStatus {
    /// Accepted: status `0`, with the new session.
    Success,
    /// The account is not activated.
    AccountNotActivated,
    /// No such user.
    UserNotFound,
    /// Refused as for an unknown station or lane: a wrong password, or a user store that could
    /// not be asked.
    NotFoundStationLane,
}

/// The reply status of a connect decision.
pub open spec fn connect_reply_status_of(d: ConnectDecision) -> ConnectReplyStatus {
    match d {
        ConnectDecision::Accept { .. } => ConnectReplyStatus::Success,
        ConnectDecision::AccountNotActivated { .. } => ConnectReplyStatus::AccountNotActivated,
        ConnectDecision::InvalidPassword { .. } => ConnectReplyStatus::NotFoundStationLane,
        ConnectDecision::UserNotFound => ConnectReplyStatus::UserNotFound,
        ConnectDecision::LookupFailed => ConnectReplyStatus::NotFoundStationLane,
    }
}

/// The reply status of a connect decision (see [`connect_reply_status_of`]).
pub fn connect_reply_status(d: &ConnectDecision) -> (r: ConnectReplyStatus)
    ensures
        r == connect_reply_status_of(*d),
{
    match d {
        ConnectDecision::Accept { .. } => ConnectReplyStatus::Success,
        ConnectDecision::AccountNotActivated { .. } => ConnectReplyStatus::AccountNotActivated,
        ConnectDecision::InvalidPassword { .. } => ConnectReplyStatus::NotFoundStationLane,
        ConnectDecision::UserNotFound => ConnectReplyStatus::UserNotFound,
        ConnectDecision::LookupFailed => ConnectReplyStatus::NotFoundStationLane,
    }
}

/// The numbers the protocol gives the connect reply: its length and command, and the three
/// refusal statuses.
#[derive(Debug, Clone, Copy)]
pub struct ConnectReplyCodes {
    pub message_length: i32,
    pub command_id: i32,
    pub account_not_activated: i32,
    pub user_not_found: i32,
    pub not_found_station_lane: i32,
}

/// The status number of a reply status under `codes`; success is `0`.
pub open spec fn connect_status_code(s: ConnectReplyStatus, codes: ConnectReplyCodes) -> i32 {
    match s {
        ConnectReplyStatus::Success => 0,
        ConnectReplyStatus::AccountNotActivated => codes.account_not_activated,
        ConnectReplyStatus::UserNotFound => codes.user_not_found,
        ConnectReplyStatus::NotFoundStationLane => codes.not_found_station_lane,
    }
}

/// The plain bytes of the reply to a connect decided `d`: the request's version and id, the
/// new session `session_id` when accepted (else `0`) and the decision's status.
pub open spec fn connect_reply_plain(d: ConnectDecision, codes: ConnectReplyCodes, version_id: i32, request_id: i64, session_id: i64) -> Seq<u8> {
    let st = connect_reply_status_of(d);
    connect_resp_bytes(codes.message_length, codes.command_id, version_id, request_id,
        if st == ConnectReplyStatus::Success { session_id } else { 0 }, connect_status_code(st, codes))
}

/// The encrypted reply to a connect decided `d` (see [`connect_reply_plain`]), under the
/// connection's `key` and `iv`.
pub fn build_connect_resp(d: &ConnectDecision, codes: &ConnectReplyCodes, version_id: i32, request_id: i64, session_id: i64, key: &[u8], iv: &[u8]) -> (r: Vec<u8>)
    requires
        key@.len() == 16,
        iv@.len() == 16,
    ensures
        r@ == aes128_cbc_pkcs7(key@, iv@, connect_reply_plain(*d, *codes, version_id, request_id, session_id)),
        r@.len() == 48,
{
    let st = connect_reply_status(d);
    let (sid, status) = match st {
        ConnectReplyStatus::Success => (session_id, 0i32),
        ConnectReplyStatus::AccountNotActivated => (0i64, codes.account_not_activated),
        ConnectReplyStatus::UserNotFound => (0i64, codes.user_not_found),
        ConnectReplyStatus::NotFoundStationLane => (0i64, codes.not_found_station_lane),
    };
    let plain = connect_resp_layout(codes.message_length, codes.command_id, version_id, request_id, sid, status);
    encrypt_reply(key, iv, plain.as_slice())
}

/// The bytes of a checkin reply: header, status, tag (24), station, lane, ticket, ticket type,
/// price, vehicle type, plate (10), plate type, price ticket type.
pub open spec fn checkin_in_resp_bytes(r: FE_CHECKIN_IN_RESP) -> Seq<u8> {
    i32_le(r.message_length) + i32_le(r.command_id) + i64_le(r.request_id) + i64_le(r.session_id) + i32_le(r.status)
        + padded(utf8_of(r.etag@), 24) + i32_le(r.station) + i32_le(r.lane) + i64_le(r.ticket_id) + i32_le(r.ticket_type)
        + i32_le(r.price) + i32_le(r.vehicle_type) + padded(utf8_of(r.plate@), 10) + i32_le(r.plate_type)
        + i32_le(r.price_ticket_type)
}

/// Lays out a checkin reply (see [`checkin_in_resp_bytes`]).
pub fn checkin_in_resp_layout(fe_resp: &FE_CHECKIN_IN_RESP) -> (r: Vec<u8>)
    ensures
        r@ == checkin_in_resp_bytes(*fe_resp),
        r@.len() == 98,
{
    let mut b: Vec<u8> = Vec::new();
    push_i32_le(&mut b, fe_resp.message_length);
    push_i32_le(&mut b, fe_resp.command_id);
    push_i64_le(&mut b, fe_resp.request_id);
    push_i64_le(&mut b, fe_resp.session_id);
    push_i32_le(&mut b, fe_resp.status);
    push_padded(&mut b, fe_resp.etag.as_str().as_bytes(), 24);
    push_i32_le(&mut b, fe_resp.station);
    push_i32_le(&mut b, fe_resp.lane);
    push_i64_le(&mut b, fe_resp.ticket_id);
    push_i32_le(&mut b, fe_resp.ticket_type);
    push_i32_le(&mut b, fe_resp.price);
    push_i32_le(&mut b, fe_resp.vehicle_type);
    push_padded(&mut b, fe_resp.plate.as_str().as_bytes(), 10);
    push_i32_le(&mut b, fe_resp.plate_type);
    push_i32_le(&mut b, fe_resp.price_ticket_type);
    proof {
        assert(b@ =~= checkin_in_resp_bytes(*fe_resp));
        law_i32_le_roundtrip(fe_resp.message_length);
        law_i32_le_roundtrip(fe_resp.command_id);
        law_i64_le_roundtrip(fe_resp.request_id);
        law_i64_le_roundtrip(fe_resp.session_id);
        law_i32_le_roundtrip(fe_resp.status);
        law_i32_le_roundtrip(fe_resp.station);
        law_i32_le_roundtrip(fe_resp.lane);
        law_i64_le_roundtrip(fe_resp.ticket_id);
        law_i32_le_roundtrip(fe_resp.ticket_type);
        law_i32_le_roundtrip(fe_resp.price);
        law_i32_le_roundtrip(fe_resp.vehicle_type);
        law_i32_le_roundtrip(fe_resp.plate_type);
        law_i32_le_roundtrip(fe_resp.price_ticket_type);
    }
    b
}

/// The encrypted checkin reply under the connection's `key` and `iv`.
pub fn serialize_and_encrypt_response(fe_resp: &FE_CHECKIN_IN_RESP, key: &[u8], iv: &[u8]) -> (r: Vec<u8>)
    requires
        key@.len() == 16,
        iv@.len() == 16,
    ensures
        r@ == aes128_cbc_pkcs7(key@, iv@, checkin_in_resp_bytes(*fe_resp)),
        r@.len() == 112,
{
    let plain = checkin_in_resp_layout(fe_resp);
    encrypt_reply(key, iv, plain.as_slice())
}

/// The bytes of a commit reply: length, command, request, session, status.
pub open spec fn commit_resp_bytes(r: FE_COMMIT_IN_RESP) -> Seq<u8> {
    i32_le(r.message_length) + i32_le(r.command_id) + i64_le(r.request_id) + i64_le(r.session_id) + i32_le(r.status)
}

/// The encrypted commit reply under the connection's `key` and `iv`.
pub fn serialize_and_encrypt_commit_response(fe_resp: &FE_COMMIT_IN_RESP, key: &[u8], iv: &[u8]) -> (r: Vec<u8>)
    requires
        key@.len() == 16,
        iv@.len() == 16,
    ensures
        r@ == aes128_cbc_pkcs7(key@, iv@, commit_resp_bytes(*fe_resp)),
        r@.len() == 32,
{
    let mut b: Vec<u8> = Vec::new();
    push_i32_le(&mut b, fe_resp.message_length);
    push_i32_le(&mut b, fe_resp.command_id);
    push_i64_le(&mut b, fe_resp.request_id);
    push_i64_le(&mut b, fe_resp.session_id);
    push_i32_le(&mut b, fe_resp.status);
    proof {
        assert(b@ =~= commit_resp_bytes(*fe_resp));
        law_i32_le_roundtrip(fe_resp.message_length);
        law_i32_le_roundtrip(fe_resp.command_id);
        law_i64_le_roundtrip(fe_resp.request_id);
        law_i64_le_roundtrip(fe_resp.session_id);
        law_i32_le_roundtrip(fe_resp.status);
    }
    encrypt_reply(key, iv, b.as_slice())
}

} // verus!
