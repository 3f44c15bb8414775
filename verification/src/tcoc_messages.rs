//! Front-end (lane controller) protocol messages: connect, handshake, checkin, commit, rollback, terminate.
#![allow(non_camel_case_types)]
#![allow(non_snake_case)]

use vstd::prelude::*;


verus! {

#[derive(Debug, Clone, Default)]
pub struct FE_REQUEST {
    pub message_length: i32,
    pub command_id: i32,
    pub request_id: i64,
    pub session_id: i64,
}

#[derive(Debug, Clone, Default)]
pub struct FE_CONNECT {
    pub message_length: i32,
    pub command_id: i32,
    pub version_id: i32,
    pub request_id: i64,
    pub username: String,
    pub password: String,
    pub timeout: i32,
}

#[derive(Debug, Clone, Default)]
pub struct FE_CONNECT_RESP {
    pub message_length: i32,
    pub command_id: i32,
    pub version_id: i32,
    pub request_id: i64,
    pub session_id: i64,
    pub status: i32,
}

#[derive(Debug, Clone, Default)]
pub struct FE_SHAKE {
    pub message_length: i32,
    pub command_id: i32,
    pub version_id: i32,
    pub request_id: i64,
    pub session_id: i64,
}

#[derive(Debug, Clone, Default)]
pub struct FE_SHAKE_RESP {
    pub message_length: i32,
    pub command_id: i32,
    pub version_id: i32,
    pub request_id: i64,
    pub session_id: i64,
    pub status: i32,
}

#[derive(Debug, Clone, Default)]
pub struct FE_CHECKIN {
    pub message_length: i32,
    pub command_id: i32,
    pub request_id: i64,
    pub session_id: i64,
    pub etag: String,
    pub station: i32,
    pub lane: i32,
    pub plate: String,
    pub tid: String,
    pub hash_value: String,
}

#[derive(Debug, Clone, Default)]
pub struct FE_CHECKIN_IN_RESP {
    pub message_length: i32,
    pub command_id: i32,
    pub request_id: i64,
    pub session_id: i64,
    pub status: i32,
    pub etag: String,
    pub station: i32,
    pub lane: i32,
    pub ticket_id: i64,
    pub ticket_type: i32,
    pub price: i32,
    pub vehicle_type: i32,
    pub plate: String,
    pub plate_type: i32,
    pub price_ticket_type: i32,
}

/// FE COMMIT – Front End request to deduct vehicle account at station.
///
/// **REQUEST HEADER**
/// - Message Length = 98 (fixed)
/// - Command Id: 0x06
/// - Request Id: unique from Front End (Long, 8 bytes)
/// - Session Id: from CONNECT RESP (Long, 8 bytes)
///
/// **REQUEST BODY**
///
/// | Field             | Bytes | Type   | Mandatory | Description |
/// |-------------------|-------|--------|-----------|-------------|
/// | Message Length    | 4     | Int    | M         | Fixed 98 bytes |
/// | Command Id        | 4     | Int    | M         | 0x06 |
/// | Request Id        | 8     | Long   | M         | Unique id from FE |
/// | Session Id        | 8     | Long   | M         | Session from BE |
/// | Etag              | 24    | String | M         | Vehicle eTag EPC |
/// | Station           | 4     | Int    | M         | Toll station in use |
/// | Lane              | 4     | Int    | O         | Lane code; 0 if unknown |
/// | Ticket Id         | 8     | Long   | M         | From CHECKIN RESP (Reserve) |
/// | Status            | 4     | Int    | M         | Plate match status (image comparison) |
/// | Plate             | 10    | String | O         | Actual plate from camera |
/// | Image Count       | 4     | Int    | O         | Number of images; names TicketId_0x |
/// | Vehicle Length    | 4     | Int    | O         | Length (cm); 0 if unknown |
/// | Transaction Amount| 4     | Int    | O         | Amount FE calculated; 0 = use BE from CHECKIN_RESP |
/// | Weight            | 4     | Int    | O         | Weight; 0 if unknown |
/// | Reason ID         | 4     | Int    | O         | Commit/rollback reason; default 0 |
///
/// **Total: 98 bytes**
#[derive(Debug, Clone, Default)]
pub struct FE_COMMIT_IN {
    pub message_length: i32,
    pub command_id: i32,
    pub request_id: i64,
    pub session_id: i64,
    pub etag: String,
    pub station: i32,
    pub lane: i32,
    pub ticket_id: i64,
    pub status: i32,
    pub plate: String,
    pub image_count: i32,
    pub vehicle_length: i32,
    pub transaction_amount: i32,
    pub weight: i32,
    pub reason_id: i32,
}

#[derive(Debug, Clone, Default)]
pub struct FE_COMMIT_IN_RESP {
    pub message_length: i32,
    pub command_id: i32,
    pub request_id: i64,
    pub session_id: i64,
    pub status: i32,
}

#[derive(Debug, Clone, Default)]
pub struct FE_ROLLBACK {
    pub message_length: i32,
    pub command_id: i32,
    pub request_id: i64,
    pub session_id: i64,
    pub etag: String,
    pub station: i32,
    pub lane: i32,
    pub ticket_id: i64,
    pub status: i32,
    pub plate: String,
    pub image_count: i32,
    pub weight: i32,
    pub reason_id: i32,
}

#[derive(Debug, Clone, Default)]
pub struct FE_ROLLBACK_RESP {
    pub message_length: i32,
    pub command_id: i32,
    pub request_id: i64,
    pub session_id: i64,
    pub status: i32,
}

#[derive(Debug, Clone, Default)]
pub struct FE_TERMINATE {
    pub message_length: i32,
    pub command_id: i32,
    pub request_id: i64,
    pub session_id: i64,
}

#[derive(Debug, Clone, Default)]
pub struct FE_TERMINATE_RESP {
    pub message_length: i32,
    pub command_id: i32,
    pub request_id: i64,
    pub session_id: i64,
    pub status: i32,
}

} // verus!
