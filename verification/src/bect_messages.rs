//! BOO protocol messages shared by the BECT and card-issuer flows.
#![allow(non_camel_case_types)]
#![allow(non_snake_case)]

use vstd::prelude::*;
use crate::rating_detail::RatingDetail;

verus! {

/// CHECKIN_RESERVE_BOO (2A) – Back-End sends to card-issuer to reserve balance at check-in.
/// Command ID: 102 (0x66). Size: 172 bytes.
#[derive(Debug, Clone, Default)]
pub struct CHECKIN_RESERVE_BOO {
    pub message_length: i32,
    pub command_id: i32,
    pub version_id: i32,
    pub request_id: i64,
    pub session_id: i64,
    pub timestamp: i64,
    pub ticket_id_in: i64,
    pub tid: String,
    pub etag: String,
    pub station: i32,
    pub lane: i32,
    pub station_type: String,
    pub lane_type: String,
    pub vehicle_type: i32,
    pub ticket_type: String,
    pub price_ticket_type: i32,
    pub subscription_id: String,
    pub trans_amount: i32,
    pub trans_datetime: i64,
    pub general1: [u8; 8],
    pub general2: [u8; 16],
}

/// CHECKIN_RESERVE_BOO_RESP (2B) – Card-issuer response to check-in reserve.
/// Command ID: 103 (0x67). Size: 76 bytes.
#[derive(Debug, Clone, Default)]
pub struct CHECKIN_RESERVE_BOO_RESP {
    pub message_length: i32,
    pub command_id: i32,
    pub version_id: i32,
    pub request_id: i64,
    pub session_id: i64,
    pub timestamp: i64,
    pub process_time: i32,
    pub ref_trans_id: i64,
    pub status: i32,
    pub general1: [u8; 8],
    pub general2: [u8; 16],
}

/// QUERY_VEHICLE_BOO (1A) – Highway Back-End sends to Card-issuer Back-End to query vehicle and account status at station entry.
/// Command ID: 100 (0x64). Size: 122 bytes.
#[derive(Debug, Clone, Default)]
pub struct QUERY_VEHICLE_BOO {
    pub message_length: i32,
    pub command_id: i32,
    pub version_id: i32,
    pub request_id: i64,
    pub session_id: i64,
    pub timestamp: i64,
    pub tid: String,
    pub etag: String,
    pub station: i32,
    pub lane: i32,
    pub station_type: String,
    pub lane_type: String,
    pub min_balance: i32,
    pub general1: [u8; 8],
    pub general2: [u8; 16],
}

/// QUERY_VEHICLE_BOO_RESP (1B) – Card-issuer Back-End response to QUERY_VEHICLE_BOO (1A).
/// Command ID: 101 (0x65). Size: 133 bytes.
#[derive(Debug, Clone, Default)]
pub struct QUERY_VEHICLE_BOO_RESP {
    pub message_length: i32,
    pub command_id: i32,
    pub version_id: i32,
    pub request_id: i64,
    pub session_id: i64,
    pub timestamp: i64,
    pub process_time: i32,
    pub etag: String,
    pub vehicle_type: i32,
    pub ticket_type: String,
    pub register_vehicle_type: String,
    pub seat: i32,
    pub weight_goods: i32,
    pub weight_all: i32,
    pub plate: String,
    pub status: i32,
    pub min_balance_status: i32,
    pub general1: [u8; 8],
    pub general2: [u8; 16],
}

/// LOOKUP_VEHICLE – FE sends to Back-End to lookup vehicle by etag. Command ID: 150 (0x96). Size: 110 bytes.
#[derive(Debug, Clone, Default)]
pub struct LOOKUP_VEHICLE {
    pub message_length: i32,
    pub command_id: i32,
    pub version_id: i32,
    pub request_id: i64,
    pub session_id: i64,
    pub timestamp: i64,
    pub tid: String,
    pub etag: String,
    pub station: i32,
    pub lane: i32,
    pub station_type: String,
    pub lane_type: String,
    pub general1: [u8; 8],
    pub general2: [u8; 8],
}

/// LOOKUP_VEHICLE_RESP – Back-End response to LOOKUP_VEHICLE. Command ID: 151 (0x97). Size: 197 bytes.
#[derive(Debug, Clone)]
pub struct LOOKUP_VEHICLE_RESP {
    pub message_length: i32,
    pub command_id: i32,
    pub version_id: i32,
    pub request_id: i64,
    pub session_id: i64,
    pub timestamp: i64,
    pub process_time: i32,
    pub etag: String,
    pub vehicle_type: i32,
    pub ticket_type: String,
    pub register_vehicle_type: String,
    pub seat: i32,
    pub weight_goods: i32,
    pub weight_all: i32,
    pub plate: String,
    pub status: i32,
    pub min_balance_status: i32,
    pub general1: [u8; 8],
    pub general2: [u8; 16],
    pub extra: [u8; 64],
}

/// CHECKIN_COMMIT_BOO (3A) – Highway Back-End sends to Card-issuer Back-End to commit check-in.
/// Command ID: 104 (0x68). Size: 152 bytes.
#[derive(Debug, Clone, Default)]
pub struct CHECKIN_COMMIT_BOO {
    pub message_length: i32,
    pub command_id: i32,
    pub version_id: i32,
    pub request_id: i64,
    pub session_id: i64,
    pub timestamp: i64,
    pub ticket_id: i64,
    pub ref_trans_id: i64,
    pub tid: String,
    pub etag: String,
    pub station: i32,
    pub station_type: String,
    pub lane_type: String,
    pub lane: i32,
    pub plate_from_toll: String,
    pub commit_datetime: i64,
    pub general1: [u8; 8],
    pub general2: [u8; 16],
}

/// Check-in commit response: the same layout as [`COMMIT_BOO_RESP`].
pub type CHECKIN_COMMIT_BOO_RESP = COMMIT_BOO_RESP;

/// COMMIT_BOO_RESP (3B) – Same as CHECKIN_COMMIT_BOO_RESP. Command ID: 105 (0x69). Size: 84 bytes.
#[derive(Debug, Clone, Default)]
pub struct COMMIT_BOO_RESP {
    pub message_length: i32,
    pub command_id: i32,
    pub version_id: i32,
    pub request_id: i64,
    pub session_id: i64,
    pub timestamp: i64,
    pub process_time: i32,
    pub ticket_id: i64,
    pub ref_trans_id: i64,
    pub status: i32,
    pub general1: [u8; 8],
    pub general2: [u8; 16],
}

/// CHECKIN_ROLLBACK_BOO (3A) – Highway Back-End sends to Card-issuer Back-End to rollback check-in.
/// Command ID: 106 (0x6A). Size: 152 bytes.
#[derive(Debug, Clone, Default)]
pub struct CHECKIN_ROLLBACK_BOO {
    pub message_length: i32,
    pub command_id: i32,
    pub version_id: i32,
    pub request_id: i64,
    pub session_id: i64,
    pub timestamp: i64,
    pub ticket_id: i64,
    pub ref_trans_id: i64,
    pub tid: String,
    pub etag: String,
    pub station: i32,
    pub station_type: String,
    pub lane_type: String,
    pub lane: i32,
    pub plate_from_toll: String,
    pub commit_datetime: i64,
    pub general1: [u8; 8],
    pub general2: [u8; 16],
}

/// Check-in rollback response: the same layout as [`ROLLBACK_BOO_RESP`].
pub type CHECKIN_ROLLBACK_BOO_RESP = ROLLBACK_BOO_RESP;

/// ROLLBACK_BOO_RESP (3B) – Same as CHECKIN_ROLLBACK_BOO_RESP. Command ID: 107 (0x6B). Size: 84 bytes.
#[derive(Debug, Clone, Default)]
pub struct ROLLBACK_BOO_RESP {
    pub message_length: i32,
    pub command_id: i32,
    pub version_id: i32,
    pub request_id: i64,
    pub session_id: i64,
    pub timestamp: i64,
    pub process_time: i32,
    pub ticket_id: i64,
    pub ref_trans_id: i64,
    pub status: i32,
    pub general1: [u8; 8],
    pub general2: [u8; 16],
}

/// CHECKOUT_RESERVE_BOO (2AZ) – Exit-station Back-End sends to card-issuer Back-End to request reserve amount for checkout.
/// Command ID: 152 (0x98). Size: variable (depends on rating_detail_line).
#[derive(Debug, Clone, Default)]
pub struct CHECKOUT_RESERVE_BOO {
    pub message_length: i32,
    pub command_id: i32,
    pub version_id: i32,
    pub request_id: i64,
    pub session_id: i64,
    pub timestamp: i64,
    pub tid: String,
    pub etag: String,
    pub ticket_in_id: i64,
    pub hub_id: Option<i64>,
    pub ticket_eTag_id: i64,
    pub ticket_out_id: i64,
    pub checkin_datetime: i64,
    pub checkin_commit_datetime: i64,
    pub station_in: i32,
    pub lane_in: i32,
    pub station_out: i32,
    pub lane_out: i32,
    pub plate: String,
    pub ticket_type: String,
    pub price_ticket_type: i32,
    pub trans_amount: i32,
    pub trans_datetime: i64,
    pub rating_detail_line: i32,
    pub rating_detail: Vec<RatingDetail>,
    pub general1: [u8; 8],
    pub general2: [u8; 16],
}

/// CHECKOUT_RESERVE_BOO_RESP (2BZ) – Card-issuer Back-End response to CHECKOUT_RESERVE_BOO (2AZ).
/// Command ID: 153 (0x99). Size: 100 bytes. Status 0 = success.
#[derive(Debug, Clone, Default)]
pub struct CHECKOUT_RESERVE_BOO_RESP {
    pub message_length: i32,
    pub command_id: i32,
    pub version_id: i32,
    pub request_id: i64,
    pub session_id: i64,
    pub timestamp: i64,
    pub process_time: i32,
    pub ticket_in_id: i64,
    pub hub_id: Option<i64>,
    pub ticket_eTag_id: i64,
    pub ticket_out_id: i64,
    pub status: i32,
    pub general1: [u8; 8],
    pub general2: [u8; 16],
}

/// CHECKOUT_COMMIT_BOO (3AZ) – Exit-station Back-End sends to card-issuer Back-End to request commit of checkout.
/// Command ID: 154 (0x9A). Size: 188 bytes.
#[derive(Debug, Clone, Default)]
pub struct CHECKOUT_COMMIT_BOO {
    pub message_length: i32,
    pub command_id: i32,
    pub version_id: i32,
    pub request_id: i64,
    pub session_id: i64,
    pub timestamp: i64,
    pub tid: String,
    pub etag: String,
    pub ticket_in_id: i64,
    pub hub_id: i64,
    pub ticket_out_id: i64,
    pub ticket_eTag_id: i64,
    pub station_in: i32,
    pub lane_in: i32,
    pub station_out: i32,
    pub lane_out: i32,
    pub plate: String,
    pub trans_amount: i32,
    pub trans_datetime: i64,
    pub general1: [u8; 8],
    pub general2: [u8; 16],
}

/// CHECKOUT_COMMIT_BOO_RESP (3BZ) – Card-issuer Back-End response to CHECKOUT_COMMIT_BOO (3AZ).
/// Command ID: 155 (0x9B). Size: 96 bytes. Status 0 = success.
#[derive(Debug, Clone, Default)]
pub struct CHECKOUT_COMMIT_BOO_RESP {
    pub message_length: i32,
    pub command_id: i32,
    pub version_id: i32,
    pub request_id: i64,
    pub session_id: i64,
    pub timestamp: i64,
    pub ticket_in_id: i64,
    pub hub_id: i64,
    pub ticket_eTag_id: i64,
    pub ticket_out_id: i64,
    pub status: i32,
    pub general1: [u8; 8],
    pub general2: [u8; 16],
}

/// CHECKOUT_ROLLBACK_BOO (3AZ) – Exit-station Back-End sends to card-issuer Back-End to request rollback of checkout.
/// Command ID: 156 (0x9C). Size: 178 bytes.
#[derive(Debug, Clone, Default)]
pub struct CHECKOUT_ROLLBACK_BOO {
    pub message_length: i32,
    pub command_id: i32,
    pub version_id: i32,
    pub request_id: i64,
    pub session_id: i64,
    pub timestamp: i64,
    pub tid: String,
    pub etag: String,
    pub ticket_in_id: i64,
    pub hub_id: i64,
    pub ticket_out_id: i64,
    pub ticket_eTag_id: i64,
    pub station_in: i32,
    pub lane_in: i32,
    pub station_out: i32,
    pub lane_out: i32,
    pub plate: String,
    pub trans_amount: i32,
    pub trans_datetime: i64,
    pub general1: [u8; 8],
    pub general2: [u8; 16],
}

/// CHECKOUT_ROLLBACK_BOO_RESP (3BZ) – Card-issuer Back-End response to CHECKOUT_ROLLBACK_BOO (3AZ).
/// Command ID: 157 (0x9D). Size: 96 bytes. Status 0 = success.
#[derive(Debug, Clone, Default)]
pub struct CHECKOUT_ROLLBACK_BOO_RESP {
    pub message_length: i32,
    pub command_id: i32,
    pub version_id: i32,
    pub request_id: i64,
    pub session_id: i64,
    pub timestamp: i64,
    pub ticket_in_id: i64,
    pub hub_id: i64,
    pub ticket_eTag_id: i64,
    pub ticket_out_id: i64,
    pub status: i32,
    pub general1: [u8; 8],
    pub general2: [u8; 16],
}

} // verus!
