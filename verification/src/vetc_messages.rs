//! VETC card-issuer protocol messages.
#![allow(non_camel_case_types)]
#![allow(non_snake_case)]

use vstd::prelude::*;


verus! {

#[derive(Debug, Clone, Default)]
pub struct VETC_REQUEST {
    pub message_length: i32,
    pub command_id: i32,
    pub version_id: i32,
    pub request_id: i64,
    pub session_id: i64,
}

#[derive(Debug, Clone, Default)]
pub struct VETC_CONNECT {
    pub message_length: i32,
    pub command_id: i32,
    pub version_id: i32,
    pub request_id: i64,
    pub username: String,
    pub password: String,
    pub timeout: i32,
}

#[derive(Debug, Clone, Default)]
pub struct VETC_CONNECT_RESP {
    pub message_length: i32,
    pub command_id: i32,
    pub version_id: i32,
    pub request_id: i64,
    pub session_id: i64,
    pub status: i32,
}

#[derive(Debug, Clone, Default)]
pub struct VETC_SHAKE {
    pub message_length: i32,
    pub command_id: i32,
    pub version_id: i32,
    pub request_id: i64,
    pub session_id: i64,
}

#[derive(Debug, Clone, Default)]
pub struct VETC_SHAKE_RESP {
    pub message_length: i32,
    pub command_id: i32,
    pub version_id: i32,
    pub request_id: i64,
    pub session_id: i64,
    pub status: i32,
}

/// VETC_TERMINATE - terminate message
#[derive(Debug, Clone, Default)]
pub struct VETC_TERMINATE {
    pub message_length: i32,
    pub command_id: i32,
    pub version_id: i32,
    pub request_id: i64,
    pub session_id: i64,
}

/// VETC_TERMINATE_RESP - terminate response message
#[derive(Debug, Clone, Default)]
pub struct VETC_TERMINATE_RESP {
    pub message_length: i32,
    pub command_id: i32,
    pub version_id: i32,
    pub request_id: i64,
    pub session_id: i64,
    pub status: i32,
}

#[derive(Debug, Clone, Default)]
pub struct VETC_CHECKIN_RESERVE_BOO {
    pub message_length: i32,
    pub command_id: i32,
    pub version_id: i32,
    pub request_id: i64,
    pub session_id: i64,
    pub timestamp: i64,
    pub ticket_id_in: i64,
    pub tid: String,
    pub etag: String,
    pub station: i32,
    pub lane: i32,
    pub station_type: String,
    pub lane_type: String,
    pub vehicle_type: i32,
    pub ticket_type: String,
    pub price_ticket_type: i32,
    pub subscription_id: String,
    pub trans_amount: i32,
    pub trans_datetime: i64,
    pub general1: [u8; 8],
    pub general2: [u8; 16],
}

#[derive(Debug, Clone, Default)]
pub struct VETC_QUERY_VEHICLE_BOO {
    pub message_length: i32,
    pub command_id: i32,
    pub version_id: i32,
    pub request_id: i64,
    pub session_id: i64,
    pub timestamp: i64,
    pub tid: String,
    pub etag: String,
    pub station: i32,
    pub lane: i32,
    pub station_type: String,
    pub lane_type: String,
    pub min_balance: i32,
    pub general1: [u8; 8],
    pub general2: [u8; 16],
}

#[derive(Debug, Clone, Default)]
pub struct VETC_QUERY_VEHICLE_BOO_RESP {
    pub message_length: i32,
    pub command_id: i32,
    pub version_id: i32,
    pub request_id: i64,
    pub session_id: i64,
    pub timestamp: i64,
    pub process_time: i32,
    pub etag: String,
    pub vehicle_type: i32,
    pub ticket_type: String,
    pub register_vehicle_type: String,
    pub seat: i32,
    pub weight_goods: i32,
    pub weight_all: i32,
    pub plate: String,
    pub status: i32,
    pub min_balance_status: i32,
    pub general1: [u8; 8],
    pub general2: [u8; 16],
}

/// LOOKUP_VEHICLE (1AZ) - 110 bytes. The exit station asks the BOO for a check-in record it could not find.
#[derive(Debug, Clone, Default)]
pub struct VETC_LOOKUP_VEHICLE {
    pub message_length: i32,
    pub command_id: i32,
    pub version_id: i32,
    pub request_id: i64,
    pub session_id: i64,
    pub timestamp: i64,
    pub tid: String,
    pub etag: String,
    pub station_type: String,
    pub lane_type: String,
    pub general1: [u8; 8],
    pub general2: [u8; 16],
}

/// LOOKUP_VEHICLE_RESP (1BZ) - 197 bytes. The BOO returns the check-in data.
#[derive(Debug, Clone, Default)]
pub struct VETC_LOOKUP_VEHICLE_RESP {
    pub message_length: i32,
    pub command_id: i32,
    pub version_id: i32,
    pub request_id: i64,
    pub session_id: i64,
    pub timestamp: i64,
    pub tid: String,
    pub etag: String,
    pub plate: String,
    pub ticket_in_id: i64,
    pub hub_id: i64,
    pub ticket_eTag_id: i64,
    pub station: i32,
    pub lane: i32,
    pub register_vehicle_type: String,
    pub ticket_type: String,
    pub seat: i32,
    pub weight_goods: i32,
    pub weight_all: i32,
    pub vehicle_type: i32,
    pub status: i32,
    pub checkin_datetime: i64,
    pub checkin_commit_datetime: i64,
    pub general1: [u8; 8],
    pub general2: [u8; 16],
}

#[derive(Debug, Clone, Default)]
pub struct VETC_CHECKIN_RESERVE_BOO_RESP {
    pub message_length: i32,
    pub command_id: i32,
    pub version_id: i32,
    pub request_id: i64,
    pub session_id: i64,
    pub timestamp: i64,
    pub process_time: i32,
    pub ref_trans_id: i64,
    pub status: i32,
    pub general1: [u8; 8],
    pub general2: [u8; 16],
}

#[derive(Debug, Clone, Default)]
pub struct VETC_COMMIT_BOO {
    pub message_length: i32,
    pub command_id: i32,
    pub version_id: i32,
    pub request_id: i64,
    pub session_id: i64,
    pub timestamp: i64,
    pub ticket_id: i64,
    pub ref_trans_id: i64,
    pub tid: String,
    pub etag: String,
    pub station: i32,
    pub station_type: String,
    pub lane_type: String,
    pub lane: i32,
    pub plate_from_toll: String,
    pub commit_datetime: i64,
    pub general1: [u8; 8],
    pub general2: [u8; 16],
}

#[derive(Debug, Clone, Default)]
pub struct VETC_COMMIT_BOO_RESP {
    pub message_length: i32,
    pub command_id: i32,
    pub version_id: i32,
    pub request_id: i64,
    pub session_id: i64,
    pub timestamp: i64,
    pub process_time: i32,
    pub ticket_id: i64,
    pub ref_trans_id: i64,
    pub status: i32,
    pub general1: [u8; 8],
    pub general2: [u8; 16],
}

/// VETC_CHECKIN_ROLLBACK_BOO - check-in rollback message
#[derive(Debug, Clone, Default)]
pub struct VETC_CHECKIN_ROLLBACK_BOO {
    pub message_length: i32,
    pub command_id: i32,
    pub version_id: i32,
    pub request_id: i64,
    pub session_id: i64,
    pub timestamp: i64,
    pub ticket_id: i64,
    pub ref_trans_id: i64,
    pub tid: String,
    pub etag: String,
    pub station: i32,
    pub station_type: String,
    pub lane_type: String,
    pub lane: i32,
    pub plate_from_toll: String,
    pub commit_datetime: i64,
    pub general1: [u8; 8],
    pub general2: [u8; 16],
}

/// VETC_CHECKIN_ROLLBACK_BOO_RESP - check-in rollback response message
#[derive(Debug, Clone, Default)]
pub struct VETC_CHECKIN_ROLLBACK_BOO_RESP {
    pub message_length: i32,
    pub command_id: i32,
    pub version_id: i32,
    pub request_id: i64,
    pub session_id: i64,
    pub timestamp: i64,
    pub process_time: i32,
    pub ticket_id: i64,
    pub ref_trans_id: i64,
    pub status: i32,
    pub general1: [u8; 8],
    pub general2: [u8; 16],
}

/// One fee line of a checkout rating.
/// Covers BOOA, BOOB and BOO3.
#[derive(Debug, Clone, Default)]
pub struct RatingDetail {
    pub price_id: Option<i64>,
    pub boo: i32,
    pub toll_a_id: i32,
    pub toll_b_id: i32,
    pub ticket_type: String,
    pub subscription_id: String,
    pub price_ticket_type: i32,
    pub price_amount: i32,
    pub vehicle_type: i32,
    pub bot_id: Option<i64>,
    pub stage_id: Option<i64>,
}

/// VETC_CHECKOUT_RESERVE_BOO - checkout reserve message
/// Its size depends on the number of detail lines (rating_detail_line).
#[derive(Debug, Clone, Default)]
pub struct VETC_CHECKOUT_RESERVE_BOO {
    pub message_length: i32,
    pub command_id: i32,
    pub version_id: i32,
    pub request_id: i64,
    pub session_id: i64,
    pub timestamp: i64,
    pub tid: String,
    pub etag: String,
    pub ticket_in_id: i64,
    pub hub_id: Option<i64>,
    pub ticket_eTag_id: i64,
    pub ticket_out_id: i64,
    pub checkin_datetime: i64,
    pub checkin_commit_datetime: i64,
    pub station_in: i32,
    pub lane_in: i32,
    pub station_out: i32,
    pub lane_out: i32,
    pub plate: String,
    pub ticket_type: String,
    pub price_ticket_type: i32,
    pub trans_amount: i32,
    pub trans_datetime: i64,
    pub rating_detail_line: i32,
    pub rating_detail: Vec<RatingDetail>,
    pub general1: [u8; 8],
    pub general2: [u8; 16],
}

/// VETC_CHECKOUT_RESERVE_BOO_RESP - checkout reserve response message
#[derive(Debug, Clone, Default)]
pub struct VETC_CHECKOUT_RESERVE_BOO_RESP {
    pub message_length: i32,
    pub command_id: i32,
    pub version_id: i32,
    pub request_id: i64,
    pub session_id: i64,
    pub timestamp: i64,
    pub process_time: i32,
    pub ticket_in_id: i64,
    pub hub_id: Option<i64>,
    pub ticket_eTag_id: i64,
    pub ticket_out_id: i64,
    pub status: i32,
    pub general1: [u8; 8],
    pub general2: [u8; 16],
}

/// VETC_CHECKOUT_COMMIT_BOO - checkout commit message
#[derive(Debug, Clone, Default)]
pub struct VETC_CHECKOUT_COMMIT_BOO {
    pub message_length: i32,
    pub command_id: i32,
    pub version_id: i32,
    pub request_id: i64,
    pub session_id: i64,
    pub timestamp: i64,
    pub tid: String,
    pub etag: String,
    pub ticket_in_id: i64,
    pub hub_id: Option<i64>,
    pub ticket_out_id: i64,
    pub ticket_eTag_id: i64,
    pub station_in: i32,
    pub lane_in: i32,
    pub station_out: i32,
    pub lane_out: i32,
    pub plate: String,
    pub trans_amount: i32,
    pub trans_datetime: i64,
    pub general1: [u8; 8],
    pub general2: [u8; 16],
}

/// VETC_CHECKOUT_COMMIT_BOO_RESP - checkout commit response message
#[derive(Debug, Clone, Default)]
pub struct VETC_CHECKOUT_COMMIT_BOO_RESP {
    pub message_length: i32,
    pub command_id: i32,
    pub version_id: i32,
    pub request_id: i64,
    pub session_id: i64,
    pub timestamp: i64,
    pub ticket_in_id: i64,
    pub hub_id: Option<i64>,
    pub ticket_eTag_id: i64,
    pub ticket_out_id: i64,
    pub status: i32,
    pub general1: [u8; 8],
    pub general2: [u8; 16],
}

/// VETC_CHECKOUT_ROLLBACK_BOO - checkout rollback message
#[derive(Debug, Clone, Default)]
pub struct VETC_CHECKOUT_ROLLBACK_BOO {
    pub message_length: i32,
    pub command_id: i32,
    pub version_id: i32,
    pub request_id: i64,
    pub session_id: i64,
    pub timestamp: i64,
    pub tid: String,
    pub etag: String,
    pub ticket_in_id: i64,
    pub hub_id: Option<i64>,
    pub ticket_out_id: i64,
    pub ticket_eTag_id: i64,
    pub station_in: i32,
    pub lane_in: i32,
    pub station_out: i32,
    pub lane_out: i32,
    pub plate: String,
    pub trans_amount: i32,
    pub trans_datetime: i64,
    pub general1: [u8; 8],
    pub general2: [u8; 16],
}

/// VETC_CHECKOUT_ROLLBACK_BOO_RESP - checkout rollback response message
#[derive(Debug, Clone, Default)]
pub struct VETC_CHECKOUT_ROLLBACK_BOO_RESP {
    pub message_length: i32,
    pub command_id: i32,
    pub version_id: i32,
    pub request_id: i64,
    pub session_id: i64,
    pub timestamp: i64,
    pub ticket_in_id: i64,
    pub hub_id: Option<i64>,
    pub ticket_eTag_id: i64,
    pub ticket_out_id: i64,
    pub status: i32,
    pub general1: [u8; 8],
    pub general2: [u8; 16],
}

} // verus!
