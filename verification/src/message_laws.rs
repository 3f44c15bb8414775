//! Where each field of the binary messages stands: what a reader of a request gets from the
//! bytes at each offset, and where each field of a reply lands.

use vstd::prelude::*;
use crate::bect_messages::{
    CHECKOUT_COMMIT_BOO, CHECKOUT_COMMIT_BOO_RESP, CHECKOUT_RESERVE_BOO, CHECKOUT_RESERVE_BOO_RESP, LOOKUP_VEHICLE,
    LOOKUP_VEHICLE_RESP, QUERY_VEHICLE_BOO, QUERY_VEHICLE_BOO_RESP,
};
use crate::boo_codec::{
    checkout_commit_from, checkout_commit_resp_bytes, checkout_reserve_from, checkout_reserve_resp_bytes, hub_or_zero,
    lookup_vehicle_from, lookup_vehicle_resp_bytes, nul_trimmed_field, query_vehicle_from, query_vehicle_resp_bytes,
    text_field, ticket_type_byte, utf8_of, rating_detail_from, code_field, detail_count,
};
use crate::rating_detail::RatingDetail;
use crate::connect_rules::connect_from;
use crate::fe_codec::{fe_checkin_from, fe_commit_in_from, fe_rollback_from, raw_text};
use crate::connect_rules::ConnectDecision;
use crate::fe_reply::{checkin_in_resp_bytes, commit_resp_bytes, connect_reply_plain, connect_resp_bytes, ConnectReplyCodes};
use crate::tcoc_messages::{FE_CHECKIN, FE_CHECKIN_IN_RESP, FE_COMMIT_IN, FE_COMMIT_IN_RESP, FE_CONNECT, FE_ROLLBACK};
use crate::wire::{
    i32_le, i64_le, law_i32_le_roundtrip, law_i64_le_roundtrip, le_i32_at, le_i64_at, lemma_read_back_i32,
    lemma_read_back_i64, padded, utf8_lossy,
};

verus! {

/// A checkout commit request read from `d` holds each integer field as written little-endian at its
/// place in the message (`message_length` at 0, `command_id` at 4, `version_id` at 8, `request_id`
/// at 12, `session_id` at 20, `timestamp` at 28, `ticket_in_id` at 84, `hub_id` at 92,
/// `ticket_out_id` at 100, `ticket_eTag_id` at 108, `station_in` at 116, `lane_in` at 120,
/// `station_out` at 124, `lane_out` at 128, `trans_amount` at 152, `trans_datetime` at 156), and
/// each text or raw field from its own bytes.
pub proof fn law_checkout_commit_fields_at_offsets(d: Seq<u8>, r: CHECKOUT_COMMIT_BOO, message_length: i32, command_id: i32, version_id: i32, request_id: i64, session_id: i64, timestamp: i64, ticket_in_id: i64, hub_id: i64, ticket_out_id: i64, ticket_eTag_id: i64, station_in: i32, lane_in: i32, station_out: i32, lane_out: i32, trans_amount: i32, trans_datetime: i64)
    requires
        checkout_commit_from(d, r),
        d.len() >= 188,
        d.subrange(0, 4) == i32_le(message_length),
        d.subrange(4, 8) == i32_le(command_id),
        d.subrange(8, 12) == i32_le(version_id),
        d.subrange(12, 20) == i64_le(request_id),
        d.subrange(20, 28) == i64_le(session_id),
        d.subrange(28, 36) == i64_le(timestamp),
        d.subrange(84, 92) == i64_le(ticket_in_id),
        d.subrange(92, 100) == i64_le(hub_id),
        d.subrange(100, 108) == i64_le(ticket_out_id),
        d.subrange(108, 116) == i64_le(ticket_eTag_id),
        d.subrange(116, 120) == i32_le(station_in),
        d.subrange(120, 124) == i32_le(lane_in),
        d.subrange(124, 128) == i32_le(station_out),
        d.subrange(128, 132) == i32_le(lane_out),
        d.subrange(152, 156) == i32_le(trans_amount),
        d.subrange(156, 164) == i64_le(trans_datetime),
    ensures
        r.message_length == message_length,
        r.command_id == command_id,
        r.version_id == version_id,
        r.request_id == request_id,
        r.session_id == session_id,
        r.timestamp == timestamp,
        r.ticket_in_id == ticket_in_id,
        r.hub_id == hub_id,
        r.ticket_out_id == ticket_out_id,
        r.ticket_eTag_id == ticket_eTag_id,
        r.station_in == station_in,
        r.lane_in == lane_in,
        r.station_out == station_out,
        r.lane_out == lane_out,
        r.trans_amount == trans_amount,
        r.trans_datetime == trans_datetime,
        r.tid@ == text_field(d, 36, 24),
        r.etag@ == text_field(d, 60, 24),
        r.plate@ == text_field(d, 132, 20),
        r.general1@ == d.subrange(164, 172),
        r.general2@ == d.subrange(172, 188),
{
    lemma_read_back_i32(d, 0, message_length);
    lemma_read_back_i32(d, 4, command_id);
    lemma_read_back_i32(d, 8, version_id);
    lemma_read_back_i64(d, 12, request_id);
    lemma_read_back_i64(d, 20, session_id);
    lemma_read_back_i64(d, 28, timestamp);
    lemma_read_back_i64(d, 84, ticket_in_id);
    lemma_read_back_i64(d, 92, hub_id);
    lemma_read_back_i64(d, 100, ticket_out_id);
    lemma_read_back_i64(d, 108, ticket_eTag_id);
    lemma_read_back_i32(d, 116, station_in);
    lemma_read_back_i32(d, 120, lane_in);
    lemma_read_back_i32(d, 124, station_out);
    lemma_read_back_i32(d, 128, lane_out);
    lemma_read_back_i32(d, 152, trans_amount);
    lemma_read_back_i64(d, 156, trans_datetime);
}

/// A checkout reservation request read from `d` holds each integer field as written little-endian
/// at its place in the message (`message_length` at 0, `command_id` at 4, `version_id` at 8,
/// `request_id` at 12, `session_id` at 20, `timestamp` at 28, `ticket_in_id` at 84,
/// `ticket_eTag_id` at 100, `ticket_out_id` at 108, `checkin_datetime` at 116,
/// `checkin_commit_datetime` at 124, `station_in` at 132, `lane_in` at 136, `station_out` at 140,
/// `lane_out` at 144, `price_ticket_type` at 159, `trans_amount` at 163, `trans_datetime` at 167,
/// `rating_detail_line` at 175), and each text or raw field from its own bytes.
pub proof fn law_checkout_reserve_fields_at_offsets(d: Seq<u8>, r: CHECKOUT_RESERVE_BOO, message_length: i32, command_id: i32, version_id: i32, request_id: i64, session_id: i64, timestamp: i64, ticket_in_id: i64, ticket_eTag_id: i64, ticket_out_id: i64, checkin_datetime: i64, checkin_commit_datetime: i64, station_in: i32, lane_in: i32, station_out: i32, lane_out: i32, price_ticket_type: i32, trans_amount: i32, trans_datetime: i64, rating_detail_line: i32)
    requires
        checkout_reserve_from(d, r),
        d.len() >= 179,
        d.subrange(0, 4) == i32_le(message_length),
        d.subrange(4, 8) == i32_le(command_id),
        d.subrange(8, 12) == i32_le(version_id),
        d.subrange(12, 20) == i64_le(request_id),
        d.subrange(20, 28) == i64_le(session_id),
        d.subrange(28, 36) == i64_le(timestamp),
        d.subrange(84, 92) == i64_le(ticket_in_id),
        d.subrange(100, 108) == i64_le(ticket_eTag_id),
        d.subrange(108, 116) == i64_le(ticket_out_id),
        d.subrange(116, 124) == i64_le(checkin_datetime),
        d.subrange(124, 132) == i64_le(checkin_commit_datetime),
        d.subrange(132, 136) == i32_le(station_in),
        d.subrange(136, 140) == i32_le(lane_in),
        d.subrange(140, 144) == i32_le(station_out),
        d.subrange(144, 148) == i32_le(lane_out),
        d.subrange(159, 163) == i32_le(price_ticket_type),
        d.subrange(163, 167) == i32_le(trans_amount),
        d.subrange(167, 175) == i64_le(trans_datetime),
        d.subrange(175, 179) == i32_le(rating_detail_line),
    ensures
        r.message_length == message_length,
        r.command_id == command_id,
        r.version_id == version_id,
        r.request_id == request_id,
        r.session_id == session_id,
        r.timestamp == timestamp,
        r.ticket_in_id == ticket_in_id,
        r.ticket_eTag_id == ticket_eTag_id,
        r.ticket_out_id == ticket_out_id,
        r.checkin_datetime == checkin_datetime,
        r.checkin_commit_datetime == checkin_commit_datetime,
        r.station_in == station_in,
        r.lane_in == lane_in,
        r.station_out == station_out,
        r.lane_out == lane_out,
        r.price_ticket_type == price_ticket_type,
        r.trans_amount == trans_amount,
        r.trans_datetime == trans_datetime,
        r.rating_detail_line == rating_detail_line,
        r.tid@ == text_field(d, 36, 24),
        r.etag@ == text_field(d, 60, 24),
        r.plate@ == text_field(d, 148, 10),
{
    lemma_read_back_i32(d, 0, message_length);
    lemma_read_back_i32(d, 4, command_id);
    lemma_read_back_i32(d, 8, version_id);
    lemma_read_back_i64(d, 12, request_id);
    lemma_read_back_i64(d, 20, session_id);
    lemma_read_back_i64(d, 28, timestamp);
    lemma_read_back_i64(d, 84, ticket_in_id);
    lemma_read_back_i64(d, 100, ticket_eTag_id);
    lemma_read_back_i64(d, 108, ticket_out_id);
    lemma_read_back_i64(d, 116, checkin_datetime);
    lemma_read_back_i64(d, 124, checkin_commit_datetime);
    lemma_read_back_i32(d, 132, station_in);
    lemma_read_back_i32(d, 136, lane_in);
    lemma_read_back_i32(d, 140, station_out);
    lemma_read_back_i32(d, 144, lane_out);
    lemma_read_back_i32(d, 159, price_ticket_type);
    lemma_read_back_i32(d, 163, trans_amount);
    lemma_read_back_i64(d, 167, trans_datetime);
    lemma_read_back_i32(d, 175, rating_detail_line);
}

/// A vehicle query request read from `d` holds each integer field as written little-endian at its
/// place in the message (`message_length` at 0, `command_id` at 4, `version_id` at 8, `request_id`
/// at 12, `session_id` at 20, `timestamp` at 28, `station` at 84, `lane` at 88, `min_balance` at
/// 94), and each text or raw field from its own bytes.
pub proof fn law_query_vehicle_fields_at_offsets(d: Seq<u8>, r: QUERY_VEHICLE_BOO, message_length: i32, command_id: i32, version_id: i32, request_id: i64, session_id: i64, timestamp: i64, station: i32, lane: i32, min_balance: i32)
    requires
        query_vehicle_from(d, r),
        d.len() >= 122,
        d.subrange(0, 4) == i32_le(message_length),
        d.subrange(4, 8) == i32_le(command_id),
        d.subrange(8, 12) == i32_le(version_id),
        d.subrange(12, 20) == i64_le(request_id),
        d.subrange(20, 28) == i64_le(session_id),
        d.subrange(28, 36) == i64_le(timestamp),
        d.subrange(84, 88) == i32_le(station),
        d.subrange(88, 92) == i32_le(lane),
        d.subrange(94, 98) == i32_le(min_balance),
    ensures
        r.message_length == message_length,
        r.command_id == command_id,
        r.version_id == version_id,
        r.request_id == request_id,
        r.session_id == session_id,
        r.timestamp == timestamp,
        r.station == station,
        r.lane == lane,
        r.min_balance == min_balance,
        r.tid@ == nul_trimmed_field(d, 36, 24),
        r.etag@ == nul_trimmed_field(d, 60, 24),
        r.station_type@ == nul_trimmed_field(d, 92, 1),
        r.lane_type@ == nul_trimmed_field(d, 93, 1),
        r.general1@ == d.subrange(98, 106),
        r.general2@ == d.subrange(106, 122),
{
    lemma_read_back_i32(d, 0, message_length);
    lemma_read_back_i32(d, 4, command_id);
    lemma_read_back_i32(d, 8, version_id);
    lemma_read_back_i64(d, 12, request_id);
    lemma_read_back_i64(d, 20, session_id);
    lemma_read_back_i64(d, 28, timestamp);
    lemma_read_back_i32(d, 84, station);
    lemma_read_back_i32(d, 88, lane);
    lemma_read_back_i32(d, 94, min_balance);
}

/// A vehicle lookup request read from `d` holds each integer field as written little-endian at its
/// place in the message (`message_length` at 0, `command_id` at 4, `version_id` at 8, `request_id`
/// at 12, `session_id` at 20, `timestamp` at 28, `station` at 84, `lane` at 88), and each text or
/// raw field from its own bytes.
pub proof fn law_lookup_vehicle_fields_at_offsets(d: Seq<u8>, r: LOOKUP_VEHICLE, message_length: i32, command_id: i32, version_id: i32, request_id: i64, session_id: i64, timestamp: i64, station: i32, lane: i32)
    requires
        lookup_vehicle_from(d, r),
        d.len() >= 110,
        d.subrange(0, 4) == i32_le(message_length),
        d.subrange(4, 8) == i32_le(command_id),
        d.subrange(8, 12) == i32_le(version_id),
        d.subrange(12, 20) == i64_le(request_id),
        d.subrange(20, 28) == i64_le(session_id),
        d.subrange(28, 36) == i64_le(timestamp),
        d.subrange(84, 88) == i32_le(station),
        d.subrange(88, 92) == i32_le(lane),
    ensures
        r.message_length == message_length,
        r.command_id == command_id,
        r.version_id == version_id,
        r.request_id == request_id,
        r.session_id == session_id,
        r.timestamp == timestamp,
        r.station == station,
        r.lane == lane,
        r.tid@ == nul_trimmed_field(d, 36, 24),
        r.etag@ == nul_trimmed_field(d, 60, 24),
        r.station_type@ == nul_trimmed_field(d, 92, 1),
        r.lane_type@ == nul_trimmed_field(d, 93, 1),
        r.general1@ == d.subrange(94, 102),
        r.general2@ == d.subrange(102, 110),
{
    lemma_read_back_i32(d, 0, message_length);
    lemma_read_back_i32(d, 4, command_id);
    lemma_read_back_i32(d, 8, version_id);
    lemma_read_back_i64(d, 12, request_id);
    lemma_read_back_i64(d, 20, session_id);
    lemma_read_back_i64(d, 28, timestamp);
    lemma_read_back_i32(d, 84, station);
    lemma_read_back_i32(d, 88, lane);
}

/// A connect request read from `d` holds each integer field as written little-endian at its place
/// in the message (`version_id` at 8, `request_id` at 12, `timeout` at 40), and each text or raw
/// field from its own bytes.
pub proof fn law_connect_fields_at_offsets(d: Seq<u8>, message_length: i32, command_id: i32, r: FE_CONNECT, version_id: i32, request_id: i64, timeout: i32)
    requires
        connect_from(d, message_length, command_id, r),
        d.len() >= 44,
        d.subrange(8, 12) == i32_le(version_id),
        d.subrange(12, 20) == i64_le(request_id),
        d.subrange(40, 44) == i32_le(timeout),
    ensures
        r.version_id == version_id,
        r.request_id == request_id,
        r.timeout == timeout,
        r.username@ == utf8_lossy(d.subrange(20, 30)),
        r.password@ == utf8_lossy(d.subrange(30, 40)),
{
    lemma_read_back_i32(d, 8, version_id);
    lemma_read_back_i64(d, 12, request_id);
    lemma_read_back_i32(d, 40, timeout);
}

/// A lane checkin request read from `d` holds each integer field as written little-endian at its
/// place in the message (`request_id` at 8, `session_id` at 16, `station` at 48, `lane` at 52), and
/// each text or raw field from its own bytes.
pub proof fn law_fe_checkin_fields_at_offsets(d: Seq<u8>, message_length: i32, command_id: i32, r: FE_CHECKIN, request_id: i64, session_id: i64, station: i32, lane: i32)
    requires
        fe_checkin_from(d, message_length, command_id, r),
        d.len() >= 106,
        d.subrange(8, 16) == i64_le(request_id),
        d.subrange(16, 24) == i64_le(session_id),
        d.subrange(48, 52) == i32_le(station),
        d.subrange(52, 56) == i32_le(lane),
    ensures
        r.request_id == request_id,
        r.session_id == session_id,
        r.station == station,
        r.lane == lane,
        r.etag@ == raw_text(d, 24, 24),
        r.plate@ == raw_text(d, 56, 10),
        r.tid@ == raw_text(d, 66, 24),
        r.hash_value@ == raw_text(d, 90, 16),
{
    lemma_read_back_i64(d, 8, request_id);
    lemma_read_back_i64(d, 16, session_id);
    lemma_read_back_i32(d, 48, station);
    lemma_read_back_i32(d, 52, lane);
}

/// A lane commit request read from `d` holds each integer field as written little-endian at its
/// place in the message (`request_id` at 8, `session_id` at 16, `station` at 48, `lane` at 52,
/// `ticket_id` at 56, `status` at 64, `image_count` at 78, `vehicle_length` at 82,
/// `transaction_amount` at 86, `weight` at 90, `reason_id` at 94), and each text or raw field from
/// its own bytes.
pub proof fn law_fe_commit_in_fields_at_offsets(d: Seq<u8>, message_length: i32, command_id: i32, r: FE_COMMIT_IN, request_id: i64, session_id: i64, station: i32, lane: i32, ticket_id: i64, status: i32, image_count: i32, vehicle_length: i32, transaction_amount: i32, weight: i32, reason_id: i32)
    requires
        fe_commit_in_from(d, message_length, command_id, r),
        d.len() >= 98,
        d.subrange(8, 16) == i64_le(request_id),
        d.subrange(16, 24) == i64_le(session_id),
        d.subrange(48, 52) == i32_le(station),
        d.subrange(52, 56) == i32_le(lane),
        d.subrange(56, 64) == i64_le(ticket_id),
        d.subrange(64, 68) == i32_le(status),
        d.subrange(78, 82) == i32_le(image_count),
        d.subrange(82, 86) == i32_le(vehicle_length),
        d.subrange(86, 90) == i32_le(transaction_amount),
        d.subrange(90, 94) == i32_le(weight),
        d.subrange(94, 98) == i32_le(reason_id),
    ensures
        r.request_id == request_id,
        r.session_id == session_id,
        r.station == station,
        r.lane == lane,
        r.ticket_id == ticket_id,
        r.status == status,
        r.image_count == image_count,
        r.vehicle_length == vehicle_length,
        r.transaction_amount == transaction_amount,
        r.weight == weight,
        r.reason_id == reason_id,
        r.etag@ == raw_text(d, 24, 24),
        r.plate@ == raw_text(d, 68, 10),
{
    lemma_read_back_i64(d, 8, request_id);
    lemma_read_back_i64(d, 16, session_id);
    lemma_read_back_i32(d, 48, station);
    lemma_read_back_i32(d, 52, lane);
    lemma_read_back_i64(d, 56, ticket_id);
    lemma_read_back_i32(d, 64, status);
    lemma_read_back_i32(d, 78, image_count);
    lemma_read_back_i32(d, 82, vehicle_length);
    lemma_read_back_i32(d, 86, transaction_amount);
    lemma_read_back_i32(d, 90, weight);
    lemma_read_back_i32(d, 94, reason_id);
}

/// A lane rollback request read from `d` holds each integer field as written little-endian at its
/// place in the message (`request_id` at 8, `session_id` at 16, `station` at 48, `lane` at 52,
/// `ticket_id` at 56, `status` at 64, `image_count` at 78, `weight` at 82, `reason_id` at 86), and
/// each text or raw field from its own bytes.
pub proof fn law_fe_rollback_fields_at_offsets(d: Seq<u8>, message_length: i32, command_id: i32, r: FE_ROLLBACK, request_id: i64, session_id: i64, station: i32, lane: i32, ticket_id: i64, status: i32, image_count: i32, weight: i32, reason_id: i32)
    requires
        fe_rollback_from(d, message_length, command_id, r),
        d.len() >= 90,
        d.subrange(8, 16) == i64_le(request_id),
        d.subrange(16, 24) == i64_le(session_id),
        d.subrange(48, 52) == i32_le(station),
        d.subrange(52, 56) == i32_le(lane),
        d.subrange(56, 64) == i64_le(ticket_id),
        d.subrange(64, 68) == i32_le(status),
        d.subrange(78, 82) == i32_le(image_count),
        d.subrange(82, 86) == i32_le(weight),
        d.subrange(86, 90) == i32_le(reason_id),
    ensures
        r.request_id == request_id,
        r.session_id == session_id,
        r.station == station,
        r.lane == lane,
        r.ticket_id == ticket_id,
        r.status == status,
        r.image_count == image_count,
        r.weight == weight,
        r.reason_id == reason_id,
        r.etag@ == raw_text(d, 24, 24),
        r.plate@ == raw_text(d, 68, 10),
{
    lemma_read_back_i64(d, 8, request_id);
    lemma_read_back_i64(d, 16, session_id);
    lemma_read_back_i32(d, 48, station);
    lemma_read_back_i32(d, 52, lane);
    lemma_read_back_i64(d, 56, ticket_id);
    lemma_read_back_i32(d, 64, status);
    lemma_read_back_i32(d, 78, image_count);
    lemma_read_back_i32(d, 82, weight);
    lemma_read_back_i32(d, 86, reason_id);
}

/// The connect reply puts each integer field, little-endian, at its place in the message
/// (`message_length` at 0, `command_id` at 4, `version_id` at 8, `request_id` at 12, `session_id`
/// at 20, `status` at 28): a reader of the reply gets back each field where the protocol puts it.
pub proof fn law_connect_reply_fields_at_offsets(message_length: i32, command_id: i32, version_id: i32, request_id: i64, session_id: i64, status: i32)
    ensures
        ({
            let b = connect_resp_bytes(message_length, command_id, version_id, request_id, session_id, status);
            &&& b.len() == 32
            &&& le_i32_at(b, 0) == message_length
            &&& le_i32_at(b, 4) == command_id
            &&& le_i32_at(b, 8) == version_id
            &&& le_i64_at(b, 12) == request_id
            &&& le_i64_at(b, 20) == session_id
            &&& le_i32_at(b, 28) == status
        }),
{
    let b = connect_resp_bytes(message_length, command_id, version_id, request_id, session_id, status);
    law_i32_le_roundtrip(message_length);
    law_i32_le_roundtrip(command_id);
    law_i32_le_roundtrip(version_id);
    law_i64_le_roundtrip(request_id);
    law_i64_le_roundtrip(session_id);
    law_i32_le_roundtrip(status);
    assert(b.subrange(0, 4) =~= i32_le(message_length));
    lemma_read_back_i32(b, 0, message_length);
    assert(b.subrange(4, 8) =~= i32_le(command_id));
    lemma_read_back_i32(b, 4, command_id);
    assert(b.subrange(8, 12) =~= i32_le(version_id));
    lemma_read_back_i32(b, 8, version_id);
    assert(b.subrange(12, 20) =~= i64_le(request_id));
    lemma_read_back_i64(b, 12, request_id);
    assert(b.subrange(20, 28) =~= i64_le(session_id));
    lemma_read_back_i64(b, 20, session_id);
    assert(b.subrange(28, 32) =~= i32_le(status));
    lemma_read_back_i32(b, 28, status);
}

/// The lane checkin reply puts each integer field, little-endian, at its place in the message
/// (`message_length` at 0, `command_id` at 4, `request_id` at 8, `session_id` at 16, `status` at
/// 24, `station` at 52, `lane` at 56, `ticket_id` at 60, `ticket_type` at 68, `price` at 72,
/// `vehicle_type` at 76, `plate_type` at 90, `price_ticket_type` at 94), and each text or raw field
/// in its own bytes: a reader of the reply gets back each field where the protocol puts it.
pub proof fn law_checkin_reply_fields_at_offsets(r: FE_CHECKIN_IN_RESP)
    ensures
        ({
            let b = checkin_in_resp_bytes(r);
            &&& b.len() == 98
            &&& le_i32_at(b, 0) == r.message_length
            &&& le_i32_at(b, 4) == r.command_id
            &&& le_i64_at(b, 8) == r.request_id
            &&& le_i64_at(b, 16) == r.session_id
            &&& le_i32_at(b, 24) == r.status
            &&& b.subrange(28, 52) == padded(utf8_of(r.etag@), 24)
            &&& le_i32_at(b, 52) == r.station
            &&& le_i32_at(b, 56) == r.lane
            &&& le_i64_at(b, 60) == r.ticket_id
            &&& le_i32_at(b, 68) == r.ticket_type
            &&& le_i32_at(b, 72) == r.price
            &&& le_i32_at(b, 76) == r.vehicle_type
            &&& b.subrange(80, 90) == padded(utf8_of(r.plate@), 10)
            &&& le_i32_at(b, 90) == r.plate_type
            &&& le_i32_at(b, 94) == r.price_ticket_type
        }),
{
    let b = checkin_in_resp_bytes(r);
    law_i32_le_roundtrip(r.message_length);
    law_i32_le_roundtrip(r.command_id);
    law_i64_le_roundtrip(r.request_id);
    law_i64_le_roundtrip(r.session_id);
    law_i32_le_roundtrip(r.status);
    law_i32_le_roundtrip(r.station);
    law_i32_le_roundtrip(r.lane);
    law_i64_le_roundtrip(r.ticket_id);
    law_i32_le_roundtrip(r.ticket_type);
    law_i32_le_roundtrip(r.price);
    law_i32_le_roundtrip(r.vehicle_type);
    law_i32_le_roundtrip(r.plate_type);
    law_i32_le_roundtrip(r.price_ticket_type);
    assert(b.subrange(0, 4) =~= i32_le(r.message_length));
    lemma_read_back_i32(b, 0, r.message_length);
    assert(b.subrange(4, 8) =~= i32_le(r.command_id));
    lemma_read_back_i32(b, 4, r.command_id);
    assert(b.subrange(8, 16) =~= i64_le(r.request_id));
    lemma_read_back_i64(b, 8, r.request_id);
    assert(b.subrange(16, 24) =~= i64_le(r.session_id));
    lemma_read_back_i64(b, 16, r.session_id);
    assert(b.subrange(24, 28) =~= i32_le(r.status));
    lemma_read_back_i32(b, 24, r.status);
    assert(b.subrange(28, 52) =~= padded(utf8_of(r.etag@), 24));
    assert(b.subrange(52, 56) =~= i32_le(r.station));
    lemma_read_back_i32(b, 52, r.station);
    assert(b.subrange(56, 60) =~= i32_le(r.lane));
    lemma_read_back_i32(b, 56, r.lane);
    assert(b.subrange(60, 68) =~= i64_le(r.ticket_id));
    lemma_read_back_i64(b, 60, r.ticket_id);
    assert(b.subrange(68, 72) =~= i32_le(r.ticket_type));
    lemma_read_back_i32(b, 68, r.ticket_type);
    assert(b.subrange(72, 76) =~= i32_le(r.price));
    lemma_read_back_i32(b, 72, r.price);
    assert(b.subrange(76, 80) =~= i32_le(r.vehicle_type));
    lemma_read_back_i32(b, 76, r.vehicle_type);
    assert(b.subrange(80, 90) =~= padded(utf8_of(r.plate@), 10));
    assert(b.subrange(90, 94) =~= i32_le(r.plate_type));
    lemma_read_back_i32(b, 90, r.plate_type);
    assert(b.subrange(94, 98) =~= i32_le(r.price_ticket_type));
    lemma_read_back_i32(b, 94, r.price_ticket_type);
}

/// The lane commit reply puts each integer field, little-endian, at its place in the message
/// (`message_length` at 0, `command_id` at 4, `request_id` at 8, `session_id` at 16, `status` at
/// 24): a reader of the reply gets back each field where the protocol puts it.
pub proof fn law_commit_reply_fields_at_offsets(r: FE_COMMIT_IN_RESP)
    ensures
        ({
            let b = commit_resp_bytes(r);
            &&& b.len() == 28
            &&& le_i32_at(b, 0) == r.message_length
            &&& le_i32_at(b, 4) == r.command_id
            &&& le_i64_at(b, 8) == r.request_id
            &&& le_i64_at(b, 16) == r.session_id
            &&& le_i32_at(b, 24) == r.status
        }),
{
    let b = commit_resp_bytes(r);
    law_i32_le_roundtrip(r.message_length);
    law_i32_le_roundtrip(r.command_id);
    law_i64_le_roundtrip(r.request_id);
    law_i64_le_roundtrip(r.session_id);
    law_i32_le_roundtrip(r.status);
    assert(b.subrange(0, 4) =~= i32_le(r.message_length));
    lemma_read_back_i32(b, 0, r.message_length);
    assert(b.subrange(4, 8) =~= i32_le(r.command_id));
    lemma_read_back_i32(b, 4, r.command_id);
    assert(b.subrange(8, 16) =~= i64_le(r.request_id));
    lemma_read_back_i64(b, 8, r.request_id);
    assert(b.subrange(16, 24) =~= i64_le(r.session_id));
    lemma_read_back_i64(b, 16, r.session_id);
    assert(b.subrange(24, 28) =~= i32_le(r.status));
    lemma_read_back_i32(b, 24, r.status);
}

/// The checkout commit reply puts each integer field, little-endian, at its place in the message
/// (`message_length` at 0, `command_id` at 4, `version_id` at 8, `request_id` at 12, `session_id`
/// at 20, `timestamp` at 28, `ticket_in_id` at 36, `hub_id` at 44, `ticket_eTag_id` at 52,
/// `ticket_out_id` at 60, `status` at 68), and each text or raw field in its own bytes: a reader of
/// the reply gets back each field where the protocol puts it.
pub proof fn law_checkout_commit_reply_fields_at_offsets(r: CHECKOUT_COMMIT_BOO_RESP)
    ensures
        ({
            let b = checkout_commit_resp_bytes(r);
            &&& b.len() == 96
            &&& le_i32_at(b, 0) == r.message_length
            &&& le_i32_at(b, 4) == r.command_id
            &&& le_i32_at(b, 8) == r.version_id
            &&& le_i64_at(b, 12) == r.request_id
            &&& le_i64_at(b, 20) == r.session_id
            &&& le_i64_at(b, 28) == r.timestamp
            &&& le_i64_at(b, 36) == r.ticket_in_id
            &&& le_i64_at(b, 44) == r.hub_id
            &&& le_i64_at(b, 52) == r.ticket_eTag_id
            &&& le_i64_at(b, 60) == r.ticket_out_id
            &&& le_i32_at(b, 68) == r.status
            &&& b.subrange(72, 80) == r.general1@
            &&& b.subrange(80, 96) == r.general2@
        }),
{
    let b = checkout_commit_resp_bytes(r);
    law_i32_le_roundtrip(r.message_length);
    law_i32_le_roundtrip(r.command_id);
    law_i32_le_roundtrip(r.version_id);
    law_i64_le_roundtrip(r.request_id);
    law_i64_le_roundtrip(r.session_id);
    law_i64_le_roundtrip(r.timestamp);
    law_i64_le_roundtrip(r.ticket_in_id);
    law_i64_le_roundtrip(r.hub_id);
    law_i64_le_roundtrip(r.ticket_eTag_id);
    law_i64_le_roundtrip(r.ticket_out_id);
    law_i32_le_roundtrip(r.status);
    assert(b.len() == 96);
    assert(b.subrange(0, 4) =~= i32_le(r.message_length));
    lemma_read_back_i32(b, 0, r.message_length);
    assert(b.subrange(4, 8) =~= i32_le(r.command_id));
    lemma_read_back_i32(b, 4, r.command_id);
    assert(b.subrange(8, 12) =~= i32_le(r.version_id));
    lemma_read_back_i32(b, 8, r.version_id);
    assert(b.subrange(12, 20) =~= i64_le(r.request_id));
    lemma_read_back_i64(b, 12, r.request_id);
    assert(b.subrange(20, 28) =~= i64_le(r.session_id));
    lemma_read_back_i64(b, 20, r.session_id);
    assert(b.subrange(28, 36) =~= i64_le(r.timestamp));
    lemma_read_back_i64(b, 28, r.timestamp);
    assert(b.subrange(36, 44) =~= i64_le(r.ticket_in_id));
    lemma_read_back_i64(b, 36, r.ticket_in_id);
    assert(b.subrange(44, 52) =~= i64_le(r.hub_id));
    lemma_read_back_i64(b, 44, r.hub_id);
    assert(b.subrange(52, 60) =~= i64_le(r.ticket_eTag_id));
    lemma_read_back_i64(b, 52, r.ticket_eTag_id);
    assert(b.subrange(60, 68) =~= i64_le(r.ticket_out_id));
    lemma_read_back_i64(b, 60, r.ticket_out_id);
    assert(b.subrange(68, 72) =~= i32_le(r.status));
    lemma_read_back_i32(b, 68, r.status);
    assert(b.subrange(72, 80) =~= r.general1@);
    assert(b.subrange(80, 96) =~= r.general2@);
}

/// The checkout reservation reply puts each integer field, little-endian, at its place in the
/// message (`message_length` at 0, `command_id` at 4, `version_id` at 8, `request_id` at 12,
/// `session_id` at 20, `timestamp` at 28, `process_time` at 36, `ticket_in_id` at 40, the hub (zero
/// when absent) at 48, `ticket_eTag_id` at 56, `ticket_out_id` at 64, `status` at 72), and each
/// text or raw field in its own bytes: a reader of the reply gets back each field where the
/// protocol puts it.
pub proof fn law_checkout_reserve_reply_fields_at_offsets(r: CHECKOUT_RESERVE_BOO_RESP)
    ensures
        ({
            let b = checkout_reserve_resp_bytes(r);
            &&& b.len() == 100
            &&& le_i32_at(b, 0) == r.message_length
            &&& le_i32_at(b, 4) == r.command_id
            &&& le_i32_at(b, 8) == r.version_id
            &&& le_i64_at(b, 12) == r.request_id
            &&& le_i64_at(b, 20) == r.session_id
            &&& le_i64_at(b, 28) == r.timestamp
            &&& le_i32_at(b, 36) == r.process_time
            &&& le_i64_at(b, 40) == r.ticket_in_id
            &&& le_i64_at(b, 48) == hub_or_zero(r.hub_id)
            &&& le_i64_at(b, 56) == r.ticket_eTag_id
            &&& le_i64_at(b, 64) == r.ticket_out_id
            &&& le_i32_at(b, 72) == r.status
            &&& b.subrange(76, 84) == r.general1@
            &&& b.subrange(84, 100) == r.general2@
        }),
{
    let b = checkout_reserve_resp_bytes(r);
    law_i32_le_roundtrip(r.message_length);
    law_i32_le_roundtrip(r.command_id);
    law_i32_le_roundtrip(r.version_id);
    law_i64_le_roundtrip(r.request_id);
    law_i64_le_roundtrip(r.session_id);
    law_i64_le_roundtrip(r.timestamp);
    law_i32_le_roundtrip(r.process_time);
    law_i64_le_roundtrip(r.ticket_in_id);
    law_i64_le_roundtrip(hub_or_zero(r.hub_id));
    law_i64_le_roundtrip(r.ticket_eTag_id);
    law_i64_le_roundtrip(r.ticket_out_id);
    law_i32_le_roundtrip(r.status);
    assert(b.len() == 100);
    assert(b.subrange(0, 4) =~= i32_le(r.message_length));
    lemma_read_back_i32(b, 0, r.message_length);
    assert(b.subrange(4, 8) =~= i32_le(r.command_id));
    lemma_read_back_i32(b, 4, r.command_id);
    assert(b.subrange(8, 12) =~= i32_le(r.version_id));
    lemma_read_back_i32(b, 8, r.version_id);
    assert(b.subrange(12, 20) =~= i64_le(r.request_id));
    lemma_read_back_i64(b, 12, r.request_id);
    assert(b.subrange(20, 28) =~= i64_le(r.session_id));
    lemma_read_back_i64(b, 20, r.session_id);
    assert(b.subrange(28, 36) =~= i64_le(r.timestamp));
    lemma_read_back_i64(b, 28, r.timestamp);
    assert(b.subrange(36, 40) =~= i32_le(r.process_time));
    lemma_read_back_i32(b, 36, r.process_time);
    assert(b.subrange(40, 48) =~= i64_le(r.ticket_in_id));
    lemma_read_back_i64(b, 40, r.ticket_in_id);
    assert(b.subrange(48, 56) =~= i64_le(hub_or_zero(r.hub_id)));
    lemma_read_back_i64(b, 48, hub_or_zero(r.hub_id));
    assert(b.subrange(56, 64) =~= i64_le(r.ticket_eTag_id));
    lemma_read_back_i64(b, 56, r.ticket_eTag_id);
    assert(b.subrange(64, 72) =~= i64_le(r.ticket_out_id));
    lemma_read_back_i64(b, 64, r.ticket_out_id);
    assert(b.subrange(72, 76) =~= i32_le(r.status));
    lemma_read_back_i32(b, 72, r.status);
    assert(b.subrange(76, 84) =~= r.general1@);
    assert(b.subrange(84, 100) =~= r.general2@);
}

/// The vehicle query reply puts each integer field, little-endian, at its place in the message
/// (`message_length` at 0, `command_id` at 4, `version_id` at 8, `request_id` at 12, `session_id`
/// at 20, `timestamp` at 28, `process_time` at 36, `vehicle_type` at 64, `seat` at 79,
/// `weight_goods` at 83, `weight_all` at 87, `status` at 101, `min_balance_status` at 105), and
/// each text or raw field in its own bytes: a reader of the reply gets back each field where the
/// protocol puts it.
pub proof fn law_query_vehicle_reply_fields_at_offsets(r: QUERY_VEHICLE_BOO_RESP)
    ensures
        ({
            let b = query_vehicle_resp_bytes(r);
            &&& b.len() == 133
            &&& le_i32_at(b, 0) == r.message_length
            &&& le_i32_at(b, 4) == r.command_id
            &&& le_i32_at(b, 8) == r.version_id
            &&& le_i64_at(b, 12) == r.request_id
            &&& le_i64_at(b, 20) == r.session_id
            &&& le_i64_at(b, 28) == r.timestamp
            &&& le_i32_at(b, 36) == r.process_time
            &&& b.subrange(40, 64) == padded(utf8_of(r.etag@), 24)
            &&& le_i32_at(b, 64) == r.vehicle_type
            &&& b.subrange(68, 69) == seq![ticket_type_byte(r.ticket_type@)]
            &&& b.subrange(69, 79) == padded(utf8_of(r.register_vehicle_type@), 10)
            &&& le_i32_at(b, 79) == r.seat
            &&& le_i32_at(b, 83) == r.weight_goods
            &&& le_i32_at(b, 87) == r.weight_all
            &&& b.subrange(91, 101) == padded(utf8_of(r.plate@), 10)
            &&& le_i32_at(b, 101) == r.status
            &&& le_i32_at(b, 105) == r.min_balance_status
            &&& b.subrange(109, 117) == r.general1@
            &&& b.subrange(117, 133) == r.general2@
        }),
{
    let b = query_vehicle_resp_bytes(r);
    law_i32_le_roundtrip(r.message_length);
    law_i32_le_roundtrip(r.command_id);
    law_i32_le_roundtrip(r.version_id);
    law_i64_le_roundtrip(r.request_id);
    law_i64_le_roundtrip(r.session_id);
    law_i64_le_roundtrip(r.timestamp);
    law_i32_le_roundtrip(r.process_time);
    law_i32_le_roundtrip(r.vehicle_type);
    law_i32_le_roundtrip(r.seat);
    law_i32_le_roundtrip(r.weight_goods);
    law_i32_le_roundtrip(r.weight_all);
    law_i32_le_roundtrip(r.status);
    law_i32_le_roundtrip(r.min_balance_status);
    assert(b.len() == 133);
    assert(b.subrange(0, 4) =~= i32_le(r.message_length));
    lemma_read_back_i32(b, 0, r.message_length);
    assert(b.subrange(4, 8) =~= i32_le(r.command_id));
    lemma_read_back_i32(b, 4, r.command_id);
    assert(b.subrange(8, 12) =~= i32_le(r.version_id));
    lemma_read_back_i32(b, 8, r.version_id);
    assert(b.subrange(12, 20) =~= i64_le(r.request_id));
    lemma_read_back_i64(b, 12, r.request_id);
    assert(b.subrange(20, 28) =~= i64_le(r.session_id));
    lemma_read_back_i64(b, 20, r.session_id);
    assert(b.subrange(28, 36) =~= i64_le(r.timestamp));
    lemma_read_back_i64(b, 28, r.timestamp);
    assert(b.subrange(36, 40) =~= i32_le(r.process_time));
    lemma_read_back_i32(b, 36, r.process_time);
    assert(b.subrange(40, 64) =~= padded(utf8_of(r.etag@), 24));
    assert(b.subrange(64, 68) =~= i32_le(r.vehicle_type));
    lemma_read_back_i32(b, 64, r.vehicle_type);
    assert(b.subrange(68, 69) =~= seq![ticket_type_byte(r.ticket_type@)]);
    assert(b.subrange(69, 79) =~= padded(utf8_of(r.register_vehicle_type@), 10));
    assert(b.subrange(79, 83) =~= i32_le(r.seat));
    lemma_read_back_i32(b, 79, r.seat);
    assert(b.subrange(83, 87) =~= i32_le(r.weight_goods));
    lemma_read_back_i32(b, 83, r.weight_goods);
    assert(b.subrange(87, 91) =~= i32_le(r.weight_all));
    lemma_read_back_i32(b, 87, r.weight_all);
    assert(b.subrange(91, 101) =~= padded(utf8_of(r.plate@), 10));
    assert(b.subrange(101, 105) =~= i32_le(r.status));
    lemma_read_back_i32(b, 101, r.status);
    assert(b.subrange(105, 109) =~= i32_le(r.min_balance_status));
    lemma_read_back_i32(b, 105, r.min_balance_status);
    assert(b.subrange(109, 117) =~= r.general1@);
    assert(b.subrange(117, 133) =~= r.general2@);
}

/// The vehicle lookup reply puts each integer field, little-endian, at its place in the message
/// (`message_length` at 0, `command_id` at 4, `version_id` at 8, `request_id` at 12, `session_id`
/// at 20, `timestamp` at 28, `process_time` at 36, `vehicle_type` at 64, `seat` at 79,
/// `weight_goods` at 83, `weight_all` at 87, `status` at 101, `min_balance_status` at 105), and
/// each text or raw field in its own bytes: a reader of the reply gets back each field where the
/// protocol puts it.
pub proof fn law_lookup_vehicle_reply_fields_at_offsets(r: LOOKUP_VEHICLE_RESP)
    ensures
        ({
            let b = lookup_vehicle_resp_bytes(r);
            &&& b.len() == 197
            &&& le_i32_at(b, 0) == r.message_length
            &&& le_i32_at(b, 4) == r.command_id
            &&& le_i32_at(b, 8) == r.version_id
            &&& le_i64_at(b, 12) == r.request_id
            &&& le_i64_at(b, 20) == r.session_id
            &&& le_i64_at(b, 28) == r.timestamp
            &&& le_i32_at(b, 36) == r.process_time
            &&& b.subrange(40, 64) == padded(utf8_of(r.etag@), 24)
            &&& le_i32_at(b, 64) == r.vehicle_type
            &&& b.subrange(68, 69) == seq![ticket_type_byte(r.ticket_type@)]
            &&& b.subrange(69, 79) == padded(utf8_of(r.register_vehicle_type@), 10)
            &&& le_i32_at(b, 79) == r.seat
            &&& le_i32_at(b, 83) == r.weight_goods
            &&& le_i32_at(b, 87) == r.weight_all
            &&& b.subrange(91, 101) == padded(utf8_of(r.plate@), 10)
            &&& le_i32_at(b, 101) == r.status
            &&& le_i32_at(b, 105) == r.min_balance_status
            &&& b.subrange(109, 117) == r.general1@
            &&& b.subrange(117, 133) == r.general2@
            &&& b.subrange(133, 197) == r.extra@
        }),
{
    let b = lookup_vehicle_resp_bytes(r);
    law_i32_le_roundtrip(r.message_length);
    law_i32_le_roundtrip(r.command_id);
    law_i32_le_roundtrip(r.version_id);
    law_i64_le_roundtrip(r.request_id);
    law_i64_le_roundtrip(r.session_id);
    law_i64_le_roundtrip(r.timestamp);
    law_i32_le_roundtrip(r.process_time);
    law_i32_le_roundtrip(r.vehicle_type);
    law_i32_le_roundtrip(r.seat);
    law_i32_le_roundtrip(r.weight_goods);
    law_i32_le_roundtrip(r.weight_all);
    law_i32_le_roundtrip(r.status);
    law_i32_le_roundtrip(r.min_balance_status);
    assert(b.len() == 197);
    assert(b.subrange(0, 4) =~= i32_le(r.message_length));
    lemma_read_back_i32(b, 0, r.message_length);
    assert(b.subrange(4, 8) =~= i32_le(r.command_id));
    lemma_read_back_i32(b, 4, r.command_id);
    assert(b.subrange(8, 12) =~= i32_le(r.version_id));
    lemma_read_back_i32(b, 8, r.version_id);
    assert(b.subrange(12, 20) =~= i64_le(r.request_id));
    lemma_read_back_i64(b, 12, r.request_id);
    assert(b.subrange(20, 28) =~= i64_le(r.session_id));
    lemma_read_back_i64(b, 20, r.session_id);
    assert(b.subrange(28, 36) =~= i64_le(r.timestamp));
    lemma_read_back_i64(b, 28, r.timestamp);
    assert(b.subrange(36, 40) =~= i32_le(r.process_time));
    lemma_read_back_i32(b, 36, r.process_time);
    assert(b.subrange(40, 64) =~= padded(utf8_of(r.etag@), 24));
    assert(b.subrange(64, 68) =~= i32_le(r.vehicle_type));
    lemma_read_back_i32(b, 64, r.vehicle_type);
    assert(b.subrange(68, 69) =~= seq![ticket_type_byte(r.ticket_type@)]);
    assert(b.subrange(69, 79) =~= padded(utf8_of(r.register_vehicle_type@), 10));
    assert(b.subrange(79, 83) =~= i32_le(r.seat));
    lemma_read_back_i32(b, 79, r.seat);
    assert(b.subrange(83, 87) =~= i32_le(r.weight_goods));
    lemma_read_back_i32(b, 83, r.weight_goods);
    assert(b.subrange(87, 91) =~= i32_le(r.weight_all));
    lemma_read_back_i32(b, 87, r.weight_all);
    assert(b.subrange(91, 101) =~= padded(utf8_of(r.plate@), 10));
    assert(b.subrange(101, 105) =~= i32_le(r.status));
    lemma_read_back_i32(b, 101, r.status);
    assert(b.subrange(105, 109) =~= i32_le(r.min_balance_status));
    lemma_read_back_i32(b, 105, r.min_balance_status);
    assert(b.subrange(109, 117) =~= r.general1@);
    assert(b.subrange(117, 133) =~= r.general2@);
    assert(b.subrange(133, 197) =~= r.extra@);
}

/// The reply to a connect carries the new session and status 0 only when the connect is
/// accepted; a refused connect gets session 0 and the refusal's status (a wrong password or an
/// unreachable user store as an unknown station or lane); the request's version and id come
/// back in every case.
pub proof fn law_connect_reply_session_and_status(d: ConnectDecision, codes: ConnectReplyCodes, version_id: i32, request_id: i64, session_id: i64)
    requires
        codes.account_not_activated != 0,
        codes.user_not_found != 0,
        codes.not_found_station_lane != 0,
    ensures
        ({
            let b = connect_reply_plain(d, codes, version_id, request_id, session_id);
            &&& le_i32_at(b, 8) == version_id
            &&& le_i64_at(b, 12) == request_id
            &&& le_i64_at(b, 20) == if d is Accept { session_id } else { 0 }
            &&& (le_i32_at(b, 28) == 0) == (d is Accept)
            &&& d is AccountNotActivated ==> le_i32_at(b, 28) == codes.account_not_activated
            &&& d is UserNotFound ==> le_i32_at(b, 28) == codes.user_not_found
            &&& (d is InvalidPassword || d is LookupFailed) ==> le_i32_at(b, 28) == codes.not_found_station_lane
        }),
{
    let st = crate::fe_reply::connect_reply_status_of(d);
    let sid = if st == crate::fe_reply::ConnectReplyStatus::Success { session_id } else { 0 };
    law_connect_reply_fields_at_offsets(codes.message_length, codes.command_id, version_id, request_id, sid,
        crate::fe_reply::connect_status_code(st, codes));
}

/// A rating detail read at `base` holds its integers as written little-endian at their places
/// (price at `base`, operator at +8, stations at +12 and +16, price ticket type at +46, amount
/// at +50, vehicle type at +54, toll owner at +58, stage at +66), an id of zero read as none,
/// its ticket type from the byte at +20 and its subscription from the 25 bytes at +21.
pub proof fn law_rating_detail_fields_at_offsets(d: Seq<u8>, base: int, rd: RatingDetail, price: i64, boo: i32, toll_a: i32,
    toll_b: i32, price_ticket_type: i32, price_amount: i32, vehicle_type: i32, bot: i64, stage: i64)
    requires
        rating_detail_from(d, base, rd),
        0 <= base,
        base + 74 <= d.len(),
        d.subrange(base, base + 8) == i64_le(price),
        d.subrange(base + 8, base + 12) == i32_le(boo),
        d.subrange(base + 12, base + 16) == i32_le(toll_a),
        d.subrange(base + 16, base + 20) == i32_le(toll_b),
        d.subrange(base + 46, base + 50) == i32_le(price_ticket_type),
        d.subrange(base + 50, base + 54) == i32_le(price_amount),
        d.subrange(base + 54, base + 58) == i32_le(vehicle_type),
        d.subrange(base + 58, base + 66) == i64_le(bot),
        d.subrange(base + 66, base + 74) == i64_le(stage),
    ensures
        rd.price_id == (if price != 0 { Some(price) } else { None }),
        rd.boo == boo,
        rd.toll_a_id == toll_a,
        rd.toll_b_id == toll_b,
        rd.price_ticket_type == price_ticket_type,
        rd.price_amount == price_amount,
        rd.vehicle_type == vehicle_type,
        rd.bot_id == (if bot != 0 { Some(bot) } else { None }),
        rd.stage_id == (if stage != 0 { Some(stage) } else { None }),
        rd.ticket_type@ == code_field(d[base + 20]),
        rd.subscription_id@ == text_field(d, base + 21, 25),
{
    lemma_read_back_i64(d, base, price);
    lemma_read_back_i32(d, base + 8, boo);
    lemma_read_back_i32(d, base + 12, toll_a);
    lemma_read_back_i32(d, base + 16, toll_b);
    lemma_read_back_i32(d, base + 46, price_ticket_type);
    lemma_read_back_i32(d, base + 50, price_amount);
    lemma_read_back_i32(d, base + 54, vehicle_type);
    lemma_read_back_i64(d, base + 58, bot);
    lemma_read_back_i64(d, base + 66, stage);
}

/// A checkout reservation request reads the hub at 92 (zero as none) and the ticket type from
/// the byte at 158; where it holds all the rating details it announces at 175, it has exactly
/// that many, the `i`-th read at `179 + 74 * i`, and none otherwise.
pub proof fn law_checkout_reserve_hub_type_and_details(d: Seq<u8>, r: CHECKOUT_RESERVE_BOO, hub: i64, line: i32)
    requires
        checkout_reserve_from(d, r),
        d.len() >= 179,
        d.subrange(92, 100) == i64_le(hub),
        d.subrange(175, 179) == i32_le(line),
    ensures
        r.hub_id == (if hub != 0 { Some(hub) } else { None }),
        r.ticket_type@ == code_field(d[158]),
        r.rating_detail_line == line,
        d.len() >= 179 + 74 * detail_count(line) ==> r.rating_detail@.len() == detail_count(line)
            && forall|i: int| 0 <= i < detail_count(line) ==> rating_detail_from(d, 179 + 74 * i, #[trigger] r.rating_detail@[i]),
        d.len() < 179 + 74 * detail_count(line) ==> r.rating_detail@.len() == 0,
{
    lemma_read_back_i64(d, 92, hub);
    lemma_read_back_i32(d, 175, line);
}

} // verus!
