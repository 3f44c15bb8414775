//! Reading the front-end's lane requests (checkin, commit, rollback) from their bytes, the
//! length and command coming from the request header already read.

use vstd::prelude::*;
use crate::boo_codec::MessageError;
use crate::tcoc_messages::{FE_CHECKIN, FE_COMMIT_IN, FE_ROLLBACK};
use crate::wire::{le_i32_at, le_i64_at, read_i32_le, read_i64_le, read_text, utf8_lossy};

verus! {

/// Size of a checkin request: header, tag, station, lane, plate, reader transaction, security
/// value.
pub const FE_CHECKIN_LEN: usize = 106;

/// Size of a commit request.
pub const FE_COMMIT_IN_LEN: usize = 98;

/// Size of a rollback request.
pub const FE_ROLLBACK_LEN: usize = 90;

/// The `w` bytes of `d` at `off`, lossily decoded, as they are.
pub open spec fn raw_text(d: Seq<u8>, off: int, w: int) -> Seq<char> {
    utf8_lossy(d.subrange(off, off + w))
}

/// What a checkin request read from `d` holds, field by field.
pub open spec fn fe_checkin_from(d: Seq<u8>, message_length: i32, command_id: i32, r: FE_CHECKIN) -> bool {
    &&& r.message_length == message_length
    &&& r.command_id == command_id
    &&& r.request_id == le_i64_at(d, 8)
    &&& r.session_id == le_i64_at(d, 16)
    &&& r.etag@ == raw_text(d, 24, 24)
    &&& r.station == le_i32_at(d, 48)
    &&& r.lane == le_i32_at(d, 52)
    &&& r.plate@ == raw_text(d, 56, 10)
    &&& r.tid@ == raw_text(d, 66, 24)
    &&& r.hash_value@ == raw_text(d, 90, 16)
}

/// Reads a checkin request; too short a request is refused.
pub fn parse_fe_checkin(message_length: i32, command_id: i32, data: &[u8]) -> (r: Result<FE_CHECKIN, MessageError>)
    ensures
        data@.len() < FE_CHECKIN_LEN <==> r is Err,
        r matches Err(e) ==> e == (MessageError::TooShort { len: data@.len() as usize, need: FE_CHECKIN_LEN }),
        r matches Ok(c) ==> fe_checkin_from(data@, message_length, command_id, c),
{
    if data.len() < FE_CHECKIN_LEN {
        return Err(MessageError::TooShort { len: data.len(), need: FE_CHECKIN_LEN });
    }
    Ok(FE_CHECKIN {
        message_length,
        command_id,
        request_id: read_i64_le(data, 8),
        session_id: read_i64_le(data, 16),
        etag: read_text(data, 24, 24),
        station: read_i32_le(data, 48),
        lane: read_i32_le(data, 52),
        plate: read_text(data, 56, 10),
        tid: read_text(data, 66, 24),
        hash_value: read_text(data, 90, 16),
    })
}

/// What a commit request read from `d` holds, field by field.
pub open spec fn fe_commit_in_from(d: Seq<u8>, message_length: i32, command_id: i32, r: FE_COMMIT_IN) -> bool {
    &&& r.message_length == message_length
    &&& r.command_id == command_id
    &&& r.request_id == le_i64_at(d, 8)
    &&& r.session_id == le_i64_at(d, 16)
    &&& r.etag@ == raw_text(d, 24, 24)
    &&& r.station == le_i32_at(d, 48)
    &&& r.lane == le_i32_at(d, 52)
    &&& r.ticket_id == le_i64_at(d, 56)
    &&& r.status == le_i32_at(d, 64)
    &&& r.plate@ == raw_text(d, 68, 10)
    &&& r.image_count == le_i32_at(d, 78)
    &&& r.vehicle_length == le_i32_at(d, 82)
    &&& r.transaction_amount == le_i32_at(d, 86)
    &&& r.weight == le_i32_at(d, 90)
    &&& r.reason_id == le_i32_at(d, 94)
}

/// Reads a commit request; too short a request is refused.
pub fn parse_fe_commit_in(message_length: i32, command_id: i32, data: &[u8]) -> (r: Result<FE_COMMIT_IN, MessageError>)
    ensures
        data@.len() < FE_COMMIT_IN_LEN <==> r is Err,
        r matches Err(e) ==> e == (MessageError::TooShort { len: data@.len() as usize, need: FE_COMMIT_IN_LEN }),
        r matches Ok(c) ==> fe_commit_in_from(data@, message_length, command_id, c),
{
    if data.len() < FE_COMMIT_IN_LEN {
        return Err(MessageError::TooShort { len: data.len(), need: FE_COMMIT_IN_LEN });
    }
    Ok(FE_COMMIT_IN {
        message_length,
        command_id,
        request_id: read_i64_le(data, 8),
        session_id: read_i64_le(data, 16),
        etag: read_text(data, 24, 24),
        station: read_i32_le(data, 48),
        lane: read_i32_le(data, 52),
        ticket_id: read_i64_le(data, 56),
        status: read_i32_le(data, 64),
        plate: read_text(data, 68, 10),
        image_count: read_i32_le(data, 78),
        vehicle_length: read_i32_le(data, 82),
        transaction_amount: read_i32_le(data, 86),
        weight: read_i32_le(data, 90),
        reason_id: read_i32_le(data, 94),
    })
}

/// What a rollback request read from `d` holds, field by field.
pub open spec fn fe_rollback_from(d: Seq<u8>, message_length: i32, command_id: i32, r: FE_ROLLBACK) -> bool {
    &&& r.message_length == message_length
    &&& r.command_id == command_id
    &&& r.request_id == le_i64_at(d, 8)
    &&& r.session_id == le_i64_at(d, 16)
    &&& r.etag@ == raw_text(d, 24, 24)
    &&& r.station == le_i32_at(d, 48)
    &&& r.lane == le_i32_at(d, 52)
    &&& r.ticket_id == le_i64_at(d, 56)
    &&& r.status == le_i32_at(d, 64)
    &&& r.plate@ == raw_text(d, 68, 10)
    &&& r.image_count == le_i32_at(d, 78)
    &&& r.weight == le_i32_at(d, 82)
    &&& r.reason_id == le_i32_at(d, 86)
}

/// Reads a rollback request; too short a request is refused.
pub fn parse_fe_rollback(message_length: i32, command_id: i32, data: &[u8]) -> (r: Result<FE_ROLLBACK, MessageError>)
    ensures
        data@.len() < FE_ROLLBACK_LEN <==> r is Err,
        r matches Err(e) ==> e == (MessageError::TooShort { len: data@.len() as usize, need: FE_ROLLBACK_LEN }),
        r matches Ok(c) ==> fe_rollback_from(data@, message_length, command_id, c),
{
    if data.len() < FE_ROLLBACK_LEN {
        return Err(MessageError::TooShort { len: data.len(), need: FE_ROLLBACK_LEN });
    }
    Ok(FE_ROLLBACK {
        message_length,
        command_id,
        request_id: read_i64_le(data, 8),
        session_id: read_i64_le(data, 16),
        etag: read_text(data, 24, 24),
        station: read_i32_le(data, 48),
        lane: read_i32_le(data, 52),
        ticket_id: read_i64_le(data, 56),
        status: read_i32_le(data, 64),
        plate: read_text(data, 68, 10),
        image_count: read_i32_le(data, 78),
        weight: read_i32_le(data, 82),
        reason_id: read_i32_le(data, 86),
    })
}

} // verus!
