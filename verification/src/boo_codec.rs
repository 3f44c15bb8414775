//! The binary messages between the lane front-end and the back-end for checkout reservation,
//! checkout commit, vehicle query and vehicle lookup: requests parsed from bytes, replies laid
//! out as bytes. Integers are little-endian; text fields have a fixed width, are read as UTF-8
//! (invalid sequences replaced) and written zero-padded.

use vstd::prelude::*;
use crate::bect_messages::{
    CHECKOUT_COMMIT_BOO, CHECKOUT_COMMIT_BOO_RESP, CHECKOUT_RESERVE_BOO, CHECKOUT_RESERVE_BOO_RESP,
    LOOKUP_VEHICLE, LOOKUP_VEHICLE_RESP, QUERY_VEHICLE_BOO, QUERY_VEHICLE_BOO_RESP,
};
use crate::rating_detail::RatingDetail;
use crate::text::{normalize_etag, normalize_seq, trim_end_nul_seq, trim_end_nul_str};
use crate::wire::{
    char_to_string, i32_le, i64_le, le_i32_at, le_i64_at, padded, push_bytes, push_i32_le,
    push_i64_le, push_padded, read_array16, read_array8, read_i32_le, read_i64_le, read_text,
    utf8_lossy, zeros,
};

verus! {

/// Size of a checkout commit request.
pub const CHECKOUT_COMMIT_BOO_LEN: usize = 188;

/// Size of a checkout commit reply.
pub const CHECKOUT_COMMIT_BOO_RESP_LEN: usize = 96;

/// Size of the fixed part of a checkout reservation request, before its rating details.
pub const CHECKOUT_RESERVE_BOO_MIN_LEN: usize = 179;

/// Size of one rating detail in a checkout reservation request.
pub const RATING_DETAIL_ITEM_LEN: usize = 74;

/// Size of the two general fields that close a checkout reservation request.
pub const TRAILER_LEN: usize = 24;

/// Size of a checkout reservation reply.
pub const CHECKOUT_RESERVE_BOO_RESP_LEN: usize = 100;

/// Size of a vehicle query request.
pub const QUERY_VEHICLE_BOO_LEN: usize = 122;

/// Size of a vehicle query reply.
pub const QUERY_VEHICLE_BOO_RESP_LEN: usize = 133;

/// Size of a vehicle lookup request.
pub const LOOKUP_VEHICLE_LEN: usize = 110;

/// Size of a vehicle lookup reply.
pub const LOOKUP_VEHICLE_RESP_LEN: usize = 197;

/// Why a request could not be read.
#[derive(Debug, Clone, PartialEq, Eq, Structural)]
pub enum MessageError {
    /// The request has `len` bytes where at least `need` are required.
    TooShort { len: usize, need: usize },
}

/// The text field of width `w` at `off`, decoded, with trailing NULs and surrounding white
/// space removed.
pub open spec fn text_field(d: Seq<u8>, off: int, w: int) -> Seq<char> {
    normalize_seq(utf8_lossy(d.subrange(off, off + w)))
}

/// The text field of width `w` at `off`, decoded, with trailing NULs removed.
pub open spec fn nul_trimmed_field(d: Seq<u8>, off: int, w: int) -> Seq<char> {
    trim_end_nul_seq(utf8_lossy(d.subrange(off, off + w)))
}

/// A one-byte code: the character of byte `b`, or nothing for a zero byte.
pub open spec fn code_field(b: u8) -> Seq<char> {
    if b > 0 { seq![b as char] } else { Seq::empty() }
}

/// A non-zero identifier, or `None` for zero.
pub open spec fn nonzero_id(x: i64) -> Option<i64> {
    if x != 0 { Some(x) } else { None }
}

fn read_norm_text(data: &[u8], off: usize, w: usize) -> (r: String)
    requires
        off + w <= data@.len(),
    ensures
        r@ == text_field(data@, off as int, w as int),
{
    let t = read_text(data, off, w);
    normalize_etag(t.as_str())
}

fn read_nul_trimmed_text(data: &[u8], off: usize, w: usize) -> (r: String)
    requires
        off + w <= data@.len(),
    ensures
        r@ == nul_trimmed_field(data@, off as int, w as int),
{
    let t = read_text(data, off, w);
    trim_end_nul_str(t.as_str())
}

fn read_code(b: u8) -> (r: String)
    ensures
        r@ == code_field(b),
{
    if b > 0 {
        char_to_string(b as char)
    } else {
        String::new()
    }
}

/// What a checkout commit request read from `d` holds, field by field.
pub open spec fn checkout_commit_from(d: Seq<u8>, r: CHECKOUT_COMMIT_BOO) -> bool {
    &&& r.message_length == le_i32_at(d, 0)
    &&& r.command_id == le_i32_at(d, 4)
    &&& r.version_id == le_i32_at(d, 8)
    &&& r.request_id == le_i64_at(d, 12)
    &&& r.session_id == le_i64_at(d, 20)
    &&& r.timestamp == le_i64_at(d, 28)
    &&& r.tid@ == text_field(d, 36, 24)
    &&& r.etag@ == text_field(d, 60, 24)
    &&& r.ticket_in_id == le_i64_at(d, 84)
    &&& r.hub_id == le_i64_at(d, 92)
    &&& r.ticket_out_id == le_i64_at(d, 100)
    &&& r.ticket_eTag_id == le_i64_at(d, 108)
    &&& r.station_in == le_i32_at(d, 116)
    &&& r.lane_in == le_i32_at(d, 120)
    &&& r.station_out == le_i32_at(d, 124)
    &&& r.lane_out == le_i32_at(d, 128)
    &&& r.plate@ == text_field(d, 132, 20)
    &&& r.trans_amount == le_i32_at(d, 152)
    &&& r.trans_datetime == le_i64_at(d, 156)
    &&& r.general1@ == d.subrange(164, 172)
    &&& r.general2@ == d.subrange(172, 188)
}

/// Reads a checkout commit request; too short a request is refused.
pub fn parse_checkout_commit_boo(data: &[u8]) -> (r: Result<CHECKOUT_COMMIT_BOO, MessageError>)
    ensures
        data@.len() < CHECKOUT_COMMIT_BOO_LEN <==> r is Err,
        r matches Err(e) ==> e == (MessageError::TooShort { len: data@.len() as usize, need: CHECKOUT_COMMIT_BOO_LEN }),
        r matches Ok(m) ==> checkout_commit_from(data@, m),
{
    if data.len() < CHECKOUT_COMMIT_BOO_LEN {
        return Err(MessageError::TooShort { len: data.len(), need: CHECKOUT_COMMIT_BOO_LEN });
    }
    Ok(CHECKOUT_COMMIT_BOO {
        message_length: read_i32_le(data, 0),
        command_id: read_i32_le(data, 4),
        version_id: read_i32_le(data, 8),
        request_id: read_i64_le(data, 12),
        session_id: read_i64_le(data, 20),
        timestamp: read_i64_le(data, 28),
        tid: read_norm_text(data, 36, 24),
        etag: read_norm_text(data, 60, 24),
        ticket_in_id: read_i64_le(data, 84),
        hub_id: read_i64_le(data, 92),
        ticket_out_id: read_i64_le(data, 100),
        ticket_eTag_id: read_i64_le(data, 108),
        station_in: read_i32_le(data, 116),
        lane_in: read_i32_le(data, 120),
        station_out: read_i32_le(data, 124),
        lane_out: read_i32_le(data, 128),
        plate: read_norm_text(data, 132, 20),
        trans_amount: read_i32_le(data, 152),
        trans_datetime: read_i64_le(data, 156),
        general1: read_array8(data, 164),
        general2: read_array16(data, 172),
    })
}

/// The bytes of a checkout commit reply.
pub open spec fn checkout_commit_resp_bytes(r: CHECKOUT_COMMIT_BOO_RESP) -> Seq<u8> {
    padded(
        i32_le(r.message_length) + i32_le(r.command_id) + i32_le(r.version_id) + i64_le(r.request_id)
            + i64_le(r.session_id) + i64_le(r.timestamp) + i64_le(r.ticket_in_id) + i64_le(r.hub_id)
            + i64_le(r.ticket_eTag_id) + i64_le(r.ticket_out_id) + i32_le(r.status) + r.general1@
            + r.general2@,
        CHECKOUT_COMMIT_BOO_RESP_LEN as nat,
    )
}

/// Cuts or zero-pads `buf` to exactly `n` bytes.
fn fit_len(buf: &mut Vec<u8>, n: usize)
    ensures
        final(buf)@ == padded(old(buf)@, n as nat),
{
    let mut out: Vec<u8> = Vec::new();
    push_padded(&mut out, buf.as_slice(), n);
    *buf = out;
}

/// Lays out a checkout commit reply (see [`checkout_commit_resp_bytes`]).
pub fn build_checkout_commit_boo_resp(resp: &CHECKOUT_COMMIT_BOO_RESP) -> (r: Vec<u8>)
    ensures
        r@ == checkout_commit_resp_bytes(*resp),
        r@.len() == CHECKOUT_COMMIT_BOO_RESP_LEN,
{
    let mut buf: Vec<u8> = Vec::new();
    push_i32_le(&mut buf, resp.message_length);
    push_i32_le(&mut buf, resp.command_id);
    push_i32_le(&mut buf, resp.version_id);
    push_i64_le(&mut buf, resp.request_id);
    push_i64_le(&mut buf, resp.session_id);
    push_i64_le(&mut buf, resp.timestamp);
    push_i64_le(&mut buf, resp.ticket_in_id);
    push_i64_le(&mut buf, resp.hub_id);
    push_i64_le(&mut buf, resp.ticket_eTag_id);
    push_i64_le(&mut buf, resp.ticket_out_id);
    push_i32_le(&mut buf, resp.status);
    push_bytes(&mut buf, &resp.general1);
    push_bytes(&mut buf, &resp.general2);
    let ghost content = buf@;
    fit_len(&mut buf, CHECKOUT_COMMIT_BOO_RESP_LEN);
    proof {
        assert(content =~= i32_le(resp.message_length) + i32_le(resp.command_id) + i32_le(resp.version_id)
            + i64_le(resp.request_id) + i64_le(resp.session_id) + i64_le(resp.timestamp) + i64_le(resp.ticket_in_id)
            + i64_le(resp.hub_id) + i64_le(resp.ticket_eTag_id) + i64_le(resp.ticket_out_id) + i32_le(resp.status)
            + resp.general1@ + resp.general2@);
    }
    buf
}

/// What a rating detail read from `d` at `base` holds, field by field.
pub open spec fn rating_detail_from(d: Seq<u8>, base: int, rd: RatingDetail) -> bool {
    &&& rd.price_id == nonzero_id(le_i64_at(d, base))
    &&& rd.boo == le_i32_at(d, base + 8)
    &&& rd.toll_a_id == le_i32_at(d, base + 12)
    &&& rd.toll_b_id == le_i32_at(d, base + 16)
    &&& rd.ticket_type@ == code_field(d[base + 20])
    &&& rd.subscription_id@ == text_field(d, base + 21, 25)
    &&& rd.price_ticket_type == le_i32_at(d, base + 46)
    &&& rd.price_amount == le_i32_at(d, base + 50)
    &&& rd.vehicle_type == le_i32_at(d, base + 54)
    &&& rd.bot_id == nonzero_id(le_i64_at(d, base + 58))
    &&& rd.stage_id == nonzero_id(le_i64_at(d, base + 66))
}

/// The number of rating details a request announces (none when negative).
pub open spec fn detail_count(line: i32) -> nat {
    if line > 0 { line as nat } else { 0 }
}

/// Where the rating details of a request with `n` of them end.
pub open spec fn details_end(n: nat) -> int {
    CHECKOUT_RESERVE_BOO_MIN_LEN + n * RATING_DETAIL_ITEM_LEN
}

/// What a checkout reservation request read from `d` holds: the fixed fields; the announced
/// rating details where the request holds them all, else none; the general fields where the
/// request holds them after the details, else zeros.
pub open spec fn checkout_reserve_from(d: Seq<u8>, r: CHECKOUT_RESERVE_BOO) -> bool {
    let n = detail_count(r.rating_detail_line);
    let end = details_end(n);
    &&& r.message_length == le_i32_at(d, 0)
    &&& r.command_id == le_i32_at(d, 4)
    &&& r.version_id == le_i32_at(d, 8)
    &&& r.request_id == le_i64_at(d, 12)
    &&& r.session_id == le_i64_at(d, 20)
    &&& r.timestamp == le_i64_at(d, 28)
    &&& r.tid@ == text_field(d, 36, 24)
    &&& r.etag@ == text_field(d, 60, 24)
    &&& r.ticket_in_id == le_i64_at(d, 84)
    &&& r.hub_id == nonzero_id(le_i64_at(d, 92))
    &&& r.ticket_eTag_id == le_i64_at(d, 100)
    &&& r.ticket_out_id == le_i64_at(d, 108)
    &&& r.checkin_datetime == le_i64_at(d, 116)
    &&& r.checkin_commit_datetime == le_i64_at(d, 124)
    &&& r.station_in == le_i32_at(d, 132)
    &&& r.lane_in == le_i32_at(d, 136)
    &&& r.station_out == le_i32_at(d, 140)
    &&& r.lane_out == le_i32_at(d, 144)
    &&& r.plate@ == text_field(d, 148, 10)
    &&& r.ticket_type@ == code_field(d[158])
    &&& r.price_ticket_type == le_i32_at(d, 159)
    &&& r.trans_amount == le_i32_at(d, 163)
    &&& r.trans_datetime == le_i64_at(d, 167)
    &&& r.rating_detail_line == le_i32_at(d, 175)
    &&& if d.len() >= end {
        &&& r.rating_detail@.len() == n
        &&& forall|i: int| 0 <= i < n ==> rating_detail_from(d, CHECKOUT_RESERVE_BOO_MIN_LEN + i * RATING_DETAIL_ITEM_LEN, #[trigger] r.rating_detail@[i])
    } else {
        r.rating_detail@.len() == 0
    }
    &&& if d.len() >= end + TRAILER_LEN {
        r.general1@ == d.subrange(end, end + 8) && r.general2@ == d.subrange(end + 8, end + 24)
    } else {
        r.general1@ == zeros(8) && r.general2@ == zeros(16)
    }
}

fn read_rating_detail(data: &[u8], base: usize) -> (rd: RatingDetail)
    requires
        base + RATING_DETAIL_ITEM_LEN <= data@.len(),
    ensures
        rating_detail_from(data@, base as int, rd),
{
    let _len = data.len();
    let price = read_i64_le(data, base);
    let bot = read_i64_le(data, base + 58);
    let stage = read_i64_le(data, base + 66);
    RatingDetail {
        price_id: if price != 0 { Some(price) } else { None },
        boo: read_i32_le(data, base + 8),
        toll_a_id: read_i32_le(data, base + 12),
        toll_b_id: read_i32_le(data, base + 16),
        ticket_type: read_code(data[base + 20]),
        subscription_id: read_norm_text(data, base + 21, 25),
        price_ticket_type: read_i32_le(data, base + 46),
        price_amount: read_i32_le(data, base + 50),
        vehicle_type: read_i32_le(data, base + 54),
        bot_id: if bot != 0 { Some(bot) } else { None },
        stage_id: if stage != 0 { Some(stage) } else { None },
    }
}

/// Reads a checkout reservation request (see [`checkout_reserve_from`]); a request shorter
/// than its fixed part is refused.
pub fn parse_checkout_reserve_boo(data: &[u8]) -> (r: Result<CHECKOUT_RESERVE_BOO, MessageError>)
    ensures
        data@.len() < CHECKOUT_RESERVE_BOO_MIN_LEN <==> r is Err,
        r matches Err(e) ==> e == (MessageError::TooShort { len: data@.len() as usize, need: CHECKOUT_RESERVE_BOO_MIN_LEN }),
        r matches Ok(m) ==> checkout_reserve_from(data@, m),
{
    if data.len() < CHECKOUT_RESERVE_BOO_MIN_LEN {
        return Err(MessageError::TooShort { len: data.len(), need: CHECKOUT_RESERVE_BOO_MIN_LEN });
    }
    let dlen = data.len();
    let line = read_i32_le(data, 175);
    let n: u64 = if line > 0 { line as u64 } else { 0 };
    let end: u64 = 179 + n * 74;
    let mut details: Vec<RatingDetail> = Vec::new();
    if (data.len() as u64) >= end {
        let mut i: u64 = 0;
        while i < n
            invariant
                i <= n,
                n == detail_count(line),
                end == details_end(n as nat),
                data@.len() >= end,
                data@.len() <= usize::MAX,
                details@.len() == i,
                forall|j: int| 0 <= j < i ==> rating_detail_from(data@, CHECKOUT_RESERVE_BOO_MIN_LEN + j * RATING_DETAIL_ITEM_LEN, #[trigger] details@[j]),
            decreases n - i,
        {
            proof {
                assert(179 + i * 74 + 74 <= 179 + n * 74) by (nonlinear_arith)
                    requires i < n;
            }
            let base = (179 + i * 74) as usize;
            proof {
                assert(base as int == CHECKOUT_RESERVE_BOO_MIN_LEN + i * RATING_DETAIL_ITEM_LEN);
            }
            let rd = read_rating_detail(data, base);
            let ghost d0 = details@;
            details.push(rd);
            proof {
                assert forall|j: int| 0 <= j < i + 1 implies rating_detail_from(data@, CHECKOUT_RESERVE_BOO_MIN_LEN + j * RATING_DETAIL_ITEM_LEN, #[trigger] details@[j]) by {
                    if j < i {
                        assert(details@[j] == d0[j]);
                    }
                }
            }
            i = i + 1;
        }
    }
    let mut g1 = [0u8; 8];
    let mut g2 = [0u8; 16];
    proof {
        assert(g1@ =~= zeros(8));
        assert(g2@ =~= zeros(16));
    }
    if (data.len() as u64) >= end + 24 {
        let e = end as usize;
        g1 = read_array8(data, e);
        g2 = read_array16(data, e + 8);
    }
    let tt = data[158];
    let hub = read_i64_le(data, 92);
    Ok(CHECKOUT_RESERVE_BOO {
        message_length: read_i32_le(data, 0),
        command_id: read_i32_le(data, 4),
        version_id: read_i32_le(data, 8),
        request_id: read_i64_le(data, 12),
        session_id: read_i64_le(data, 20),
        timestamp: read_i64_le(data, 28),
        tid: read_norm_text(data, 36, 24),
        etag: read_norm_text(data, 60, 24),
        ticket_in_id: read_i64_le(data, 84),
        hub_id: if hub != 0 { Some(hub) } else { None },
        ticket_eTag_id: read_i64_le(data, 100),
        ticket_out_id: read_i64_le(data, 108),
        checkin_datetime: read_i64_le(data, 116),
        checkin_commit_datetime: read_i64_le(data, 124),
        station_in: read_i32_le(data, 132),
        lane_in: read_i32_le(data, 136),
        station_out: read_i32_le(data, 140),
        lane_out: read_i32_le(data, 144),
        plate: read_norm_text(data, 148, 10),
        ticket_type: read_code(tt),
        price_ticket_type: read_i32_le(data, 159),
        trans_amount: read_i32_le(data, 163),
        trans_datetime: read_i64_le(data, 167),
        rating_detail_line: line,
        rating_detail: details,
        general1: g1,
        general2: g2,
    })
}

/// A hub, or zero when absent.
pub open spec fn hub_or_zero(h: Option<i64>) -> i64 {
    match h {
        Some(x) => x,
        None => 0,
    }
}

/// The bytes of a checkout reservation reply (an absent hub is written as zero).
pub open spec fn checkout_reserve_resp_bytes(r: CHECKOUT_RESERVE_BOO_RESP) -> Seq<u8> {
    padded(
        i32_le(r.message_length) + i32_le(r.command_id) + i32_le(r.version_id) + i64_le(r.request_id)
            + i64_le(r.session_id) + i64_le(r.timestamp) + i32_le(r.process_time) + i64_le(r.ticket_in_id)
            + i64_le(hub_or_zero(r.hub_id)) + i64_le(r.ticket_eTag_id)
            + i64_le(r.ticket_out_id) + i32_le(r.status) + r.general1@ + r.general2@,
        CHECKOUT_RESERVE_BOO_RESP_LEN as nat,
    )
}

/// Lays out a checkout reservation reply (see [`checkout_reserve_resp_bytes`]).
pub fn build_checkout_reserve_boo_resp(resp: &CHECKOUT_RESERVE_BOO_RESP) -> (r: Vec<u8>)
    ensures
        r@ == checkout_reserve_resp_bytes(*resp),
        r@.len() == CHECKOUT_RESERVE_BOO_RESP_LEN,
{
    let hub: i64 = match resp.hub_id {
        Some(h) => h,
        None => 0,
    };
    let mut buf: Vec<u8> = Vec::new();
    push_i32_le(&mut buf, resp.message_length);
    push_i32_le(&mut buf, resp.command_id);
    push_i32_le(&mut buf, resp.version_id);
    push_i64_le(&mut buf, resp.request_id);
    push_i64_le(&mut buf, resp.session_id);
    push_i64_le(&mut buf, resp.timestamp);
    push_i32_le(&mut buf, resp.process_time);
    push_i64_le(&mut buf, resp.ticket_in_id);
    push_i64_le(&mut buf, hub);
    push_i64_le(&mut buf, resp.ticket_eTag_id);
    push_i64_le(&mut buf, resp.ticket_out_id);
    push_i32_le(&mut buf, resp.status);
    push_bytes(&mut buf, &resp.general1);
    push_bytes(&mut buf, &resp.general2);
    let ghost content = buf@;
    fit_len(&mut buf, CHECKOUT_RESERVE_BOO_RESP_LEN);
    proof {
        assert(content =~= i32_le(resp.message_length) + i32_le(resp.command_id) + i32_le(resp.version_id)
            + i64_le(resp.request_id) + i64_le(resp.session_id) + i64_le(resp.timestamp) + i32_le(resp.process_time)
            + i64_le(resp.ticket_in_id) + i64_le(hub_or_zero(resp.hub_id))
            + i64_le(resp.ticket_eTag_id) + i64_le(resp.ticket_out_id) + i32_le(resp.status)
            + resp.general1@ + resp.general2@);
    }
    buf
}

/// What a vehicle query request read from `d` holds, field by field.
pub open spec fn query_vehicle_from(d: Seq<u8>, r: QUERY_VEHICLE_BOO) -> bool {
    &&& r.message_length == le_i32_at(d, 0)
    &&& r.command_id == le_i32_at(d, 4)
    &&& r.version_id == le_i32_at(d, 8)
    &&& r.request_id == le_i64_at(d, 12)
    &&& r.session_id == le_i64_at(d, 20)
    &&& r.timestamp == le_i64_at(d, 28)
    &&& r.tid@ == nul_trimmed_field(d, 36, 24)
    &&& r.etag@ == nul_trimmed_field(d, 60, 24)
    &&& r.station == le_i32_at(d, 84)
    &&& r.lane == le_i32_at(d, 88)
    &&& r.station_type@ == nul_trimmed_field(d, 92, 1)
    &&& r.lane_type@ == nul_trimmed_field(d, 93, 1)
    &&& r.min_balance == le_i32_at(d, 94)
    &&& r.general1@ == d.subrange(98, 106)
    &&& r.general2@ == d.subrange(106, 122)
}

/// Reads a vehicle query request; too short a request is refused.
pub fn parse_query_vehicle_boo(data: &[u8]) -> (r: Result<QUERY_VEHICLE_BOO, MessageError>)
    ensures
        data@.len() < QUERY_VEHICLE_BOO_LEN <==> r is Err,
        r matches Err(e) ==> e == (MessageError::TooShort { len: data@.len() as usize, need: QUERY_VEHICLE_BOO_LEN }),
        r matches Ok(m) ==> query_vehicle_from(data@, m),
{
    if data.len() < QUERY_VEHICLE_BOO_LEN {
        return Err(MessageError::TooShort { len: data.len(), need: QUERY_VEHICLE_BOO_LEN });
    }
    Ok(QUERY_VEHICLE_BOO {
        message_length: read_i32_le(data, 0),
        command_id: read_i32_le(data, 4),
        version_id: read_i32_le(data, 8),
        request_id: read_i64_le(data, 12),
        session_id: read_i64_le(data, 20),
        timestamp: read_i64_le(data, 28),
        tid: read_nul_trimmed_text(data, 36, 24),
        etag: read_nul_trimmed_text(data, 60, 24),
        station: read_i32_le(data, 84),
        lane: read_i32_le(data, 88),
        station_type: read_nul_trimmed_text(data, 92, 1),
        lane_type: read_nul_trimmed_text(data, 93, 1),
        min_balance: read_i32_le(data, 94),
        general1: read_array8(data, 98),
        general2: read_array16(data, 106),
    })
}

/// What a vehicle lookup request read from `d` holds, field by field.
pub open spec fn lookup_vehicle_from(d: Seq<u8>, r: LOOKUP_VEHICLE) -> bool {
    &&& r.message_length == le_i32_at(d, 0)
    &&& r.command_id == le_i32_at(d, 4)
    &&& r.version_id == le_i32_at(d, 8)
    &&& r.request_id == le_i64_at(d, 12)
    &&& r.session_id == le_i64_at(d, 20)
    &&& r.timestamp == le_i64_at(d, 28)
    &&& r.tid@ == nul_trimmed_field(d, 36, 24)
    &&& r.etag@ == nul_trimmed_field(d, 60, 24)
    &&& r.station == le_i32_at(d, 84)
    &&& r.lane == le_i32_at(d, 88)
    &&& r.station_type@ == nul_trimmed_field(d, 92, 1)
    &&& r.lane_type@ == nul_trimmed_field(d, 93, 1)
    &&& r.general1@ == d.subrange(94, 102)
    &&& r.general2@ == d.subrange(102, 110)
}

/// Reads a vehicle lookup request; too short a request is refused.
pub fn parse_lookup_vehicle(data: &[u8]) -> (r: Result<LOOKUP_VEHICLE, MessageError>)
    ensures
        data@.len() < LOOKUP_VEHICLE_LEN <==> r is Err,
        r matches Err(e) ==> e == (MessageError::TooShort { len: data@.len() as usize, need: LOOKUP_VEHICLE_LEN }),
        r matches Ok(m) ==> lookup_vehicle_from(data@, m),
{
    if data.len() < LOOKUP_VEHICLE_LEN {
        return Err(MessageError::TooShort { len: data.len(), need: LOOKUP_VEHICLE_LEN });
    }
    Ok(LOOKUP_VEHICLE {
        message_length: read_i32_le(data, 0),
        command_id: read_i32_le(data, 4),
        version_id: read_i32_le(data, 8),
        request_id: read_i64_le(data, 12),
        session_id: read_i64_le(data, 20),
        timestamp: read_i64_le(data, 28),
        tid: read_nul_trimmed_text(data, 36, 24),
        etag: read_nul_trimmed_text(data, 60, 24),
        station: read_i32_le(data, 84),
        lane: read_i32_le(data, 88),
        station_type: read_nul_trimmed_text(data, 92, 1),
        lane_type: read_nul_trimmed_text(data, 93, 1),
        general1: read_array8(data, 94),
        general2: read_array8(data, 102),
    })
}

/// The UTF-8 bytes of a text.
pub open spec fn utf8_of(s: Seq<char>) -> Seq<u8> {
    vstd::utf8::encode_utf8(s)
}

/// The byte written for a ticket type: the low byte of its first character, or of `L` when it
/// is empty.
pub open spec fn ticket_type_byte(s: Seq<char>) -> u8 {
    if s.len() > 0 { ((s[0] as u32) % 256) as u8 } else { 76u8 }
}

fn first_char_byte(s: &String) -> (r: u8)
    ensures
        r == ticket_type_byte(s@),
{
    let t = s.as_str();
    if t.unicode_len() > 0 {
        let c = t.get_char(0);
        ((c as u32) % 256) as u8
    } else {
        76u8
    }
}

/// The bytes of the header shared by the replies.
pub open spec fn reply_head_bytes(message_length: i32, command_id: i32, version_id: i32, request_id: i64, session_id: i64, timestamp: i64, process_time: i32) -> Seq<u8> {
    i32_le(message_length) + i32_le(command_id) + i32_le(version_id) + i64_le(request_id) + i64_le(session_id)
        + i64_le(timestamp) + i32_le(process_time)
}

/// The bytes of the vehicle description in the query and lookup replies.
pub open spec fn vehicle_body_bytes(etag: Seq<char>, vehicle_type: i32, ticket_type: Seq<char>, register_vehicle_type: Seq<char>, seat: i32, weight_goods: i32, weight_all: i32) -> Seq<u8> {
    padded(utf8_of(etag), 24) + i32_le(vehicle_type) + seq![ticket_type_byte(ticket_type)]
        + padded(utf8_of(register_vehicle_type), 10) + i32_le(seat) + i32_le(weight_goods) + i32_le(weight_all)
}

/// The bytes closing the query and lookup replies.
pub open spec fn vehicle_tail_bytes(plate: Seq<char>, status: i32, min_balance_status: i32, general1: Seq<u8>, general2: Seq<u8>) -> Seq<u8> {
    padded(utf8_of(plate), 10) + i32_le(status) + i32_le(min_balance_status) + general1 + general2
}

/// The bytes of the vehicle part shared by the query and lookup replies.
pub open spec fn vehicle_reply_bytes(
    message_length: i32, command_id: i32, version_id: i32, request_id: i64, session_id: i64, timestamp: i64,
    process_time: i32, etag: Seq<char>, vehicle_type: i32, ticket_type: Seq<char>, register_vehicle_type: Seq<char>,
    seat: i32, weight_goods: i32, weight_all: i32, plate: Seq<char>, status: i32, min_balance_status: i32,
    general1: Seq<u8>, general2: Seq<u8>,
) -> Seq<u8> {
    reply_head_bytes(message_length, command_id, version_id, request_id, session_id, timestamp, process_time)
        + vehicle_body_bytes(etag, vehicle_type, ticket_type, register_vehicle_type, seat, weight_goods, weight_all)
        + vehicle_tail_bytes(plate, status, min_balance_status, general1, general2)
}

/// The bytes of a vehicle query reply.
pub open spec fn query_vehicle_resp_bytes(r: QUERY_VEHICLE_BOO_RESP) -> Seq<u8> {
    padded(
        vehicle_reply_bytes(r.message_length, r.command_id, r.version_id, r.request_id, r.session_id, r.timestamp,
            r.process_time, r.etag@, r.vehicle_type, r.ticket_type@, r.register_vehicle_type@, r.seat, r.weight_goods,
            r.weight_all, r.plate@, r.status, r.min_balance_status, r.general1@, r.general2@),
        QUERY_VEHICLE_BOO_RESP_LEN as nat,
    )
}

/// The bytes of a vehicle lookup reply.
pub open spec fn lookup_vehicle_resp_bytes(r: LOOKUP_VEHICLE_RESP) -> Seq<u8> {
    padded(
        vehicle_reply_bytes(r.message_length, r.command_id, r.version_id, r.request_id, r.session_id, r.timestamp,
            r.process_time, r.etag@, r.vehicle_type, r.ticket_type@, r.register_vehicle_type@, r.seat, r.weight_goods,
            r.weight_all, r.plate@, r.status, r.min_balance_status, r.general1@, r.general2@) + r.extra@,
        LOOKUP_VEHICLE_RESP_LEN as nat,
    )
}

fn push_reply_head(buf: &mut Vec<u8>, message_length: i32, command_id: i32, version_id: i32, request_id: i64, session_id: i64, timestamp: i64, process_time: i32)
    ensures
        final(buf)@ == old(buf)@ + reply_head_bytes(message_length, command_id, version_id, request_id, session_id, timestamp, process_time),
{
    let ghost b0 = buf@;
    push_i32_le(buf, message_length);
    push_i32_le(buf, command_id);
    push_i32_le(buf, version_id);
    push_i64_le(buf, request_id);
    push_i64_le(buf, session_id);
    push_i64_le(buf, timestamp);
    push_i32_le(buf, process_time);
    proof {
        assert(buf@ =~= b0 + reply_head_bytes(message_length, command_id, version_id, request_id, session_id, timestamp, process_time));
    }
}

fn push_vehicle_body(buf: &mut Vec<u8>, etag: &String, vehicle_type: i32, ticket_type: &String, register_vehicle_type: &String, seat: i32, weight_goods: i32, weight_all: i32)
    ensures
        final(buf)@ == old(buf)@ + vehicle_body_bytes(etag@, vehicle_type, ticket_type@, register_vehicle_type@, seat, weight_goods, weight_all),
{
    let ghost b0 = buf@;
    push_padded(buf, etag.as_str().as_bytes(), 24);
    push_i32_le(buf, vehicle_type);
    let tb = first_char_byte(ticket_type);
    buf.push(tb);
    push_padded(buf, register_vehicle_type.as_str().as_bytes(), 10);
    push_i32_le(buf, seat);
    push_i32_le(buf, weight_goods);
    push_i32_le(buf, weight_all);
    proof {
        assert(buf@ =~= b0 + vehicle_body_bytes(etag@, vehicle_type, ticket_type@, register_vehicle_type@, seat, weight_goods, weight_all));
    }
}

fn push_vehicle_tail(buf: &mut Vec<u8>, plate: &String, status: i32, min_balance_status: i32, general1: &[u8; 8], general2: &[u8; 16])
    ensures
        final(buf)@ == old(buf)@ + vehicle_tail_bytes(plate@, status, min_balance_status, general1@, general2@),
{
    let ghost b0 = buf@;
    push_padded(buf, plate.as_str().as_bytes(), 10);
    push_i32_le(buf, status);
    push_i32_le(buf, min_balance_status);
    push_bytes(buf, general1);
    push_bytes(buf, general2);
    proof {
        assert(buf@ =~= b0 + vehicle_tail_bytes(plate@, status, min_balance_status, general1@, general2@));
    }
}

fn push_vehicle_reply(
    buf: &mut Vec<u8>, message_length: i32, command_id: i32, version_id: i32, request_id: i64, session_id: i64,
    timestamp: i64, process_time: i32, etag: &String, vehicle_type: i32, ticket_type: &String,
    register_vehicle_type: &String, seat: i32, weight_goods: i32, weight_all: i32, plate: &String, status: i32,
    min_balance_status: i32, general1: &[u8; 8], general2: &[u8; 16],
)
    ensures
        final(buf)@ == old(buf)@ + vehicle_reply_bytes(message_length, command_id, version_id, request_id, session_id,
            timestamp, process_time, etag@, vehicle_type, ticket_type@, register_vehicle_type@, seat, weight_goods,
            weight_all, plate@, status, min_balance_status, general1@, general2@),
{
    let ghost b0 = buf@;
    push_reply_head(buf, message_length, command_id, version_id, request_id, session_id, timestamp, process_time);
    push_vehicle_body(buf, etag, vehicle_type, ticket_type, register_vehicle_type, seat, weight_goods, weight_all);
    push_vehicle_tail(buf, plate, status, min_balance_status, general1, general2);
    proof {
        assert(buf@ =~= b0 + vehicle_reply_bytes(message_length, command_id, version_id, request_id, session_id,
            timestamp, process_time, etag@, vehicle_type, ticket_type@, register_vehicle_type@, seat, weight_goods,
            weight_all, plate@, status, min_balance_status, general1@, general2@));
    }
}

/// Lays out a vehicle query reply (see [`query_vehicle_resp_bytes`]).
pub fn serialize_query_vehicle_boo_resp(resp: &QUERY_VEHICLE_BOO_RESP) -> (r: Vec<u8>)
    ensures
        r@ == query_vehicle_resp_bytes(*resp),
        r@.len() == QUERY_VEHICLE_BOO_RESP_LEN,
{
    let mut buf: Vec<u8> = Vec::new();
    push_vehicle_reply(&mut buf, resp.message_length, resp.command_id, resp.version_id, resp.request_id,
        resp.session_id, resp.timestamp, resp.process_time, &resp.etag, resp.vehicle_type, &resp.ticket_type,
        &resp.register_vehicle_type, resp.seat, resp.weight_goods, resp.weight_all, &resp.plate, resp.status,
        resp.min_balance_status, &resp.general1, &resp.general2);
    proof {
        assert(buf@ =~= Seq::<u8>::empty() + vehicle_reply_bytes(resp.message_length, resp.command_id, resp.version_id,
            resp.request_id, resp.session_id, resp.timestamp, resp.process_time, resp.etag@, resp.vehicle_type,
            resp.ticket_type@, resp.register_vehicle_type@, resp.seat, resp.weight_goods, resp.weight_all, resp.plate@,
            resp.status, resp.min_balance_status, resp.general1@, resp.general2@));
    }
    fit_len(&mut buf, QUERY_VEHICLE_BOO_RESP_LEN);
    buf
}

/// Lays out a vehicle lookup reply (see [`lookup_vehicle_resp_bytes`]).
pub fn serialize_lookup_vehicle_resp(resp: &LOOKUP_VEHICLE_RESP) -> (r: Vec<u8>)
    ensures
        r@ == lookup_vehicle_resp_bytes(*resp),
        r@.len() == LOOKUP_VEHICLE_RESP_LEN,
{
    let mut buf: Vec<u8> = Vec::new();
    push_vehicle_reply(&mut buf, resp.message_length, resp.command_id, resp.version_id, resp.request_id,
        resp.session_id, resp.timestamp, resp.process_time, &resp.etag, resp.vehicle_type, &resp.ticket_type,
        &resp.register_vehicle_type, resp.seat, resp.weight_goods, resp.weight_all, &resp.plate, resp.status,
        resp.min_balance_status, &resp.general1, &resp.general2);
    let ghost v = buf@;
    push_bytes(&mut buf, &resp.extra);
    proof {
        assert(v =~= Seq::<u8>::empty() + vehicle_reply_bytes(resp.message_length, resp.command_id, resp.version_id,
            resp.request_id, resp.session_id, resp.timestamp, resp.process_time, resp.etag@, resp.vehicle_type,
            resp.ticket_type@, resp.register_vehicle_type@, resp.seat, resp.weight_goods, resp.weight_all, resp.plate@,
            resp.status, resp.min_balance_status, resp.general1@, resp.general2@));
    }
    fit_len(&mut buf, LOOKUP_VEHICLE_RESP_LEN);
    buf
}

} // verus!
