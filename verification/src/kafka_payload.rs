//! The checkin and checkout commit messages published for downstream consumers, built from an
//! entry transaction record with per-field overrides.

use vstd::prelude::*;
use crate::etdr_build::text;
use crate::etdr_types::{clone_rating_details, BOORatingDetail, ETDR};
use crate::numtext::{i32_or, parse_i32_or};
use crate::text::{normalize_etag, normalize_seq};

verus! {

/// A checkin commit message.
#[derive(Debug)]
pub struct CheckinCommitPayload {
    pub request_id: i64,
    pub tid: String,
    pub ticket_in_id: i64,
    pub ticket_eTag_id: i64,
    pub etag: String,
    pub plate: String,
    pub station_in: i32,
    pub lane_in: i32,
    pub checkin_datetime: i64,
    pub checkin_commit_datetime: i64,
    pub status: i32,
    pub register_vehicle_type: String,
    pub seat: i32,
    pub weight_goods: i32,
    pub weight_all: i32,
    pub vehicle_type: i32,
}

/// A checkout commit message.
#[derive(Debug)]
pub struct CheckoutCommitPayload {
    pub request_id: i64,
    pub tid: String,
    pub ticket_in_id: i64,
    pub ticket_eTag_id: i64,
    pub hub_id: Option<i64>,
    pub ticket_out_id: i64,
    pub etag: String,
    pub plate: String,
    pub station_in: i32,
    pub lane_in: i32,
    pub checkin_datetime: i64,
    pub checkin_commit_datetime: i64,
    pub station_out: i32,
    pub lane_out: i32,
    pub checkout_datetime: i64,
    pub checkout_commit_datetime: i64,
    pub register_vehicle_type: String,
    pub seat: i32,
    pub weight_goods: i32,
    pub weight_all: i32,
    pub vehicle_type: i32,
    pub ticket_type: String,
    pub price_ticket_type: i32,
    pub status: i32,
    pub trans_amount: i32,
    pub rating_detail: Vec<BOORatingDetail>,
}

/// Values that replace those of the record in a checkin message (`None` keeps the record's).
#[derive(Debug, Default)]
pub struct CheckinPayloadOverrides {
    pub request_id: Option<i64>,
    pub tid: Option<String>,
    pub ticket_in_id: Option<i64>,
    pub etag: Option<String>,
    pub plate: Option<String>,
    pub station_in: Option<i32>,
    pub lane_in: Option<i32>,
    pub checkin_commit_datetime: Option<i64>,
}

/// Values that replace those of the record in a checkout message (`None` keeps the record's).
#[derive(Debug, Default)]
pub struct CheckoutPayloadOverrides {
    pub request_id: Option<i64>,
    pub tid: Option<String>,
    pub ticket_in_id: Option<i64>,
    pub ticket_out_id: Option<i64>,
    pub hub_id: Option<i64>,
    pub etag: Option<String>,
    pub plate: Option<String>,
    pub station_in: Option<i32>,
    pub lane_in: Option<i32>,
    pub checkin_datetime: Option<i64>,
    pub checkin_commit_datetime: Option<i64>,
    pub station_out: Option<i32>,
    pub lane_out: Option<i32>,
    pub checkout_datetime: Option<i64>,
    pub checkout_commit_datetime: Option<i64>,
    pub register_vehicle_type: Option<String>,
    pub seat: Option<i32>,
    pub weight_goods: Option<i32>,
    pub weight_all: Option<i32>,
    pub vehicle_type: Option<i32>,
    pub trans_amount: Option<i32>,
    pub status: Option<i32>,
    pub rating_detail: Option<Vec<BOORatingDetail>>,
}

/// The value of `o`, or `d` when absent.
pub open spec fn or_i64(o: Option<i64>, d: i64) -> i64 {
    match o {
        Some(v) => v,
        None => d,
    }
}

/// The value of `o`, or `d` when absent.
pub open spec fn or_i32(o: Option<i32>, d: i32) -> i32 {
    match o {
        Some(v) => v,
        None => d,
    }
}

/// The text of `o`, or `d` when absent.
pub open spec fn or_text(o: Option<String>, d: Seq<char>) -> Seq<char> {
    match o {
        Some(v) => v@,
        None => d,
    }
}

fn pick_i64(o: Option<i64>, d: i64) -> (r: i64)
    ensures
        r == or_i64(o, d),
{
    match o {
        Some(v) => v,
        None => d,
    }
}

fn pick_i32(o: Option<i32>, d: i32) -> (r: i32)
    ensures
        r == or_i32(o, d),
{
    match o {
        Some(v) => v,
        None => d,
    }
}

fn pick_text(o: &Option<String>, d: &String) -> (r: String)
    ensures
        r@ == or_text(*o, d@),
{
    match o {
        Some(v) => v.clone(),
        None => d.clone(),
    }
}

/// What a checkin message built from record `e` with overrides `o` holds, field by field: the
/// terminal id is normalized; the etag is the record's etag number; the vehicle type is the
/// record's parsed, or 1.
pub open spec fn checkin_payload_of(e: ETDR, o: CheckinPayloadOverrides, p: CheckinCommitPayload) -> bool {
    &&& p.request_id == or_i64(o.request_id, e.request_id)
    &&& p.tid@ == normalize_seq(or_text(o.tid, e.t_id@))
    &&& p.ticket_in_id == or_i64(o.ticket_in_id, e.ticket_id)
    &&& p.ticket_eTag_id == or_i64(e.ticket_eTag_id, e.ref_trans_id)
    &&& p.etag@ == or_text(o.etag, e.etag_number@)
    &&& p.plate@ == or_text(o.plate, e.plate@)
    &&& p.station_in == or_i32(o.station_in, e.station_id)
    &&& p.lane_in == or_i32(o.lane_in, e.lane_id)
    &&& p.checkin_datetime == e.checkin_datetime
    &&& p.checkin_commit_datetime == or_i64(o.checkin_commit_datetime, e.checkin_commit_datetime)
    &&& p.status == e.status
    &&& p.register_vehicle_type@ == e.register_vehicle_type@
    &&& p.seat == or_i32(e.seat_num, 0)
    &&& p.weight_goods == or_i32(e.weight_goods, 0)
    &&& p.weight_all == or_i32(e.weight_all, 0)
    &&& p.vehicle_type == i32_or(e.vehicle_type@, 1)
}

/// Builds the checkin message of record `etdr` (see [`checkin_payload_of`]).
pub fn build_checkin_payload_from_etdr(etdr: &ETDR, overrides: CheckinPayloadOverrides) -> (r: CheckinCommitPayload)
    ensures
        checkin_payload_of(*etdr, overrides, r),
{
    let raw_tid = pick_text(&overrides.tid, &etdr.t_id);
    CheckinCommitPayload {
        request_id: pick_i64(overrides.request_id, etdr.request_id),
        tid: normalize_etag(raw_tid.as_str()),
        ticket_in_id: pick_i64(overrides.ticket_in_id, etdr.ticket_id),
        ticket_eTag_id: pick_i64(etdr.ticket_eTag_id, etdr.ref_trans_id),
        etag: pick_text(&overrides.etag, &etdr.etag_number),
        plate: pick_text(&overrides.plate, &etdr.plate),
        station_in: pick_i32(overrides.station_in, etdr.station_id),
        lane_in: pick_i32(overrides.lane_in, etdr.lane_id),
        checkin_datetime: etdr.checkin_datetime,
        checkin_commit_datetime: pick_i64(overrides.checkin_commit_datetime, etdr.checkin_commit_datetime),
        status: etdr.status,
        register_vehicle_type: etdr.register_vehicle_type.clone(),
        seat: pick_i32(etdr.seat_num, 0),
        weight_goods: pick_i32(etdr.weight_goods, 0),
        weight_all: pick_i32(etdr.weight_all, 0),
        vehicle_type: parse_i32_or(etdr.vehicle_type.as_str(), 1),
    }
}

/// What a checkout message built from record `e` with overrides `o` holds, field by field: the
/// terminal id is normalized; ticket out and hub fall back to the record's ticket and hub; the
/// vehicle type falls back to the record's parsed, or 1; the ticket type is `L`, the price
/// ticket type 1; an absent amount is 0; absent rating details are the record's.
pub open spec fn checkout_payload_of(e: ETDR, o: CheckoutPayloadOverrides, p: CheckoutCommitPayload) -> bool {
    &&& p.request_id == or_i64(o.request_id, e.request_id)
    &&& p.tid@ == normalize_seq(or_text(o.tid, e.t_id@))
    &&& p.ticket_in_id == or_i64(o.ticket_in_id, e.ticket_id)
    &&& p.ticket_eTag_id == or_i64(e.ticket_eTag_id, e.ref_trans_id)
    &&& p.hub_id == (if o.hub_id is Some { o.hub_id } else { e.hub_id })
    &&& p.ticket_out_id == or_i64(o.ticket_out_id, e.ticket_id)
    &&& p.etag@ == or_text(o.etag, e.etag_number@)
    &&& p.plate@ == or_text(o.plate, e.plate@)
    &&& p.station_in == or_i32(o.station_in, e.station_id)
    &&& p.lane_in == or_i32(o.lane_in, e.lane_id)
    &&& p.checkin_datetime == or_i64(o.checkin_datetime, e.checkin_datetime)
    &&& p.checkin_commit_datetime == or_i64(o.checkin_commit_datetime, e.checkin_commit_datetime)
    &&& p.station_out == or_i32(o.station_out, e.toll_out)
    &&& p.lane_out == or_i32(o.lane_out, e.lane_out)
    &&& p.checkout_datetime == or_i64(o.checkout_datetime, e.checkout_datetime)
    &&& p.checkout_commit_datetime == or_i64(o.checkout_commit_datetime, e.checkout_commit_datetime)
    &&& p.register_vehicle_type@ == or_text(o.register_vehicle_type, e.register_vehicle_type@)
    &&& p.seat == or_i32(o.seat, or_i32(e.seat_num, 0))
    &&& p.weight_goods == or_i32(o.weight_goods, or_i32(e.weight_goods, 0))
    &&& p.weight_all == or_i32(o.weight_all, or_i32(e.weight_all, 0))
    &&& p.vehicle_type == or_i32(o.vehicle_type, i32_or(e.vehicle_type@, 1))
    &&& p.ticket_type@ == "L"@
    &&& p.price_ticket_type == 1
    &&& p.status == or_i32(o.status, e.status)
    &&& p.trans_amount == or_i32(o.trans_amount, 0)
    &&& p.rating_detail@ == match o.rating_detail {
        Some(v) => v@,
        None => e.rating_details@,
    }
}

/// Builds the checkout message of record `etdr` (see [`checkout_payload_of`]).
pub fn build_checkout_payload_from_etdr(etdr: &ETDR, overrides: CheckoutPayloadOverrides) -> (r: CheckoutCommitPayload)
    ensures
        checkout_payload_of(*etdr, overrides, r),
{
    let ghost o0 = overrides;
    let raw_tid = pick_text(&overrides.tid, &etdr.t_id);
    let vehicle_type = match overrides.vehicle_type {
        Some(v) => v,
        None => parse_i32_or(etdr.vehicle_type.as_str(), 1),
    };
    let hub_id = match overrides.hub_id {
        Some(h) => Some(h),
        None => etdr.hub_id,
    };
    let etag = pick_text(&overrides.etag, &etdr.etag_number);
    let plate = pick_text(&overrides.plate, &etdr.plate);
    let register_vehicle_type = pick_text(&overrides.register_vehicle_type, &etdr.register_vehicle_type);
    let rating_detail = match overrides.rating_detail {
        Some(v) => v,
        None => clone_rating_details(&etdr.rating_details),
    };
    CheckoutCommitPayload {
        request_id: pick_i64(overrides.request_id, etdr.request_id),
        tid: normalize_etag(raw_tid.as_str()),
        ticket_in_id: pick_i64(overrides.ticket_in_id, etdr.ticket_id),
        ticket_eTag_id: pick_i64(etdr.ticket_eTag_id, etdr.ref_trans_id),
        hub_id,
        ticket_out_id: pick_i64(overrides.ticket_out_id, etdr.ticket_id),
        etag,
        plate,
        station_in: pick_i32(overrides.station_in, etdr.station_id),
        lane_in: pick_i32(overrides.lane_in, etdr.lane_id),
        checkin_datetime: pick_i64(overrides.checkin_datetime, etdr.checkin_datetime),
        checkin_commit_datetime: pick_i64(overrides.checkin_commit_datetime, etdr.checkin_commit_datetime),
        station_out: pick_i32(overrides.station_out, etdr.toll_out),
        lane_out: pick_i32(overrides.lane_out, etdr.lane_out),
        checkout_datetime: pick_i64(overrides.checkout_datetime, etdr.checkout_datetime),
        checkout_commit_datetime: pick_i64(overrides.checkout_commit_datetime, etdr.checkout_commit_datetime),
        register_vehicle_type,
        seat: pick_i32(overrides.seat, pick_i32(etdr.seat_num, 0)),
        weight_goods: pick_i32(overrides.weight_goods, pick_i32(etdr.weight_goods, 0)),
        weight_all: pick_i32(overrides.weight_all, pick_i32(etdr.weight_all, 0)),
        vehicle_type,
        ticket_type: text("L"),
        price_ticket_type: 1,
        status: pick_i32(overrides.status, etdr.status),
        trans_amount: pick_i32(overrides.trans_amount, 0),
        rating_detail,
    }
}

/// A checkin message carries, where nothing overrides them, the record's request, ticket,
/// entry station and lane, checkin and commit times and status; an override takes the place of
/// the record's value.
pub proof fn law_checkin_payload_fields(e: ETDR, o: CheckinPayloadOverrides, p: CheckinCommitPayload)
    requires
        checkin_payload_of(e, o, p),
    ensures
        o.request_id is None ==> p.request_id == e.request_id,
        o.ticket_in_id is None ==> p.ticket_in_id == e.ticket_id,
        o.station_in is None ==> p.station_in == e.station_id,
        o.lane_in is None ==> p.lane_in == e.lane_id,
        o.checkin_commit_datetime is None ==> p.checkin_commit_datetime == e.checkin_commit_datetime,
        o.etag is None ==> p.etag@ == e.etag_number@,
        o.plate is None ==> p.plate@ == e.plate@,
        o.station_in matches Some(x) ==> p.station_in == x,
        o.lane_in matches Some(x) ==> p.lane_in == x,
        p.checkin_datetime == e.checkin_datetime,
        p.status == e.status,
{
}

/// A checkout message carries, where nothing overrides them, the record's entry station and
/// lane, its exit station and lane, its ticket as both entry and exit ticket, its entry and
/// exit times, its status and no amount; an override takes the place of the record's value.
pub proof fn law_checkout_payload_fields(e: ETDR, o: CheckoutPayloadOverrides, p: CheckoutCommitPayload)
    requires
        checkout_payload_of(e, o, p),
    ensures
        o.station_in is None ==> p.station_in == e.station_id,
        o.lane_in is None ==> p.lane_in == e.lane_id,
        o.station_out is None ==> p.station_out == e.toll_out,
        o.lane_out is None ==> p.lane_out == e.lane_out,
        o.ticket_in_id is None ==> p.ticket_in_id == e.ticket_id,
        o.ticket_out_id is None ==> p.ticket_out_id == e.ticket_id,
        o.checkin_datetime is None ==> p.checkin_datetime == e.checkin_datetime,
        o.checkout_datetime is None ==> p.checkout_datetime == e.checkout_datetime,
        o.checkout_commit_datetime is None ==> p.checkout_commit_datetime == e.checkout_commit_datetime,
        o.status is None ==> p.status == e.status,
        o.trans_amount is None ==> p.trans_amount == 0,
        o.station_out matches Some(x) ==> p.station_out == x,
        o.lane_out matches Some(x) ==> p.lane_out == x,
        o.trans_amount matches Some(x) ==> p.trans_amount == x,
        p.price_ticket_type == 1,
{
}

} // verus!
