//! The store's stage row of a transaction, and how the library builds it from a checkin, from a
//! record or from a synchronised record, fills it from a record, and reads a record back from it.

use vstd::prelude::*;
use crate::checkin_rules::{plate_empty_sentinel, plate_sentinel};
use crate::checkout_rules::{cached_for, normalize_station_type, resolve_toll_type_for_etdr_at, station_type_of, toll_type_from_checkin_toll_id_at, toll_type_resolution};
use crate::etdr_build::text;
use crate::etdr_types::{clone_opt_string, ETDR};
use crate::numtext::{decimal_text, i32_to_string, i64_to_string, parse_i32, parse_i64, parsed_i32, parsed_i64};
use crate::checkin_rules::{ticket_type_code, ticket_type_str_to_i32};
use crate::clock::timestamp_ms;
use crate::pending_choice::{db_datetime_format, format_utc_millis, naive_utc_millis, parse_naive_utc_millis, utc_millis_text};
use crate::text::{is_blank, trim_seq, trim_str};
use crate::toll_cache::{TollCache, TollCacheEntry};
use crate::tcoc_messages::FE_CHECKIN;
use crate::text::{normalize_etag, normalize_seq};
use crate::toll_types::{TOLL, TOLL_LANE};

verus! {

/// The identifiers of a tag's subscriber.
#[derive(Debug, Clone, Copy)]
pub struct SubscriberIds {
    pub subscriber_id: i64,
    pub etag_id: i64,
    pub vehicle_id: i64,
    pub account_id: i64,
}

/// A stage row of the store: one transaction from entry to exit, column by column.
#[derive(Debug, Default)]
pub struct TransportTransactionStage {
    pub transport_trans_id: i64,
    pub subscriber_id: Option<i64>,
    pub etag_id: Option<i64>,
    pub vehicle_id: Option<i64>,
    pub checkin_toll_id: Option<i64>,
    pub checkin_lane_id: Option<i64>,
    pub checkin_commit_datetime: Option<String>,
    pub checkin_channel: Option<i64>,
    pub checkin_pass: Option<String>,
    pub checkin_pass_reason_id: Option<String>,
    pub checkout_toll_id: Option<i64>,
    pub checkout_lane_id: Option<i64>,
    pub checkout_commit_datetime: Option<String>,
    pub checkout_channel: Option<i64>,
    pub checkout_pass: Option<String>,
    pub checkout_pass_reason_id: Option<String>,
    pub charge_status: Option<String>,
    pub charge_type: Option<String>,
    pub total_amount: Option<i64>,
    pub account_id: Option<i64>,
    pub account_trans_id: Option<i64>,
    pub checkin_datetime: Option<String>,
    pub checkout_datetime: Option<String>,
    pub checkin_status: Option<String>,
    pub etag_number: Option<String>,
    pub request_id: Option<i64>,
    pub checkin_plate: Option<String>,
    pub checkin_plate_status: Option<String>,
    pub checkout_plate: Option<String>,
    pub checkout_plate_status: Option<String>,
    pub plate_from_toll: Option<String>,
    pub img_count: Option<i32>,
    pub checkin_img_count: Option<i32>,
    pub checkout_img_count: Option<i32>,
    pub status: Option<String>,
    pub last_update: Option<String>,
    pub notif_scan: Option<i64>,
    pub toll_type: Option<String>,
    pub rating_type: Option<String>,
    pub insert_datetime: Option<String>,
    pub insuff_amount: Option<i64>,
    pub checkout_status: Option<String>,
    pub bitwise_scan: Option<i64>,
    pub plate: Option<String>,
    pub vehicle_type: Option<String>,
    pub fe_vehicle_length: Option<i64>,
    pub fe_commit_amount: Option<i64>,
    pub fe_weight: Option<i64>,
    pub fe_reason_id: Option<i64>,
    pub vehicle_type_profile: Option<String>,
    pub boo: Option<i64>,
    pub boo_transport_trans_id: Option<i64>,
    pub subscription_ids: Option<String>,
    pub checkin_shift: Option<String>,
    pub checkout_shift: Option<String>,
    pub turning_code: Option<String>,
    pub checkin_tid: Option<String>,
    pub checkout_tid: Option<String>,
    pub charge_in: Option<String>,
    pub charge_trans_id: Option<String>,
    pub balance: Option<i64>,
    pub charge_in_status: Option<String>,
    pub charge_datetime: Option<String>,
    pub charge_in_104: Option<String>,
    pub fe_online_status: Option<String>,
    pub mdh_id: Option<i64>,
    pub chd_type: Option<String>,
    pub chd_ref_id: Option<i64>,
    pub chd_reason: Option<String>,
    pub fe_trans_id: Option<String>,
    pub transition_close: Option<String>,
    pub voucher_code: Option<String>,
    pub voucher_used_amount: Option<i64>,
    pub voucher_amount: Option<i64>,
    pub transport_sync_id: Option<i64>,
    pub ticket_in_id: Option<i64>,
    pub hub_id: Option<i64>,
    pub ticket_eTag_id: Option<i64>,
    pub ticket_out_id: Option<i64>,
    pub token_id: Option<String>,
    pub acs_account_no: Option<String>,
    pub boo_etag: Option<String>,
    pub sub_charge_in: Option<String>,
    pub sync_status: Option<i64>,
}

/// Whether `t` holds the text `v`.
pub open spec fn holds_text(t: Option<String>, v: Seq<char>) -> bool {
    t matches Some(s) && s@ == v
}

/// A plate as stored: normalized, or the sentinel where that leaves nothing.
pub open spec fn stored_plate_of(p: Seq<char>) -> Seq<char> {
    if normalize_seq(p).len() == 0 { plate_sentinel() } else { normalize_seq(p) }
}

/// What the stage row of a checkin holds: the transaction as its own entry ticket and back-end
/// transaction; the subscriber's ids (none without a subscriber); the station and lane code
/// and, as channel, the request's lane; passed (`P`) where the record's check is zero, else
/// failed (`F`) with reason `RT-` and the check, and the plate status `1` or `0` likewise;
/// checked in, inserted and updated at `now`; checkin status and status `1`; the normalized tag,
/// reader transaction and request id; the record's plate stored (see [`stored_plate_of`]) as
/// checkin plate and plate; the request's plate normalized, where not empty, as the plate read
/// at the lane; the record's image count, amount, weight, reason, vehicle type, charge and hub;
/// the station type of the station; the record's rating type or `E`; profile `STD`, operator
/// `3`, the normalized tag cut to `max_boo_etag_len` characters as operator tag (see
/// [`boo_etag_of`]), transition `F`; every other column empty.
pub open spec fn is_checkin_stage_row(r: TransportTransactionStage, fe: FE_CHECKIN, e: ETDR, toll: TOLL, lane: TOLL_LANE, transport_trans_id: i64, sub: Option<SubscriberIds>, now: Seq<char>,
    max_boo_etag_len: usize) -> bool {
    &&& r.transport_trans_id == transport_trans_id
    &&& r.subscriber_id == (match sub { Some(s) => Some(s.subscriber_id), None => None })
    &&& r.etag_id == (match sub { Some(s) => Some(s.etag_id), None => None })
    &&& r.vehicle_id == (match sub { Some(s) => Some(s.vehicle_id), None => None })
    &&& r.account_id == (match sub { Some(s) => Some(s.account_id), None => None })
    &&& r.checkin_toll_id == Some(toll.toll_id as i64)
    &&& r.checkin_lane_id == Some(lane.lane_code as i64)
    &&& r.checkin_channel == Some(fe.lane as i64)
    &&& holds_text(r.checkin_pass, if e.check == 0 { "P"@ } else { "F"@ })
    &&& if e.check == 0 {
        r.checkin_pass_reason_id is None
    } else {
        holds_text(r.checkin_pass_reason_id, "RT-"@ + decimal_text(e.check as int))
    }
    &&& holds_text(r.checkin_datetime, now)
    &&& holds_text(r.checkin_status, "1"@)
    &&& holds_text(r.etag_number, normalize_seq(fe.etag@))
    &&& r.request_id == Some(fe.request_id)
    &&& holds_text(r.checkin_plate, stored_plate_of(e.plate@))
    &&& holds_text(r.checkin_plate_status, if e.check == 0 { "1"@ } else { "0"@ })
    &&& if normalize_seq(fe.plate@).len() == 0 {
        r.plate_from_toll is None
    } else {
        holds_text(r.plate_from_toll, normalize_seq(fe.plate@))
    }
    &&& r.img_count == Some(e.image_count)
    &&& r.checkin_img_count == Some(e.image_count)
    &&& holds_text(r.status, "1"@)
    &&& holds_text(r.last_update, now)
    &&& holds_text(r.toll_type, station_type_of(toll.toll_type@))
    &&& holds_text(r.rating_type, match e.rating_type { Some(t) => t@, None => "E"@ })
    &&& holds_text(r.insert_datetime, now)
    &&& holds_text(r.plate, stored_plate_of(e.plate@))
    &&& holds_text(r.vehicle_type, e.vehicle_type@)
    &&& r.fe_commit_amount == Some(e.commit_amount as i64)
    &&& r.fe_weight == Some(e.weight as i64)
    &&& r.fe_reason_id == Some(e.reason_id as i64)
    &&& holds_text(r.vehicle_type_profile, "STD"@)
    &&& r.boo == Some(3i64)
    &&& r.boo_transport_trans_id == Some(transport_trans_id)
    &&& holds_text(r.checkin_tid, normalize_seq(fe.tid@))
    &&& r.charge_in == e.charge_in
    &&& holds_text(r.transition_close, "F"@)
    &&& r.ticket_in_id == Some(transport_trans_id)
    &&& r.hub_id == e.hub_id
    &&& holds_text(r.boo_etag, boo_etag_of(fe.etag@, max_boo_etag_len))
    &&& r.checkin_commit_datetime is None
    &&& r.checkout_toll_id is None
    &&& r.checkout_lane_id is None
    &&& r.checkout_commit_datetime is None
    &&& r.checkout_channel is None
    &&& r.checkout_pass is None
    &&& r.checkout_pass_reason_id is None
    &&& r.charge_status is None
    &&& r.charge_type is None
    &&& r.total_amount is None
    &&& r.account_trans_id is None
    &&& r.checkout_datetime is None
    &&& r.checkout_plate is None
    &&& r.checkout_plate_status is None
    &&& r.checkout_img_count is None
    &&& r.notif_scan is None
    &&& r.insuff_amount is None
    &&& r.checkout_status is None
    &&& r.bitwise_scan is None
    &&& r.fe_vehicle_length is None
    &&& r.subscription_ids is None
    &&& r.checkin_shift is None
    &&& r.checkout_shift is None
    &&& r.turning_code is None
    &&& r.checkout_tid is None
    &&& r.charge_trans_id is None
    &&& r.balance is None
    &&& r.charge_in_status is None
    &&& r.charge_datetime is None
    &&& r.charge_in_104 is None
    &&& r.fe_online_status is None
    &&& r.mdh_id is None
    &&& r.chd_type is None
    &&& r.chd_ref_id is None
    &&& r.chd_reason is None
    &&& r.fe_trans_id is None
    &&& r.voucher_code is None
    &&& r.voucher_used_amount is None
    &&& r.voucher_amount is None
    &&& r.transport_sync_id is None
    &&& r.ticket_eTag_id is None
    &&& r.ticket_out_id is None
    &&& r.token_id is None
    &&& r.acs_account_no is None
    &&& r.sub_charge_in is None
    &&& r.sync_status is None
}

fn stored_plate(p: &str) -> (r: String)
    ensures
        r@ == stored_plate_of(p@),
{
    let n = normalize_etag(p);
    if n.as_str().is_empty() {
        plate_empty_sentinel()
    } else {
        n
    }
}

/// The operator tag column of a checkin: its normalized tag, cut to the column's length `max`.
pub open spec fn boo_etag_of(etag: Seq<char>, max: usize) -> Seq<char> {
    let n = normalize_seq(etag);
    if n.len() <= max { n } else { n.subrange(0, max as int) }
}

fn boo_etag_text(etag: &str, max: usize) -> (r: String)
    ensures
        r@ == boo_etag_of(etag@, max),
{
    let n = normalize_etag(etag);
    let len = n.as_str().unicode_len();
    if len <= max {
        n
    } else {
        n.as_str().substring_char(0, max).to_string()
    }
}

/// The stage row of a checkin (see [`is_checkin_stage_row`]); `max_boo_etag_len` is the length
/// of the store's operator tag column.
pub fn create_transport_transaction_stage_from_bect_checkin(fe_checkin: &FE_CHECKIN, etdr: &ETDR, toll: &TOLL, toll_lane: &TOLL_LANE, transport_trans_id: i64, subscriber: Option<SubscriberIds>, now: &str, max_boo_etag_len: usize) -> (r: TransportTransactionStage)
    ensures
        is_checkin_stage_row(r, *fe_checkin, *etdr, *toll, *toll_lane, transport_trans_id, subscriber, now@, max_boo_etag_len),
{
    let passed = etdr.check == 0;
    let fe_plate = normalize_etag(fe_checkin.plate.as_str());
    TransportTransactionStage {
        transport_trans_id,
        subscriber_id: match subscriber { Some(s) => Some(s.subscriber_id), None => None },
        etag_id: match subscriber { Some(s) => Some(s.etag_id), None => None },
        vehicle_id: match subscriber { Some(s) => Some(s.vehicle_id), None => None },
        account_id: match subscriber { Some(s) => Some(s.account_id), None => None },
        checkin_toll_id: Some(toll.toll_id as i64),
        checkin_lane_id: Some(toll_lane.lane_code as i64),
        checkin_channel: Some(fe_checkin.lane as i64),
        checkin_pass: Some(if passed { text("P") } else { text("F") }),
        checkin_pass_reason_id: if passed { None } else { Some(text("RT-").concat(i32_to_string(etdr.check).as_str())) },
        checkin_datetime: Some(text(now)),
        checkin_status: Some(text("1")),
        etag_number: Some(normalize_etag(fe_checkin.etag.as_str())),
        request_id: Some(fe_checkin.request_id),
        checkin_plate: Some(stored_plate(etdr.plate.as_str())),
        checkin_plate_status: Some(if passed { text("1") } else { text("0") }),
        plate_from_toll: if fe_plate.as_str().is_empty() { None } else { Some(fe_plate) },
        img_count: Some(etdr.image_count),
        checkin_img_count: Some(etdr.image_count),
        status: Some(text("1")),
        last_update: Some(text(now)),
        toll_type: Some(normalize_station_type(toll.toll_type.as_str())),
        rating_type: Some(match &etdr.rating_type {
            Some(t) => t.clone(),
            None => text("E"),
        }),
        insert_datetime: Some(text(now)),
        plate: Some(stored_plate(etdr.plate.as_str())),
        vehicle_type: Some(etdr.vehicle_type.clone()),
        fe_commit_amount: Some(etdr.commit_amount as i64),
        fe_weight: Some(etdr.weight as i64),
        fe_reason_id: Some(etdr.reason_id as i64),
        vehicle_type_profile: Some(text("STD")),
        boo: Some(3),
        boo_transport_trans_id: Some(transport_trans_id),
        checkin_tid: Some(normalize_etag(fe_checkin.tid.as_str())),
        charge_in: clone_opt_string(&etdr.charge_in),
        transition_close: Some(text("F")),
        ticket_in_id: Some(transport_trans_id),
        hub_id: etdr.hub_id,
        boo_etag: Some(boo_etag_text(fe_checkin.etag.as_str(), max_boo_etag_len)),
        checkin_commit_datetime: None,
        checkout_toll_id: None,
        checkout_lane_id: None,
        checkout_commit_datetime: None,
        checkout_channel: None,
        checkout_pass: None,
        checkout_pass_reason_id: None,
        charge_status: None,
        charge_type: None,
        total_amount: None,
        account_trans_id: None,
        checkout_datetime: None,
        checkout_plate: None,
        checkout_plate_status: None,
        checkout_img_count: None,
        notif_scan: None,
        insuff_amount: None,
        checkout_status: None,
        bitwise_scan: None,
        fe_vehicle_length: None,
        subscription_ids: None,
        checkin_shift: None,
        checkout_shift: None,
        turning_code: None,
        checkout_tid: None,
        charge_trans_id: None,
        balance: None,
        charge_in_status: None,
        charge_datetime: None,
        charge_in_104: None,
        fe_online_status: None,
        mdh_id: None,
        chd_type: None,
        chd_ref_id: None,
        chd_reason: None,
        fe_trans_id: None,
        voucher_code: None,
        voucher_used_amount: None,
        voucher_amount: None,
        transport_sync_id: None,
        ticket_eTag_id: None,
        ticket_out_id: None,
        token_id: None,
        acs_account_no: None,
        sub_charge_in: None,
        sync_status: None,
    }
}

/// `a` where it is set, else `b`.
pub open spec fn or_else<T>(a: Option<T>, b: Option<T>) -> Option<T> {
    if a is Some { a } else { b }
}

/// `v` where it is not zero.
pub open spec fn nonzero(v: i64) -> Option<i64> {
    if v != 0 { Some(v) } else { None }
}

/// `v` where it is positive.
pub open spec fn positive(v: i64) -> Option<i64> {
    if v > 0 { Some(v) } else { None }
}

/// The text of `t`, where set.
pub open spec fn text_of(t: Option<String>) -> Option<Seq<char>> {
    match t {
        Some(s) => Some(s@),
        None => None,
    }
}

/// Text `v` where it is not empty.
pub open spec fn nonempty(v: Seq<char>) -> Option<Seq<char>> {
    if v.len() > 0 { Some(v) } else { None }
}

/// The entry station a merge looks the station type up for.
pub open spec fn merge_checkin_station(ex: TransportTransactionStage, e: ETDR) -> Option<i64> {
    or_else(ex.checkin_toll_id, Some(e.station_id as i64))
}

/// The exit station a merge looks the station type up for.
pub open spec fn merge_checkout_station(ex: TransportTransactionStage, e: ETDR) -> Option<i64> {
    or_else(ex.checkout_toll_id, nonzero(e.toll_out as i64))
}

/// The store text of the time `ms`, where it can be written.
pub open spec fn db_text_of_ms(ms: i64) -> Option<Seq<char>> {
    utc_millis_text(ms, db_datetime_format())
}

fn db_text(ms: i64) -> (r: Option<String>)
    ensures
        text_of(r) == db_text_of_ms(ms),
{
    let fmt = text("%Y-%m-%d %H:%M:%S");
    format_utc_millis(ms, fmt.as_str())
}

/// What the retry of a record's store write leaves in the stored columns `ex` of the record
/// `e`: every column keeps its stored value where it has one and otherwise takes the record's
/// (a number only where it is not zero, a text only where it is not empty, a time only where
/// the record has one, written as store text where it can be, see [`db_text_of_ms`]); the
/// charge type is `L` where the row has none; the row is updated at `now`; an empty station type is resolved as
/// [`toll_type_resolution`] says, the cache `m` (time to live `ttl`) read at `cache_now`; an
/// empty operator is `vehicle_boo`; every other column keeps its stored value.
pub open spec fn is_merged_stage(r: TransportTransactionStage, ex: TransportTransactionStage, e: ETDR,
    vehicle_boo: i64, now: Seq<char>, m: Map<i32, TollCacheEntry>, ttl: i64, cache_now: i64) -> bool {
    &&& r.subscriber_id == or_else(ex.subscriber_id, positive(e.sub_id as i64))
    &&& r.etag_id == or_else(ex.etag_id, match e.etag_key { Some(k) => Some(k as i64), None => None })
    &&& r.vehicle_id == or_else(ex.vehicle_id, nonzero(e.vehicle_id as i64))
    &&& r.checkin_toll_id == merge_checkin_station(ex, e)
    &&& r.checkin_lane_id == or_else(ex.checkin_lane_id, Some(e.lane_id as i64))
    &&& r.checkin_channel == or_else(ex.checkin_channel, Some(e.lane_id as i64))
    &&& text_of(r.checkin_pass) == or_else(text_of(ex.checkin_pass), Some("P"@))
    &&& r.checkout_toll_id == merge_checkout_station(ex, e)
    &&& r.checkout_lane_id == or_else(ex.checkout_lane_id, nonzero(e.lane_out as i64))
    &&& text_of(r.charge_type) == or_else(text_of(ex.charge_type), Some("L"@))
    &&& r.total_amount == or_else(ex.total_amount, nonzero(e.price as i64))
    &&& r.account_id == or_else(ex.account_id, nonzero(e.account_id as i64))
    &&& text_of(r.checkin_datetime) == or_else(text_of(ex.checkin_datetime), if e.checkin_datetime > 0 { db_text_of_ms(e.checkin_datetime) } else { None })
    &&& text_of(r.checkout_datetime) == or_else(text_of(ex.checkout_datetime), if e.checkout_datetime > 0 { db_text_of_ms(e.checkout_datetime) } else { None })
    &&& text_of(r.checkin_status) == or_else(text_of(ex.checkin_status), Some("1"@))
    &&& text_of(r.etag_number) == or_else(text_of(ex.etag_number), nonempty(e.etag_number@))
    &&& r.request_id == or_else(ex.request_id, Some(e.request_id))
    &&& text_of(r.checkin_plate) == or_else(text_of(ex.checkin_plate), nonempty(e.plate@))
    &&& text_of(r.checkin_plate_status) == or_else(text_of(ex.checkin_plate_status), Some(decimal_text(e.plate_status as int)))
    &&& text_of(r.checkout_plate) == or_else(text_of(ex.checkout_plate), nonempty(e.plate@))
    &&& text_of(r.plate_from_toll) == or_else(text_of(ex.plate_from_toll), nonempty(e.plate@))
    &&& r.img_count == or_else(ex.img_count, Some(e.image_count))
    &&& r.checkin_img_count == or_else(ex.checkin_img_count, Some(e.image_count))
    &&& text_of(r.status) == or_else(text_of(ex.status), Some(if e.status == 0 { "1"@ } else { "0"@ }))
    &&& text_of(r.last_update) == Some(now)
    &&& text_of(r.toll_type) == or_else(text_of(ex.toll_type), Some(toll_type_resolution(e.boo_toll_type,
        cached_for(m, merge_checkin_station(ex, e), cache_now, ttl), cached_for(m, merge_checkout_station(ex, e), cache_now, ttl))))
    &&& r.rating_type == or_else(ex.rating_type, e.rating_type)
    &&& text_of(r.plate) == or_else(text_of(ex.plate), nonempty(e.plate@))
    &&& text_of(r.vehicle_type) == or_else(text_of(ex.vehicle_type), nonempty(e.vehicle_type@))
    &&& r.fe_commit_amount == or_else(ex.fe_commit_amount, Some(e.commit_amount as i64))
    &&& r.fe_weight == or_else(ex.fe_weight, nonzero(e.weight as i64))
    &&& r.fe_reason_id == or_else(ex.fe_reason_id, positive(e.reason_id as i64))
    &&& text_of(r.vehicle_type_profile) == or_else(text_of(ex.vehicle_type_profile), Some(e.vehicle_type_profile@))
    &&& r.boo == or_else(ex.boo, Some(vehicle_boo))
    &&& r.boo_transport_trans_id == or_else(ex.boo_transport_trans_id, Some(e.ticket_id))
    &&& r.turning_code == or_else(ex.turning_code, e.toll_turning_time_code)
    &&& text_of(r.checkin_tid) == or_else(text_of(ex.checkin_tid), Some(e.t_id@))
    &&& r.charge_in == or_else(ex.charge_in, e.charge_in)
    &&& r.charge_in_status == or_else(ex.charge_in_status, e.charge_in_status)
    &&& r.charge_in_104 == or_else(ex.charge_in_104, e.charge_in104)
    &&& r.chd_type == or_else(ex.chd_type, e.chd_type)
    &&& r.chd_ref_id == or_else(ex.chd_ref_id, match e.chd_ref_id { Some(s) => parsed_i64(s@), None => None })
    &&& r.chd_reason == or_else(ex.chd_reason, e.chd_reason)
    &&& r.fe_trans_id == or_else(ex.fe_trans_id, e.fe_trans_id)
    &&& text_of(r.transition_close) == or_else(text_of(ex.transition_close), Some("F"@))
    &&& r.ticket_in_id == or_else(ex.ticket_in_id, e.ticket_in_id)
    &&& r.hub_id == or_else(ex.hub_id, e.hub_id)
    &&& r.ticket_eTag_id == or_else(ex.ticket_eTag_id, e.ticket_eTag_id)
    &&& r.ticket_out_id == or_else(ex.ticket_out_id, e.ticket_out_id)
    &&& r.sub_charge_in == or_else(ex.sub_charge_in, e.sub_charge_in)
    &&& r.sync_status == or_else(ex.sync_status, if e.sync_status == 0 || e.sync_status == 1 { Some(e.sync_status as i64) } else { None })
    &&& r.transport_trans_id == ex.transport_trans_id
    &&& r.checkin_commit_datetime == ex.checkin_commit_datetime
    &&& r.checkin_pass_reason_id == ex.checkin_pass_reason_id
    &&& r.checkout_commit_datetime == ex.checkout_commit_datetime
    &&& r.checkout_channel == ex.checkout_channel
    &&& r.checkout_pass == ex.checkout_pass
    &&& r.checkout_pass_reason_id == ex.checkout_pass_reason_id
    &&& r.charge_status == ex.charge_status
    &&& r.account_trans_id == ex.account_trans_id
    &&& r.checkout_plate_status == ex.checkout_plate_status
    &&& r.checkout_img_count == ex.checkout_img_count
    &&& r.notif_scan == ex.notif_scan
    &&& r.insert_datetime == ex.insert_datetime
    &&& r.insuff_amount == ex.insuff_amount
    &&& r.checkout_status == ex.checkout_status
    &&& r.bitwise_scan == ex.bitwise_scan
    &&& r.fe_vehicle_length == ex.fe_vehicle_length
    &&& r.subscription_ids == ex.subscription_ids
    &&& r.checkin_shift == ex.checkin_shift
    &&& r.checkout_shift == ex.checkout_shift
    &&& r.checkout_tid == ex.checkout_tid
    &&& r.charge_trans_id == ex.charge_trans_id
    &&& r.balance == ex.balance
    &&& r.charge_datetime == ex.charge_datetime
    &&& r.fe_online_status == ex.fe_online_status
    &&& r.mdh_id == ex.mdh_id
    &&& r.voucher_code == ex.voucher_code
    &&& r.voucher_used_amount == ex.voucher_used_amount
    &&& r.voucher_amount == ex.voucher_amount
    &&& r.transport_sync_id == ex.transport_sync_id
    &&& r.token_id == ex.token_id
    &&& r.acs_account_no == ex.acs_account_no
    &&& r.boo_etag == ex.boo_etag
}

fn pick_i64(a: Option<i64>, b: Option<i64>) -> (r: Option<i64>)
    ensures
        r == or_else(a, b),
{
    if a.is_some() { a } else { b }
}

fn pick_i32(a: Option<i32>, b: Option<i32>) -> (r: Option<i32>)
    ensures
        r == or_else(a, b),
{
    if a.is_some() { a } else { b }
}

fn pick_text(a: &Option<String>, b: Option<String>) -> (r: Option<String>)
    ensures
        r == or_else(*a, b),
{
    match a {
        Some(s) => Some(s.clone()),
        None => b,
    }
}

fn nonempty_text(v: &String) -> (r: Option<String>)
    ensures
        text_of(r) == nonempty(v@),
{
    if v.as_str().is_empty() { None } else { Some(v.clone()) }
}

fn text_value(v: &str) -> (r: Option<String>)
    ensures
        text_of(r) == Some(v@),
{
    Some(text(v))
}

/// Fills the stored columns `existing` of a record's stage from the record `etdr` (see
/// [`is_merged_stage`]); the station type, where the row has none, is resolved from the cache
/// at `cache_now`, which only that reads.
pub fn merge_etdr_into_transport_stage(existing: &TransportTransactionStage, etdr: &ETDR,
    vehicle_boo: i64, now: &str, cache: &mut TollCache, cache_now: i64) -> (r: TransportTransactionStage)
    requires
        old(cache).wf(),
    ensures
        is_merged_stage(r, *existing, *etdr, vehicle_boo, now@, old(cache)@, old(cache).ttl(), cache_now),
        final(cache).wf(),
        existing.toll_type is Some ==> *final(cache) == *old(cache),
{
    let ghost m = cache@;
    let ghost ttl = cache.ttl();
    let checkin_station = pick_i64(existing.checkin_toll_id, Some(etdr.station_id as i64));
    let checkout_station = pick_i64(existing.checkout_toll_id, if etdr.toll_out != 0 { Some(etdr.toll_out as i64) } else { None });
    let toll_type = match &existing.toll_type {
        Some(t) => Some(t.clone()),
        None => Some(resolve_toll_type_for_etdr_at(etdr.boo_toll_type.as_ref(), checkin_station, checkout_station, cache, cache_now)),
    };
    let chd_ref_id = match &existing.chd_ref_id {
        Some(v) => Some(*v),
        None => match &etdr.chd_ref_id {
            Some(s) => parse_i64(s.as_str()),
            None => None,
        },
    };
    let r = TransportTransactionStage {
        subscriber_id: pick_i64(existing.subscriber_id, if etdr.sub_id > 0 { Some(etdr.sub_id as i64) } else { None }),
        etag_id: pick_i64(existing.etag_id, match etdr.etag_key { Some(k) => Some(k as i64), None => None }),
        vehicle_id: pick_i64(existing.vehicle_id, if etdr.vehicle_id != 0 { Some(etdr.vehicle_id as i64) } else { None }),
        checkin_toll_id: checkin_station,
        checkin_lane_id: pick_i64(existing.checkin_lane_id, Some(etdr.lane_id as i64)),
        checkin_channel: pick_i64(existing.checkin_channel, Some(etdr.lane_id as i64)),
        checkin_pass: pick_text(&existing.checkin_pass, text_value("P")),
        checkout_toll_id: checkout_station,
        checkout_lane_id: pick_i64(existing.checkout_lane_id, if etdr.lane_out != 0 { Some(etdr.lane_out as i64) } else { None }),
        charge_type: pick_text(&existing.charge_type, text_value("L")),
        total_amount: pick_i64(existing.total_amount, if etdr.price != 0 { Some(etdr.price as i64) } else { None }),
        account_id: pick_i64(existing.account_id, if etdr.account_id != 0 { Some(etdr.account_id as i64) } else { None }),
        checkin_datetime: pick_text(&existing.checkin_datetime, if etdr.checkin_datetime > 0 { db_text(etdr.checkin_datetime) } else { None }),
        checkout_datetime: pick_text(&existing.checkout_datetime, if etdr.checkout_datetime > 0 { db_text(etdr.checkout_datetime) } else { None }),
        checkin_status: pick_text(&existing.checkin_status, text_value("1")),
        etag_number: pick_text(&existing.etag_number, nonempty_text(&etdr.etag_number)),
        request_id: pick_i64(existing.request_id, Some(etdr.request_id)),
        checkin_plate: pick_text(&existing.checkin_plate, nonempty_text(&etdr.plate)),
        checkin_plate_status: pick_text(&existing.checkin_plate_status, Some(i32_to_string(etdr.plate_status))),
        checkout_plate: pick_text(&existing.checkout_plate, nonempty_text(&etdr.plate)),
        plate_from_toll: pick_text(&existing.plate_from_toll, nonempty_text(&etdr.plate)),
        img_count: pick_i32(existing.img_count, Some(etdr.image_count)),
        checkin_img_count: pick_i32(existing.checkin_img_count, Some(etdr.image_count)),
        status: pick_text(&existing.status, if etdr.status == 0 { text_value("1") } else { text_value("0") }),
        last_update: text_value(now),
        toll_type,
        rating_type: pick_text(&existing.rating_type, clone_opt_string(&etdr.rating_type)),
        plate: pick_text(&existing.plate, nonempty_text(&etdr.plate)),
        vehicle_type: pick_text(&existing.vehicle_type, nonempty_text(&etdr.vehicle_type)),
        fe_commit_amount: pick_i64(existing.fe_commit_amount, Some(etdr.commit_amount as i64)),
        fe_weight: pick_i64(existing.fe_weight, if etdr.weight != 0 { Some(etdr.weight as i64) } else { None }),
        fe_reason_id: pick_i64(existing.fe_reason_id, if etdr.reason_id > 0 { Some(etdr.reason_id as i64) } else { None }),
        vehicle_type_profile: pick_text(&existing.vehicle_type_profile, Some(etdr.vehicle_type_profile.clone())),
        boo: pick_i64(existing.boo, Some(vehicle_boo)),
        boo_transport_trans_id: pick_i64(existing.boo_transport_trans_id, Some(etdr.ticket_id)),
        turning_code: pick_text(&existing.turning_code, clone_opt_string(&etdr.toll_turning_time_code)),
        checkin_tid: pick_text(&existing.checkin_tid, Some(etdr.t_id.clone())),
        charge_in: pick_text(&existing.charge_in, clone_opt_string(&etdr.charge_in)),
        charge_in_status: pick_text(&existing.charge_in_status, clone_opt_string(&etdr.charge_in_status)),
        charge_in_104: pick_text(&existing.charge_in_104, clone_opt_string(&etdr.charge_in104)),
        chd_type: pick_text(&existing.chd_type, clone_opt_string(&etdr.chd_type)),
        chd_ref_id,
        chd_reason: pick_text(&existing.chd_reason, clone_opt_string(&etdr.chd_reason)),
        fe_trans_id: pick_text(&existing.fe_trans_id, clone_opt_string(&etdr.fe_trans_id)),
        transition_close: pick_text(&existing.transition_close, text_value("F")),
        ticket_in_id: pick_i64(existing.ticket_in_id, etdr.ticket_in_id),
        hub_id: pick_i64(existing.hub_id, etdr.hub_id),
        ticket_eTag_id: pick_i64(existing.ticket_eTag_id, etdr.ticket_eTag_id),
        ticket_out_id: pick_i64(existing.ticket_out_id, etdr.ticket_out_id),
        sub_charge_in: pick_text(&existing.sub_charge_in, clone_opt_string(&etdr.sub_charge_in)),
        sync_status: pick_i64(existing.sync_status, if etdr.sync_status == 0 || etdr.sync_status == 1 { Some(etdr.sync_status as i64) } else { None }),
        transport_trans_id: existing.transport_trans_id,
        checkin_commit_datetime: clone_opt_string(&existing.checkin_commit_datetime),
        checkin_pass_reason_id: clone_opt_string(&existing.checkin_pass_reason_id),
        checkout_commit_datetime: clone_opt_string(&existing.checkout_commit_datetime),
        checkout_channel: existing.checkout_channel,
        checkout_pass: clone_opt_string(&existing.checkout_pass),
        checkout_pass_reason_id: clone_opt_string(&existing.checkout_pass_reason_id),
        charge_status: clone_opt_string(&existing.charge_status),
        account_trans_id: existing.account_trans_id,
        checkout_plate_status: clone_opt_string(&existing.checkout_plate_status),
        checkout_img_count: existing.checkout_img_count,
        notif_scan: existing.notif_scan,
        insert_datetime: clone_opt_string(&existing.insert_datetime),
        insuff_amount: existing.insuff_amount,
        checkout_status: clone_opt_string(&existing.checkout_status),
        bitwise_scan: existing.bitwise_scan,
        fe_vehicle_length: existing.fe_vehicle_length,
        subscription_ids: clone_opt_string(&existing.subscription_ids),
        checkin_shift: clone_opt_string(&existing.checkin_shift),
        checkout_shift: clone_opt_string(&existing.checkout_shift),
        checkout_tid: clone_opt_string(&existing.checkout_tid),
        charge_trans_id: clone_opt_string(&existing.charge_trans_id),
        balance: existing.balance,
        charge_datetime: clone_opt_string(&existing.charge_datetime),
        fe_online_status: clone_opt_string(&existing.fe_online_status),
        mdh_id: existing.mdh_id,
        voucher_code: clone_opt_string(&existing.voucher_code),
        voucher_used_amount: existing.voucher_used_amount,
        voucher_amount: existing.voucher_amount,
        transport_sync_id: existing.transport_sync_id,
        token_id: clone_opt_string(&existing.token_id),
        acs_account_no: clone_opt_string(&existing.acs_account_no),
        boo_etag: clone_opt_string(&existing.boo_etag),
    };
    r
}

/// What a stage row built for the record `e` holds when the store has none yet: the record's
/// ticket as transaction, operator transaction and (where the record has one) entry ticket;
/// the subscriber, vehicle and account where positive, the tag key; the entry station and
/// lane (its lane also as channel), passed; the exit station and lane where not zero; checked
/// in at the store text of the record's checkin time where it has one that can be written,
/// else at `now`;
/// checkin status `2`; the tag number, request and plate (the plate also as the plate read at
/// the lane, where not empty) and the plate status; the image count; status `1` where the
/// record's status is `0`, else `0`; inserted and updated at `now`; the station type resolved
/// as [`toll_type_resolution`] says from the cache `m` (time to live `ttl`) read at
/// `cache_now`; the record's rating type, vehicle type, amount, profile, reader transaction,
/// charge columns, hub and reference tickets; weight and reason where positive; operator
/// `vehicle_boo`; transition `F`; every other column empty.
pub open spec fn is_stage_of_etdr(r: TransportTransactionStage, e: ETDR, vehicle_boo: i64, now: Seq<char>,
    m: Map<i32, TollCacheEntry>, ttl: i64, cache_now: i64) -> bool {
    &&& r.transport_trans_id == e.ticket_id
    &&& r.subscriber_id == positive(e.sub_id as i64)
    &&& r.etag_id == (match e.etag_key { Some(k) => Some(k as i64), None => None })
    &&& r.vehicle_id == positive(e.vehicle_id as i64)
    &&& r.checkin_toll_id == Some(e.station_id as i64)
    &&& r.checkin_lane_id == Some(e.lane_id as i64)
    &&& r.checkin_channel == Some(e.lane_id as i64)
    &&& text_of(r.checkin_pass) == Some("P"@)
    &&& r.checkout_toll_id == nonzero(e.toll_out as i64)
    &&& r.checkout_lane_id == nonzero(e.lane_out as i64)
    &&& r.account_id == positive(e.account_id as i64)
    &&& text_of(r.checkin_datetime) == Some(if e.checkin_datetime > 0 && db_text_of_ms(e.checkin_datetime) is Some { db_text_of_ms(e.checkin_datetime)->0 } else { now })
    &&& text_of(r.checkin_status) == Some("2"@)
    &&& text_of(r.etag_number) == Some(e.etag_number@)
    &&& r.request_id == Some(e.request_id)
    &&& text_of(r.checkin_plate) == Some(e.plate@)
    &&& text_of(r.checkin_plate_status) == Some(decimal_text(e.plate_status as int))
    &&& text_of(r.plate_from_toll) == nonempty(e.plate@)
    &&& r.img_count == Some(e.image_count)
    &&& r.checkin_img_count == Some(e.image_count)
    &&& text_of(r.status) == Some(if e.status == 0 { "1"@ } else { "0"@ })
    &&& text_of(r.last_update) == Some(now)
    &&& text_of(r.toll_type) == Some(toll_type_resolution(e.boo_toll_type,
        cached_for(m, Some(e.station_id as i64), cache_now, ttl), cached_for(m, nonzero(e.toll_out as i64), cache_now, ttl)))
    &&& r.rating_type == e.rating_type
    &&& text_of(r.insert_datetime) == Some(now)
    &&& text_of(r.plate) == Some(e.plate@)
    &&& text_of(r.vehicle_type) == Some(e.vehicle_type@)
    &&& r.fe_commit_amount == Some(e.commit_amount as i64)
    &&& r.fe_weight == positive(e.weight as i64)
    &&& r.fe_reason_id == positive(e.reason_id as i64)
    &&& text_of(r.vehicle_type_profile) == Some(e.vehicle_type_profile@)
    &&& r.boo == Some(vehicle_boo)
    &&& r.boo_transport_trans_id == Some(e.ticket_id)
    &&& text_of(r.checkin_tid) == Some(e.t_id@)
    &&& r.charge_in == e.charge_in
    &&& r.charge_in_status == e.charge_in_status
    &&& r.charge_in_104 == e.charge_in104
    &&& r.chd_type == e.chd_type
    &&& r.chd_ref_id == (match e.chd_ref_id { Some(s) => parsed_i64(s@), None => None })
    &&& r.chd_reason == e.chd_reason
    &&& r.fe_trans_id == e.fe_trans_id
    &&& text_of(r.transition_close) == Some("F"@)
    &&& r.ticket_in_id == e.ticket_in_id
    &&& r.hub_id == e.hub_id
    &&& r.ticket_eTag_id == e.ticket_eTag_id
    &&& r.sub_charge_in == e.sub_charge_in
    &&& r.checkin_commit_datetime is None
    &&& r.checkin_pass_reason_id is None
    &&& r.checkout_commit_datetime is None
    &&& r.checkout_channel is None
    &&& r.checkout_pass is None
    &&& r.checkout_pass_reason_id is None
    &&& r.charge_status is None
    &&& r.charge_type is None
    &&& r.total_amount is None
    &&& r.account_trans_id is None
    &&& r.checkout_datetime is None
    &&& r.checkout_plate is None
    &&& r.checkout_plate_status is None
    &&& r.checkout_img_count is None
    &&& r.notif_scan is None
    &&& r.insuff_amount is None
    &&& r.checkout_status is None
    &&& r.bitwise_scan is None
    &&& r.fe_vehicle_length is None
    &&& r.subscription_ids is None
    &&& r.checkin_shift is None
    &&& r.checkout_shift is None
    &&& r.turning_code is None
    &&& r.checkout_tid is None
    &&& r.charge_trans_id is None
    &&& r.balance is None
    &&& r.charge_datetime is None
    &&& r.fe_online_status is None
    &&& r.mdh_id is None
    &&& r.voucher_code is None
    &&& r.voucher_used_amount is None
    &&& r.voucher_amount is None
    &&& r.transport_sync_id is None
    &&& r.ticket_out_id is None
    &&& r.token_id is None
    &&& r.acs_account_no is None
    &&& r.boo_etag is None
    &&& r.sync_status is None
}

fn positive_i64(v: i64) -> (r: Option<i64>)
    ensures
        r == positive(v),
{
    if v > 0 { Some(v) } else { None }
}

fn nonzero_i64(v: i64) -> (r: Option<i64>)
    ensures
        r == nonzero(v),
{
    if v != 0 { Some(v) } else { None }
}

/// The stage row of the record `etdr` where the store has none yet (see [`is_stage_of_etdr`]);
/// the station type is resolved from the cache at `cache_now`, which only that reads.
pub fn build_transport_stage_from_etdr(etdr: &ETDR, vehicle_boo: i64, now: &str,
    cache: &mut TollCache, cache_now: i64) -> (r: TransportTransactionStage)
    requires
        old(cache).wf(),
    ensures
        is_stage_of_etdr(r, *etdr, vehicle_boo, now@, old(cache)@, old(cache).ttl(), cache_now),
        final(cache).wf(),
{
    let checkin_datetime = if etdr.checkin_datetime > 0 {
        match db_text(etdr.checkin_datetime) {
            Some(t) => Some(t),
            None => text_value(now),
        }
    } else {
        text_value(now)
    };
    let checkout_station = nonzero_i64(etdr.toll_out as i64);
    let toll_type = resolve_toll_type_for_etdr_at(etdr.boo_toll_type.as_ref(), Some(etdr.station_id as i64), checkout_station, cache, cache_now);
    TransportTransactionStage {
        transport_trans_id: etdr.ticket_id,
        subscriber_id: positive_i64(etdr.sub_id as i64),
        etag_id: match etdr.etag_key { Some(k) => Some(k as i64), None => None },
        vehicle_id: positive_i64(etdr.vehicle_id as i64),
        checkin_toll_id: Some(etdr.station_id as i64),
        checkin_lane_id: Some(etdr.lane_id as i64),
        checkin_channel: Some(etdr.lane_id as i64),
        checkin_pass: text_value("P"),
        checkout_toll_id: checkout_station,
        checkout_lane_id: nonzero_i64(etdr.lane_out as i64),
        account_id: positive_i64(etdr.account_id as i64),
        checkin_datetime,
        checkin_status: text_value("2"),
        etag_number: Some(etdr.etag_number.clone()),
        request_id: Some(etdr.request_id),
        checkin_plate: Some(etdr.plate.clone()),
        checkin_plate_status: Some(i32_to_string(etdr.plate_status)),
        plate_from_toll: nonempty_text(&etdr.plate),
        img_count: Some(etdr.image_count),
        checkin_img_count: Some(etdr.image_count),
        status: if etdr.status == 0 { text_value("1") } else { text_value("0") },
        last_update: text_value(now),
        toll_type: Some(toll_type),
        rating_type: clone_opt_string(&etdr.rating_type),
        insert_datetime: text_value(now),
        plate: Some(etdr.plate.clone()),
        vehicle_type: Some(etdr.vehicle_type.clone()),
        fe_commit_amount: Some(etdr.commit_amount as i64),
        fe_weight: positive_i64(etdr.weight as i64),
        fe_reason_id: positive_i64(etdr.reason_id as i64),
        vehicle_type_profile: Some(etdr.vehicle_type_profile.clone()),
        boo: Some(vehicle_boo),
        boo_transport_trans_id: Some(etdr.ticket_id),
        checkin_tid: Some(etdr.t_id.clone()),
        charge_in: clone_opt_string(&etdr.charge_in),
        charge_in_status: clone_opt_string(&etdr.charge_in_status),
        charge_in_104: clone_opt_string(&etdr.charge_in104),
        chd_type: clone_opt_string(&etdr.chd_type),
        chd_ref_id: match &etdr.chd_ref_id {
            Some(s) => parse_i64(s.as_str()),
            None => None,
        },
        chd_reason: clone_opt_string(&etdr.chd_reason),
        fe_trans_id: clone_opt_string(&etdr.fe_trans_id),
        transition_close: text_value("F"),
        ticket_in_id: etdr.ticket_in_id,
        hub_id: etdr.hub_id,
        ticket_eTag_id: etdr.ticket_eTag_id,
        sub_charge_in: clone_opt_string(&etdr.sub_charge_in),
        checkin_commit_datetime: None,
        checkin_pass_reason_id: None,
        checkout_commit_datetime: None,
        checkout_channel: None,
        checkout_pass: None,
        checkout_pass_reason_id: None,
        charge_status: None,
        charge_type: None,
        total_amount: None,
        account_trans_id: None,
        checkout_datetime: None,
        checkout_plate: None,
        checkout_plate_status: None,
        checkout_img_count: None,
        notif_scan: None,
        insuff_amount: None,
        checkout_status: None,
        bitwise_scan: None,
        fe_vehicle_length: None,
        subscription_ids: None,
        checkin_shift: None,
        checkout_shift: None,
        turning_code: None,
        checkout_tid: None,
        charge_trans_id: None,
        balance: None,
        charge_datetime: None,
        fe_online_status: None,
        mdh_id: None,
        voucher_code: None,
        voucher_used_amount: None,
        voucher_amount: None,
        transport_sync_id: None,
        ticket_out_id: None,
        token_id: None,
        acs_account_no: None,
        boo_etag: None,
        sync_status: None,
    }
}

/// The columns of a stage record synchronised from another operator that the library reads.
#[derive(Debug, Default)]
pub struct TransportTransStageSync {
    pub transport_sync_id: i64,
    pub etag_number: Option<String>,
    pub request_id: Option<i64>,
    pub plate: Option<String>,
    pub vehicle_type: Option<String>,
    pub ticket_type: Option<String>,
    pub price_ticket_type: Option<String>,
    pub tid: Option<String>,
    pub checkin_toll_id: Option<i64>,
    pub checkin_lane_id: Option<i64>,
    pub checkin_datetime: Option<String>,
    pub checkin_commit_datetime: Option<String>,
    pub checkout_toll_id: Option<i64>,
    pub checkout_lane_id: Option<i64>,
    pub checkout_datetime: Option<String>,
    pub checkout_commit_datetime: Option<String>,
    pub total_amount: Option<i64>,
    pub ticket_in_id: Option<i64>,
    pub ticket_etag_id: Option<i64>,
    pub ticket_out_id: Option<i64>,
    pub hub_id: Option<i64>,
    pub boo_etag: Option<String>,
    pub sync_status: Option<i64>,
}

/// What the stage row built from the synchronised record `s` under the ticket `ticket_id` holds:
/// the ticket as transaction; the synchronised stations, lanes, times, amount, tag number,
/// request, plate (also as checkin plate), vehicle type, reader transaction, hub, tickets and
/// operator tag; passed, checkin status `2`, rating type `E`, transition `F`; inserted and
/// updated at `now`; the station type cached for the entry station (`C` where none is cached
/// live, the cache `m` of time to live `ttl` read at `cache_now`); operator `vehicle_boo`; the
/// synchronised record's id; its entry ticket, else `ticket_id`; every other column empty.
pub open spec fn is_stage_of_sync(r: TransportTransactionStage, s: TransportTransStageSync, now: Seq<char>, ticket_id: i64, vehicle_boo: i64,
    m: Map<i32, TollCacheEntry>, ttl: i64, cache_now: i64) -> bool {
    &&& r.transport_trans_id == ticket_id
    &&& r.checkin_toll_id == s.checkin_toll_id
    &&& r.checkin_lane_id == s.checkin_lane_id
    &&& r.checkin_commit_datetime == s.checkin_commit_datetime
    &&& text_of(r.checkin_pass) == Some("P"@)
    &&& r.checkout_toll_id == s.checkout_toll_id
    &&& r.checkout_lane_id == s.checkout_lane_id
    &&& r.checkout_commit_datetime == s.checkout_commit_datetime
    &&& r.total_amount == s.total_amount
    &&& r.checkin_datetime == s.checkin_datetime
    &&& r.checkout_datetime == s.checkout_datetime
    &&& text_of(r.checkin_status) == Some("2"@)
    &&& r.etag_number == s.etag_number
    &&& r.request_id == s.request_id
    &&& r.checkin_plate == s.plate
    &&& text_of(r.last_update) == Some(now)
    &&& text_of(r.toll_type) == Some(match cached_for(m, s.checkin_toll_id, cache_now, ttl) {
        Some(t) => t,
        None => "C"@,
    })
    &&& text_of(r.rating_type) == Some("E"@)
    &&& text_of(r.insert_datetime) == Some(now)
    &&& r.plate == s.plate
    &&& r.vehicle_type == s.vehicle_type
    &&& r.boo == Some(vehicle_boo)
    &&& r.checkin_tid == s.tid
    &&& text_of(r.transition_close) == Some("F"@)
    &&& r.transport_sync_id == Some(s.transport_sync_id)
    &&& r.ticket_in_id == or_else(s.ticket_in_id, Some(ticket_id))
    &&& r.hub_id == s.hub_id
    &&& r.ticket_eTag_id == s.ticket_etag_id
    &&& r.ticket_out_id == s.ticket_out_id
    &&& r.boo_etag == s.boo_etag
    &&& r.subscriber_id is None
    &&& r.etag_id is None
    &&& r.vehicle_id is None
    &&& r.checkin_channel is None
    &&& r.checkin_pass_reason_id is None
    &&& r.checkout_channel is None
    &&& r.checkout_pass is None
    &&& r.checkout_pass_reason_id is None
    &&& r.charge_status is None
    &&& r.charge_type is None
    &&& r.account_id is None
    &&& r.account_trans_id is None
    &&& r.checkin_plate_status is None
    &&& r.checkout_plate is None
    &&& r.checkout_plate_status is None
    &&& r.plate_from_toll is None
    &&& r.img_count is None
    &&& r.checkin_img_count is None
    &&& r.checkout_img_count is None
    &&& r.status is None
    &&& r.notif_scan is None
    &&& r.insuff_amount is None
    &&& r.checkout_status is None
    &&& r.bitwise_scan is None
    &&& r.fe_vehicle_length is None
    &&& r.fe_commit_amount is None
    &&& r.fe_weight is None
    &&& r.fe_reason_id is None
    &&& r.vehicle_type_profile is None
    &&& r.boo_transport_trans_id is None
    &&& r.subscription_ids is None
    &&& r.checkin_shift is None
    &&& r.checkout_shift is None
    &&& r.turning_code is None
    &&& r.checkout_tid is None
    &&& r.charge_in is None
    &&& r.charge_trans_id is None
    &&& r.balance is None
    &&& r.charge_in_status is None
    &&& r.charge_datetime is None
    &&& r.charge_in_104 is None
    &&& r.fe_online_status is None
    &&& r.mdh_id is None
    &&& r.chd_type is None
    &&& r.chd_ref_id is None
    &&& r.chd_reason is None
    &&& r.fe_trans_id is None
    &&& r.voucher_code is None
    &&& r.voucher_used_amount is None
    &&& r.voucher_amount is None
    &&& r.token_id is None
    &&& r.acs_account_no is None
    &&& r.sub_charge_in is None
    &&& r.sync_status is None
}

/// The stage row of the synchronised record `sync` under the ticket `ticket_id` (see
/// [`is_stage_of_sync`]); `vehicle_boo` is the operator of its tag. The station type is read
/// from the cache at `cache_now`, which only that reads.
pub fn build_transport_stage_from_sync(sync: &TransportTransStageSync, now: &str, ticket_id: i64, vehicle_boo: i64,
    cache: &mut TollCache, cache_now: i64) -> (r: TransportTransactionStage)
    requires
        old(cache).wf(),
    ensures
        is_stage_of_sync(r, *sync, now@, ticket_id, vehicle_boo, old(cache)@, old(cache).ttl(), cache_now),
        final(cache).wf(),
{
    let toll_type = toll_type_from_checkin_toll_id_at(sync.checkin_toll_id, cache, cache_now);
    TransportTransactionStage {
        transport_trans_id: ticket_id,
        checkin_toll_id: sync.checkin_toll_id,
        checkin_lane_id: sync.checkin_lane_id,
        checkin_commit_datetime: clone_opt_string(&sync.checkin_commit_datetime),
        checkin_pass: text_value("P"),
        checkout_toll_id: sync.checkout_toll_id,
        checkout_lane_id: sync.checkout_lane_id,
        checkout_commit_datetime: clone_opt_string(&sync.checkout_commit_datetime),
        total_amount: sync.total_amount,
        checkin_datetime: clone_opt_string(&sync.checkin_datetime),
        checkout_datetime: clone_opt_string(&sync.checkout_datetime),
        checkin_status: text_value("2"),
        etag_number: clone_opt_string(&sync.etag_number),
        request_id: sync.request_id,
        checkin_plate: clone_opt_string(&sync.plate),
        last_update: text_value(now),
        toll_type: Some(toll_type),
        rating_type: text_value("E"),
        insert_datetime: text_value(now),
        plate: clone_opt_string(&sync.plate),
        vehicle_type: clone_opt_string(&sync.vehicle_type),
        boo: Some(vehicle_boo),
        checkin_tid: clone_opt_string(&sync.tid),
        transition_close: text_value("F"),
        transport_sync_id: Some(sync.transport_sync_id),
        ticket_in_id: pick_i64(sync.ticket_in_id, Some(ticket_id)),
        hub_id: sync.hub_id,
        ticket_eTag_id: sync.ticket_etag_id,
        ticket_out_id: sync.ticket_out_id,
        boo_etag: clone_opt_string(&sync.boo_etag),
        subscriber_id: None,
        etag_id: None,
        vehicle_id: None,
        checkin_channel: None,
        checkin_pass_reason_id: None,
        checkout_channel: None,
        checkout_pass: None,
        checkout_pass_reason_id: None,
        charge_status: None,
        charge_type: None,
        account_id: None,
        account_trans_id: None,
        checkin_plate_status: None,
        checkout_plate: None,
        checkout_plate_status: None,
        plate_from_toll: None,
        img_count: None,
        checkin_img_count: None,
        checkout_img_count: None,
        status: None,
        notif_scan: None,
        insuff_amount: None,
        checkout_status: None,
        bitwise_scan: None,
        fe_vehicle_length: None,
        fe_commit_amount: None,
        fe_weight: None,
        fe_reason_id: None,
        vehicle_type_profile: None,
        boo_transport_trans_id: None,
        subscription_ids: None,
        checkin_shift: None,
        checkout_shift: None,
        turning_code: None,
        checkout_tid: None,
        charge_in: None,
        charge_trans_id: None,
        balance: None,
        charge_in_status: None,
        charge_datetime: None,
        charge_in_104: None,
        fe_online_status: None,
        mdh_id: None,
        chd_type: None,
        chd_ref_id: None,
        chd_reason: None,
        fe_trans_id: None,
        voucher_code: None,
        voucher_used_amount: None,
        voucher_amount: None,
        token_id: None,
        acs_account_no: None,
        sub_charge_in: None,
        sync_status: None,
    }
}

/// Text `t`, or `d` where it is absent.
pub open spec fn text_or(t: Option<String>, d: Seq<char>) -> Seq<char> {
    match t {
        Some(s) => s@,
        None => d,
    }
}

/// `v`, or `d` where it is absent.
pub open spec fn or_value<T>(v: Option<T>, d: T) -> T {
    match v {
        Some(x) => x,
        None => d,
    }
}

/// The time of a store text in milliseconds, where it is there and parses.
pub open spec fn stage_time_ms(t: Option<String>) -> Option<i64> {
    match t {
        Some(s) => naive_utc_millis(s@, db_datetime_format()),
        None => None,
    }
}

/// The checkin time of a stage row: its checkin time, else its insertion time, else `now`.
pub open spec fn stage_checkin_ms(st: TransportTransactionStage, now: i64) -> i64 {
    match stage_time_ms(st.checkin_datetime) {
        Some(ms) => ms,
        None => or_value(stage_time_ms(st.insert_datetime), now),
    }
}

/// What the record read back at `now` from the stage row `st` of a pending transaction holds:
/// the row's transaction as ticket, reference transaction and operator ticket; its subscriber,
/// tag, account, vehicle, stations and lanes (each `0` where absent, read as 32-bit numbers);
/// status `0` where the row's status is `1` or absent, else `1`; the checkin shift as hash;
/// vehicle type (`1`), profile (`STD`), tag number, reader transaction (empty) where absent;
/// the checkin plate, else the plate, else empty; the plate status where it parses, else `0`;
/// weight, length, request and image count (`0` where absent); the ticket type of the charge
/// type, `1` where there is none; checked in at [`stage_checkin_ms`], the other times where
/// they parse (else `0`); the station type of the row, else `C`; the row's charge, dispute,
/// turning, rating, hub and ticket columns; taken from a synchronised record where the row
/// has a synchronised id; saved; its synchronisation status (`0` where absent); every other
/// field at its initial value.
pub open spec fn is_record_of_stage(e: ETDR, st: TransportTransactionStage, now: i64) -> bool {
    let checkin = stage_checkin_ms(st, now);
    &&& e.time_update == now
    &&& e.sub_id == or_value(st.subscriber_id, 0) as i32
    &&& e.etag_id@ == text_or(st.etag_number, ""@)
    &&& e.etag_key == (match st.etag_id { Some(id) => Some(id as i32), None => None })
    &&& e.etag_number@ == text_or(st.etag_number, ""@)
    &&& e.account_id == or_value(st.account_id, 0) as i32
    &&& e.vehicle_id == or_value(st.vehicle_id, 0) as i32
    &&& e.status == (match st.status { Some(s) => if s@ == "1"@ { 0i32 } else { 1i32 }, None => 0i32 })
    &&& e.hash_value@ == text_or(st.checkin_shift, ""@)
    &&& e.vehicle_type@ == text_or(st.vehicle_type, "1"@)
    &&& e.vehicle_type_ext1@.len() == 0
    &&& e.vehicle_type_ext2@.len() == 0
    &&& e.vehicle_type_ext3@.len() == 0
    &&& e.vehicle_type_ext4@.len() == 0
    &&& e.vehicle_type_ext5@.len() == 0
    &&& e.vehicle_type_ext6@.len() == 0
    &&& e.vehicle_type_ext7@.len() == 0
    &&& e.vehicle_type_ext8@.len() == 0
    &&& e.vehicle_type_ext9@.len() == 0
    &&& e.vehicle_type_ext10@.len() == 0
    &&& e.vehicle_type_profile@ == text_or(st.vehicle_type_profile, "STD"@)
    &&& e.plate@ == text_or(or_else(st.checkin_plate, st.plate), ""@)
    &&& e.plate_status == (match st.checkin_plate_status { Some(s) => or_value(parsed_i32(s@), 0), None => 0 })
    &&& e.seat_num is None
    &&& e.weight == or_value(st.fe_weight, 0) as i32
    &&& e.weight_goods is None
    &&& e.weight_all is None
    &&& e.register_vehicle_type@.len() == 0
    &&& e.vehicle_length == or_value(st.fe_vehicle_length, 0) as i32
    &&& e.sub_status@.len() == 0
    &&& e.etag_status@.len() == 0
    &&& e.auto_extend@.len() == 0
    &&& e.price_type@.len() == 0
    &&& e.start_date@.len() == 0
    &&& e.request_id == or_value(st.request_id, 0)
    &&& e.ticket_id == st.transport_trans_id
    &&& e.ref_trans_id == st.transport_trans_id
    &&& e.command_id == 0
    &&& e.t_id@ == text_or(st.checkin_tid, ""@)
    &&& e.ticket_type == (match st.charge_type { Some(s) => ticket_type_code(trim_seq(s@)), None => 1 })
    &&& e.price_ticket_type == 1
    &&& e.price == 0
    &&& e.price_id is None
    &&& e.commit_amount == 0
    &&& e.reason_id == 0
    &&& e.image_count == or_value(st.checkin_img_count, 0)
    &&& e.station_id == or_value(st.checkin_toll_id, 0) as i32
    &&& e.station_type == 1
    &&& e.lane_id == or_value(st.checkin_lane_id, 0) as i32
    &&& e.toll_out == or_value(st.checkout_toll_id, 0) as i32
    &&& e.lane_out == or_value(st.checkout_lane_id, 0) as i32
    &&& e.ref_station_id is None
    &&& e.ref_lane_id is None
    &&& e.time_route_checkin == checkin
    &&& e.time_route_checkin_commit == or_value(stage_time_ms(st.checkin_commit_datetime), 0)
    &&& e.time_route_checkout == or_value(stage_time_ms(st.checkout_datetime), 0)
    &&& e.time_station_checkin == checkin
    &&& e.checkin_datetime == checkin
    &&& e.checkin_commit_datetime == or_value(stage_time_ms(st.checkin_commit_datetime), 0)
    &&& e.checkout_datetime == or_value(stage_time_ms(st.checkout_datetime), 0)
    &&& e.checkout_commit_datetime == or_value(stage_time_ms(st.checkout_commit_datetime), 0)
    &&& e.boo_ticket_id == st.transport_trans_id
    &&& e.boo_trans_amount == 0
    &&& e.boo_trans_datetime is None
    &&& text_of(e.boo_lane_type) == Some("I"@)
    &&& text_of(e.boo_toll_type) == Some(text_or(st.toll_type, "C"@))
    &&& e.boo_ticket_type is None
    &&& e.boo_subscription_ids is None
    &&& e.charge_in == st.charge_in
    &&& e.sub_charge_in is None
    &&& e.charge_in_status == st.charge_in_status
    &&& e.charge_trans_id == st.charge_trans_id
    &&& e.charge_datetime == stage_time_ms(st.charge_datetime)
    &&& e.charge_in104 == st.charge_in_104
    &&& e.etdr_dual is None
    &&& e.chd_type == st.chd_type
    &&& text_of(e.chd_ref_id) == (match st.chd_ref_id { Some(id) => Some(decimal_text(id as int)), None => None })
    &&& e.chd_reason == st.chd_reason
    &&& e.trans_stage_details@.len() == 0
    &&& e.rating_details@.len() == 0
    &&& e.transition_close is None
    &&& e.toll_turning_time_code == st.turning_code
    &&& e.check == 0
    &&& e.log_request is None
    &&& e.info_roll_back is None
    &&& e.free_turning == false
    &&& e.enough_min_balance == true
    &&& e.rating_type == st.rating_type
    &&& e.fe_trans_id == st.fe_trans_id
    &&& e.ticket_in_id == st.ticket_in_id
    &&& e.ticket_eTag_id == st.ticket_eTag_id
    &&& e.ticket_out_id == st.ticket_out_id
    &&& e.hub_id == st.hub_id
    &&& e.checkin_from_sync == (st.transport_sync_id is Some)
    &&& e.event is None
    &&& e.db_saved == true
    &&& e.db_save_retry_count == 0
    &&& e.sync_status == (match st.sync_status { Some(s) => s as i32, None => 0i32 })
}

fn stage_time(t: &Option<String>) -> (r: Option<i64>)
    ensures
        r == stage_time_ms(*t),
{
    match t {
        Some(s) => {
            let fmt = text("%Y-%m-%d %H:%M:%S");
            parse_naive_utc_millis(s.as_str(), fmt.as_str())
        },
        None => None,
    }
}

fn text_or_default(t: &Option<String>, d: &str) -> (r: String)
    ensures
        r@ == text_or(*t, d@),
{
    match t {
        Some(s) => s.clone(),
        None => text(d),
    }
}

fn value_or_zero(v: Option<i64>) -> (r: i64)
    ensures
        r == or_value(v, 0),
{
    match v {
        Some(x) => x,
        None => 0,
    }
}

impl ETDR {
    /// The record of a pending transaction read back at `now` from its stage row (see
    /// [`is_record_of_stage`]).
    pub fn from_transport_transaction_stage_at(stage: &TransportTransactionStage, now: i64) -> (r: ETDR)
        ensures
            is_record_of_stage(r, *stage, now),
    {
        let checkin_ms = match stage_time(&stage.checkin_datetime) {
            Some(ms) => ms,
            None => match stage_time(&stage.insert_datetime) {
                Some(ms) => ms,
                None => now,
            },
        };
        let etag_str = text_or_default(&stage.etag_number, "");
        let ticket_id = stage.transport_trans_id;
        let checkin_commit_ms = match stage_time(&stage.checkin_commit_datetime) { Some(ms) => ms, None => 0 };
        let checkout_ms = match stage_time(&stage.checkout_datetime) { Some(ms) => ms, None => 0 };
        let checkout_commit_ms = match stage_time(&stage.checkout_commit_datetime) { Some(ms) => ms, None => 0 };
        let plate_text = match &stage.checkin_plate {
            Some(p) => p.clone(),
            None => text_or_default(&stage.plate, ""),
        };
        ETDR {
            time_update: now,
            sub_id: value_or_zero(stage.subscriber_id) as i32,
            etag_id: etag_str.clone(),
            etag_key: match stage.etag_id { Some(id) => Some(id as i32), None => None },
            etag_number: etag_str,
            account_id: value_or_zero(stage.account_id) as i32,
            vehicle_id: value_or_zero(stage.vehicle_id) as i32,
            status: match &stage.status {
                Some(s) => if *s == text("1") { 0 } else { 1 },
                None => 0,
            },
            hash_value: text_or_default(&stage.checkin_shift, ""),
            vehicle_type: text_or_default(&stage.vehicle_type, "1"),
            vehicle_type_ext1: String::new(),
            vehicle_type_ext2: String::new(),
            vehicle_type_ext3: String::new(),
            vehicle_type_ext4: String::new(),
            vehicle_type_ext5: String::new(),
            vehicle_type_ext6: String::new(),
            vehicle_type_ext7: String::new(),
            vehicle_type_ext8: String::new(),
            vehicle_type_ext9: String::new(),
            vehicle_type_ext10: String::new(),
            vehicle_type_profile: text_or_default(&stage.vehicle_type_profile, "STD"),
            plate: plate_text,
            plate_status: match &stage.checkin_plate_status {
                Some(s) => match parse_i32(s.as_str()) {
                    Some(v) => v,
                    None => 0,
                },
                None => 0,
            },
            seat_num: None,
            weight: value_or_zero(stage.fe_weight) as i32,
            weight_goods: None,
            weight_all: None,
            register_vehicle_type: String::new(),
            vehicle_length: value_or_zero(stage.fe_vehicle_length) as i32,
            sub_status: String::new(),
            etag_status: String::new(),
            auto_extend: String::new(),
            price_type: String::new(),
            start_date: String::new(),
            request_id: value_or_zero(stage.request_id),
            ticket_id,
            ref_trans_id: ticket_id,
            command_id: 0,
            t_id: text_or_default(&stage.checkin_tid, ""),
            ticket_type: match &stage.charge_type {
                Some(s) => ticket_type_str_to_i32(s.as_str()),
                None => 1,
            },
            price_ticket_type: 1,
            price: 0,
            price_id: None,
            commit_amount: 0,
            reason_id: 0,
            image_count: match stage.checkin_img_count { Some(n) => n, None => 0 },
            station_id: value_or_zero(stage.checkin_toll_id) as i32,
            station_type: 1,
            lane_id: value_or_zero(stage.checkin_lane_id) as i32,
            toll_out: value_or_zero(stage.checkout_toll_id) as i32,
            lane_out: value_or_zero(stage.checkout_lane_id) as i32,
            ref_station_id: None,
            ref_lane_id: None,
            time_route_checkin: checkin_ms,
            time_route_checkin_commit: checkin_commit_ms,
            time_route_checkout: checkout_ms,
            time_station_checkin: checkin_ms,
            checkin_datetime: checkin_ms,
            checkin_commit_datetime: checkin_commit_ms,
            checkout_datetime: checkout_ms,
            checkout_commit_datetime: checkout_commit_ms,
            boo_ticket_id: ticket_id,
            boo_trans_amount: 0,
            boo_trans_datetime: None,
            boo_lane_type: text_value("I"),
            boo_toll_type: Some(text_or_default(&stage.toll_type, "C")),
            boo_ticket_type: None,
            boo_subscription_ids: None,
            charge_in: clone_opt_string(&stage.charge_in),
            sub_charge_in: None,
            charge_in_status: clone_opt_string(&stage.charge_in_status),
            charge_trans_id: clone_opt_string(&stage.charge_trans_id),
            charge_datetime: stage_time(&stage.charge_datetime),
            charge_in104: clone_opt_string(&stage.charge_in_104),
            etdr_dual: None,
            chd_type: clone_opt_string(&stage.chd_type),
            chd_ref_id: match stage.chd_ref_id { Some(id) => Some(i64_to_string(id)), None => None },
            chd_reason: clone_opt_string(&stage.chd_reason),
            trans_stage_details: Vec::new(),
            rating_details: Vec::new(),
            transition_close: None,
            toll_turning_time_code: clone_opt_string(&stage.turning_code),
            check: 0,
            log_request: None,
            info_roll_back: None,
            free_turning: false,
            enough_min_balance: true,
            rating_type: clone_opt_string(&stage.rating_type),
            fe_trans_id: clone_opt_string(&stage.fe_trans_id),
            ticket_in_id: stage.ticket_in_id,
            ticket_eTag_id: stage.ticket_eTag_id,
            ticket_out_id: stage.ticket_out_id,
            hub_id: stage.hub_id,
            checkin_from_sync: stage.transport_sync_id.is_some(),
            event: None,
            db_saved: true,
            db_save_retry_count: 0,
            sync_status: match stage.sync_status { Some(s) => s as i32, None => 0 },
        }
    }

    /// The record of a pending transaction read back now from its stage row.
    pub fn from_transport_transaction_stage(stage: &TransportTransactionStage) -> (r: ETDR)
        ensures
            exists|now: i64| is_record_of_stage(r, *stage, now),
    {
        let now = timestamp_ms();
        Self::from_transport_transaction_stage_at(stage, now)
    }
}

/// The time of a synchronised text, trimmed, where it parses.
pub open spec fn sync_time_ms(t: Option<String>) -> Option<i64> {
    match t {
        Some(s) => naive_utc_millis(trim_seq(s@), db_datetime_format()),
        None => None,
    }
}

/// Whether `t` holds text that is not blank.
pub open spec fn has_text(t: Option<String>) -> bool {
    t matches Some(s) && trim_seq(s@).len() > 0
}

/// The record `old` with what the synchronised record `s` has filled in at `now`, but for its
/// plate and vehicle type, which it takes from `plate_from`: the ticket type of a non-blank
/// ticket type; the price ticket type `price_ticket_type_code` where `s` has one; the times that
/// parse (the exit time also as route exit time); the stations, lanes, request, hub and tickets
/// that `s` has (stations and lanes read as 32-bit numbers); its synchronisation status where it
/// has one; taken from a synchronised record; updated at `now`.
pub open spec fn sync_filled(old: ETDR, s: TransportTransStageSync, price_ticket_type_code: i32, now: i64, plate_from: ETDR) -> ETDR {
    ETDR {
        plate: plate_from.plate,
        vehicle_type: plate_from.vehicle_type,
        ticket_type: if has_text(s.ticket_type) { ticket_type_code(trim_seq(s.ticket_type->0@)) } else { old.ticket_type },
        price_ticket_type: if s.price_ticket_type is Some { price_ticket_type_code } else { old.price_ticket_type },
        checkin_datetime: or_value(sync_time_ms(s.checkin_datetime), old.checkin_datetime),
        checkin_commit_datetime: or_value(sync_time_ms(s.checkin_commit_datetime), old.checkin_commit_datetime),
        station_id: match s.checkin_toll_id { Some(id) => id as i32, None => old.station_id },
        lane_id: match s.checkin_lane_id { Some(id) => id as i32, None => old.lane_id },
        request_id: or_value(s.request_id, old.request_id),
        ticket_in_id: or_else(s.ticket_in_id, old.ticket_in_id),
        ticket_eTag_id: or_else(s.ticket_etag_id, old.ticket_eTag_id),
        hub_id: or_else(s.hub_id, old.hub_id),
        toll_out: match s.checkout_toll_id { Some(id) => id as i32, None => old.toll_out },
        lane_out: match s.checkout_lane_id { Some(id) => id as i32, None => old.lane_out },
        checkout_datetime: or_value(sync_time_ms(s.checkout_datetime), old.checkout_datetime),
        time_route_checkout: or_value(sync_time_ms(s.checkout_datetime), old.time_route_checkout),
        checkout_commit_datetime: or_value(sync_time_ms(s.checkout_commit_datetime), old.checkout_commit_datetime),
        checkin_from_sync: true,
        sync_status: match s.sync_status { Some(v) => v as i32, None => old.sync_status },
        time_update: now,
        ..old
    }
}

fn sync_time(t: &Option<String>) -> (r: Option<i64>)
    ensures
        r == sync_time_ms(*t),
{
    match t {
        Some(s) => {
            let fmt = text("%Y-%m-%d %H:%M:%S");
            let trimmed = trim_str(s.as_str());
            parse_naive_utc_millis(trimmed.as_str(), fmt.as_str())
        },
        None => None,
    }
}

fn trimmed_text_or(t: &Option<String>, cur: &String) -> (r: String)
    ensures
        r@ == (if has_text(*t) { trim_seq(t->0@) } else { cur@ }),
{
    match t {
        Some(s) => if is_blank(s.as_str()) { cur.clone() } else { trim_str(s.as_str()) },
        None => cur.clone(),
    }
}

fn ticket_type_or(t: &Option<String>, cur: i32) -> (r: i32)
    ensures
        r == (if has_text(*t) { ticket_type_code(trim_seq(t->0@)) } else { cur }),
{
    match t {
        Some(s) => if is_blank(s.as_str()) { cur } else { ticket_type_str_to_i32(s.as_str()) },
        None => cur,
    }
}

fn value_or(v: Option<i64>, cur: i64) -> (r: i64)
    ensures
        r == or_value(v, cur),
{
    match v {
        Some(x) => x,
        None => cur,
    }
}

fn low_i32_or(v: Option<i64>, cur: i32) -> (r: i32)
    ensures
        r == (match v { Some(x) => x as i32, None => cur }),
{
    match v {
        Some(x) => x as i32,
        None => cur,
    }
}

/// Fills the record `etdr` from the synchronised record `sync` of the same transaction at `now`
/// (see [`sync_filled`]): a non-blank plate or vehicle type replaces the record's, trimmed.
/// `price_ticket_type_code` is the code of `sync`'s price ticket type, where it has one.
pub fn fill_etdr_from_sync_at(etdr: &mut ETDR, sync: &TransportTransStageSync, price_ticket_type_code: i32, now: i64)
    ensures
        *final(etdr) == sync_filled(*old(etdr), *sync, price_ticket_type_code, now, *final(etdr)),
        final(etdr).plate@ == (if has_text(sync.plate) { trim_seq(sync.plate->0@) } else { old(etdr).plate@ }),
        final(etdr).vehicle_type@ == (if has_text(sync.vehicle_type) { trim_seq(sync.vehicle_type->0@) } else { old(etdr).vehicle_type@ }),
{
    etdr.plate = trimmed_text_or(&sync.plate, &etdr.plate);
    etdr.vehicle_type = trimmed_text_or(&sync.vehicle_type, &etdr.vehicle_type);
    etdr.ticket_type = ticket_type_or(&sync.ticket_type, etdr.ticket_type);
    if sync.price_ticket_type.is_some() {
        etdr.price_ticket_type = price_ticket_type_code;
    }
    etdr.checkin_datetime = value_or(sync_time(&sync.checkin_datetime), etdr.checkin_datetime);
    etdr.checkin_commit_datetime = value_or(sync_time(&sync.checkin_commit_datetime), etdr.checkin_commit_datetime);
    etdr.station_id = low_i32_or(sync.checkin_toll_id, etdr.station_id);
    etdr.lane_id = low_i32_or(sync.checkin_lane_id, etdr.lane_id);
    etdr.request_id = value_or(sync.request_id, etdr.request_id);
    etdr.ticket_in_id = pick_i64(sync.ticket_in_id, etdr.ticket_in_id);
    etdr.ticket_eTag_id = pick_i64(sync.ticket_etag_id, etdr.ticket_eTag_id);
    etdr.hub_id = pick_i64(sync.hub_id, etdr.hub_id);
    etdr.toll_out = low_i32_or(sync.checkout_toll_id, etdr.toll_out);
    etdr.lane_out = low_i32_or(sync.checkout_lane_id, etdr.lane_out);
    let checkout_ms = sync_time(&sync.checkout_datetime);
    etdr.checkout_datetime = value_or(checkout_ms, etdr.checkout_datetime);
    etdr.time_route_checkout = value_or(checkout_ms, etdr.time_route_checkout);
    etdr.checkout_commit_datetime = value_or(sync_time(&sync.checkout_commit_datetime), etdr.checkout_commit_datetime);
    etdr.checkin_from_sync = true;
    etdr.sync_status = low_i32_or(sync.sync_status, etdr.sync_status);
    etdr.time_update = now;
}

/// Fills the record `etdr` from the synchronised record `sync` now (see
/// [`fill_etdr_from_sync_at`]).
pub fn fill_etdr_from_sync(etdr: &mut ETDR, sync: &TransportTransStageSync, price_ticket_type_code: i32)
    ensures
        exists|now: i64| *final(etdr) == sync_filled(*old(etdr), *sync, price_ticket_type_code, now, *final(etdr)),
        final(etdr).plate@ == (if has_text(sync.plate) { trim_seq(sync.plate->0@) } else { old(etdr).plate@ }),
        final(etdr).vehicle_type@ == (if has_text(sync.vehicle_type) { trim_seq(sync.vehicle_type->0@) } else { old(etdr).vehicle_type@ }),
{
    let now = timestamp_ms();
    fill_etdr_from_sync_at(etdr, sync, price_ticket_type_code, now);
}

/// A record written to the store as a new stage row and read back from that row is the same
/// transaction: the same ticket, stations, lanes, request, tag number, plate, image count,
/// vehicle type and profile, reader transaction, charge, dispute, rating, hub and reference
/// columns; the same subscriber, account, vehicle and weight where positive (else none, read as
/// `0`); success where the record succeeded; saved, and not from a synchronised record.
pub proof fn law_stored_record_reads_back(e: ETDR, st: TransportTransactionStage, r: ETDR,
    vehicle_boo: i64, now: Seq<char>, m: Map<i32, TollCacheEntry>, ttl: i64, cache_now: i64, read_at: i64)
    requires
        is_stage_of_etdr(st, e, vehicle_boo, now, m, ttl, cache_now),
        is_record_of_stage(r, st, read_at),
    ensures
        r.ticket_id == e.ticket_id,
        r.ref_trans_id == e.ticket_id,
        r.station_id == e.station_id,
        r.lane_id == e.lane_id,
        r.toll_out == e.toll_out,
        r.lane_out == e.lane_out,
        r.request_id == e.request_id,
        r.etag_number@ == e.etag_number@,
        r.plate@ == e.plate@,
        r.image_count == e.image_count,
        r.vehicle_type@ == e.vehicle_type@,
        r.vehicle_type_profile@ == e.vehicle_type_profile@,
        r.t_id@ == e.t_id@,
        r.etag_key == e.etag_key,
        r.sub_id == (if e.sub_id > 0 { e.sub_id } else { 0 }),
        r.account_id == (if e.account_id > 0 { e.account_id } else { 0 }),
        r.vehicle_id == (if e.vehicle_id > 0 { e.vehicle_id } else { 0 }),
        r.weight == (if e.weight > 0 { e.weight } else { 0 }),
        (r.status == 0) == (e.status == 0),
        r.charge_in == e.charge_in,
        r.charge_in_status == e.charge_in_status,
        r.charge_in104 == e.charge_in104,
        r.chd_type == e.chd_type,
        r.chd_reason == e.chd_reason,
        r.rating_type == e.rating_type,
        r.fe_trans_id == e.fe_trans_id,
        r.ticket_in_id == e.ticket_in_id,
        r.hub_id == e.hub_id,
        r.ticket_eTag_id == e.ticket_eTag_id,
        r.db_saved,
        !r.checkin_from_sync,
{
    reveal_strlit("1");
    reveal_strlit("0");
    assert("0"@ != "1"@) by {
        assert("0"@[0] != "1"@[0]);
    }
    assert(st.status matches Some(s) && s@ == (if e.status == 0 { "1"@ } else { "0"@ }));
}

/// Filling a stored stage row from a record keeps every value the row already holds (only its
/// update time is always rewritten, and its transaction never changes); a column the row does
/// not hold yet is taken from the record.
pub proof fn law_merge_keeps_stored_columns(r: TransportTransactionStage, ex: TransportTransactionStage, e: ETDR,
    vehicle_boo: i64, now: Seq<char>, m: Map<i32, TollCacheEntry>, ttl: i64, cache_now: i64)
    requires
        is_merged_stage(r, ex, e, vehicle_boo, now, m, ttl, cache_now),
    ensures
        r.transport_trans_id == ex.transport_trans_id,
        ex.subscriber_id is Some ==> r.subscriber_id == ex.subscriber_id,
        ex.charge_type is Some ==> text_of(r.charge_type) == text_of(ex.charge_type),
        ex.etag_id is Some ==> r.etag_id == ex.etag_id,
        ex.vehicle_id is Some ==> r.vehicle_id == ex.vehicle_id,
        ex.checkin_toll_id is Some ==> r.checkin_toll_id == ex.checkin_toll_id,
        ex.checkin_lane_id is Some ==> r.checkin_lane_id == ex.checkin_lane_id,
        ex.checkin_commit_datetime is Some ==> text_of(r.checkin_commit_datetime) == text_of(ex.checkin_commit_datetime),
        ex.checkin_channel is Some ==> r.checkin_channel == ex.checkin_channel,
        ex.checkin_pass is Some ==> text_of(r.checkin_pass) == text_of(ex.checkin_pass),
        ex.checkin_pass_reason_id is Some ==> text_of(r.checkin_pass_reason_id) == text_of(ex.checkin_pass_reason_id),
        ex.checkout_toll_id is Some ==> r.checkout_toll_id == ex.checkout_toll_id,
        ex.checkout_lane_id is Some ==> r.checkout_lane_id == ex.checkout_lane_id,
        ex.checkout_commit_datetime is Some ==> text_of(r.checkout_commit_datetime) == text_of(ex.checkout_commit_datetime),
        ex.checkout_channel is Some ==> r.checkout_channel == ex.checkout_channel,
        ex.checkout_pass is Some ==> text_of(r.checkout_pass) == text_of(ex.checkout_pass),
        ex.checkout_pass_reason_id is Some ==> text_of(r.checkout_pass_reason_id) == text_of(ex.checkout_pass_reason_id),
        ex.charge_status is Some ==> text_of(r.charge_status) == text_of(ex.charge_status),
        ex.total_amount is Some ==> r.total_amount == ex.total_amount,
        ex.account_id is Some ==> r.account_id == ex.account_id,
        ex.account_trans_id is Some ==> r.account_trans_id == ex.account_trans_id,
        ex.checkin_datetime is Some ==> text_of(r.checkin_datetime) == text_of(ex.checkin_datetime),
        ex.checkout_datetime is Some ==> text_of(r.checkout_datetime) == text_of(ex.checkout_datetime),
        ex.checkin_status is Some ==> text_of(r.checkin_status) == text_of(ex.checkin_status),
        ex.etag_number is Some ==> text_of(r.etag_number) == text_of(ex.etag_number),
        ex.request_id is Some ==> r.request_id == ex.request_id,
        ex.checkin_plate is Some ==> text_of(r.checkin_plate) == text_of(ex.checkin_plate),
        ex.checkin_plate_status is Some ==> text_of(r.checkin_plate_status) == text_of(ex.checkin_plate_status),
        ex.checkout_plate is Some ==> text_of(r.checkout_plate) == text_of(ex.checkout_plate),
        ex.checkout_plate_status is Some ==> text_of(r.checkout_plate_status) == text_of(ex.checkout_plate_status),
        ex.plate_from_toll is Some ==> text_of(r.plate_from_toll) == text_of(ex.plate_from_toll),
        ex.img_count is Some ==> r.img_count == ex.img_count,
        ex.checkin_img_count is Some ==> r.checkin_img_count == ex.checkin_img_count,
        ex.checkout_img_count is Some ==> r.checkout_img_count == ex.checkout_img_count,
        ex.status is Some ==> text_of(r.status) == text_of(ex.status),
        ex.notif_scan is Some ==> r.notif_scan == ex.notif_scan,
        ex.toll_type is Some ==> text_of(r.toll_type) == text_of(ex.toll_type),
        ex.rating_type is Some ==> text_of(r.rating_type) == text_of(ex.rating_type),
        ex.insert_datetime is Some ==> text_of(r.insert_datetime) == text_of(ex.insert_datetime),
        ex.insuff_amount is Some ==> r.insuff_amount == ex.insuff_amount,
        ex.checkout_status is Some ==> text_of(r.checkout_status) == text_of(ex.checkout_status),
        ex.bitwise_scan is Some ==> r.bitwise_scan == ex.bitwise_scan,
        ex.plate is Some ==> text_of(r.plate) == text_of(ex.plate),
        ex.vehicle_type is Some ==> text_of(r.vehicle_type) == text_of(ex.vehicle_type),
        ex.fe_vehicle_length is Some ==> r.fe_vehicle_length == ex.fe_vehicle_length,
        ex.fe_commit_amount is Some ==> r.fe_commit_amount == ex.fe_commit_amount,
        ex.fe_weight is Some ==> r.fe_weight == ex.fe_weight,
        ex.fe_reason_id is Some ==> r.fe_reason_id == ex.fe_reason_id,
        ex.vehicle_type_profile is Some ==> text_of(r.vehicle_type_profile) == text_of(ex.vehicle_type_profile),
        ex.boo is Some ==> r.boo == ex.boo,
        ex.boo_transport_trans_id is Some ==> r.boo_transport_trans_id == ex.boo_transport_trans_id,
        ex.subscription_ids is Some ==> text_of(r.subscription_ids) == text_of(ex.subscription_ids),
        ex.checkin_shift is Some ==> text_of(r.checkin_shift) == text_of(ex.checkin_shift),
        ex.checkout_shift is Some ==> text_of(r.checkout_shift) == text_of(ex.checkout_shift),
        ex.turning_code is Some ==> text_of(r.turning_code) == text_of(ex.turning_code),
        ex.checkin_tid is Some ==> text_of(r.checkin_tid) == text_of(ex.checkin_tid),
        ex.checkout_tid is Some ==> text_of(r.checkout_tid) == text_of(ex.checkout_tid),
        ex.charge_in is Some ==> text_of(r.charge_in) == text_of(ex.charge_in),
        ex.charge_trans_id is Some ==> text_of(r.charge_trans_id) == text_of(ex.charge_trans_id),
        ex.balance is Some ==> r.balance == ex.balance,
        ex.charge_in_status is Some ==> text_of(r.charge_in_status) == text_of(ex.charge_in_status),
        ex.charge_datetime is Some ==> text_of(r.charge_datetime) == text_of(ex.charge_datetime),
        ex.charge_in_104 is Some ==> text_of(r.charge_in_104) == text_of(ex.charge_in_104),
        ex.fe_online_status is Some ==> text_of(r.fe_online_status) == text_of(ex.fe_online_status),
        ex.mdh_id is Some ==> r.mdh_id == ex.mdh_id,
        ex.chd_type is Some ==> text_of(r.chd_type) == text_of(ex.chd_type),
        ex.chd_ref_id is Some ==> r.chd_ref_id == ex.chd_ref_id,
        ex.chd_reason is Some ==> text_of(r.chd_reason) == text_of(ex.chd_reason),
        ex.fe_trans_id is Some ==> text_of(r.fe_trans_id) == text_of(ex.fe_trans_id),
        ex.transition_close is Some ==> text_of(r.transition_close) == text_of(ex.transition_close),
        ex.voucher_code is Some ==> text_of(r.voucher_code) == text_of(ex.voucher_code),
        ex.voucher_used_amount is Some ==> r.voucher_used_amount == ex.voucher_used_amount,
        ex.voucher_amount is Some ==> r.voucher_amount == ex.voucher_amount,
        ex.transport_sync_id is Some ==> r.transport_sync_id == ex.transport_sync_id,
        ex.ticket_in_id is Some ==> r.ticket_in_id == ex.ticket_in_id,
        ex.hub_id is Some ==> r.hub_id == ex.hub_id,
        ex.ticket_eTag_id is Some ==> r.ticket_eTag_id == ex.ticket_eTag_id,
        ex.ticket_out_id is Some ==> r.ticket_out_id == ex.ticket_out_id,
        ex.token_id is Some ==> text_of(r.token_id) == text_of(ex.token_id),
        ex.acs_account_no is Some ==> text_of(r.acs_account_no) == text_of(ex.acs_account_no),
        ex.boo_etag is Some ==> text_of(r.boo_etag) == text_of(ex.boo_etag),
        ex.sub_charge_in is Some ==> text_of(r.sub_charge_in) == text_of(ex.sub_charge_in),
        ex.sync_status is Some ==> r.sync_status == ex.sync_status,
        ex.boo is None ==> r.boo == Some(vehicle_boo),
        ex.subscriber_id is None ==> r.subscriber_id == positive(e.sub_id as i64),
        ex.etag_number is None ==> text_of(r.etag_number) == nonempty(e.etag_number@),
{
}

/// The stage row written at a back-end checkin is an open entry of transaction
/// `transport_trans_id` at the lane that asked: its entry station is the station's id, its
/// entry lane the lane's code and its channel the request's lane; its entry ticket is the
/// transaction; it is checked in at `now` and neither committed nor checked out.
pub proof fn law_checkin_stage_row_is_open_entry(r: TransportTransactionStage, fe: FE_CHECKIN, e: ETDR, toll: TOLL, lane: TOLL_LANE,
    transport_trans_id: i64, sub: Option<SubscriberIds>, now: Seq<char>, max_boo_etag_len: usize)
    requires
        is_checkin_stage_row(r, fe, e, toll, lane, transport_trans_id, sub, now, max_boo_etag_len),
    ensures
        r.transport_trans_id == transport_trans_id,
        r.ticket_in_id == Some(transport_trans_id),
        r.boo_transport_trans_id == Some(transport_trans_id),
        r.checkin_toll_id == Some(toll.toll_id as i64),
        r.checkin_lane_id == Some(lane.lane_code as i64),
        r.checkin_channel == Some(fe.lane as i64),
        r.request_id == Some(fe.request_id),
        text_of(r.checkin_datetime) == Some(now),
        r.checkin_commit_datetime is None,
        r.checkout_toll_id is None,
        r.checkout_lane_id is None,
        r.checkout_datetime is None,
        r.checkout_commit_datetime is None,
        sub is None ==> r.account_id is None && r.subscriber_id is None,
{
}

} // verus!
