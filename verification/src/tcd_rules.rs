//! The fee lines of a checkout as written to the store (one row per fee line of the rating,
//! or one summary row where the rating gave none) and as kept with the record.

use vstd::prelude::*;
use crate::checkin_rules::{get_price_ticket_type_from_rating_detail, ticket_type_i32_to_str, ticket_type_letter};
use crate::etdr_types::{clone_opt_string, BOORatingDetail};
use crate::numtext::{decimal_text, parse_i64, parsed_i64};
use crate::rating_detail::RatingDetail;
use crate::text::{is_blank, normalize_etag, normalize_seq, trim_end_nul_seq, trim_end_nul_str, trim_seq};

verus! {

/// One fee line of a transaction as stored.
#[derive(Debug)]
pub struct TransportTransStageTcd {
    pub transport_stage_tcd_id: i64,
    pub transport_trans_id: i64,
    pub boo: i64,
    pub bot_id: Option<i64>,
    pub toll_a_id: Option<i64>,
    pub toll_b_id: Option<i64>,
    pub stage_id: Option<i64>,
    pub price_id: Option<i64>,
    pub ticket_type: Option<String>,
    pub price_ticket_type: Option<String>,
    pub price_amount: Option<i64>,
    pub subscription_id: Option<String>,
    pub vehicle_type: Option<i64>,
    pub mdh_id: Option<i64>,
    pub checkin_datetime: Option<String>,
}

/// The ticket type stored for a fee line: its own, normalised, or the record's letter where it
/// has none.
pub open spec fn tcd_ticket_type_of(line_ticket_type: Seq<char>, etdr_ticket_type: i32) -> Seq<char> {
    if normalize_seq(line_ticket_type).len() == 0 {
        ticket_type_letter(etdr_ticket_type)
    } else {
        normalize_seq(line_ticket_type)
    }
}

/// `t` is the stored row of fee line `rd` of transaction `transport_trans_id`, for a record of
/// ticket type `etdr_ticket_type` checked in at `checkin_datetime`.
pub open spec fn is_tcd_of_line(t: TransportTransStageTcd, rd: RatingDetail, transport_trans_id: i64, etdr_ticket_type: i32, checkin_datetime: Option<String>) -> bool {
    &&& t.transport_stage_tcd_id == 0
    &&& t.transport_trans_id == transport_trans_id
    &&& t.boo == rd.boo as i64
    &&& t.bot_id == Some(match rd.bot_id { Some(b) => b, None => 0i64 })
    &&& t.toll_a_id == Some(rd.toll_a_id as i64)
    &&& t.toll_b_id == Some(rd.toll_b_id as i64)
    &&& t.stage_id == rd.stage_id
    &&& t.price_id == rd.price_id
    &&& (t.ticket_type matches Some(s) && s@ == tcd_ticket_type_of(rd.ticket_type@, etdr_ticket_type))
    &&& (t.price_ticket_type matches Some(s) && s@ == decimal_text(rd.price_ticket_type as int))
    &&& t.price_amount == Some(rd.price_amount as i64)
    &&& if trim_seq(rd.subscription_id@).len() == 0 {
        t.subscription_id is None
    } else {
        t.subscription_id matches Some(s) && s@ == rd.subscription_id@
    }
    &&& t.vehicle_type == Some(rd.vehicle_type as i64)
    &&& t.mdh_id is None
    &&& t.checkin_datetime == checkin_datetime
}

/// The stored row of one fee line (see [`is_tcd_of_line`]).
pub fn tcd_from_rating_detail(rd: &RatingDetail, transport_trans_id: i64, etdr_ticket_type: i32, checkin_datetime: &Option<String>) -> (t: TransportTransStageTcd)
    ensures
        is_tcd_of_line(t, *rd, transport_trans_id, etdr_ticket_type, *checkin_datetime),
{
    let tt = normalize_etag(rd.ticket_type.as_str());
    let ticket_type = if tt.as_str().is_empty() { ticket_type_i32_to_str(etdr_ticket_type) } else { tt };
    let subscription_id = if is_blank(rd.subscription_id.as_str()) { None } else { Some(rd.subscription_id.clone()) };
    TransportTransStageTcd {
        transport_stage_tcd_id: 0,
        transport_trans_id,
        boo: rd.boo as i64,
        bot_id: Some(match rd.bot_id { Some(b) => b, None => 0 }),
        toll_a_id: Some(rd.toll_a_id as i64),
        toll_b_id: Some(rd.toll_b_id as i64),
        stage_id: rd.stage_id,
        price_id: rd.price_id,
        ticket_type: Some(ticket_type),
        price_ticket_type: get_price_ticket_type_from_rating_detail(rd.price_ticket_type),
        price_amount: Some(rd.price_amount as i64),
        subscription_id,
        vehicle_type: Some(rd.vehicle_type as i64),
        mdh_id: None,
        checkin_datetime: clone_opt_string(checkin_datetime),
    }
}

/// The stored rows of the fee lines `lines`, one per line, in order.
pub fn tcd_records_from_rating_details(lines: &[RatingDetail], transport_trans_id: i64, etdr_ticket_type: i32, checkin_datetime: &Option<String>) -> (r: Vec<TransportTransStageTcd>)
    ensures
        r@.len() == lines@.len(),
        forall|i: int| 0 <= i < lines@.len() ==> is_tcd_of_line(#[trigger] r@[i], lines@[i], transport_trans_id, etdr_ticket_type, *checkin_datetime),
{
    let mut r: Vec<TransportTransStageTcd> = Vec::new();
    let mut k: usize = 0;
    while k < lines.len()
        invariant
            k <= lines@.len(),
            r@.len() == k,
            forall|i: int| 0 <= i < k ==> is_tcd_of_line(#[trigger] r@[i], lines@[i], transport_trans_id, etdr_ticket_type, *checkin_datetime),
        decreases lines@.len() - k,
    {
        let t = tcd_from_rating_detail(&lines[k], transport_trans_id, etdr_ticket_type, checkin_datetime);
        r.push(t);
        k = k + 1;
    }
    r
}

/// A vehicle type text read as a number, or `1` where it does not parse.
pub open spec fn i64_or_one(s: Seq<char>) -> i64 {
    match parsed_i64(s) {
        Some(v) => v,
        None => 1,
    }
}

/// `t` is the one summary row of a checkout whose rating gave no fee line: operator `3`, from
/// the entry station to the exit station, the record's ticket and price ticket types and
/// vehicle type, for the whole amount.
pub open spec fn is_summary_tcd(t: TransportTransStageTcd, transport_trans_id: i64, station_in: i32, station_out: i32, etdr_ticket_type: i32, etdr_price_ticket_type: i32, trans_amount: i32, vehicle_type: Seq<char>, checkin_datetime: Option<String>) -> bool {
    &&& t.transport_stage_tcd_id == 0
    &&& t.transport_trans_id == transport_trans_id
    &&& t.boo == 3
    &&& t.bot_id is None
    &&& t.toll_a_id == Some(station_in as i64)
    &&& t.toll_b_id == Some(station_out as i64)
    &&& t.stage_id is None
    &&& t.price_id is None
    &&& (t.ticket_type matches Some(s) && s@ == ticket_type_letter(etdr_ticket_type))
    &&& (t.price_ticket_type matches Some(s) && s@ == decimal_text(etdr_price_ticket_type as int))
    &&& t.price_amount == Some(trans_amount as i64)
    &&& t.subscription_id is None
    &&& t.vehicle_type == Some(i64_or_one(vehicle_type))
    &&& t.mdh_id is None
    &&& t.checkin_datetime == checkin_datetime
}

/// The summary row of a checkout whose rating gave no fee line (see [`is_summary_tcd`]).
pub fn summary_tcd_record(transport_trans_id: i64, station_in: i32, station_out: i32, etdr_ticket_type: i32, etdr_price_ticket_type: i32, trans_amount: i32, vehicle_type: &str, checkin_datetime: &Option<String>) -> (t: TransportTransStageTcd)
    ensures
        is_summary_tcd(t, transport_trans_id, station_in, station_out, etdr_ticket_type, etdr_price_ticket_type, trans_amount, vehicle_type@, *checkin_datetime),
{
    let vt: i64 = match parse_i64(vehicle_type) {
        Some(v) => v,
        None => 1,
    };
    TransportTransStageTcd {
        transport_stage_tcd_id: 0,
        transport_trans_id,
        boo: 3,
        bot_id: None,
        toll_a_id: Some(station_in as i64),
        toll_b_id: Some(station_out as i64),
        stage_id: None,
        price_id: None,
        ticket_type: Some(ticket_type_i32_to_str(etdr_ticket_type)),
        price_ticket_type: get_price_ticket_type_from_rating_detail(etdr_price_ticket_type),
        price_amount: Some(trans_amount as i64),
        subscription_id: None,
        vehicle_type: Some(vt),
        mdh_id: None,
        checkin_datetime: clone_opt_string(checkin_datetime),
    }
}

/// The rows stored for a checkout: one per fee line of the rating, or the summary row where
/// the rating gave none.
pub fn checkout_tcd_records(lines: &[RatingDetail], transport_trans_id: i64, station_in: i32, station_out: i32, etdr_ticket_type: i32, etdr_price_ticket_type: i32, trans_amount: i32, vehicle_type: &str, checkin_datetime: &Option<String>) -> (r: Vec<TransportTransStageTcd>)
    ensures
        lines@.len() == 0 ==> r@.len() == 1 && is_summary_tcd(r@[0], transport_trans_id, station_in, station_out, etdr_ticket_type,
            etdr_price_ticket_type, trans_amount, vehicle_type@, *checkin_datetime),
        lines@.len() > 0 ==> r@.len() == lines@.len() && forall|i: int| 0 <= i < lines@.len() ==>
            is_tcd_of_line(#[trigger] r@[i], lines@[i], transport_trans_id, etdr_ticket_type, *checkin_datetime),
{
    if lines.len() == 0 {
        let t = summary_tcd_record(transport_trans_id, station_in, station_out, etdr_ticket_type, etdr_price_ticket_type,
            trans_amount, vehicle_type, checkin_datetime);
        let mut r: Vec<TransportTransStageTcd> = Vec::new();
        r.push(t);
        r
    } else {
        tcd_records_from_rating_details(lines, transport_trans_id, etdr_ticket_type, checkin_datetime)
    }
}

/// `b` is fee line `d` as kept with the record: trailing NULs dropped from its ticket type and
/// subscription, an all-blank subscription dropped.
pub open spec fn is_boo_line_of(b: BOORatingDetail, d: RatingDetail) -> bool {
    &&& b.boo == d.boo
    &&& b.toll_a_id == d.toll_a_id
    &&& b.toll_b_id == d.toll_b_id
    &&& b.ticket_type@ == trim_end_nul_seq(d.ticket_type@)
    &&& if trim_seq(d.subscription_id@).len() == 0 {
        b.subscription_id is None
    } else {
        b.subscription_id matches Some(s) && s@ == trim_end_nul_seq(d.subscription_id@)
    }
    &&& b.price_ticket_type == d.price_ticket_type
    &&& b.price_amount == d.price_amount
    &&& b.vehicle_type == d.vehicle_type
    &&& b.price_id == d.price_id
    &&& b.bot_id == d.bot_id
    &&& b.stage_id == d.stage_id
}

fn boo_line(d: &RatingDetail) -> (b: BOORatingDetail)
    ensures
        is_boo_line_of(b, *d),
{
    BOORatingDetail {
        boo: d.boo,
        toll_a_id: d.toll_a_id,
        toll_b_id: d.toll_b_id,
        ticket_type: trim_end_nul_str(d.ticket_type.as_str()),
        subscription_id: if is_blank(d.subscription_id.as_str()) {
            None
        } else {
            Some(trim_end_nul_str(d.subscription_id.as_str()))
        },
        price_ticket_type: d.price_ticket_type,
        price_amount: d.price_amount,
        vehicle_type: d.vehicle_type,
        price_id: d.price_id,
        bot_id: d.bot_id,
        stage_id: d.stage_id,
    }
}

/// The fee lines of a rating as kept with the record, one per line, in order (see
/// [`is_boo_line_of`]).
pub fn vdtc_rating_details_to_boo(details: &[RatingDetail]) -> (r: Vec<BOORatingDetail>)
    ensures
        r@.len() == details@.len(),
        forall|i: int| 0 <= i < details@.len() ==> is_boo_line_of(#[trigger] r@[i], details@[i]),
{
    let mut r: Vec<BOORatingDetail> = Vec::new();
    let mut k: usize = 0;
    while k < details.len()
        invariant
            k <= details@.len(),
            r@.len() == k,
            forall|i: int| 0 <= i < k ==> is_boo_line_of(#[trigger] r@[i], details@[i]),
        decreases details@.len() - k,
    {
        let b = boo_line(&details[k]);
        r.push(b);
        k = k + 1;
    }
    r
}

/// The stored fee row of a rating line and the line as kept with the record agree on what the
/// line charges: operator, stations from and to, amount, vehicle type, price and owner ids;
/// both drop a blank subscription.
pub proof fn law_fee_row_matches_kept_line(t: TransportTransStageTcd, b: BOORatingDetail, rd: RatingDetail, transport_trans_id: i64,
    etdr_ticket_type: i32, checkin_datetime: Option<String>)
    requires
        is_tcd_of_line(t, rd, transport_trans_id, etdr_ticket_type, checkin_datetime),
        is_boo_line_of(b, rd),
    ensures
        t.boo == b.boo as i64,
        t.toll_a_id == Some(b.toll_a_id as i64),
        t.toll_b_id == Some(b.toll_b_id as i64),
        t.price_amount == Some(b.price_amount as i64),
        t.vehicle_type == Some(b.vehicle_type as i64),
        t.price_id == b.price_id,
        t.stage_id == b.stage_id,
        (t.subscription_id is None) == (b.subscription_id is None),
        t.transport_trans_id == transport_trans_id,
{
}

/// The summary row of a checkout without fee lines charges the whole amount from the entry
/// station to the exit station, under operator 3.
pub proof fn law_summary_row_spans_trip(t: TransportTransStageTcd, transport_trans_id: i64, station_in: i32, station_out: i32,
    etdr_ticket_type: i32, etdr_price_ticket_type: i32, trans_amount: i32, vehicle_type: Seq<char>, checkin_datetime: Option<String>)
    requires
        is_summary_tcd(t, transport_trans_id, station_in, station_out, etdr_ticket_type, etdr_price_ticket_type, trans_amount,
            vehicle_type, checkin_datetime),
    ensures
        t.toll_a_id == Some(station_in as i64),
        t.toll_b_id == Some(station_out as i64),
        t.price_amount == Some(trans_amount as i64),
        t.boo == 3,
        t.transport_trans_id == transport_trans_id,
{
}

} // verus!
