//! Entry transaction records built at checkin: from a front-end checkin with the operator's
//! vehicle and reservation replies, or, for the back-end's own lanes, from the checkin alone.

use vstd::prelude::*;
use crate::bect_messages::{CHECKIN_RESERVE_BOO_RESP, QUERY_VEHICLE_BOO_RESP};
use crate::checkin_rules::{ticket_type_code, ticket_type_str_to_i32};
use crate::clock::timestamp_ms;
use crate::etdr_types::ETDR;
use crate::transport_stage::text_of;
use crate::numtext::{decimal_text, i32_to_string, i64_to_string};
use crate::text::trim_seq;
use crate::tcoc_messages::FE_CHECKIN;

verus! {

/// A string holding the text of `s`.
pub fn text(s: &str) -> (r: String)
    ensures
        r@ == s@,
{
    String::from_str(s)
}

/// What a record built at checkin from `fe`, the reservation outcome (`status`,
/// `ref_trans_id`), the vehicle reply `q` and ticket `ticket_id` at time `now` holds, field by
/// field, but for its front-end transaction (see [`checkin_fe_trans_id`]).
pub open spec fn is_checkin_record(e: ETDR, fe: FE_CHECKIN, status: i32, ref_trans_id: i64, q: QUERY_VEHICLE_BOO_RESP, ticket_id: i64, now: i64) -> bool {
    &&& e.time_update == now
    &&& e.sub_id == 0
    &&& e.etag_id@ == fe.etag@
    &&& e.etag_key is None
    &&& e.etag_number@ == fe.etag@
    &&& e.account_id == 0
    &&& e.vehicle_id == 0
    &&& e.status == status
    &&& e.hash_value@ == fe.hash_value@
    &&& e.vehicle_type@ == decimal_text(q.vehicle_type as int)
    &&& e.vehicle_type_ext1@.len() == 0
    &&& e.vehicle_type_ext2@.len() == 0
    &&& e.vehicle_type_ext3@.len() == 0
    &&& e.vehicle_type_ext4@.len() == 0
    &&& e.vehicle_type_ext5@.len() == 0
    &&& e.vehicle_type_ext6@.len() == 0
    &&& e.vehicle_type_ext7@.len() == 0
    &&& e.vehicle_type_ext8@.len() == 0
    &&& e.vehicle_type_ext9@.len() == 0
    &&& e.vehicle_type_ext10@.len() == 0
    &&& e.vehicle_type_profile@ == "STD"@
    &&& e.plate@ == q.plate@
    &&& e.plate_status == 0
    &&& e.seat_num == Some(q.seat)
    &&& e.weight == 0
    &&& e.weight_goods == Some(q.weight_goods)
    &&& e.weight_all == Some(q.weight_all)
    &&& e.register_vehicle_type@ == q.register_vehicle_type@
    &&& e.vehicle_length == 0
    &&& e.sub_status@.len() == 0
    &&& e.etag_status@.len() == 0
    &&& e.auto_extend@.len() == 0
    &&& e.price_type@.len() == 0
    &&& e.start_date@.len() == 0
    &&& e.request_id == fe.request_id
    &&& e.ticket_id == ticket_id
    &&& e.ref_trans_id == ref_trans_id
    &&& e.command_id == fe.command_id
    &&& e.t_id@ == fe.tid@
    &&& e.ticket_type == ticket_type_code(trim_seq(q.ticket_type@))
    &&& e.price_ticket_type == 0
    &&& e.price == 0
    &&& e.price_id is None
    &&& e.commit_amount == 0
    &&& e.reason_id == 0
    &&& e.image_count == 0
    &&& e.station_id == fe.station
    &&& e.station_type == 1
    &&& e.lane_id == fe.lane
    &&& e.toll_out == 0
    &&& e.lane_out == 0
    &&& e.ref_station_id is None
    &&& e.ref_lane_id is None
    &&& e.time_route_checkin == now
    &&& e.time_route_checkin_commit == 0
    &&& e.time_route_checkout == 0
    &&& e.time_station_checkin == now
    &&& e.checkin_datetime == now
    &&& e.checkin_commit_datetime == 0
    &&& e.checkout_datetime == 0
    &&& e.checkout_commit_datetime == 0
    &&& e.boo_ticket_id == ref_trans_id
    &&& e.boo_trans_amount == 0
    &&& e.boo_trans_datetime == Some(now)
    &&& e.boo_lane_type matches Some(s) && s@ == "I"@
    &&& e.boo_toll_type matches Some(s) && s@ == "C"@
    &&& e.boo_ticket_type matches Some(s) && s@ == q.ticket_type@
    &&& e.boo_subscription_ids is None
    &&& e.charge_in is None
    &&& e.sub_charge_in is None
    &&& e.charge_in_status is None
    &&& e.charge_trans_id is None
    &&& e.charge_datetime is None
    &&& e.charge_in104 is None
    &&& e.etdr_dual is None
    &&& e.chd_type is None
    &&& e.chd_ref_id is None
    &&& e.chd_reason is None
    &&& e.trans_stage_details@.len() == 0
    &&& e.rating_details@.len() == 0
    &&& e.transition_close is None
    &&& e.toll_turning_time_code is None
    &&& e.check == 0
    &&& e.log_request is None
    &&& e.info_roll_back is None
    &&& e.free_turning == false
    &&& e.enough_min_balance == (q.min_balance_status == 0)
    &&& e.rating_type matches Some(s) && s@ == "E"@
    &&& e.ticket_in_id == Some(ticket_id)
    &&& e.ticket_eTag_id is None
    &&& e.ticket_out_id is None
    &&& e.hub_id is None
    &&& e.checkin_from_sync == false
    &&& e.event is None
    &&& e.db_saved == false
    &&& e.db_save_retry_count == 0
    &&& e.sync_status == 0
}

/// The front-end transaction of a checkin record: the request's decimal text on the second
/// operator path (`keeps_request`), none on the first.
pub open spec fn checkin_fe_trans_id(e: ETDR, fe: FE_CHECKIN, keeps_request: bool) -> bool {
    if keeps_request {
        e.fe_trans_id matches Some(s) && s@ == decimal_text(fe.request_id as int)
    } else {
        e.fe_trans_id is None
    }
}

fn checkin_record(fe: &FE_CHECKIN, status: i32, ref_trans_id: i64, q: &QUERY_VEHICLE_BOO_RESP, ticket_id: i64, now: i64, keeps_request: bool) -> (e: ETDR)
    ensures
        is_checkin_record(e, *fe, status, ref_trans_id, *q, ticket_id, now),
        checkin_fe_trans_id(e, *fe, keeps_request),
{
    ETDR {
        time_update: now,
        sub_id: 0,
        etag_id: fe.etag.clone(),
        etag_key: None,
        etag_number: fe.etag.clone(),
        account_id: 0,
        vehicle_id: 0,
        status: status,
        hash_value: fe.hash_value.clone(),
        vehicle_type: i32_to_string(q.vehicle_type),
        vehicle_type_ext1: String::new(),
        vehicle_type_ext2: String::new(),
        vehicle_type_ext3: String::new(),
        vehicle_type_ext4: String::new(),
        vehicle_type_ext5: String::new(),
        vehicle_type_ext6: String::new(),
        vehicle_type_ext7: String::new(),
        vehicle_type_ext8: String::new(),
        vehicle_type_ext9: String::new(),
        vehicle_type_ext10: String::new(),
        vehicle_type_profile: text("STD"),
        plate: q.plate.clone(),
        plate_status: 0,
        seat_num: Some(q.seat),
        weight: 0,
        weight_goods: Some(q.weight_goods),
        weight_all: Some(q.weight_all),
        register_vehicle_type: q.register_vehicle_type.clone(),
        vehicle_length: 0,
        sub_status: String::new(),
        etag_status: String::new(),
        auto_extend: String::new(),
        price_type: String::new(),
        start_date: String::new(),
        request_id: fe.request_id,
        ticket_id: ticket_id,
        ref_trans_id: ref_trans_id,
        command_id: fe.command_id,
        t_id: fe.tid.clone(),
        ticket_type: ticket_type_str_to_i32(q.ticket_type.as_str()),
        price_ticket_type: 0,
        price: 0,
        price_id: None,
        commit_amount: 0,
        reason_id: 0,
        image_count: 0,
        station_id: fe.station,
        station_type: 1,
        lane_id: fe.lane,
        toll_out: 0,
        lane_out: 0,
        ref_station_id: None,
        ref_lane_id: None,
        time_route_checkin: now,
        time_route_checkin_commit: 0,
        time_route_checkout: 0,
        time_station_checkin: now,
        checkin_datetime: now,
        checkin_commit_datetime: 0,
        checkout_datetime: 0,
        checkout_commit_datetime: 0,
        boo_ticket_id: ref_trans_id,
        boo_trans_amount: 0,
        boo_trans_datetime: Some(now),
        boo_lane_type: Some(text("I")),
        boo_toll_type: Some(text("C")),
        boo_ticket_type: Some(q.ticket_type.clone()),
        boo_subscription_ids: None,
        charge_in: None,
        sub_charge_in: None,
        charge_in_status: None,
        charge_trans_id: None,
        charge_datetime: None,
        charge_in104: None,
        etdr_dual: None,
        chd_type: None,
        chd_ref_id: None,
        chd_reason: None,
        trans_stage_details: Vec::new(),
        rating_details: Vec::new(),
        transition_close: None,
        toll_turning_time_code: None,
        check: 0,
        log_request: None,
        info_roll_back: None,
        free_turning: false,
        enough_min_balance: q.min_balance_status == 0,
        rating_type: Some(text("E")),
        fe_trans_id: if keeps_request { Some(i64_to_string(fe.request_id)) } else { None },
        ticket_in_id: Some(ticket_id),
        ticket_eTag_id: None,
        ticket_out_id: None,
        hub_id: None,
        checkin_from_sync: false,
        event: None,
        db_saved: false,
        db_save_retry_count: 0,
        sync_status: 0,
    }
}

/// `now` modulo one million, with the sign of `now` (Rust's `%`).
pub open spec fn rem_million(now: i64) -> int {
    if now >= 0 {
        (now as int) % 1_000_000
    } else {
        -((-(now as int)) % 1_000_000)
    }
}

/// The reference transaction of a back-end checkin: the request id in millions plus the last
/// six digits of the checkin time.
pub open spec fn bect_ref_trans_id(request_id: i64, now: i64) -> int {
    request_id * 1_000_000 + rem_million(now)
}

/// The reference transaction of a back-end checkin (see [`bect_ref_trans_id`]).
pub fn compute_bect_ref_trans_id(request_id: i64, now: i64) -> (r: i64)
    requires
        i64::MIN <= bect_ref_trans_id(request_id, now) <= i64::MAX,
    ensures
        r == bect_ref_trans_id(request_id, now),
{
    let n: i128 = now as i128;
    let rem: i128 = if n >= 0 { n % 1_000_000 } else { -((-n) % 1_000_000) };
    let x: i128 = (request_id as i128) * 1_000_000 + rem;
    x as i64
}

/// What a record built for a back-end checkin from `fe` at time `now` holds, field by field;
/// its ticket and reference transaction are `ref_trans_id`.
pub open spec fn is_bect_checkin_record(e: ETDR, fe: FE_CHECKIN, ref_trans_id: i64, now: i64) -> bool {
    &&& e.time_update == now
    &&& e.sub_id == 0
    &&& e.etag_id@ == fe.etag@
    &&& e.etag_key is None
    &&& e.etag_number@ == fe.etag@
    &&& e.account_id == 0
    &&& e.vehicle_id == 0
    &&& e.status == 0
    &&& e.hash_value@ == fe.hash_value@
    &&& e.vehicle_type@ == "1"@
    &&& e.vehicle_type_ext1@.len() == 0
    &&& e.vehicle_type_ext2@.len() == 0
    &&& e.vehicle_type_ext3@.len() == 0
    &&& e.vehicle_type_ext4@.len() == 0
    &&& e.vehicle_type_ext5@.len() == 0
    &&& e.vehicle_type_ext6@.len() == 0
    &&& e.vehicle_type_ext7@.len() == 0
    &&& e.vehicle_type_ext8@.len() == 0
    &&& e.vehicle_type_ext9@.len() == 0
    &&& e.vehicle_type_ext10@.len() == 0
    &&& e.vehicle_type_profile@ == "STD"@
    &&& e.plate@ == fe.plate@
    &&& e.plate_status == 0
    &&& e.seat_num is None
    &&& e.weight == 0
    &&& e.weight_goods is None
    &&& e.weight_all is None
    &&& e.register_vehicle_type@.len() == 0
    &&& e.vehicle_length == 0
    &&& e.sub_status@.len() == 0
    &&& e.etag_status@.len() == 0
    &&& e.auto_extend@.len() == 0
    &&& e.price_type@.len() == 0
    &&& e.start_date@.len() == 0
    &&& e.request_id == fe.request_id
    &&& e.ticket_id == ref_trans_id
    &&& e.ref_trans_id == ref_trans_id
    &&& e.command_id == fe.command_id
    &&& e.t_id@ == fe.tid@
    &&& e.ticket_type == 1
    &&& e.price_ticket_type == 1
    &&& e.price == 0
    &&& e.price_id is None
    &&& e.commit_amount == 0
    &&& e.reason_id == 0
    &&& e.image_count == 0
    &&& e.station_id == fe.station
    &&& e.station_type == 1
    &&& e.lane_id == fe.lane
    &&& e.toll_out == 0
    &&& e.lane_out == 0
    &&& e.ref_station_id is None
    &&& e.ref_lane_id is None
    &&& e.time_route_checkin == now
    &&& e.time_route_checkin_commit == 0
    &&& e.time_route_checkout == 0
    &&& e.time_station_checkin == now
    &&& e.checkin_datetime == now
    &&& e.checkin_commit_datetime == 0
    &&& e.checkout_datetime == 0
    &&& e.checkout_commit_datetime == 0
    &&& e.boo_ticket_id == ref_trans_id
    &&& e.boo_trans_amount == 0
    &&& e.boo_trans_datetime == Some(now)
    &&& e.boo_lane_type is None
    &&& e.boo_toll_type is None
    &&& e.boo_ticket_type matches Some(s) && s@ == "L"@
    &&& e.boo_subscription_ids is None
    &&& e.charge_in is None
    &&& e.sub_charge_in is None
    &&& e.charge_in_status is None
    &&& e.charge_trans_id is None
    &&& e.charge_datetime is None
    &&& e.charge_in104 is None
    &&& e.etdr_dual is None
    &&& e.chd_type is None
    &&& e.chd_ref_id is None
    &&& e.chd_reason is None
    &&& e.trans_stage_details@.len() == 0
    &&& e.rating_details@.len() == 0
    &&& e.transition_close is None
    &&& e.toll_turning_time_code is None
    &&& e.check == 0
    &&& e.log_request is None
    &&& e.info_roll_back is None
    &&& e.free_turning == false
    &&& e.enough_min_balance == true
    &&& e.rating_type matches Some(s) && s@ == "E"@
    &&& e.fe_trans_id matches Some(s) && s@ == decimal_text(fe.request_id as int)
    &&& e.ticket_in_id == Some(ref_trans_id)
    &&& e.ticket_eTag_id is None
    &&& e.ticket_out_id is None
    &&& e.hub_id is None
    &&& e.checkin_from_sync == false
    &&& e.event is None
    &&& e.db_saved == false
    &&& e.db_save_retry_count == 0
    &&& e.sync_status == 0
}

fn bect_checkin_record(fe: &FE_CHECKIN, ref_trans_id: i64, now: i64) -> (e: ETDR)
    ensures
        is_bect_checkin_record(e, *fe, ref_trans_id, now),
{
    ETDR {
        time_update: now,
        sub_id: 0,
        etag_id: fe.etag.clone(),
        etag_key: None,
        etag_number: fe.etag.clone(),
        account_id: 0,
        vehicle_id: 0,
        status: 0,
        hash_value: fe.hash_value.clone(),
        vehicle_type: text("1"),
        vehicle_type_ext1: String::new(),
        vehicle_type_ext2: String::new(),
        vehicle_type_ext3: String::new(),
        vehicle_type_ext4: String::new(),
        vehicle_type_ext5: String::new(),
        vehicle_type_ext6: String::new(),
        vehicle_type_ext7: String::new(),
        vehicle_type_ext8: String::new(),
        vehicle_type_ext9: String::new(),
        vehicle_type_ext10: String::new(),
        vehicle_type_profile: text("STD"),
        plate: fe.plate.clone(),
        plate_status: 0,
        seat_num: None,
        weight: 0,
        weight_goods: None,
        weight_all: None,
        register_vehicle_type: String::new(),
        vehicle_length: 0,
        sub_status: String::new(),
        etag_status: String::new(),
        auto_extend: String::new(),
        price_type: String::new(),
        start_date: String::new(),
        request_id: fe.request_id,
        ticket_id: ref_trans_id,
        ref_trans_id: ref_trans_id,
        command_id: fe.command_id,
        t_id: fe.tid.clone(),
        ticket_type: 1,
        price_ticket_type: 1,
        price: 0,
        price_id: None,
        commit_amount: 0,
        reason_id: 0,
        image_count: 0,
        station_id: fe.station,
        station_type: 1,
        lane_id: fe.lane,
        toll_out: 0,
        lane_out: 0,
        ref_station_id: None,
        ref_lane_id: None,
        time_route_checkin: now,
        time_route_checkin_commit: 0,
        time_route_checkout: 0,
        time_station_checkin: now,
        checkin_datetime: now,
        checkin_commit_datetime: 0,
        checkout_datetime: 0,
        checkout_commit_datetime: 0,
        boo_ticket_id: ref_trans_id,
        boo_trans_amount: 0,
        boo_trans_datetime: Some(now),
        boo_lane_type: None,
        boo_toll_type: None,
        boo_ticket_type: Some(text("L")),
        boo_subscription_ids: None,
        charge_in: None,
        sub_charge_in: None,
        charge_in_status: None,
        charge_trans_id: None,
        charge_datetime: None,
        charge_in104: None,
        etdr_dual: None,
        chd_type: None,
        chd_ref_id: None,
        chd_reason: None,
        trans_stage_details: Vec::new(),
        rating_details: Vec::new(),
        transition_close: None,
        toll_turning_time_code: None,
        check: 0,
        log_request: None,
        info_roll_back: None,
        free_turning: false,
        enough_min_balance: true,
        rating_type: Some(text("E")),
        fe_trans_id: Some(i64_to_string(fe.request_id)),
        ticket_in_id: Some(ref_trans_id),
        ticket_eTag_id: None,
        ticket_out_id: None,
        hub_id: None,
        checkin_from_sync: false,
        event: None,
        db_saved: false,
        db_save_retry_count: 0,
        sync_status: 0,
    }
}

impl ETDR {
    /// The record of a checkin on the operator path, built at `now` (see [`is_checkin_record`]).
    pub fn from_checkin_vetc_at(fe_checkin: &FE_CHECKIN, vetc_checkin_resp: &CHECKIN_RESERVE_BOO_RESP, vetc_query_resp: &QUERY_VEHICLE_BOO_RESP, ticket_id: i64, now: i64) -> (r: ETDR)
        ensures
            is_checkin_record(r, *fe_checkin, vetc_checkin_resp.status, vetc_checkin_resp.ref_trans_id, *vetc_query_resp, ticket_id, now),
            r.fe_trans_id is None,
    {
        checkin_record(fe_checkin, vetc_checkin_resp.status, vetc_checkin_resp.ref_trans_id, vetc_query_resp, ticket_id, now, false)
    }

    /// The record of a checkin on the operator path, built now.
    pub fn from_checkin_vetc(fe_checkin: &FE_CHECKIN, vetc_checkin_resp: &CHECKIN_RESERVE_BOO_RESP, vetc_query_resp: &QUERY_VEHICLE_BOO_RESP, ticket_id: i64) -> (r: ETDR)
        ensures
            exists|now: i64| is_checkin_record(r, *fe_checkin, vetc_checkin_resp.status, vetc_checkin_resp.ref_trans_id, *vetc_query_resp, ticket_id, now),
            r.fe_trans_id is None,
    {
        let now = timestamp_ms();
        Self::from_checkin_vetc_at(fe_checkin, vetc_checkin_resp, vetc_query_resp, ticket_id, now)
    }

    /// The record of a checkin on the second operator path, built at `now`; it holds the same
    /// as on the first (see [`is_checkin_record`]), and the request's decimal text as its
    /// front-end transaction.
    pub fn from_checkin_at(fe_checkin: &FE_CHECKIN, vdtc_checkin_resp: &CHECKIN_RESERVE_BOO_RESP, vdtc_query_resp: &QUERY_VEHICLE_BOO_RESP, ticket_id: i64, now: i64) -> (r: ETDR)
        ensures
            is_checkin_record(r, *fe_checkin, vdtc_checkin_resp.status, vdtc_checkin_resp.ref_trans_id, *vdtc_query_resp, ticket_id, now),
            r.fe_trans_id matches Some(s) && s@ == decimal_text(fe_checkin.request_id as int),
    {
        checkin_record(fe_checkin, vdtc_checkin_resp.status, vdtc_checkin_resp.ref_trans_id, vdtc_query_resp, ticket_id, now, true)
    }

    /// The record of a checkin on the second operator path, built now.
    pub fn from_checkin(fe_checkin: &FE_CHECKIN, vdtc_checkin_resp: &CHECKIN_RESERVE_BOO_RESP, vdtc_query_resp: &QUERY_VEHICLE_BOO_RESP, ticket_id: i64) -> (r: ETDR)
        ensures
            exists|now: i64| is_checkin_record(r, *fe_checkin, vdtc_checkin_resp.status, vdtc_checkin_resp.ref_trans_id, *vdtc_query_resp, ticket_id, now),
            r.fe_trans_id matches Some(s) && s@ == decimal_text(fe_checkin.request_id as int),
    {
        let now = timestamp_ms();
        Self::from_checkin_at(fe_checkin, vdtc_checkin_resp, vdtc_query_resp, ticket_id, now)
    }

    /// The record of a back-end checkin built at `now` (see [`is_bect_checkin_record`]); its
    /// ticket is [`bect_ref_trans_id`], which must fit in an `i64`.
    pub fn from_checkin_bect_at(fe_checkin: &FE_CHECKIN, now: i64) -> (r: ETDR)
        requires
            i64::MIN <= bect_ref_trans_id(fe_checkin.request_id, now) <= i64::MAX,
        ensures
            is_bect_checkin_record(r, *fe_checkin, bect_ref_trans_id(fe_checkin.request_id, now) as i64, now),
    {
        let rt = compute_bect_ref_trans_id(fe_checkin.request_id, now);
        bect_checkin_record(fe_checkin, rt, now)
    }

    /// The record of a back-end checkin built now; `None` where its reference transaction
    /// would not fit in an `i64`.
    pub fn from_checkin_bect(fe_checkin: &FE_CHECKIN) -> (r: Option<ETDR>)
        ensures
            exists|now: i64| #![trigger bect_ref_trans_id(fe_checkin.request_id, now)] {
                &&& r is None <==> !(i64::MIN <= bect_ref_trans_id(fe_checkin.request_id, now) <= i64::MAX)
                &&& r matches Some(e) ==> is_bect_checkin_record(e, *fe_checkin, bect_ref_trans_id(fe_checkin.request_id, now) as i64, now)
            },
    {
        let now = timestamp_ms();
        let n: i128 = now as i128;
        let rem: i128 = if n >= 0 { n % 1_000_000 } else { -((-n) % 1_000_000) };
        let x: i128 = (fe_checkin.request_id as i128) * 1_000_000 + rem;
        proof {
            assert(x == bect_ref_trans_id(fe_checkin.request_id, now));
        }
        if x < (i64::MIN as i128) || x > (i64::MAX as i128) {
            None
        } else {
            Some(Self::from_checkin_bect_at(fe_checkin, now))
        }
    }
}

/// The two operator checkin paths, [`ETDR::from_checkin_vetc_at`] (`e1`) and
/// [`ETDR::from_checkin_at`] (`e2`), build the same record from the same inputs at the same time,
/// field by field (texts by their characters), but for the front-end transaction, which only the
/// second sets, to the request's decimal text.
pub proof fn law_operator_paths_differ_only_in_fe_trans_id(e1: ETDR, e2: ETDR, fe: FE_CHECKIN, status: i32, ref_trans_id: i64,
    q: QUERY_VEHICLE_BOO_RESP, ticket_id: i64, now: i64)
    requires
        is_checkin_record(e1, fe, status, ref_trans_id, q, ticket_id, now),
        checkin_fe_trans_id(e1, fe, false),
        is_checkin_record(e2, fe, status, ref_trans_id, q, ticket_id, now),
        checkin_fe_trans_id(e2, fe, true),
    ensures
        e1.time_update == e2.time_update,
        e1.sub_id == e2.sub_id,
        e1.etag_id@ == e2.etag_id@,
        e1.etag_key == e2.etag_key,
        e1.etag_number@ == e2.etag_number@,
        e1.account_id == e2.account_id,
        e1.vehicle_id == e2.vehicle_id,
        e1.status == e2.status,
        e1.hash_value@ == e2.hash_value@,
        e1.vehicle_type@ == e2.vehicle_type@,
        e1.vehicle_type_ext1@ == e2.vehicle_type_ext1@,
        e1.vehicle_type_ext2@ == e2.vehicle_type_ext2@,
        e1.vehicle_type_ext3@ == e2.vehicle_type_ext3@,
        e1.vehicle_type_ext4@ == e2.vehicle_type_ext4@,
        e1.vehicle_type_ext5@ == e2.vehicle_type_ext5@,
        e1.vehicle_type_ext6@ == e2.vehicle_type_ext6@,
        e1.vehicle_type_ext7@ == e2.vehicle_type_ext7@,
        e1.vehicle_type_ext8@ == e2.vehicle_type_ext8@,
        e1.vehicle_type_ext9@ == e2.vehicle_type_ext9@,
        e1.vehicle_type_ext10@ == e2.vehicle_type_ext10@,
        e1.vehicle_type_profile@ == e2.vehicle_type_profile@,
        e1.plate@ == e2.plate@,
        e1.plate_status == e2.plate_status,
        e1.seat_num == e2.seat_num,
        e1.weight == e2.weight,
        e1.weight_goods == e2.weight_goods,
        e1.weight_all == e2.weight_all,
        e1.register_vehicle_type@ == e2.register_vehicle_type@,
        e1.vehicle_length == e2.vehicle_length,
        e1.sub_status@ == e2.sub_status@,
        e1.etag_status@ == e2.etag_status@,
        e1.auto_extend@ == e2.auto_extend@,
        e1.price_type@ == e2.price_type@,
        e1.start_date@ == e2.start_date@,
        e1.request_id == e2.request_id,
        e1.ticket_id == e2.ticket_id,
        e1.ref_trans_id == e2.ref_trans_id,
        e1.command_id == e2.command_id,
        e1.t_id@ == e2.t_id@,
        e1.ticket_type == e2.ticket_type,
        e1.price_ticket_type == e2.price_ticket_type,
        e1.price == e2.price,
        e1.price_id == e2.price_id,
        e1.commit_amount == e2.commit_amount,
        e1.reason_id == e2.reason_id,
        e1.image_count == e2.image_count,
        e1.station_id == e2.station_id,
        e1.station_type == e2.station_type,
        e1.lane_id == e2.lane_id,
        e1.toll_out == e2.toll_out,
        e1.lane_out == e2.lane_out,
        e1.ref_station_id == e2.ref_station_id,
        e1.ref_lane_id == e2.ref_lane_id,
        e1.time_route_checkin == e2.time_route_checkin,
        e1.time_route_checkin_commit == e2.time_route_checkin_commit,
        e1.time_route_checkout == e2.time_route_checkout,
        e1.time_station_checkin == e2.time_station_checkin,
        e1.checkin_datetime == e2.checkin_datetime,
        e1.checkin_commit_datetime == e2.checkin_commit_datetime,
        e1.checkout_datetime == e2.checkout_datetime,
        e1.checkout_commit_datetime == e2.checkout_commit_datetime,
        e1.boo_ticket_id == e2.boo_ticket_id,
        e1.boo_trans_amount == e2.boo_trans_amount,
        e1.boo_trans_datetime == e2.boo_trans_datetime,
        text_of(e1.boo_lane_type) == text_of(e2.boo_lane_type),
        text_of(e1.boo_toll_type) == text_of(e2.boo_toll_type),
        text_of(e1.boo_ticket_type) == text_of(e2.boo_ticket_type),
        text_of(e1.boo_subscription_ids) == text_of(e2.boo_subscription_ids),
        text_of(e1.charge_in) == text_of(e2.charge_in),
        text_of(e1.sub_charge_in) == text_of(e2.sub_charge_in),
        text_of(e1.charge_in_status) == text_of(e2.charge_in_status),
        text_of(e1.charge_trans_id) == text_of(e2.charge_trans_id),
        e1.charge_datetime == e2.charge_datetime,
        text_of(e1.charge_in104) == text_of(e2.charge_in104),
        e1.etdr_dual == e2.etdr_dual,
        text_of(e1.chd_type) == text_of(e2.chd_type),
        text_of(e1.chd_ref_id) == text_of(e2.chd_ref_id),
        text_of(e1.chd_reason) == text_of(e2.chd_reason),
        e1.trans_stage_details@ == e2.trans_stage_details@,
        e1.rating_details@ == e2.rating_details@,
        e1.transition_close == e2.transition_close,
        text_of(e1.toll_turning_time_code) == text_of(e2.toll_turning_time_code),
        e1.check == e2.check,
        text_of(e1.log_request) == text_of(e2.log_request),
        e1.info_roll_back == e2.info_roll_back,
        e1.free_turning == e2.free_turning,
        e1.enough_min_balance == e2.enough_min_balance,
        text_of(e1.rating_type) == text_of(e2.rating_type),
        e1.ticket_in_id == e2.ticket_in_id,
        e1.ticket_eTag_id == e2.ticket_eTag_id,
        e1.ticket_out_id == e2.ticket_out_id,
        e1.hub_id == e2.hub_id,
        e1.checkin_from_sync == e2.checkin_from_sync,
        e1.event == e2.event,
        e1.db_saved == e2.db_saved,
        e1.db_save_retry_count == e2.db_save_retry_count,
        e1.sync_status == e2.sync_status,
        e1.fe_trans_id is None,
        e2.fe_trans_id matches Some(s) && s@ == decimal_text(fe.request_id as int),
{
    assert(e1.trans_stage_details@ =~= e2.trans_stage_details@);
    assert(e1.rating_details@ =~= e2.rating_details@);
}

/// A record built at checkin (at a non-zero time) belongs to the lane that asked: its tag,
/// station, lane, request and ticket are the request's, its reservation outcome and plate are
/// the back-end's, and it is checked in at that time. It is an open entry: it takes the
/// entry-lane commit, is not checked out, and cannot take a checkout commit yet.
pub proof fn law_checkin_record_is_open_entry(e: ETDR, fe: FE_CHECKIN, status: i32, ref_trans_id: i64,
    q: QUERY_VEHICLE_BOO_RESP, ticket_id: i64, now: i64)
    requires
        is_checkin_record(e, fe, status, ref_trans_id, q, ticket_id, now),
        now != 0,
    ensures
        e.etag_id@ == fe.etag@,
        e.station_id == fe.station,
        e.lane_id == fe.lane,
        e.request_id == fe.request_id,
        e.t_id@ == fe.tid@,
        e.ticket_id == ticket_id,
        e.ticket_in_id == Some(ticket_id),
        e.ref_trans_id == ref_trans_id,
        e.boo_ticket_id == ref_trans_id,
        e.status == status,
        e.plate@ == q.plate@,
        e.checkin_datetime == now,
        !crate::commit_rules::checkin_commit_refused_of(e),
        crate::commit_rules::checkout_commit_refused_of(e),
        e.toll_out == 0 && e.checkout_datetime == 0,
{
}

} // verus!
