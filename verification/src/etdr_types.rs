//! The entry transaction data record (ETDR) and the rating detail it carries.
#![allow(non_snake_case)]

use vstd::prelude::*;

verus! {

/// Closed-station fee detail (no fields yet).
#[derive(Debug, Clone, Copy, Default)]
pub struct TransStageDetail {}

/// Fee line of an interconnected route, shared by the ETDR and the hub payloads.
/// `price_id`, `bot_id` and `stage_id` are kept for the database records only.
#[derive(Debug, Default)]
pub struct BOORatingDetail {
    pub boo: i32,
    pub toll_a_id: i32,
    pub toll_b_id: i32,
    pub ticket_type: String,
    pub subscription_id: Option<String>,
    pub price_ticket_type: i32,
    pub price_amount: i32,
    pub vehicle_type: i32,
    pub price_id: Option<i64>,
    pub bot_id: Option<i64>,
    pub stage_id: Option<i64>,
}

/// Closed-station transition type (no fields yet).
#[derive(Debug, Clone, Copy, Default)]
pub struct TransitionClose {}

/// Rollback information (no fields yet).
#[derive(Debug, Clone, Copy, Default)]
pub struct InfoRollBack {}

/// Hub-compatible event object (no fields yet).
#[derive(Debug, Clone, Copy, Default)]
pub struct Event {}

/// Entry transaction data record: what the system keeps of a check-in until its checkout is
/// committed. `status` is 0 on success and non-zero on error; `sync_status` is 0 while the record
/// is not yet synchronised and 1 once it is.
#[derive(Debug)]
pub struct ETDR {
    pub time_update: i64,
    pub sub_id: i32,
    pub etag_id: String,
    pub etag_key: Option<i32>,
    pub etag_number: String,
    pub account_id: i32,
    pub vehicle_id: i32,
    pub status: i32,
    pub hash_value: String,
    pub vehicle_type: String,
    pub vehicle_type_ext1: String,
    pub vehicle_type_ext2: String,
    pub vehicle_type_ext3: String,
    pub vehicle_type_ext4: String,
    pub vehicle_type_ext5: String,
    pub vehicle_type_ext6: String,
    pub vehicle_type_ext7: String,
    pub vehicle_type_ext8: String,
    pub vehicle_type_ext9: String,
    pub vehicle_type_ext10: String,
    pub vehicle_type_profile: String,
    pub plate: String,
    pub plate_status: i32,
    pub seat_num: Option<i32>,
    pub weight: i32,
    pub weight_goods: Option<i32>,
    pub weight_all: Option<i32>,
    pub register_vehicle_type: String,
    pub vehicle_length: i32,
    pub sub_status: String,
    pub etag_status: String,
    pub auto_extend: String,
    pub price_type: String,
    pub start_date: String,
    pub request_id: i64,
    pub ticket_id: i64,
    pub ref_trans_id: i64,
    pub command_id: i32,
    pub t_id: String,
    pub ticket_type: i32,
    pub price_ticket_type: i32,
    pub price: i32,
    pub price_id: Option<i32>,
    pub commit_amount: i32,
    pub reason_id: i32,
    pub image_count: i32,
    pub station_id: i32,
    pub station_type: i32,
    pub lane_id: i32,
    pub toll_out: i32,
    pub lane_out: i32,
    pub ref_station_id: Option<i32>,
    pub ref_lane_id: Option<i32>,
    pub time_route_checkin: i64,
    pub time_route_checkin_commit: i64,
    pub time_route_checkout: i64,
    pub time_station_checkin: i64,
    pub checkin_datetime: i64,
    pub checkin_commit_datetime: i64,
    pub checkout_datetime: i64,
    pub checkout_commit_datetime: i64,
    pub boo_ticket_id: i64,
    pub boo_trans_amount: i32,
    pub boo_trans_datetime: Option<i64>,
    pub boo_lane_type: Option<String>,
    pub boo_toll_type: Option<String>,
    pub boo_ticket_type: Option<String>,
    pub boo_subscription_ids: Option<String>,
    pub charge_in: Option<String>,
    pub sub_charge_in: Option<String>,
    pub charge_in_status: Option<String>,
    pub charge_trans_id: Option<String>,
    pub charge_datetime: Option<i64>,
    pub charge_in104: Option<String>,
    pub etdr_dual: Option<Box<ETDR>>,
    pub chd_type: Option<String>,
    pub chd_ref_id: Option<String>,
    pub chd_reason: Option<String>,
    pub trans_stage_details: Vec<TransStageDetail>,
    pub rating_details: Vec<BOORatingDetail>,
    pub transition_close: Option<TransitionClose>,
    pub toll_turning_time_code: Option<String>,
    pub check: i32,
    pub log_request: Option<String>,
    pub info_roll_back: Option<InfoRollBack>,
    pub free_turning: bool,
    pub enough_min_balance: bool,
    pub rating_type: Option<String>,
    pub fe_trans_id: Option<String>,
    pub ticket_in_id: Option<i64>,
    pub ticket_eTag_id: Option<i64>,
    pub ticket_out_id: Option<i64>,
    pub hub_id: Option<i64>,
    pub checkin_from_sync: bool,
    pub event: Option<Event>,
    pub db_saved: bool,
    pub db_save_retry_count: i32,
    pub sync_status: i32,
}

/// Whether `a` and `b` hold the same values field by field (lists compared by their contents).
pub open spec fn etdr_same(a: ETDR, b: ETDR) -> bool
    decreases a,
{
    &&& a.time_update == b.time_update
    &&& a.sub_id == b.sub_id
    &&& a.etag_id == b.etag_id
    &&& a.etag_key == b.etag_key
    &&& a.etag_number == b.etag_number
    &&& a.account_id == b.account_id
    &&& a.vehicle_id == b.vehicle_id
    &&& a.status == b.status
    &&& a.hash_value == b.hash_value
    &&& a.vehicle_type == b.vehicle_type
    &&& a.vehicle_type_ext1 == b.vehicle_type_ext1
    &&& a.vehicle_type_ext2 == b.vehicle_type_ext2
    &&& a.vehicle_type_ext3 == b.vehicle_type_ext3
    &&& a.vehicle_type_ext4 == b.vehicle_type_ext4
    &&& a.vehicle_type_ext5 == b.vehicle_type_ext5
    &&& a.vehicle_type_ext6 == b.vehicle_type_ext6
    &&& a.vehicle_type_ext7 == b.vehicle_type_ext7
    &&& a.vehicle_type_ext8 == b.vehicle_type_ext8
    &&& a.vehicle_type_ext9 == b.vehicle_type_ext9
    &&& a.vehicle_type_ext10 == b.vehicle_type_ext10
    &&& a.vehicle_type_profile == b.vehicle_type_profile
    &&& a.plate == b.plate
    &&& a.plate_status == b.plate_status
    &&& a.seat_num == b.seat_num
    &&& a.weight == b.weight
    &&& a.weight_goods == b.weight_goods
    &&& a.weight_all == b.weight_all
    &&& a.register_vehicle_type == b.register_vehicle_type
    &&& a.vehicle_length == b.vehicle_length
    &&& a.sub_status == b.sub_status
    &&& a.etag_status == b.etag_status
    &&& a.auto_extend == b.auto_extend
    &&& a.price_type == b.price_type
    &&& a.start_date == b.start_date
    &&& a.request_id == b.request_id
    &&& a.ticket_id == b.ticket_id
    &&& a.ref_trans_id == b.ref_trans_id
    &&& a.command_id == b.command_id
    &&& a.t_id == b.t_id
    &&& a.ticket_type == b.ticket_type
    &&& a.price_ticket_type == b.price_ticket_type
    &&& a.price == b.price
    &&& a.price_id == b.price_id
    &&& a.commit_amount == b.commit_amount
    &&& a.reason_id == b.reason_id
    &&& a.image_count == b.image_count
    &&& a.station_id == b.station_id
    &&& a.station_type == b.station_type
    &&& a.lane_id == b.lane_id
    &&& a.toll_out == b.toll_out
    &&& a.lane_out == b.lane_out
    &&& a.ref_station_id == b.ref_station_id
    &&& a.ref_lane_id == b.ref_lane_id
    &&& a.time_route_checkin == b.time_route_checkin
    &&& a.time_route_checkin_commit == b.time_route_checkin_commit
    &&& a.time_route_checkout == b.time_route_checkout
    &&& a.time_station_checkin == b.time_station_checkin
    &&& a.checkin_datetime == b.checkin_datetime
    &&& a.checkin_commit_datetime == b.checkin_commit_datetime
    &&& a.checkout_datetime == b.checkout_datetime
    &&& a.checkout_commit_datetime == b.checkout_commit_datetime
    &&& a.boo_ticket_id == b.boo_ticket_id
    &&& a.boo_trans_amount == b.boo_trans_amount
    &&& a.boo_trans_datetime == b.boo_trans_datetime
    &&& a.boo_lane_type == b.boo_lane_type
    &&& a.boo_toll_type == b.boo_toll_type
    &&& a.boo_ticket_type == b.boo_ticket_type
    &&& a.boo_subscription_ids == b.boo_subscription_ids
    &&& a.charge_in == b.charge_in
    &&& a.sub_charge_in == b.sub_charge_in
    &&& a.charge_in_status == b.charge_in_status
    &&& a.charge_trans_id == b.charge_trans_id
    &&& a.charge_datetime == b.charge_datetime
    &&& a.charge_in104 == b.charge_in104
    &&& match (a.etdr_dual, b.etdr_dual) {
        (Some(x), Some(y)) => etdr_same(*x, *y),
        (None, None) => true,
        _ => false,
    }
    &&& a.chd_type == b.chd_type
    &&& a.chd_ref_id == b.chd_ref_id
    &&& a.chd_reason == b.chd_reason
    &&& a.trans_stage_details@ == b.trans_stage_details@
    &&& a.rating_details@ == b.rating_details@
    &&& a.transition_close == b.transition_close
    &&& a.toll_turning_time_code == b.toll_turning_time_code
    &&& a.check == b.check
    &&& a.log_request == b.log_request
    &&& a.info_roll_back == b.info_roll_back
    &&& a.free_turning == b.free_turning
    &&& a.enough_min_balance == b.enough_min_balance
    &&& a.rating_type == b.rating_type
    &&& a.fe_trans_id == b.fe_trans_id
    &&& a.ticket_in_id == b.ticket_in_id
    &&& a.ticket_eTag_id == b.ticket_eTag_id
    &&& a.ticket_out_id == b.ticket_out_id
    &&& a.hub_id == b.hub_id
    &&& a.checkin_from_sync == b.checkin_from_sync
    &&& a.event == b.event
    &&& a.db_saved == b.db_saved
    &&& a.db_save_retry_count == b.db_save_retry_count
    &&& a.sync_status == b.sync_status
}

/// A copy of an optional string, equal to it.
pub fn clone_opt_string(s: &Option<String>) -> (r: Option<String>)
    ensures
        r == *s,
{
    match s {
        Some(x) => Some(x.clone()),
        None => None,
    }
}

impl Clone for BOORatingDetail {
    fn clone(&self) -> (r: Self)
        ensures
            r == *self,
    {
        BOORatingDetail {
            boo: self.boo,
            toll_a_id: self.toll_a_id,
            toll_b_id: self.toll_b_id,
            ticket_type: self.ticket_type.clone(),
            subscription_id: clone_opt_string(&self.subscription_id),
            price_ticket_type: self.price_ticket_type,
            price_amount: self.price_amount,
            vehicle_type: self.vehicle_type,
            price_id: self.price_id,
            bot_id: self.bot_id,
            stage_id: self.stage_id,
        }
    }
}

/// A copy of a list of rating details, equal to it.
pub fn clone_rating_details(v: &Vec<BOORatingDetail>) -> (r: Vec<BOORatingDetail>)
    ensures
        r@ == v@,
{
    let mut r: Vec<BOORatingDetail> = Vec::new();
    let mut k: usize = 0;
    while k < v.len()
        invariant
            k <= v@.len(),
            r@ == v@.subrange(0, k as int),
        decreases v@.len() - k,
    {
        r.push(v[k].clone());
        proof {
            assert(v@.subrange(0, k + 1) =~= v@.subrange(0, k as int).push(v@[k as int]));
        }
        k = k + 1;
    }
    assert(v@.subrange(0, v@.len() as int) =~= v@);
    r
}

/// A copy of a list of closed-station details, equal to it.
pub fn clone_stage_details(v: &Vec<TransStageDetail>) -> (r: Vec<TransStageDetail>)
    ensures
        r@ == v@,
{
    let mut r: Vec<TransStageDetail> = Vec::new();
    let mut k: usize = 0;
    while k < v.len()
        invariant
            k <= v@.len(),
            r@ == v@.subrange(0, k as int),
        decreases v@.len() - k,
    {
        r.push(v[k]);
        proof {
            assert(v@.subrange(0, k + 1) =~= v@.subrange(0, k as int).push(v@[k as int]));
        }
        k = k + 1;
    }
    assert(v@.subrange(0, v@.len() as int) =~= v@);
    r
}

fn clone_dual(d: &Option<Box<ETDR>>) -> (r: Option<Box<ETDR>>)
    ensures
        match (r, *d) {
            (Some(x), Some(y)) => etdr_same(*x, *y),
            (None, None) => true,
            _ => false,
        },
    decreases d,
{
    match d {
        Some(b) => Some(Box::new(clone_etdr(&**b))),
        None => None,
    }
}

/// A copy of an ETDR, equal to it.
pub fn clone_etdr(e: &ETDR) -> (r: ETDR)
    ensures
        etdr_same(r, *e),
    decreases e,
{
    ETDR {
        time_update: e.time_update,
        sub_id: e.sub_id,
        etag_id: e.etag_id.clone(),
        etag_key: e.etag_key,
        etag_number: e.etag_number.clone(),
        account_id: e.account_id,
        vehicle_id: e.vehicle_id,
        status: e.status,
        hash_value: e.hash_value.clone(),
        vehicle_type: e.vehicle_type.clone(),
        vehicle_type_ext1: e.vehicle_type_ext1.clone(),
        vehicle_type_ext2: e.vehicle_type_ext2.clone(),
        vehicle_type_ext3: e.vehicle_type_ext3.clone(),
        vehicle_type_ext4: e.vehicle_type_ext4.clone(),
        vehicle_type_ext5: e.vehicle_type_ext5.clone(),
        vehicle_type_ext6: e.vehicle_type_ext6.clone(),
        vehicle_type_ext7: e.vehicle_type_ext7.clone(),
        vehicle_type_ext8: e.vehicle_type_ext8.clone(),
        vehicle_type_ext9: e.vehicle_type_ext9.clone(),
        vehicle_type_ext10: e.vehicle_type_ext10.clone(),
        vehicle_type_profile: e.vehicle_type_profile.clone(),
        plate: e.plate.clone(),
        plate_status: e.plate_status,
        seat_num: e.seat_num,
        weight: e.weight,
        weight_goods: e.weight_goods,
        weight_all: e.weight_all,
        register_vehicle_type: e.register_vehicle_type.clone(),
        vehicle_length: e.vehicle_length,
        sub_status: e.sub_status.clone(),
        etag_status: e.etag_status.clone(),
        auto_extend: e.auto_extend.clone(),
        price_type: e.price_type.clone(),
        start_date: e.start_date.clone(),
        request_id: e.request_id,
        ticket_id: e.ticket_id,
        ref_trans_id: e.ref_trans_id,
        command_id: e.command_id,
        t_id: e.t_id.clone(),
        ticket_type: e.ticket_type,
        price_ticket_type: e.price_ticket_type,
        price: e.price,
        price_id: e.price_id,
        commit_amount: e.commit_amount,
        reason_id: e.reason_id,
        image_count: e.image_count,
        station_id: e.station_id,
        station_type: e.station_type,
        lane_id: e.lane_id,
        toll_out: e.toll_out,
        lane_out: e.lane_out,
        ref_station_id: e.ref_station_id,
        ref_lane_id: e.ref_lane_id,
        time_route_checkin: e.time_route_checkin,
        time_route_checkin_commit: e.time_route_checkin_commit,
        time_route_checkout: e.time_route_checkout,
        time_station_checkin: e.time_station_checkin,
        checkin_datetime: e.checkin_datetime,
        checkin_commit_datetime: e.checkin_commit_datetime,
        checkout_datetime: e.checkout_datetime,
        checkout_commit_datetime: e.checkout_commit_datetime,
        boo_ticket_id: e.boo_ticket_id,
        boo_trans_amount: e.boo_trans_amount,
        boo_trans_datetime: e.boo_trans_datetime,
        boo_lane_type: clone_opt_string(&e.boo_lane_type),
        boo_toll_type: clone_opt_string(&e.boo_toll_type),
        boo_ticket_type: clone_opt_string(&e.boo_ticket_type),
        boo_subscription_ids: clone_opt_string(&e.boo_subscription_ids),
        charge_in: clone_opt_string(&e.charge_in),
        sub_charge_in: clone_opt_string(&e.sub_charge_in),
        charge_in_status: clone_opt_string(&e.charge_in_status),
        charge_trans_id: clone_opt_string(&e.charge_trans_id),
        charge_datetime: e.charge_datetime,
        charge_in104: clone_opt_string(&e.charge_in104),
        etdr_dual: clone_dual(&e.etdr_dual),
        chd_type: clone_opt_string(&e.chd_type),
        chd_ref_id: clone_opt_string(&e.chd_ref_id),
        chd_reason: clone_opt_string(&e.chd_reason),
        trans_stage_details: clone_stage_details(&e.trans_stage_details),
        rating_details: clone_rating_details(&e.rating_details),
        transition_close: e.transition_close,
        toll_turning_time_code: clone_opt_string(&e.toll_turning_time_code),
        check: e.check,
        log_request: clone_opt_string(&e.log_request),
        info_roll_back: e.info_roll_back,
        free_turning: e.free_turning,
        enough_min_balance: e.enough_min_balance,
        rating_type: clone_opt_string(&e.rating_type),
        fe_trans_id: clone_opt_string(&e.fe_trans_id),
        ticket_in_id: e.ticket_in_id,
        ticket_eTag_id: e.ticket_eTag_id,
        ticket_out_id: e.ticket_out_id,
        hub_id: e.hub_id,
        checkin_from_sync: e.checkin_from_sync,
        event: e.event,
        db_saved: e.db_saved,
        db_save_retry_count: e.db_save_retry_count,
        sync_status: e.sync_status,
    }
}

impl Clone for ETDR {
    fn clone(&self) -> (r: Self)
        ensures
            etdr_same(r, *self),
    {
        clone_etdr(self)
    }
}

/// Whether `e` holds the default values: zero numbers, `false` flags, empty text and lists and
/// no optional values.
pub open spec fn is_default_etdr(e: ETDR) -> bool {
    &&& e.time_update == 0
    &&& e.sub_id == 0
    &&& e.etag_id@.len() == 0
    &&& e.etag_key is None
    &&& e.etag_number@.len() == 0
    &&& e.account_id == 0
    &&& e.vehicle_id == 0
    &&& e.status == 0
    &&& e.hash_value@.len() == 0
    &&& e.vehicle_type@.len() == 0
    &&& e.vehicle_type_ext1@.len() == 0
    &&& e.vehicle_type_ext2@.len() == 0
    &&& e.vehicle_type_ext3@.len() == 0
    &&& e.vehicle_type_ext4@.len() == 0
    &&& e.vehicle_type_ext5@.len() == 0
    &&& e.vehicle_type_ext6@.len() == 0
    &&& e.vehicle_type_ext7@.len() == 0
    &&& e.vehicle_type_ext8@.len() == 0
    &&& e.vehicle_type_ext9@.len() == 0
    &&& e.vehicle_type_ext10@.len() == 0
    &&& e.vehicle_type_profile@.len() == 0
    &&& e.plate@.len() == 0
    &&& e.plate_status == 0
    &&& e.seat_num is None
    &&& e.weight == 0
    &&& e.weight_goods is None
    &&& e.weight_all is None
    &&& e.register_vehicle_type@.len() == 0
    &&& e.vehicle_length == 0
    &&& e.sub_status@.len() == 0
    &&& e.etag_status@.len() == 0
    &&& e.auto_extend@.len() == 0
    &&& e.price_type@.len() == 0
    &&& e.start_date@.len() == 0
    &&& e.request_id == 0
    &&& e.ticket_id == 0
    &&& e.ref_trans_id == 0
    &&& e.command_id == 0
    &&& e.t_id@.len() == 0
    &&& e.ticket_type == 0
    &&& e.price_ticket_type == 0
    &&& e.price == 0
    &&& e.price_id is None
    &&& e.commit_amount == 0
    &&& e.reason_id == 0
    &&& e.image_count == 0
    &&& e.station_id == 0
    &&& e.station_type == 0
    &&& e.lane_id == 0
    &&& e.toll_out == 0
    &&& e.lane_out == 0
    &&& e.ref_station_id is None
    &&& e.ref_lane_id is None
    &&& e.time_route_checkin == 0
    &&& e.time_route_checkin_commit == 0
    &&& e.time_route_checkout == 0
    &&& e.time_station_checkin == 0
    &&& e.checkin_datetime == 0
    &&& e.checkin_commit_datetime == 0
    &&& e.checkout_datetime == 0
    &&& e.checkout_commit_datetime == 0
    &&& e.boo_ticket_id == 0
    &&& e.boo_trans_amount == 0
    &&& e.boo_trans_datetime is None
    &&& e.boo_lane_type is None
    &&& e.boo_toll_type is None
    &&& e.boo_ticket_type is None
    &&& e.boo_subscription_ids is None
    &&& e.charge_in is None
    &&& e.sub_charge_in is None
    &&& e.charge_in_status is None
    &&& e.charge_trans_id is None
    &&& e.charge_datetime is None
    &&& e.charge_in104 is None
    &&& e.etdr_dual is None
    &&& e.chd_type is None
    &&& e.chd_ref_id is None
    &&& e.chd_reason is None
    &&& e.trans_stage_details@.len() == 0
    &&& e.rating_details@.len() == 0
    &&& e.transition_close is None
    &&& e.toll_turning_time_code is None
    &&& e.check == 0
    &&& e.log_request is None
    &&& e.info_roll_back is None
    &&& e.free_turning == false
    &&& e.enough_min_balance == false
    &&& e.rating_type is None
    &&& e.fe_trans_id is None
    &&& e.ticket_in_id is None
    &&& e.ticket_eTag_id is None
    &&& e.ticket_out_id is None
    &&& e.hub_id is None
    &&& e.checkin_from_sync == false
    &&& e.event is None
    &&& e.db_saved == false
    &&& e.db_save_retry_count == 0
    &&& e.sync_status == 0
}

impl ETDR {
    /// A record with default values.
    pub fn new() -> (r: ETDR)
        ensures
            is_default_etdr(r),
    {
        ETDR {
            time_update: 0,
            sub_id: 0,
            etag_id: String::new(),
            etag_key: None,
            etag_number: String::new(),
            account_id: 0,
            vehicle_id: 0,
            status: 0,
            hash_value: String::new(),
            vehicle_type: String::new(),
            vehicle_type_ext1: String::new(),
            vehicle_type_ext2: String::new(),
            vehicle_type_ext3: String::new(),
            vehicle_type_ext4: String::new(),
            vehicle_type_ext5: String::new(),
            vehicle_type_ext6: String::new(),
            vehicle_type_ext7: String::new(),
            vehicle_type_ext8: String::new(),
            vehicle_type_ext9: String::new(),
            vehicle_type_ext10: String::new(),
            vehicle_type_profile: String::new(),
            plate: String::new(),
            plate_status: 0,
            seat_num: None,
            weight: 0,
            weight_goods: None,
            weight_all: None,
            register_vehicle_type: String::new(),
            vehicle_length: 0,
            sub_status: String::new(),
            etag_status: String::new(),
            auto_extend: String::new(),
            price_type: String::new(),
            start_date: String::new(),
            request_id: 0,
            ticket_id: 0,
            ref_trans_id: 0,
            command_id: 0,
            t_id: String::new(),
            ticket_type: 0,
            price_ticket_type: 0,
            price: 0,
            price_id: None,
            commit_amount: 0,
            reason_id: 0,
            image_count: 0,
            station_id: 0,
            station_type: 0,
            lane_id: 0,
            toll_out: 0,
            lane_out: 0,
            ref_station_id: None,
            ref_lane_id: None,
            time_route_checkin: 0,
            time_route_checkin_commit: 0,
            time_route_checkout: 0,
            time_station_checkin: 0,
            checkin_datetime: 0,
            checkin_commit_datetime: 0,
            checkout_datetime: 0,
            checkout_commit_datetime: 0,
            boo_ticket_id: 0,
            boo_trans_amount: 0,
            boo_trans_datetime: None,
            boo_lane_type: None,
            boo_toll_type: None,
            boo_ticket_type: None,
            boo_subscription_ids: None,
            charge_in: None,
            sub_charge_in: None,
            charge_in_status: None,
            charge_trans_id: None,
            charge_datetime: None,
            charge_in104: None,
            etdr_dual: None,
            chd_type: None,
            chd_ref_id: None,
            chd_reason: None,
            trans_stage_details: Vec::new(),
            rating_details: Vec::new(),
            transition_close: None,
            toll_turning_time_code: None,
            check: 0,
            log_request: None,
            info_roll_back: None,
            free_turning: false,
            enough_min_balance: false,
            rating_type: None,
            fe_trans_id: None,
            ticket_in_id: None,
            ticket_eTag_id: None,
            ticket_out_id: None,
            hub_id: None,
            checkin_from_sync: false,
            event: None,
            db_saved: false,
            db_save_retry_count: 0,
            sync_status: 0,
        }
    }
}

} // verus!
