//! What the back-end answers when asked about a vehicle: from the latest entry transaction of
//! its tag (lookup), or from its subscriber (query).

use vstd::prelude::*;
use crate::checkin_rules::{plate_empty_sentinel, plate_or_sentinel, trimmed_plate_or_sentinel};
use crate::numtext::{i32_or, parse_i32, parse_i32_or, parsed_i32};
use crate::text::{is_blank, trim_seq, trim_str};

verus! {

/// Whether text `s` is set and not blank.
pub open spec fn set_text(s: Option<String>) -> bool {
    s matches Some(t) && trim_seq(t@).len() > 0
}

/// Whether a stage already records a checkout: an exit station other than zero, or a checkout
/// or checkout commit time that is not blank.
pub open spec fn stage_has_checkout_of(checkout_toll_id: Option<i64>, checkout_datetime: Option<String>, checkout_commit_datetime: Option<String>) -> bool {
    (checkout_toll_id matches Some(id) && id != 0) || set_text(checkout_datetime) || set_text(checkout_commit_datetime)
}

fn is_set_text(s: Option<&String>) -> (r: bool)
    ensures
        r == set_text(match s { Some(t) => Some(*t), None => None }),
{
    match s {
        Some(t) => !is_blank(t.as_str()),
        None => false,
    }
}

/// Whether a stage already records a checkout (see [`stage_has_checkout_of`]).
pub fn stage_has_checkout(checkout_toll_id: Option<i64>, checkout_datetime: Option<&String>, checkout_commit_datetime: Option<&String>) -> (r: bool)
    ensures
        r == stage_has_checkout_of(checkout_toll_id, match checkout_datetime { Some(t) => Some(*t), None => None },
            match checkout_commit_datetime { Some(t) => Some(*t), None => None }),
{
    let has_exit = match checkout_toll_id {
        Some(id) => id != 0,
        None => false,
    };
    has_exit || is_set_text(checkout_datetime) || is_set_text(checkout_commit_datetime)
}

/// What a lookup reads of the latest entry transaction of a tag.
#[derive(Debug, Clone)]
pub struct LookupStage {
    pub checkin_commit_datetime: Option<String>,
    pub checkout_toll_id: Option<i64>,
    pub checkout_datetime: Option<String>,
    pub checkout_commit_datetime: Option<String>,
    pub plate: Option<String>,
    pub checkin_plate: Option<String>,
    pub vehicle_type: Option<String>,
}

/// The outcome of a vehicle lookup.
#[derive(Debug, Clone, PartialEq, Eq)]
pub enum LookupOutcome {
    /// The tag has no entry transaction.
    NotFoundTollTransaction,
    /// Its latest entry transaction was not committed.
    NotFoundLaneTransaction,
    /// Its latest entry transaction is already checked out.
    NotFoundRouteTransaction,
    /// The vehicle is on the network, with this plate and vehicle type.
    Found { plate: String, vehicle_type: i32 },
}

/// The plate a lookup reports: the stage's plate, or its checkin plate where it has none,
/// trimmed, or the sentinel where that leaves nothing.
pub open spec fn lookup_plate_of(plate: Option<String>, checkin_plate: Option<String>) -> Seq<char> {
    let p = match plate {
        Some(s) => s@,
        None => match checkin_plate {
            Some(s) => s@,
            None => Seq::<char>::empty(),
        },
    };
    plate_or_sentinel(p)
}

/// The vehicle type a lookup reports: the stage's, trimmed and read as a number, or `1`.
pub open spec fn lookup_vehicle_type_of(vehicle_type: Option<String>) -> i32 {
    match vehicle_type {
        Some(s) => match parsed_i32(trim_seq(s@)) {
            Some(v) => v,
            None => 1,
        },
        None => 1,
    }
}

/// Whether `r` answers a lookup that found `stage` (`None`: the tag has no entry transaction):
/// not committed, already checked out, or found with its plate and vehicle type.
pub open spec fn lookup_outcome_of(stage: Option<LookupStage>, r: LookupOutcome) -> bool {
    match stage {
        None => r == LookupOutcome::NotFoundTollTransaction,
        Some(s) => if !set_text(s.checkin_commit_datetime) {
            r == LookupOutcome::NotFoundLaneTransaction
        } else if stage_has_checkout_of(s.checkout_toll_id, s.checkout_datetime, s.checkout_commit_datetime) {
            r == LookupOutcome::NotFoundRouteTransaction
        } else {
            r matches LookupOutcome::Found { plate, vehicle_type }
                && plate@ == lookup_plate_of(s.plate, s.checkin_plate)
                && vehicle_type == lookup_vehicle_type_of(s.vehicle_type)
        },
    }
}

fn lookup_vehicle_type(vehicle_type: &Option<String>) -> (r: i32)
    ensures
        r == lookup_vehicle_type_of(*vehicle_type),
{
    match vehicle_type {
        Some(s) => {
            let t = trim_str(s.as_str());
            match parse_i32(t.as_str()) {
                Some(v) => v,
                None => 1,
            }
        },
        None => 1,
    }
}

/// The answer to a vehicle lookup (see [`lookup_outcome_of`]).
pub fn lookup_vehicle_outcome(stage: &Option<LookupStage>) -> (r: LookupOutcome)
    ensures
        lookup_outcome_of(*stage, r),
{
    match stage {
        None => LookupOutcome::NotFoundTollTransaction,
        Some(s) => {
            if !is_set_text(s.checkin_commit_datetime.as_ref()) {
                LookupOutcome::NotFoundLaneTransaction
            } else if stage_has_checkout(s.checkout_toll_id, s.checkout_datetime.as_ref(), s.checkout_commit_datetime.as_ref()) {
                LookupOutcome::NotFoundRouteTransaction
            } else {
                let plate = match &s.plate {
                    Some(p) => trimmed_plate_or_sentinel(p.as_str()),
                    None => match &s.checkin_plate {
                        Some(p) => trimmed_plate_or_sentinel(p.as_str()),
                        None => plate_empty_sentinel(),
                    },
                };
                LookupOutcome::Found { plate, vehicle_type: lookup_vehicle_type(&s.vehicle_type) }
            }
        },
    }
}

/// The plate and vehicle type a vehicle query reports for a subscriber: its plate trimmed, or
/// the sentinel; its vehicle type read as a number, or `1`.
pub fn query_vehicle_subscriber_fields(subscriber_plate: &str, subscriber_vehicle_type: &str) -> (r: (String, i32))
    ensures
        r.0@ == plate_or_sentinel(subscriber_plate@),
        r.1 == i32_or(subscriber_vehicle_type@, 1),
{
    (trimmed_plate_or_sentinel(subscriber_plate), parse_i32_or(subscriber_vehicle_type, 1))
}

/// A vehicle lookup finds the vehicle exactly when the tag's latest entry transaction is
/// committed and not checked out; otherwise it says which is missing: no transaction at all,
/// no commit, or a checkout already (an exit station, or a checkout time).
pub proof fn law_lookup_found_only_on_network(stage: Option<LookupStage>, r: LookupOutcome)
    requires
        lookup_outcome_of(stage, r),
    ensures
        r is Found <==> (stage is Some && set_text(stage->0.checkin_commit_datetime)
            && !stage_has_checkout_of(stage->0.checkout_toll_id, stage->0.checkout_datetime, stage->0.checkout_commit_datetime)),
        stage is None ==> r == LookupOutcome::NotFoundTollTransaction,
        stage is Some && !set_text(stage->0.checkin_commit_datetime) ==> r == LookupOutcome::NotFoundLaneTransaction,
        stage is Some && set_text(stage->0.checkin_commit_datetime) && stage->0.checkout_toll_id is Some
            && stage->0.checkout_toll_id->0 != 0 ==> r == LookupOutcome::NotFoundRouteTransaction,
        stage is Some && set_text(stage->0.checkin_commit_datetime) && set_text(stage->0.checkout_datetime)
            ==> r == LookupOutcome::NotFoundRouteTransaction,
        r is Found && stage is Some && stage->0.vehicle_type is None ==> r->Found_vehicle_type == 1,
{
}

} // verus!
