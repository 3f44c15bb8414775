//! Decisions of a front-end commit at an entry lane: which lane of the station the request
//! came through and in which direction it runs, whether the found record can take the commit,
//! what the commit writes, and how the record changes once committed.

use vstd::prelude::*;
use crate::etdr_build::text;
use crate::etdr_types::ETDR;
use crate::tcoc_messages::FE_COMMIT_IN;
use crate::text::{trim_seq, trim_str};
use crate::toll_types::TOLL_LANE;

verus! {

/// The direction of a lane as the rating database codes it.
#[derive(Debug, Clone, Copy, PartialEq, Eq, Structural)]
pub enum LaneDirection {
    /// Code `1`: vehicles enter the network here.
    In,
    /// Code `2`: vehicles leave the network here.
    Out,
    /// Any other code.
    Unknown,
}

/// The direction a lane type code denotes (the code as it is, untrimmed).
pub open spec fn lane_direction_of(lane_type: Seq<char>) -> LaneDirection {
    if lane_type == "1"@ {
        LaneDirection::In
    } else if lane_type == "2"@ {
        LaneDirection::Out
    } else {
        LaneDirection::Unknown
    }
}

/// The direction a lane type code denotes (see [`lane_direction_of`]).
pub fn lane_direction(lane_type: &str) -> (r: LaneDirection)
    ensures
        r == lane_direction_of(lane_type@),
{
    let t = text(lane_type);
    if t == text("1") {
        LaneDirection::In
    } else if t == text("2") {
        LaneDirection::Out
    } else {
        LaneDirection::Unknown
    }
}

/// The direction letter used in replies and records: `I` in, `O` out, none otherwise.
pub fn direction_letter(d: LaneDirection) -> (r: Option<String>)
    ensures
        d == LaneDirection::In ==> (r matches Some(s) && s@ == "I"@),
        d == LaneDirection::Out ==> (r matches Some(s) && s@ == "O"@),
        d == LaneDirection::Unknown ==> r is None,
{
    match d {
        LaneDirection::In => Some(text("I")),
        LaneDirection::Out => Some(text("O")),
        LaneDirection::Unknown => None,
    }
}

/// The position of the first lane of `lanes` whose code is `lane_code`; `None` where no lane
/// has it.
pub fn find_lane_index(lanes: &[TOLL_LANE], lane_code: i32) -> (r: Option<usize>)
    ensures
        match r {
            Some(i) => {
                &&& i < lanes@.len()
                &&& lanes@[i as int].lane_code == lane_code
                &&& forall|j: int| 0 <= j < i ==> lanes@[j].lane_code != lane_code
            },
            None => forall|j: int| 0 <= j < lanes@.len() ==> lanes@[j].lane_code != lane_code,
        },
{
    let mut i: usize = 0;
    while i < lanes.len()
        invariant
            i <= lanes@.len(),
            forall|j: int| 0 <= j < i ==> lanes@[j].lane_code != lane_code,
        decreases lanes@.len() - i,
    {
        if lanes[i].lane_code == lane_code {
            return Some(i);
        }
        i = i + 1;
    }
    None
}

/// Whether lane `i` is the first of `lanes` whose code is `code`.
pub open spec fn is_first_lane_with_code(lanes: Seq<TOLL_LANE>, code: i32, i: int) -> bool {
    &&& 0 <= i < lanes.len()
    &&& lanes[i].lane_code == code
    &&& forall|j: int| 0 <= j < i ==> lanes[j].lane_code != code
}

/// Whether `v` fits in 32 bits.
pub open spec fn fits_i32(v: i64) -> bool {
    i32::MIN <= v <= i32::MAX
}

/// The direction letter of a direction: `I` in, `O` out.
pub open spec fn direction_letter_of(d: LaneDirection) -> Option<Seq<char>> {
    match d {
        LaneDirection::In => Some("I"@),
        LaneDirection::Out => Some("O"@),
        LaneDirection::Unknown => None,
    }
}

/// The direction letter of the lane numbered `lane_id` at station `station_id`, whose lanes are
/// `lanes`: none where either number is absent or does not fit in 32 bits or no lane has that
/// number; else that of the first such lane's type, trimmed (see [`lane_direction_of`]).
pub open spec fn lane_direction_letter_of(station_id: Option<i64>, lane_id: Option<i64>, lanes: Seq<TOLL_LANE>) -> Option<Seq<char>> {
    match (station_id, lane_id) {
        (Some(s), Some(l)) => if fits_i32(s) && fits_i32(l) && exists|i: int| #[trigger] is_first_lane_with_code(lanes, l as i32, i) {
            let i = choose|i: int| #[trigger] is_first_lane_with_code(lanes, l as i32, i);
            direction_letter_of(lane_direction_of(trim_seq(lanes[i].lane_type@)))
        } else {
            None
        },
        _ => None,
    }
}

/// The direction letter (`I` or `O`) of lane `lane_id` at station `station_id`, given the
/// station's lanes (see [`lane_direction_letter_of`]).
pub fn get_direction_from_lane(station_id: Option<i64>, lane_id: Option<i64>, lanes: &[TOLL_LANE]) -> (r: Option<String>)
    ensures
        match r {
            Some(s) => lane_direction_letter_of(station_id, lane_id, lanes@) == Some(s@),
            None => lane_direction_letter_of(station_id, lane_id, lanes@) is None,
        },
{
    let station_ok = match station_id {
        Some(s) => i32::MIN as i64 <= s && s <= i32::MAX as i64,
        None => false,
    };
    let lane_code: i32 = match lane_id {
        Some(l) => {
            if i32::MIN as i64 <= l && l <= i32::MAX as i64 {
                l as i32
            } else {
                return None;
            }
        },
        None => return None,
    };
    if !station_ok {
        return None;
    }
    match find_lane_index(lanes, lane_code) {
        Some(i) => {
            proof {
                assert(is_first_lane_with_code(lanes@, lane_code, i as int));
                let c = choose|k: int| #[trigger] is_first_lane_with_code(lanes@, lane_code, k);
                assert(c == i as int) by {
                    if c < i as int {
                        assert(lanes@[c].lane_code != lane_code);
                    } else if c > i as int {
                        assert(lanes@[i as int].lane_code != lane_code);
                    }
                }
            }
            let t = trim_str(lanes[i].lane_type.as_str());
            direction_letter(lane_direction(t.as_str()))
        },
        None => {
            proof {
                assert(!exists|k: int| #[trigger] is_first_lane_with_code(lanes@, lane_code, k));
            }
            None
        },
    }
}

/// Whether a record found for an entry-lane commit cannot take it: its checkin is already
/// committed, it has no checkin time, or it was checked out or its checkout committed.
pub open spec fn checkin_commit_refused_of(e: ETDR) -> bool {
    e.checkin_commit_datetime != 0 || e.checkin_datetime == 0 || e.checkout_datetime != 0
        || e.checkout_commit_datetime != 0
}

/// Whether a record cannot take an entry-lane commit (see [`checkin_commit_refused_of`]).
pub fn checkin_commit_refused(etdr: &ETDR) -> (r: bool)
    ensures
        r == checkin_commit_refused_of(*etdr),
{
    etdr.checkin_commit_datetime != 0 || etdr.checkin_datetime == 0 || etdr.checkout_datetime != 0
        || etdr.checkout_commit_datetime != 0
}

/// What the stage store holds for the record's transaction.
#[derive(Debug, Clone, Copy, PartialEq, Eq, Structural)]
pub enum StageLookup {
    /// A stage whose checkin is not committed yet, with its entry ticket (if any).
    Open { ticket_in_id: Option<i64> },
    /// A stage whose checkin is already committed.
    AlreadyCommitted,
    /// No stage, or the store could not be read.
    Missing,
}

/// The entry ticket whose duplicates must be looked for before a commit: the stage's entry
/// ticket when it is set and not zero.
pub fn duplicate_check_ticket(stage: StageLookup) -> (r: Option<i64>)
    ensures
        r == (match stage {
            StageLookup::Open { ticket_in_id: Some(t) } => if t != 0 { Some(t) } else { None },
            _ => None,
        }),
{
    match stage {
        StageLookup::Open { ticket_in_id: Some(t) } => if t != 0 { Some(t) } else { None },
        _ => None,
    }
}

/// Whether entry ticket `ticket_in_id` already belongs to another transaction than
/// `current_transport_trans_id`: the ticket is set and the store holds it under another
/// transaction (`holder`, `None` when the store has no such stage or could not be read).
pub fn is_duplicate_ticket_in(ticket_in_id: i64, current_transport_trans_id: i64, holder: Option<i64>) -> (r: bool)
    ensures
        r == (ticket_in_id != 0 && (holder matches Some(h) && h != current_transport_trans_id)),
{
    if ticket_in_id == 0 {
        return false;
    }
    match holder {
        Some(h) => h != current_transport_trans_id,
        None => false,
    }
}

/// The outcome of an entry-lane commit.
#[derive(Debug, Clone, Copy, PartialEq, Eq, Structural)]
pub enum CommitInOutcome {
    /// The lane is not one of the station's lanes, or its direction is unknown.
    StationLaneNotFound,
    /// No record can take the commit (or the lane is an exit lane).
    RouteTransactionNotFound,
    /// Another transaction already holds the entry ticket; the reply carries this status.
    Duplicate { status: i32 },
    /// The commit goes ahead on this transaction.
    Commit { transport_trans_id: i64 },
}

/// The outcome of an entry-lane commit given the lane's direction (`None`: no such lane),
/// the record found for the tag, what the stage store holds for it, and the outcome of the
/// duplicate check (`Some(status)` where another transaction holds the entry ticket).
pub open spec fn commit_in_outcome_of(lane: Option<LaneDirection>, etdr: Option<ETDR>, stage: StageLookup, duplicate: Option<i32>) -> CommitInOutcome {
    match lane {
        None => CommitInOutcome::StationLaneNotFound,
        Some(LaneDirection::Unknown) => CommitInOutcome::StationLaneNotFound,
        Some(LaneDirection::Out) => CommitInOutcome::RouteTransactionNotFound,
        Some(LaneDirection::In) => match etdr {
            None => CommitInOutcome::RouteTransactionNotFound,
            Some(e) => if checkin_commit_refused_of(e) {
                CommitInOutcome::RouteTransactionNotFound
            } else if !(stage is Open) {
                CommitInOutcome::RouteTransactionNotFound
            } else {
                match duplicate {
                    Some(s) => CommitInOutcome::Duplicate { status: s },
                    None => CommitInOutcome::Commit { transport_trans_id: e.ticket_id },
                }
            },
        },
    }
}

/// The outcome of an entry-lane commit (see [`commit_in_outcome_of`]).
pub fn commit_in_outcome(lane: Option<LaneDirection>, etdr: Option<&ETDR>, stage: StageLookup, duplicate: Option<i32>) -> (r: CommitInOutcome)
    ensures
        r == commit_in_outcome_of(lane, match etdr { Some(e) => Some(*e), None => None }, stage, duplicate),
{
    match lane {
        None => CommitInOutcome::StationLaneNotFound,
        Some(LaneDirection::Unknown) => CommitInOutcome::StationLaneNotFound,
        Some(LaneDirection::Out) => CommitInOutcome::RouteTransactionNotFound,
        Some(LaneDirection::In) => match etdr {
            None => CommitInOutcome::RouteTransactionNotFound,
            Some(e) => {
                if checkin_commit_refused(e) {
                    CommitInOutcome::RouteTransactionNotFound
                } else {
                    match stage {
                        StageLookup::Open { .. } => match duplicate {
                            Some(s) => CommitInOutcome::Duplicate { status: s },
                            None => CommitInOutcome::Commit { transport_trans_id: e.ticket_id },
                        },
                        _ => CommitInOutcome::RouteTransactionNotFound,
                    }
                }
            },
        },
    }
}

/// What an entry-lane commit writes to the stage besides its times.
#[derive(Debug)]
pub struct CheckinCommitFields {
    /// The weight, where the front-end gave a positive one.
    pub fe_weight: Option<i64>,
    /// The reason, where the front-end gave a positive one.
    pub fe_reason_id: Option<i64>,
    /// The image count as given.
    pub img_count: Option<i32>,
    /// `2`: the checkin is committed.
    pub checkin_status: String,
    /// `P`: the vehicle passed.
    pub checkin_pass: String,
}

/// What an entry-lane commit writes, from the front-end's request.
pub fn checkin_commit_fields(fe_commit: &FE_COMMIT_IN) -> (r: CheckinCommitFields)
    ensures
        r.fe_weight == (if fe_commit.weight > 0 { Some(fe_commit.weight as i64) } else { None }),
        r.fe_reason_id == (if fe_commit.reason_id > 0 { Some(fe_commit.reason_id as i64) } else { None }),
        r.img_count == Some(fe_commit.image_count),
        r.checkin_status@ == "2"@,
        r.checkin_pass@ == "P"@,
{
    CheckinCommitFields {
        fe_weight: if fe_commit.weight > 0 { Some(fe_commit.weight as i64) } else { None },
        fe_reason_id: if fe_commit.reason_id > 0 { Some(fe_commit.reason_id as i64) } else { None },
        img_count: Some(fe_commit.image_count),
        checkin_status: text("2"),
        checkin_pass: text("P"),
    }
}

/// `new` is `old` with its checkin committed at `now`; marked saved where the stage store
/// took the commit (`stored`), otherwise left as it was.
pub open spec fn checkin_committed(old: ETDR, new: ETDR, now: i64, stored: bool) -> bool {
    new == ETDR {
        checkin_commit_datetime: now,
        time_route_checkin_commit: now,
        time_update: now,
        db_saved: if stored { true } else { old.db_saved },
        ..old
    }
}

/// Records in the record the commit of its checkin at `now` (see [`checkin_committed`]).
pub fn mark_checkin_committed(etdr: &mut ETDR, now: i64, stored: bool)
    ensures
        checkin_committed(*old(etdr), *final(etdr), now, stored),
{
    etdr.checkin_commit_datetime = now;
    etdr.time_route_checkin_commit = now;
    etdr.time_update = now;
    if stored {
        etdr.db_saved = true;
    }
}

/// The transaction a checkout commit applies to: the request's entry ticket where it gives
/// one, else the ticket of the latest record found for the tag, else none (`0`).
pub fn checkout_commit_target(ticket_in_id: i64, latest: Option<&ETDR>) -> (r: i64)
    ensures
        r == (if ticket_in_id != 0 {
            ticket_in_id
        } else {
            match latest {
                Some(e) => e.ticket_id,
                None => 0,
            }
        }),
{
    if ticket_in_id != 0 {
        ticket_in_id
    } else {
        match latest {
            Some(e) => e.ticket_id,
            None => 0,
        }
    }
}

/// The record a checkout commit of transaction `transport_trans_id` works on: the cached
/// record of that ticket, else the latest record found for the tag where it is of that ticket.
pub fn checkout_commit_record(cached: Option<ETDR>, latest: Option<ETDR>, transport_trans_id: i64) -> (r: Option<ETDR>)
    ensures
        r == (match cached {
            Some(e) => Some(e),
            None => match latest {
                Some(e) => if e.ticket_id == transport_trans_id { Some(e) } else { None },
                None => None,
            },
        }),
{
    match cached {
        Some(e) => Some(e),
        None => match latest {
            Some(e) => if e.ticket_id == transport_trans_id { Some(e) } else { None },
            None => None,
        },
    }
}

/// Whether a record cannot take a checkout commit: it was not checked out, its checkout is
/// already committed, or its checkin was never committed.
pub open spec fn checkout_commit_refused_of(e: ETDR) -> bool {
    e.checkout_datetime == 0 || e.checkout_commit_datetime != 0 || e.checkin_commit_datetime == 0
}

/// Whether a record cannot take a checkout commit (see [`checkout_commit_refused_of`]).
pub fn checkout_commit_refused(etdr: &ETDR) -> (r: bool)
    ensures
        r == checkout_commit_refused_of(*etdr),
{
    etdr.checkout_datetime == 0 || etdr.checkout_commit_datetime != 0 || etdr.checkin_commit_datetime == 0
}

/// Whether a checkout commit goes ahead: a transaction was found, its record can take the
/// commit, and the store has its stage.
pub fn checkout_commit_proceeds(transport_trans_id: i64, record: Option<&ETDR>, stage_found: bool) -> (r: bool)
    ensures
        r == (transport_trans_id != 0 && (record matches Some(e) && !checkout_commit_refused_of(*e)) && stage_found),
{
    if transport_trans_id == 0 {
        return false;
    }
    match record {
        Some(e) => !checkout_commit_refused(e) && stage_found,
        None => false,
    }
}

/// Lane type `1` is an entry lane and `2` an exit lane; any other code is unknown. Entry lanes
/// are lettered `I`, exit lanes `O`.
pub proof fn law_lane_direction_codes(t: Seq<char>)
    ensures
        lane_direction_of("1"@) == LaneDirection::In,
        lane_direction_of("2"@) == LaneDirection::Out,
        t != "1"@ && t != "2"@ ==> lane_direction_of(t) == LaneDirection::Unknown,
        direction_letter_of(LaneDirection::In) == Some("I"@),
        direction_letter_of(LaneDirection::Out) == Some("O"@),
        direction_letter_of(LaneDirection::Unknown) is None,
{
    reveal_strlit("1");
    reveal_strlit("2");
    assert("2"@[0] != "1"@[0]);
}

/// The direction of a lane is read from the first of the station's lanes with its number: `I`
/// where that lane's type (trimmed) is `1`, `O` where it is `2`; there is none where no lane
/// has the number or either number is absent.
pub proof fn law_lane_direction_from_first_lane(station_id: i64, lane_id: i64, lanes: Seq<TOLL_LANE>, i: int)
    requires
        fits_i32(station_id),
        fits_i32(lane_id),
        is_first_lane_with_code(lanes, lane_id as i32, i),
    ensures
        trim_seq(lanes[i].lane_type@) == "1"@ ==> lane_direction_letter_of(Some(station_id), Some(lane_id), lanes) == Some("I"@),
        trim_seq(lanes[i].lane_type@) == "2"@ ==> lane_direction_letter_of(Some(station_id), Some(lane_id), lanes) == Some("O"@),
        lane_direction_letter_of(None, Some(lane_id), lanes) is None,
        lane_direction_letter_of(Some(station_id), None, lanes) is None,
{
    reveal_strlit("1");
    reveal_strlit("2");
    assert("2"@[0] != "1"@[0]);
    let c = lane_id as i32;
    let k = choose|k: int| #[trigger] is_first_lane_with_code(lanes, c, k);
    assert(k == i) by {
        if k < i {
            assert(lanes[k].lane_code != c);
        } else if k > i {
            assert(lanes[i].lane_code != c);
        }
    }
}

/// A record takes an entry-lane commit exactly when its checkin is made and it has neither a
/// committed checkin nor a checkout.
pub proof fn law_checkin_commit_acceptance(e: ETDR)
    ensures
        !checkin_commit_refused_of(e) <==> (e.checkin_datetime != 0 && e.checkin_commit_datetime == 0
            && e.checkout_datetime == 0 && e.checkout_commit_datetime == 0),
{
}

/// Committing a checkin at a non-zero time makes the record refuse a second entry-lane commit,
/// keeps its checkin and checkout times, and lets a later checkout commit through exactly when
/// the record was checked out and that checkout is not committed.
pub proof fn law_checkin_commit_once(old: ETDR, new: ETDR, now: i64, stored: bool)
    requires
        checkin_committed(old, new, now, stored),
        now != 0,
    ensures
        checkin_commit_refused_of(new),
        new.checkin_commit_datetime == now,
        new.checkin_datetime == old.checkin_datetime,
        new.checkout_datetime == old.checkout_datetime,
        new.ticket_id == old.ticket_id,
        stored ==> new.db_saved,
        !checkout_commit_refused_of(new) <==> (old.checkout_datetime != 0 && old.checkout_commit_datetime == 0),
{
}

/// An entry-lane commit goes ahead only at an entry lane, on a record that can take it, with an
/// open stage and an entry ticket no other transaction holds, and then on that record's
/// ticket; an exit lane is answered "route transaction not found", an unknown lane
/// "station-lane not found", and a held entry ticket with the duplicate's status.
pub proof fn law_commit_in_outcomes(lane: Option<LaneDirection>, etdr: Option<ETDR>, stage: StageLookup, duplicate: Option<i32>)
    ensures
        commit_in_outcome_of(lane, etdr, stage, duplicate) is Commit ==> {
            &&& lane == Some(LaneDirection::In)
            &&& etdr is Some
            &&& !checkin_commit_refused_of(etdr->0)
            &&& stage is Open
            &&& duplicate is None
            &&& commit_in_outcome_of(lane, etdr, stage, duplicate)->Commit_transport_trans_id == etdr->0.ticket_id
        },
        commit_in_outcome_of(lane, etdr, stage, duplicate) is Duplicate ==> {
            &&& lane == Some(LaneDirection::In)
            &&& duplicate == Some(commit_in_outcome_of(lane, etdr, stage, duplicate)->Duplicate_status)
        },
        lane == Some(LaneDirection::Out) ==> commit_in_outcome_of(lane, etdr, stage, duplicate) == CommitInOutcome::RouteTransactionNotFound,
        (lane is None || lane == Some(LaneDirection::Unknown)) ==> commit_in_outcome_of(lane, etdr, stage, duplicate) == CommitInOutcome::StationLaneNotFound,
        (lane == Some(LaneDirection::In) && etdr is Some && !checkin_commit_refused_of(etdr->0) && stage is Open && duplicate is None)
            ==> commit_in_outcome_of(lane, etdr, stage, duplicate) == (CommitInOutcome::Commit { transport_trans_id: etdr->0.ticket_id }),
{
}

} // verus!
