//! Rules of a checkout at an exit lane and of a checkin on the back-end's own lanes: station
//! types, which plate the reply and the database get, when a found entry record cannot be
//! checked out, how the reply is filled from it, and the account check.

use vstd::prelude::*;
use crate::checkin_rules::{lemma_trim_idempotent, plate_empty_sentinel, plate_sentinel, ticket_type_for_checkout_resp};
use crate::clock::timestamp_ms;
use crate::etdr_build::text;
use crate::etdr_types::ETDR;
use crate::numtext::{decimal_text, i32_or, i32_to_string, parse_i32_or};
use crate::tcoc_messages::FE_CHECKIN_IN_RESP;
use crate::text::{is_blank, trim_seq, trim_str};
use crate::toll_cache::{get_post, TollCache, TollCacheEntry};
use crate::wire::char_to_string;

verus! {

/// Name for the first character of the uppercase form of `c`.
pub uninterp spec fn upper_first(c: char) -> char;

/// Wraps `char::to_uppercase` and takes the first character of it (the iterator always yields
/// at least one): the name above, which the documentation gives as `c` itself for characters
/// without an uppercase form and the ASCII capital for `a` to `z`.
#[verifier::external_body]
fn char_upper_first(c: char) -> (r: char)
    ensures
        r == upper_first(c),
        'a' <= c <= 'z' ==> r as u32 == c as u32 - 32,
        ('A' <= c <= 'Z') || ('0' <= c <= '9') ==> r == c,
{
    match c.to_uppercase().next() {
        Some(u) => u,
        None => c,
    }
}

/// The station type of a toll type text: the uppercase first character of the trimmed text, or
/// `C` when it is blank.
pub open spec fn station_type_of(s: Seq<char>) -> Seq<char> {
    if trim_seq(s).len() == 0 {
        "C"@
    } else {
        seq![upper_first(trim_seq(s)[0])]
    }
}

/// The station type of a toll type text (see [`station_type_of`]).
pub fn normalize_station_type(s: &str) -> (r: String)
    ensures
        r@ == station_type_of(s@),
        r@.len() == 1,
        trim_seq(s@).len() > 0 && 'a' <= trim_seq(s@)[0] <= 'z' ==> r@[0] as u32 == trim_seq(s@)[0] as u32 - 32,
        trim_seq(s@).len() > 0 && ('A' <= trim_seq(s@)[0] <= 'Z' || '0' <= trim_seq(s@)[0] <= '9') ==> r@[0] == trim_seq(s@)[0],
{
    let t = trim_str(s);
    if is_blank(t.as_str()) {
        proof {
            lemma_trim_idempotent(s@);
        }
        let r = text("C");
        proof {
            reveal_strlit("C");
        }
        return r;
    }
    proof {
        lemma_trim_idempotent(s@);
    }
    let c = t.as_str().get_char(0);
    char_to_string(char_upper_first(c))
}

/// The station type that the cache `m` gives for station `id` at `now` under time-to-live
/// `ttl`: that of its live entry, or none.
pub open spec fn cached_station_type(m: Map<i32, TollCacheEntry>, id: i32, now: i64, ttl: i64) -> Option<Seq<char>> {
    if m.contains_key(id) && crate::toll_cache::is_fresh(m[id].created_at, now, ttl) {
        Some(station_type_of(m[id].toll.toll_type@))
    } else {
        None
    }
}

/// `id` read as a station id (the low 32 bits).
pub open spec fn station_key(id: i64) -> i32 {
    id as i32
}

/// The station type of a synchronised record's checkin station, from the cache at `now`, or
/// `C` when the station is not cached live.
pub fn toll_type_from_checkin_toll_id_at(checkin_toll_id: Option<i64>, cache: &mut TollCache, now: i64) -> (r: String)
    requires
        old(cache).wf(),
    ensures
        r@ == match checkin_toll_id {
            Some(id) => match cached_station_type(old(cache)@, station_key(id), now, old(cache).ttl()) {
                Some(t) => t,
                None => "C"@,
            },
            None => "C"@,
        },
        checkin_toll_id matches Some(id) ==> exists|r2: Option<crate::toll_types::TOLL>| get_post(*old(cache), *final(cache), station_key(id), now, r2),
        checkin_toll_id is None ==> *final(cache) == *old(cache),
{
    match checkin_toll_id {
        Some(id) => {
            let key = id as i32;
            match cache.get_at(key, now) {
                Some(toll) => normalize_station_type(toll.toll_type.as_str()),
                None => text("C"),
            }
        },
        None => text("C"),
    }
}

/// The station type of a synchronised record's checkin station, from the cache now (see
/// [`toll_type_from_checkin_toll_id_at`]).
pub fn toll_type_from_checkin_toll_id(checkin_toll_id: Option<i64>, cache: &mut TollCache) -> (r: String)
    requires
        old(cache).wf(),
    ensures
        exists|now: i64| #![trigger cached_for(old(cache)@, checkin_toll_id, now, old(cache).ttl())] {
            &&& r@ == match cached_for(old(cache)@, checkin_toll_id, now, old(cache).ttl()) {
                Some(t) => t,
                None => "C"@,
            }
            &&& checkin_toll_id matches Some(id) ==> exists|r2: Option<crate::toll_types::TOLL>|
                get_post(*old(cache), *final(cache), station_key(id), now, r2)
        },
        checkin_toll_id is None ==> *final(cache) == *old(cache),
{
    let now = timestamp_ms();
    let r = toll_type_from_checkin_toll_id_at(checkin_toll_id, cache, now);
    assert(r@ == match cached_for(old(cache)@, checkin_toll_id, now, old(cache).ttl()) {
        Some(t) => t,
        None => "C"@,
    });
    r
}

/// The station type of a record: its operator toll type when not blank, else that of its
/// checkin station, else that of its checkout station, as cached live at `now`, else `C`.
pub open spec fn toll_type_resolution(boo_toll_type: Option<String>, checkin: Option<Seq<char>>, checkout: Option<Seq<char>>) -> Seq<char> {
    if boo_toll_type matches Some(s) && trim_seq(s@).len() > 0 {
        station_type_of(trim_seq(boo_toll_type->0@))
    } else if checkin is Some {
        checkin->0
    } else if checkout is Some {
        checkout->0
    } else {
        "C"@
    }
}

/// The station type cached for `id`, when given.
pub open spec fn cached_for(m: Map<i32, TollCacheEntry>, id: Option<i64>, now: i64, ttl: i64) -> Option<Seq<char>> {
    match id {
        Some(i) => cached_station_type(m, station_key(i), now, ttl),
        None => None,
    }
}

/// The station type of a record (see [`toll_type_resolution`]), reading the cache at `now`.
/// Reads only touch the read entries' read marks and counters, and drop an expired entry read.
pub fn resolve_toll_type_for_etdr_at(boo_toll_type: Option<&String>, checkin_toll_id: Option<i64>, checkout_toll_id: Option<i64>, cache: &mut TollCache, now: i64) -> (r: String)
    requires
        old(cache).wf(),
    ensures
        final(cache).wf(),
        r@ == toll_type_resolution(
            match boo_toll_type { Some(s) => Some(*s), None => None },
            cached_for(old(cache)@, checkin_toll_id, now, old(cache).ttl()),
            cached_for(old(cache)@, checkout_toll_id, now, old(cache).ttl()),
        ),
        final(cache).ttl() == old(cache).ttl(),
        forall|k: i32| #[trigger] final(cache)@.contains_key(k) ==> old(cache)@.contains_key(k) && final(cache)@[k].toll == old(cache)@[k].toll
            && final(cache)@[k].created_at == old(cache)@[k].created_at,
{
    let ghost m0 = cache@;
    let ghost bo = match boo_toll_type { Some(s) => Some(*s), None => None };
    if let Some(s) = boo_toll_type {
        let t = trim_str(s.as_str());
        if !is_blank(t.as_str()) {
            proof {
                lemma_trim_idempotent(s@);
            }
            return normalize_station_type(t.as_str());
        } else {
            proof {
                lemma_trim_idempotent(s@);
            }
        }
    }
    if let Some(id) = checkin_toll_id {
        let key = id as i32;
        match cache.get_at(key, now) {
            Some(toll) => {
                return normalize_station_type(toll.toll_type.as_str());
            },
            None => {},
        }
    }
    let ghost m1 = cache@;
    if let Some(id) = checkout_toll_id {
        let key = id as i32;
        proof {
            assert(cached_for(m0, checkout_toll_id, now, old(cache).ttl()) == cached_station_type(m1, key, now, cache.ttl()));
        }
        match cache.get_at(key, now) {
            Some(toll) => {
                return normalize_station_type(toll.toll_type.as_str());
            },
            None => {},
        }
    }
    text("C")
}

/// With no operator toll type (absent or blank), a record whose checkin station is cached live
/// at `now` gets that station's type, whatever its checkout station: the checkin station comes
/// before the checkout station.
pub proof fn law_resolution_prefers_checkin_station(c: TollCache, boo_toll_type: Option<String>, checkin_toll_id: i64, checkout_toll_id: Option<i64>, now: i64, r: Seq<char>)
    requires
        boo_toll_type is None || trim_seq(boo_toll_type->0@).len() == 0,
        c@.contains_key(station_key(checkin_toll_id)),
        crate::toll_cache::is_fresh(c@[station_key(checkin_toll_id)].created_at, now, c.ttl()),
        r == toll_type_resolution(boo_toll_type, cached_for(c@, Some(checkin_toll_id), now, c.ttl()), cached_for(c@, checkout_toll_id, now, c.ttl())),
    ensures
        r == station_type_of(c@[station_key(checkin_toll_id)].toll.toll_type@),
{
}

/// A record with an operator toll type that is not blank gets that type (its first character,
/// upper-cased), whatever the cache holds for its stations.
pub proof fn law_resolution_operator_type_first(c: TollCache, boo: String, checkin_toll_id: Option<i64>, checkout_toll_id: Option<i64>, now: i64, r: Seq<char>)
    requires
        trim_seq(boo@).len() > 0,
        r == toll_type_resolution(Some(boo), cached_for(c@, checkin_toll_id, now, c.ttl()), cached_for(c@, checkout_toll_id, now, c.ttl())),
    ensures
        r == station_type_of(trim_seq(boo@)),
{
}

/// With no operator toll type and no live checkin station, the checkout station's type counts
/// where it is cached live, and `C` otherwise.
pub proof fn law_resolution_falls_back_to_checkout_station(c: TollCache, boo_toll_type: Option<String>, checkin_toll_id: Option<i64>, checkout_toll_id: Option<i64>, now: i64, r: Seq<char>)
    requires
        boo_toll_type is None || trim_seq(boo_toll_type->0@).len() == 0,
        checkin_toll_id matches Some(i) ==> !(c@.contains_key(station_key(i)) && crate::toll_cache::is_fresh(c@[station_key(i)].created_at, now, c.ttl())),
        r == toll_type_resolution(boo_toll_type, cached_for(c@, checkin_toll_id, now, c.ttl()), cached_for(c@, checkout_toll_id, now, c.ttl())),
    ensures
        (checkout_toll_id matches Some(o) && c@.contains_key(station_key(o)) && crate::toll_cache::is_fresh(c@[station_key(o)].created_at, now, c.ttl()))
            ==> r == station_type_of(c@[station_key(checkout_toll_id->0)].toll.toll_type@),
        !(checkout_toll_id matches Some(o) && c@.contains_key(station_key(o)) && crate::toll_cache::is_fresh(c@[station_key(o)].created_at, now, c.ttl()))
            ==> r == "C"@,
{
}

/// The station type of a record, reading the cache now (see
/// [`resolve_toll_type_for_etdr_at`]).
pub fn resolve_toll_type_for_etdr(boo_toll_type: Option<&String>, checkin_toll_id: Option<i64>, checkout_toll_id: Option<i64>, cache: &mut TollCache) -> (r: String)
    requires
        old(cache).wf(),
    ensures
        final(cache).wf(),
        exists|now: i64| r@ == toll_type_resolution(
            match boo_toll_type { Some(s) => Some(*s), None => None },
            cached_for(old(cache)@, checkin_toll_id, now, old(cache).ttl()),
            cached_for(old(cache)@, checkout_toll_id, now, old(cache).ttl()),
        ),
{
    let now = timestamp_ms();
    resolve_toll_type_for_etdr_at(boo_toll_type, checkin_toll_id, checkout_toll_id, cache, now)
}

/// `p` trimmed, or `fallback` trimmed where that is blank, or the sentinel where both are.
pub open spec fn plate_with_fallback(p: Seq<char>, fallback: Seq<char>) -> Seq<char> {
    if trim_seq(p).len() > 0 {
        trim_seq(p)
    } else if trim_seq(fallback).len() > 0 {
        trim_seq(fallback)
    } else {
        plate_sentinel()
    }
}

/// What a checkout reply takes from the record: its entry station and lane, ticket, ticket
/// type (1 for none), plate (the front-end's where the record has none, the sentinel where
/// neither has one), vehicle type (1 where it does not parse), no price, and its price ticket
/// type (1 for none).
pub open spec fn filled_from_etdr(old: FE_CHECKIN_IN_RESP, new: FE_CHECKIN_IN_RESP, e: ETDR, fe_plate: Seq<char>) -> bool {
    &&& new == FE_CHECKIN_IN_RESP {
        station: e.station_id,
        lane: e.lane_id,
        ticket_id: e.ticket_id,
        ticket_type: if e.ticket_type == 0 { 1 } else { e.ticket_type },
        plate: new.plate,
        vehicle_type: i32_or(e.vehicle_type@, 1),
        price: 0,
        price_ticket_type: if e.price_ticket_type != 0 { e.price_ticket_type } else { 1 },
        ..old
    }
    &&& new.plate@ == plate_with_fallback(e.plate@, fe_plate)
}

/// Fills a checkout reply from the record found (see [`filled_from_etdr`]).
pub fn fill_fe_resp_from_etdr_checkout(fe_resp: &mut FE_CHECKIN_IN_RESP, etdr: &ETDR, fe_checkin_plate: &str)
    ensures
        filled_from_etdr(*old(fe_resp), *final(fe_resp), *etdr, fe_checkin_plate@),
{
    fe_resp.station = etdr.station_id;
    fe_resp.lane = etdr.lane_id;
    fe_resp.ticket_id = etdr.ticket_id;
    fe_resp.ticket_type = ticket_type_for_checkout_resp(etdr.ticket_type);
    let p = trim_str(etdr.plate.as_str());
    proof {
        lemma_trim_idempotent(etdr.plate@);
        lemma_trim_idempotent(fe_checkin_plate@);
    }
    if !is_blank(p.as_str()) {
        fe_resp.plate = p;
    } else {
        let q = trim_str(fe_checkin_plate);
        if is_blank(q.as_str()) {
            fe_resp.plate = plate_empty_sentinel();
        } else {
            fe_resp.plate = q;
        }
    }
    fe_resp.vehicle_type = parse_i32_or(etdr.vehicle_type.as_str(), 1);
    fe_resp.price = 0;
    fe_resp.price_ticket_type = if etdr.price_ticket_type != 0 { etdr.price_ticket_type } else { 1 };
}

/// Whether a record found at an exit lane of the back-end's own lanes cannot be checked out:
/// it already has an exit station or a checkout, its checkin was not committed, or it has no
/// checkin time.
pub open spec fn bect_checkout_invalid(e: ETDR) -> bool {
    e.toll_out != 0 || e.checkout_datetime != 0 || e.checkin_commit_datetime == 0
        || e.checkout_commit_datetime != 0 || e.checkin_datetime == 0
}

/// Whether a record cannot be checked out (see [`bect_checkout_invalid`]).
pub fn is_bect_checkout_invalid(etdr: &ETDR) -> (r: bool)
    ensures
        r == bect_checkout_invalid(*etdr),
{
    etdr.toll_out != 0 || etdr.checkout_datetime != 0 || etdr.checkin_commit_datetime == 0
        || etdr.checkout_commit_datetime != 0 || etdr.checkin_datetime == 0
}

/// The plate of a checkout reply: the record's (as it is) where not blank, else the
/// subscriber's trimmed where there is one not blank, else the front-end's trimmed, else the
/// sentinel.
pub open spec fn checkout_resp_plate_of(etdr_plate: Seq<char>, subscriber_plate: Option<Seq<char>>, fe_plate: Seq<char>) -> Seq<char> {
    if trim_seq(etdr_plate).len() > 0 {
        etdr_plate
    } else if subscriber_plate matches Some(s) && trim_seq(s).len() > 0 {
        trim_seq(subscriber_plate->0)
    } else if trim_seq(fe_plate).len() > 0 {
        trim_seq(fe_plate)
    } else {
        plate_sentinel()
    }
}

/// The plate of a checkout reply (see [`checkout_resp_plate_of`]).
pub fn checkout_resp_plate(etdr_plate: &str, subscriber_plate: Option<&str>, fe_plate: &str) -> (r: String)
    ensures
        r@ == checkout_resp_plate_of(etdr_plate@, match subscriber_plate { Some(s) => Some(s@), None => None }, fe_plate@),
{
    proof {
        lemma_trim_idempotent(fe_plate@);
    }
    if !is_blank(etdr_plate) {
        return text(etdr_plate);
    }
    if let Some(s) = subscriber_plate {
        let p = trim_str(s);
        proof {
            lemma_trim_idempotent(s@);
        }
        if !is_blank(p.as_str()) {
            return p;
        }
    }
    let q = trim_str(fe_plate);
    if is_blank(q.as_str()) {
        plate_empty_sentinel()
    } else {
        q
    }
}

/// The plate written to the database at checkout: the front-end's where it sent one, else the
/// record's, trimmed, or the sentinel where blank.
pub open spec fn checkout_plate_for_db_of(fe_plate: Seq<char>, etdr_plate: Seq<char>) -> Seq<char> {
    let p = if fe_plate.len() == 0 { etdr_plate } else { fe_plate };
    if trim_seq(p).len() == 0 { plate_sentinel() } else { trim_seq(p) }
}

/// The plate written to the database at checkout (see [`checkout_plate_for_db_of`]).
pub fn checkout_plate_for_db(fe_plate: &str, etdr_plate: &str) -> (r: String)
    ensures
        r@ == checkout_plate_for_db_of(fe_plate@, etdr_plate@),
{
    let p = if fe_plate.is_empty() { etdr_plate } else { fe_plate };
    let t = trim_str(p);
    proof {
        lemma_trim_idempotent(p@);
    }
    if is_blank(t.as_str()) {
        plate_empty_sentinel()
    } else {
        t
    }
}

/// The outcome of the account check at a checkout on the back-end's own lanes.
#[derive(Debug, Clone, Copy, PartialEq, Eq, Structural)]
pub enum BectAccountCheck {
    /// The check passed or is switched off.
    Passed,
    /// The subscriber has no active account.
    AccountNotActive,
    /// No subscriber has the etag.
    SubscriberNotFound,
}

/// The account check: passed when switched off; otherwise the subscriber must exist with a
/// positive account id.
pub open spec fn bect_account_check_of(skip_check: bool, subscriber_account_id: Option<i64>) -> BectAccountCheck {
    if skip_check {
        BectAccountCheck::Passed
    } else {
        match subscriber_account_id {
            Some(a) => if a <= 0 { BectAccountCheck::AccountNotActive } else { BectAccountCheck::Passed },
            None => BectAccountCheck::SubscriberNotFound,
        }
    }
}

/// The account check (see [`bect_account_check_of`]).
pub fn bect_account_check(skip_check: bool, subscriber_account_id: Option<i64>) -> (r: BectAccountCheck)
    ensures
        r == bect_account_check_of(skip_check, subscriber_account_id),
{
    if skip_check {
        return BectAccountCheck::Passed;
    }
    match subscriber_account_id {
        Some(a) => if a <= 0 { BectAccountCheck::AccountNotActive } else { BectAccountCheck::Passed },
        None => BectAccountCheck::SubscriberNotFound,
    }
}

/// The marks a checkout writes to the database given its error status (0 for none) and the
/// record's status.
#[derive(Debug)]
pub struct CheckoutMarks {
    /// `PENDING`, or `FALL` on error.
    pub charge_status: String,
    /// `1`, or `0` on error.
    pub checkout_plate_status: String,
    /// `P`, or `F` on error.
    pub checkout_pass: String,
    /// `RT-` and the error status, on error.
    pub checkout_pass_reason_id: Option<String>,
    /// `1` when the record's status is 0 (success), else `0`.
    pub status: String,
}

/// The marks of a checkout (see [`CheckoutMarks`]).
pub fn checkout_marks(error_status: i32, etdr_status: i32) -> (r: CheckoutMarks)
    ensures
        r.charge_status@ == if error_status != 0 { "FALL"@ } else { "PENDING"@ },
        r.checkout_plate_status@ == if error_status == 0 { "1"@ } else { "0"@ },
        r.checkout_pass@ == if error_status == 0 { "P"@ } else { "F"@ },
        error_status != 0 ==> (r.checkout_pass_reason_id matches Some(s) && s@ == "RT-"@ + decimal_text(error_status as int)),
        error_status == 0 ==> r.checkout_pass_reason_id is None,
        r.status@ == if etdr_status == 0 { "1"@ } else { "0"@ },
{
    let err = error_status != 0;
    CheckoutMarks {
        charge_status: if err { text("FALL") } else { text("PENDING") },
        checkout_plate_status: if err { text("0") } else { text("1") },
        checkout_pass: if err { text("F") } else { text("P") },
        checkout_pass_reason_id: if err { Some(text("RT-").concat(i32_to_string(error_status).as_str())) } else { None },
        status: if etdr_status == 0 { text("1") } else { text("0") },
    }
}

/// The plate of a checkin record: the subscriber's where there is a subscriber, else the
/// front-end's, as it is, or the sentinel where that is blank.
pub open spec fn checkin_plate_of(subscriber_plate: Option<Seq<char>>, fe_plate: Seq<char>) -> Seq<char> {
    let p = match subscriber_plate {
        Some(s) => s,
        None => fe_plate,
    };
    if trim_seq(p).len() == 0 { plate_sentinel() } else { p }
}

/// The plate of a checkin record (see [`checkin_plate_of`]).
pub fn checkin_plate(subscriber_plate: Option<&str>, fe_plate: &str) -> (r: String)
    ensures
        r@ == checkin_plate_of(match subscriber_plate { Some(s) => Some(s@), None => None }, fe_plate@),
{
    let p = match subscriber_plate {
        Some(s) => s,
        None => fe_plate,
    };
    if is_blank(p) {
        plate_empty_sentinel()
    } else {
        text(p)
    }
}

/// The vehicle type of a checkin record: the one of the open-station exception list where it
/// gives one not blank, else the subscriber's, else `1`.
pub open spec fn checkin_vehicle_type_of(subscriber_type: Option<Seq<char>>, ex_list_type: Option<Seq<char>>) -> Seq<char> {
    if ex_list_type matches Some(t) && trim_seq(t).len() > 0 {
        ex_list_type->0
    } else {
        match subscriber_type {
            Some(s) => s,
            None => "1"@,
        }
    }
}

/// The vehicle type of a checkin record (see [`checkin_vehicle_type_of`]).
pub fn checkin_vehicle_type(subscriber_type: Option<&str>, ex_list_type: Option<&str>) -> (r: String)
    ensures
        r@ == checkin_vehicle_type_of(match subscriber_type { Some(s) => Some(s@), None => None },
            match ex_list_type { Some(s) => Some(s@), None => None }),
{
    if let Some(t) = ex_list_type {
        if !is_blank(t) {
            return text(t);
        }
    }
    match subscriber_type {
        Some(s) => text(s),
        None => text("1"),
    }
}

/// A station type is one character: `C` for a blank toll type, else the upper-cased first
/// non-blank character.
pub proof fn law_station_type_is_one_char(s: Seq<char>)
    ensures
        station_type_of(s).len() == 1,
        trim_seq(s).len() == 0 ==> station_type_of(s) == "C"@,
        trim_seq(s).len() > 0 ==> station_type_of(s)[0] == upper_first(trim_seq(s)[0]),
{
    reveal_strlit("C");
}

/// A checkout reply filled from a record carries the record's entry station, entry lane and
/// ticket, no price, a ticket type and price ticket type that are the record's or 1 where the
/// record has none, and a plate that is never blank; the header and the rest stay.
pub proof fn law_filled_reply_takes_record(old: FE_CHECKIN_IN_RESP, new: FE_CHECKIN_IN_RESP, e: ETDR, fe_plate: Seq<char>)
    requires
        filled_from_etdr(old, new, e, fe_plate),
    ensures
        new.station == e.station_id,
        new.lane == e.lane_id,
        new.ticket_id == e.ticket_id,
        new.price == 0,
        e.ticket_type != 0 ==> new.ticket_type == e.ticket_type,
        e.ticket_type == 0 ==> new.ticket_type == 1,
        e.price_ticket_type != 0 ==> new.price_ticket_type == e.price_ticket_type,
        e.price_ticket_type == 0 ==> new.price_ticket_type == 1,
        trim_seq(e.plate@).len() > 0 ==> new.plate@ == trim_seq(e.plate@),
        trim_seq(e.plate@).len() == 0 && trim_seq(fe_plate).len() > 0 ==> new.plate@ == trim_seq(fe_plate),
        new.plate@.len() > 0,
        new.message_length == old.message_length,
        new.command_id == old.command_id,
        new.request_id == old.request_id,
        new.session_id == old.session_id,
        new.status == old.status,
        new.etag == old.etag,
        new.plate_type == old.plate_type,
{
}

/// The plate of a checkout reply is never blank, and comes first from the record, then from
/// the subscriber, then from the front-end.
pub proof fn law_checkout_reply_plate_order(etdr_plate: Seq<char>, subscriber_plate: Option<Seq<char>>, fe_plate: Seq<char>)
    ensures
        checkout_resp_plate_of(etdr_plate, subscriber_plate, fe_plate).len() > 0,
        trim_seq(etdr_plate).len() > 0 ==> checkout_resp_plate_of(etdr_plate, subscriber_plate, fe_plate) == etdr_plate,
        trim_seq(etdr_plate).len() == 0 && subscriber_plate is Some && trim_seq(subscriber_plate->0).len() > 0
            ==> checkout_resp_plate_of(etdr_plate, subscriber_plate, fe_plate) == trim_seq(subscriber_plate->0),
        trim_seq(etdr_plate).len() == 0 && (subscriber_plate is None || trim_seq(subscriber_plate->0).len() == 0)
            && trim_seq(fe_plate).len() > 0 ==> checkout_resp_plate_of(etdr_plate, subscriber_plate, fe_plate) == trim_seq(fe_plate),
{
}

/// The account check passes exactly when it is switched off or the subscriber has a positive
/// account; without a subscriber it finds none, and with an account of zero or less it finds
/// the account not active.
pub proof fn law_account_check_outcomes(skip_check: bool, account: Option<i64>)
    ensures
        (bect_account_check_of(skip_check, account) == BectAccountCheck::Passed)
            <==> (skip_check || (account is Some && account->0 > 0)),
        (bect_account_check_of(skip_check, account) == BectAccountCheck::SubscriberNotFound)
            <==> (!skip_check && account is None),
        (bect_account_check_of(skip_check, account) == BectAccountCheck::AccountNotActive)
            <==> (!skip_check && account is Some && account->0 <= 0),
{
}

/// A checkin record takes the subscriber's plate whenever there is a subscriber, else the
/// front-end's; a blank plate becomes the sentinel.
pub proof fn law_checkin_plate_source(subscriber_plate: Option<Seq<char>>, fe_plate: Seq<char>)
    ensures
        subscriber_plate is Some && trim_seq(subscriber_plate->0).len() > 0 ==> checkin_plate_of(subscriber_plate, fe_plate) == subscriber_plate->0,
        subscriber_plate is None && trim_seq(fe_plate).len() > 0 ==> checkin_plate_of(subscriber_plate, fe_plate) == fe_plate,
        checkin_plate_of(subscriber_plate, fe_plate).len() > 0,
{
}

/// A checkin record takes the vehicle type of the open-station exception list where it gives
/// one, before the subscriber's; without either it is `1`.
pub proof fn law_checkin_vehicle_type_source(subscriber_type: Option<Seq<char>>, ex_list_type: Option<Seq<char>>)
    ensures
        ex_list_type is Some && trim_seq(ex_list_type->0).len() > 0 ==> checkin_vehicle_type_of(subscriber_type, ex_list_type) == ex_list_type->0,
        (ex_list_type is None || trim_seq(ex_list_type->0).len() == 0) && subscriber_type is Some
            ==> checkin_vehicle_type_of(subscriber_type, ex_list_type) == subscriber_type->0,
        (ex_list_type is None || trim_seq(ex_list_type->0).len() == 0) && subscriber_type is None
            ==> checkin_vehicle_type_of(subscriber_type, ex_list_type) == "1"@,
{
}

} // verus!
