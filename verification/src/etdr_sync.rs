//! Uses of the record cache by the lane handlers and the store synchronisation: the ticket
//! type of a vehicle answer completed from the latest open record, and the records still to be
//! written to the store.

use vstd::prelude::*;
use crate::checkin_rules::{ticket_type_code, ticket_type_i32_to_str, ticket_type_letter, ticket_type_str_to_i32};
use crate::clock::timestamp_ms;
use crate::etdr_build::text;
use crate::etdr_cache::{latest_post, latest_pred, unsaved_pred, ETDRCache, EtdrCheckinSource};
use crate::etdr_types::{etdr_same, ETDR};
use crate::text::{is_blank, normalize_seq, trim_seq, trim_str};

verus! {

/// Whether a vehicle answer gives no ticket type: blank, or `0`.
pub open spec fn no_ticket_type(q: Seq<char>) -> bool {
    trim_seq(q).len() == 0 || q == "0"@
}

fn gives_no_ticket_type(q: &str) -> (r: bool)
    ensures
        r == no_ticket_type(q@),
{
    is_blank(q) || text(q) == text("0")
}

/// The ticket type letter of a vehicle answer: where it gives none, that of the latest open
/// record (`latest`, its ticket type code) or `L`; otherwise its own letter, or `L` for an
/// unknown one.
pub open spec fn resolved_ticket_type_of(q: Seq<char>, latest: Option<i32>) -> Seq<char> {
    if no_ticket_type(q) {
        match latest {
            Some(t) => ticket_type_letter(t),
            None => "L"@,
        }
    } else if ticket_type_code(trim_seq(q)) == 0 {
        "L"@
    } else {
        ticket_type_letter(ticket_type_code(trim_seq(q)))
    }
}

/// Whether `s` is one of the four ticket type letters.
pub open spec fn is_ticket_letter(s: Seq<char>) -> bool {
    s == seq!['L'] || s == seq!['T'] || s == seq!['Q'] || s == seq!['N']
}

/// The ticket type of a vehicle answer, completed or not, is always one of `L`, `T`, `Q`, `N`.
pub proof fn law_resolved_ticket_type_is_letter(q: Seq<char>, latest: Option<i32>)
    ensures
        is_ticket_letter(resolved_ticket_type_of(q, latest)),
{
    reveal_strlit("L");
    assert("L"@ =~= seq!['L']);
}

/// The ticket type code of a vehicle answer: where it gives none, that of the latest open
/// record, or the answer's own code; otherwise the answer's code.
pub open spec fn resolved_ticket_type_code_of(q: Seq<char>, latest: Option<i32>) -> i32 {
    if no_ticket_type(q) {
        match latest {
            Some(t) => t,
            None => ticket_type_code(trim_seq(q)),
        }
    } else {
        ticket_type_code(trim_seq(q))
    }
}

/// The ticket type of a record, when there is one.
pub open spec fn ticket_type_of_record(r: Option<ETDR>) -> Option<i32> {
    match r {
        Some(e) => Some(e.ticket_type),
        None => None,
    }
}

/// What the cache answers and leaves when asked for the latest open record of `etag` at `now`
/// only where the answer `q` gives no ticket type; untouched otherwise.
pub open spec fn consulted(old: ETDRCache, new: ETDRCache, q: Seq<char>, etag: Seq<char>, now: i64, latest: Option<ETDR>) -> bool {
    if no_ticket_type(q) {
        latest_post(old, new, latest_pred(normalize_seq(etag), now, true), now, latest)
    } else {
        new == old && latest is None
    }
}

/// The ticket type letter of a vehicle answer at `now`, completed from the latest open record
/// of `etag` in `cache` where the answer gives none (see [`resolved_ticket_type_of`]).
pub fn resolve_ticket_type_from_query_resp_at(ticket_type_from_query: &str, etag: &str, source: EtdrCheckinSource, cache: &mut ETDRCache, now: i64) -> (r: String)
    ensures
        exists|latest: Option<ETDR>| #![trigger ticket_type_of_record(latest)]
            consulted(*old(cache), *final(cache), ticket_type_from_query@, etag@, now, latest)
            && r@ == resolved_ticket_type_of(ticket_type_from_query@, ticket_type_of_record(latest)),
{
    let _ = source;
    if gives_no_ticket_type(ticket_type_from_query) {
        let latest = cache.get_latest_checkin_without_checkout_at(etag, now);
        match latest {
            Some(e) => {
                let r = ticket_type_i32_to_str(e.ticket_type);
                assert(ticket_type_of_record(latest) == Some(e.ticket_type));
                r
            },
            None => {
                let r = text("L");
                assert(ticket_type_of_record(latest) is None);
                r
            },
        }
    } else {
        let n = ticket_type_str_to_i32(ticket_type_from_query);
        let r = if n == 0 { text("L") } else { ticket_type_i32_to_str(n) };
        assert(ticket_type_of_record(None::<ETDR>) is None);
        r
    }
}

/// The ticket type letter of a vehicle answer, completed from the cache now (see
/// [`resolve_ticket_type_from_query_resp_at`]).
pub fn resolve_ticket_type_from_query_resp(ticket_type_from_query: &str, etag: &str, source: EtdrCheckinSource, cache: &mut ETDRCache) -> (r: String)
    ensures
        exists|now: i64, latest: Option<ETDR>| #![trigger consulted(*old(cache), *final(cache), ticket_type_from_query@, etag@, now, latest)]
            consulted(*old(cache), *final(cache), ticket_type_from_query@, etag@, now, latest)
            && r@ == resolved_ticket_type_of(ticket_type_from_query@, ticket_type_of_record(latest)),
{
    let now = timestamp_ms();
    resolve_ticket_type_from_query_resp_at(ticket_type_from_query, etag, source, cache, now)
}

/// The ticket type code of a vehicle answer, completed from the cache now (see
/// [`resolve_ticket_type_i32_from_query_resp_at`]).
pub fn resolve_ticket_type_i32_from_query_resp(ticket_type_from_query: &str, etag: &str, source: EtdrCheckinSource, cache: &mut ETDRCache) -> (r: i32)
    ensures
        exists|now: i64, latest: Option<ETDR>| #![trigger consulted(*old(cache), *final(cache), ticket_type_from_query@, etag@, now, latest)]
            consulted(*old(cache), *final(cache), ticket_type_from_query@, etag@, now, latest)
            && r == resolved_ticket_type_code_of(ticket_type_from_query@, ticket_type_of_record(latest)),
{
    let now = timestamp_ms();
    resolve_ticket_type_i32_from_query_resp_at(ticket_type_from_query, etag, source, cache, now)
}

/// The ticket type code of a vehicle answer at `now`, completed from the latest open record of
/// `etag` in `cache` where the answer gives none (see [`resolved_ticket_type_code_of`]).
pub fn resolve_ticket_type_i32_from_query_resp_at(ticket_type_from_query: &str, etag: &str, source: EtdrCheckinSource, cache: &mut ETDRCache, now: i64) -> (r: i32)
    ensures
        exists|latest: Option<ETDR>| #![trigger ticket_type_of_record(latest)]
            consulted(*old(cache), *final(cache), ticket_type_from_query@, etag@, now, latest)
            && r == resolved_ticket_type_code_of(ticket_type_from_query@, ticket_type_of_record(latest)),
{
    let _ = source;
    if gives_no_ticket_type(ticket_type_from_query) {
        let latest = cache.get_latest_checkin_without_checkout_at(etag, now);
        match latest {
            Some(e) => {
                assert(ticket_type_of_record(latest) == Some(e.ticket_type));
                e.ticket_type
            },
            None => {
                assert(ticket_type_of_record(latest) is None);
                ticket_type_str_to_i32(ticket_type_from_query)
            },
        }
    } else {
        assert(ticket_type_of_record(None::<ETDR>) is None);
        ticket_type_str_to_i32(ticket_type_from_query)
    }
}

/// The key under which a record waits in the retry store: `etdr:` and its tag, trimmed.
pub open spec fn record_key_of(etag_id: Seq<char>) -> Seq<char> {
    "etdr:"@ + trim_seq(etag_id)
}

/// The records to write to the store at `now`: those of `keydb_list`, then every record of the
/// cache valid at `now` and not saved yet, in cache order, keyed by its tag.
pub fn collect_unsaved_etdrs_at(keydb_list: Vec<(String, ETDR)>, cache: &ETDRCache, now: i64) -> (r: Vec<(String, ETDR)>)
    ensures
        ({
            let f = cache@.filter(unsaved_pred(now));
            &&& r@.len() == keydb_list@.len() + f.len()
            &&& r@.subrange(0, keydb_list@.len() as int) == keydb_list@
            &&& forall|i: int| 0 <= i < f.len() ==> {
                let p = #[trigger] r@[keydb_list@.len() + i];
                &&& p.0@ == record_key_of(f[i].entry.etdr.etag_id@)
                &&& etdr_same(p.1, f[i].entry.etdr)
            }
        }),
{
    let unsaved = cache.get_all_unsaved_etdrs_at(now);
    let ghost f = cache@.filter(unsaved_pred(now));
    let ghost k0 = keydb_list@;
    let ghost u0 = unsaved@;
    let n0 = keydb_list.len();
    let mut out = keydb_list;
    let mut rest = unsaved;
    let n = rest.len();
    let mut i: usize = 0;
    while i < n
        invariant
            n == u0.len(),
            u0.len() == f.len(),
            i <= n,
            forall|j: int| 0 <= j < f.len() ==> (#[trigger] u0[j]).0@ == f[j].etag@
                && etdr_same(u0[j].1, f[j].entry.etdr),
            rest@ == u0.subrange(i as int, n as int),
            out@.len() == n0 + i,
            out@.subrange(0, n0 as int) == k0,
            k0.len() == n0,
            forall|j: int| 0 <= j < i ==> {
                let p = #[trigger] out@[n0 + j];
                &&& p.0@ == record_key_of(f[j].entry.etdr.etag_id@)
                &&& etdr_same(p.1, f[j].entry.etdr)
            },
        decreases n - i,
    {
        let ghost o0 = out@;
        let (_etag, e, _created) = rest.remove(0);
        proof {
            assert(u0[i as int] == (_etag, e, _created));
        }
        let key = text("etdr:").concat(trim_str(e.etag_id.as_str()).as_str());
        out.push((key, e));
        proof {
            assert forall|j: int| 0 <= j < i + 1 implies {
                let p = #[trigger] out@[n0 + j];
                &&& p.0@ == record_key_of(f[j].entry.etdr.etag_id@)
                &&& etdr_same(p.1, f[j].entry.etdr)
            } by {
                if j < i {
                    assert(out@[n0 + j] == o0[n0 + j]);
                }
            }
            assert(out@.subrange(0, n0 as int) =~= o0.subrange(0, n0 as int));
            assert(rest@ =~= u0.subrange(i + 1, n as int));
        }
        i = i + 1;
    }
    out
}

/// The record the retry of a store write works on: `e` with its tag and tag number trimmed,
/// where it has a ticket, an entry station, an entry lane and a tag number; none otherwise.
pub open spec fn retry_candidate_of(e: ETDR) -> Option<ETDR> {
    if e.ticket_id == 0 || e.station_id == 0 || e.lane_id == 0 || trim_seq(e.etag_number@).len() == 0 {
        None
    } else {
        Some(e)
    }
}

/// The records to write to the store now (see [`collect_unsaved_etdrs_at`]).
pub fn collect_unsaved_etdrs(keydb_list: Vec<(String, ETDR)>, cache: &ETDRCache) -> (r: Vec<(String, ETDR)>)
    ensures
        exists|now: i64| #![trigger cache@.filter(unsaved_pred(now))] {
            let f = cache@.filter(unsaved_pred(now));
            &&& r@.len() == keydb_list@.len() + f.len()
            &&& r@.subrange(0, keydb_list@.len() as int) == keydb_list@
            &&& forall|i: int| 0 <= i < f.len() ==> {
                let p = #[trigger] r@[keydb_list@.len() + i];
                &&& p.0@ == record_key_of(f[i].entry.etdr.etag_id@)
                &&& etdr_same(p.1, f[i].entry.etdr)
            }
        },
{
    let now = timestamp_ms();
    collect_unsaved_etdrs_at(keydb_list, cache, now)
}

/// Prepares a record for the retry of its store write (see [`retry_candidate_of`]): `None`
/// where it lacks what the store needs; otherwise the record with its tag and tag number
/// trimmed, all else kept.
pub fn retry_save_candidate(etdr: ETDR) -> (r: Option<ETDR>)
    ensures
        match r {
            Some(e) => {
                &&& retry_candidate_of(etdr) is Some
                &&& e == ETDR { etag_id: e.etag_id, etag_number: e.etag_number, ..etdr }
                &&& e.etag_id@ == trim_seq(etdr.etag_id@)
                &&& e.etag_number@ == trim_seq(etdr.etag_number@)
            },
            None => retry_candidate_of(etdr) is None,
        },
{
    let mut e = etdr;
    e.etag_id = trim_str(e.etag_id.as_str());
    e.etag_number = trim_str(e.etag_number.as_str());
    if e.ticket_id == 0 || e.station_id == 0 || e.lane_id == 0 || e.etag_number.as_str().is_empty() {
        None
    } else {
        Some(e)
    }
}

/// How the retry of a store write proceeds.
#[derive(Debug, Clone, Copy, PartialEq, Eq, Structural)]
pub enum RetrySavePlan {
    /// Merge the record into the stage stored under its ticket.
    UpdateByTicket,
    /// Merge the record into the stage stored under its entry ticket.
    UpdateByTicketIn { ticket_in_id: i64 },
    /// Leave it: another node stored it under another ticket.
    SkipOtherNode,
    /// Store a new stage built from the record.
    Insert,
}

/// The plan of a retry given whether the store has a stage under the record's ticket, the
/// record's entry ticket, and whether the store has a stage under that entry ticket (looked up
/// only for a non-zero entry ticket).
pub open spec fn retry_save_plan_of(found_by_ticket: bool, ticket_in_id: Option<i64>, found_by_ticket_in: bool) -> RetrySavePlan {
    if found_by_ticket {
        RetrySavePlan::UpdateByTicket
    } else if ticket_in_id matches Some(t) && t != 0 {
        if found_by_ticket_in {
            RetrySavePlan::UpdateByTicketIn { ticket_in_id: ticket_in_id->0 }
        } else {
            RetrySavePlan::SkipOtherNode
        }
    } else {
        RetrySavePlan::Insert
    }
}

/// The plan of a retry (see [`retry_save_plan_of`]).
pub fn retry_save_plan(found_by_ticket: bool, ticket_in_id: Option<i64>, found_by_ticket_in: bool) -> (r: RetrySavePlan)
    ensures
        r == retry_save_plan_of(found_by_ticket, ticket_in_id, found_by_ticket_in),
{
    if found_by_ticket {
        return RetrySavePlan::UpdateByTicket;
    }
    match ticket_in_id {
        Some(t) => {
            if t != 0 {
                if found_by_ticket_in {
                    RetrySavePlan::UpdateByTicketIn { ticket_in_id: t }
                } else {
                    RetrySavePlan::SkipOtherNode
                }
            } else {
                RetrySavePlan::Insert
            }
        },
        None => RetrySavePlan::Insert,
    }
}

/// Whether `p` occurs in `s`.
pub open spec fn occurs_in(s: Seq<char>, p: Seq<char>) -> bool {
    exists|i: int| 0 <= i && i + p.len() <= s.len() && #[trigger] s.subrange(i, i + p.len()) == p
}

fn occurs_at(s: &str, p: &str, i: usize) -> (r: bool)
    requires
        i + p@.len() <= s@.len(),
    ensures
        r == (s@.subrange(i as int, i + p@.len()) == p@),
{
    let np = p.unicode_len();
    let ns = s.unicode_len();
    let mut k: usize = 0;
    while k < np
        invariant
            np == p@.len(),
            ns == s@.len(),
            i + np <= ns,
            k <= np,
            forall|j: int| 0 <= j < k ==> s@[i + j] == p@[j],
        decreases np - k,
    {
        if s.get_char(i + k) != p.get_char(k) {
            proof {
                assert(s@.subrange(i as int, i + np)[k as int] != p@[k as int]);
            }
            return false;
        }
        k = k + 1;
    }
    proof {
        assert(s@.subrange(i as int, i + np) =~= p@);
    }
    true
}

/// Whether `p` occurs in `s` (`str::contains`).
pub fn text_contains(s: &str, p: &str) -> (r: bool)
    ensures
        r == occurs_in(s@, p@),
{
    let ns = s.unicode_len();
    let np = p.unicode_len();
    if np > ns {
        proof {
            assert forall|i: int| 0 <= i && i + p@.len() <= s@.len() implies #[trigger] s@.subrange(i, i + p@.len()) != p@ by {}
        }
        return false;
    }
    if np == 0 {
        proof {
            assert(s@.subrange(0int, 0int + p@.len()) =~= p@);
        }
        return true;
    }
    let mut i: usize = 0;
    while i <= ns - np
        invariant
            ns == s@.len(),
            np == p@.len(),
            np <= ns,
            np >= 1,
            i <= ns - np + 1,
            forall|j: int| 0 <= j < i ==> #[trigger] s@.subrange(j, j + np) != p@,
        decreases ns - np + 1 - i,
    {
        if occurs_at(s, p, i) {
            return true;
        }
        i = i + 1;
    }
    false
}

/// Whether a store error says the row exists already: its message mentions `duplicate`,
/// `unique` or `already exists`.
pub open spec fn duplicate_error_of(msg: Seq<char>) -> bool {
    occurs_in(msg, "duplicate"@) || occurs_in(msg, "unique"@) || occurs_in(msg, "already exists"@)
}

/// Whether a store error says the row exists already (see [`duplicate_error_of`]).
pub fn is_duplicate_error(msg: &str) -> (r: bool)
    ensures
        r == duplicate_error_of(msg@),
{
    text_contains(msg, "duplicate") || text_contains(msg, "unique") || text_contains(msg, "already exists")
}

} // verus!
