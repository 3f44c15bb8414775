//! Check-in rules shared by the lane handlers: plate fallback, ticket type codes, validity of an
//! ETDR for checkout and commit, station and lane type codes, and the choice between two
//! candidate check-in records.

use vstd::prelude::*;
use crate::etdr_types::ETDR;
use crate::numtext::{decimal_text, i32_to_string};
use crate::tcoc_messages::{FE_CHECKIN, FE_CHECKIN_IN_RESP};
use crate::text::{is_blank, is_white_space, trim_end_seq, trim_seq, trim_start_seq, trim_str};

verus! {

/// The plate returned when no plate is known.
pub open spec fn plate_sentinel() -> Seq<char> {
    seq!['N', 'O', 'P', 'L', 'A', 'T', 'E']
}

/// The plate returned when no plate is known.
pub fn plate_empty_sentinel() -> (s: String)
    ensures
        s@ == plate_sentinel(),
{
    let s = String::from_str("NOPLATE");
    proof {
        reveal_strlit("NOPLATE");
    }
    s
}

/// `p` trimmed, or the sentinel plate where that leaves nothing.
pub open spec fn plate_or_sentinel(p: Seq<char>) -> Seq<char> {
    if trim_seq(p).len() == 0 {
        plate_sentinel()
    } else {
        trim_seq(p)
    }
}

/// `p` trimmed, or the sentinel plate where that leaves nothing.
pub fn trimmed_plate_or_sentinel(p: &str) -> (r: String)
    ensures
        r@ == plate_or_sentinel(p@),
{
    let t = trim_str(p);
    if is_blank(t.as_str()) {
        proof {
            lemma_trim_idempotent(p@);
        }
        plate_empty_sentinel()
    } else {
        proof {
            lemma_trim_idempotent(p@);
        }
        t
    }
}

proof fn lemma_trim_start_of_trimmed(s: Seq<char>)
    ensures
        trim_start_seq(trim_start_seq(s)) == trim_start_seq(s),
        trim_start_seq(s).len() > 0 ==> !is_white_space(trim_start_seq(s)[0]),
    decreases s.len(),
{
    if s.len() > 0 && is_white_space(s[0]) {
        lemma_trim_start_of_trimmed(s.drop_first());
    }
}

proof fn lemma_trim_end_of_trimmed(s: Seq<char>)
    ensures
        trim_end_seq(trim_end_seq(s)) == trim_end_seq(s),
        trim_end_seq(s).len() > 0 ==> !is_white_space(trim_end_seq(s).last()),
        trim_end_seq(s).len() <= s.len(),
        forall|i: int| 0 <= i < trim_end_seq(s).len() ==> trim_end_seq(s)[i] == s[i],
    decreases s.len(),
{
    if s.len() > 0 && is_white_space(s.last()) {
        lemma_trim_end_of_trimmed(s.drop_last());
        assert forall|i: int| 0 <= i < trim_end_seq(s).len() implies trim_end_seq(s)[i] == s[i] by {
            assert(s.drop_last()[i] == s[i]);
        }
    }
}

/// Trimming twice is trimming once.
pub proof fn lemma_trim_idempotent(s: Seq<char>)
    ensures
        trim_seq(trim_seq(s)) == trim_seq(s),
{
    let a = trim_start_seq(s);
    lemma_trim_start_of_trimmed(s);
    lemma_trim_end_of_trimmed(a);
    let b = trim_end_seq(a);
    if b.len() > 0 {
        assert(b[0] == a[0]);
        assert(!is_white_space(b[0]));
        assert(trim_start_seq(b) == b);
    } else {
        assert(trim_start_seq(b) == b);
    }
}

/// `fe_resp` with only its plate changed.
pub open spec fn same_resp_except_plate(a: FE_CHECKIN_IN_RESP, b: FE_CHECKIN_IN_RESP) -> bool {
    &&& a.message_length == b.message_length
    &&& a.command_id == b.command_id
    &&& a.request_id == b.request_id
    &&& a.session_id == b.session_id
    &&& a.status == b.status
    &&& a.etag == b.etag
    &&& a.station == b.station
    &&& a.lane == b.lane
    &&& a.ticket_id == b.ticket_id
    &&& a.ticket_type == b.ticket_type
    &&& a.price == b.price
    &&& a.vehicle_type == b.vehicle_type
    &&& a.plate_type == b.plate_type
    &&& a.price_ticket_type == b.price_ticket_type
}

/// Makes sure the response carries a plate: where its plate is blank it takes the request's
/// plate, trimmed, or the sentinel plate.
pub fn ensure_fe_resp_plate(fe_resp: &mut FE_CHECKIN_IN_RESP, fe_checkin_plate: &str)
    ensures
        same_resp_except_plate(*final(fe_resp), *old(fe_resp)),
        final(fe_resp).plate@ == if trim_seq(old(fe_resp).plate@).len() == 0 {
            plate_or_sentinel(fe_checkin_plate@)
        } else {
            old(fe_resp).plate@
        },
{
    if is_blank(fe_resp.plate.as_str()) {
        fe_resp.plate = trimmed_plate_or_sentinel(fe_checkin_plate);
    }
}

/// Ticket type code of a ticket type letter: L is 1, T is 2, Q is 3, N is 4, anything else 0.
pub open spec fn ticket_type_code(t: Seq<char>) -> i32 {
    if t == seq!['L'] {
        1
    } else if t == seq!['T'] {
        2
    } else if t == seq!['Q'] {
        3
    } else if t == seq!['N'] {
        4
    } else {
        0
    }
}

/// Ticket type letter of a code: 1 is L, 2 is T, 3 is Q, 4 is N, anything else L.
pub open spec fn ticket_type_letter(n: i32) -> Seq<char> {
    if n == 2 {
        seq!['T']
    } else if n == 3 {
        seq!['Q']
    } else if n == 4 {
        seq!['N']
    } else {
        seq!['L']
    }
}

/// Ticket type code of the trimmed text `s` (L=1, T=2, Q=3, N=4, otherwise 0).
pub fn ticket_type_str_to_i32(s: &str) -> (r: i32)
    ensures
        r == ticket_type_code(trim_seq(s@)),
{
    let t = trim_str(s);
    let n = t.as_str().unicode_len();
    if n != 1 {
        assert(trim_seq(s@) != seq!['L'] && trim_seq(s@) != seq!['T'] && trim_seq(s@) != seq!['Q']
            && trim_seq(s@) != seq!['N']);
        return 0;
    }
    let c = t.as_str().get_char(0);
    proof {
        assert(t@.len() == 1);
        assert(t@ =~= seq![c]);
    }
    if c == 'L' {
        1
    } else if c == 'T' {
        2
    } else if c == 'Q' {
        3
    } else if c == 'N' {
        4
    } else {
        0
    }
}

/// Ticket type letter of a code (1=L, 2=T, 3=Q, 4=N, otherwise L).
pub fn ticket_type_i32_to_str(n: i32) -> (r: String)
    ensures
        r@ == ticket_type_letter(n),
{
    proof {
        reveal_strlit("L");
        reveal_strlit("T");
        reveal_strlit("Q");
        reveal_strlit("N");
    }
    if n == 2 {
        String::from_str("T")
    } else if n == 3 {
        String::from_str("Q")
    } else if n == 4 {
        String::from_str("N")
    } else {
        String::from_str("L")
    }
}

/// The letter of a code read back as a code gives the code, for the four known codes.
pub proof fn law_ticket_type_roundtrip(n: i32)
    requires
        1 <= n <= 4,
    ensures
        ticket_type_code(ticket_type_letter(n)) == n,
{
    assert(seq!['L'][0] != seq!['T'][0]);
    assert(seq!['L'][0] != seq!['Q'][0]);
    assert(seq!['L'][0] != seq!['N'][0]);
    assert(seq!['T'][0] != seq!['Q'][0]);
    assert(seq!['T'][0] != seq!['N'][0]);
    assert(seq!['Q'][0] != seq!['N'][0]);
}

/// Price ticket type used where no source gives one.
pub fn default_price_ticket_type() -> (r: i32)
    ensures
        r == 0,
{
    0
}

/// Ticket type returned to the lane on checkout: 0 (not known) becomes 1 (L), the rating
/// default; other codes are kept.
pub fn ticket_type_for_checkout_resp(etdr_ticket_type: i32) -> (r: i32)
    ensures
        r == if etdr_ticket_type == 0 { 1 } else { etdr_ticket_type },
{
    if etdr_ticket_type == 0 {
        1
    } else {
        etdr_ticket_type
    }
}

/// Ticket type returned to the lane on check-in, from the query answer alone: blank, "0" or an
/// unknown letter give 1 (L).
pub open spec fn checkin_resp_ticket_type(q: Seq<char>) -> i32 {
    if trim_seq(q).len() == 0 || q == seq!['0'] {
        1
    } else if ticket_type_code(trim_seq(q)) == 0 {
        1
    } else {
        ticket_type_code(trim_seq(q))
    }
}

/// Ticket type returned to the lane on check-in, from the query answer alone.
pub fn ticket_type_from_query_only_for_checkin_resp(ticket_type_from_query: &str) -> (r: i32)
    ensures
        r == checkin_resp_ticket_type(ticket_type_from_query@),
{
    let is_zero = ticket_type_from_query.unicode_len() == 1 && ticket_type_from_query.get_char(0)
        == '0';
    proof {
        if ticket_type_from_query@.len() == 1 && ticket_type_from_query@[0] == '0' {
            assert(ticket_type_from_query@ =~= seq!['0']);
        }
        if ticket_type_from_query@ == seq!['0'] {
            assert(ticket_type_from_query@.len() == 1);
        }
    }
    if is_blank(ticket_type_from_query) || is_zero {
        1
    } else {
        let n = ticket_type_str_to_i32(ticket_type_from_query);
        if n == 0 {
            1
        } else {
            n
        }
    }
}

/// Price ticket type of a fee line as the text stored in the database (its decimal text).
pub fn get_price_ticket_type_from_rating_detail(price_ticket_type: i32) -> (r: Option<String>)
    ensures
        r is Some,
        r->0@ == decimal_text(price_ticket_type as int),
{
    Some(i32_to_string(price_ticket_type))
}

/// Index of the first positive value of `s` at or after `from`, if any.
pub open spec fn first_positive_from(s: Seq<i32>, from: int) -> Option<int>
    decreases s.len() - from,
{
    if from >= s.len() || from < 0 {
        None
    } else if s[from] > 0 {
        Some(from)
    } else {
        first_positive_from(s, from + 1)
    }
}

/// The first positive value of `s`, or `fallback` when there is none.
pub open spec fn first_positive_or(s: Seq<i32>, fallback: i32) -> i32 {
    match first_positive_from(s, 0) {
        Some(i) => s[i],
        None => fallback,
    }
}

/// Price ticket type for an ETDR at checkout: the first positive value of the fee lines, or
/// `fallback`.
pub fn price_ticket_type_for_etdr_from_rating_details(values: &[i32], fallback: i32) -> (r: i32)
    ensures
        r == first_positive_or(values@, fallback),
{
    let mut k: usize = 0;
    while k < values.len()
        invariant
            k <= values@.len(),
            first_positive_from(values@, 0) == first_positive_from(values@, k as int),
        decreases values@.len() - k,
    {
        if values[k] > 0 {
            return values[k];
        }
        k = k + 1;
    }
    fallback
}

/// Whether an ETDR cannot be checked out: it already has an exit station, a checkout time or a
/// checkout commit time, or it has no check-in time.
pub open spec fn spec_invalid_for_checkout(e: ETDR) -> bool {
    e.toll_out != 0 || e.checkout_datetime != 0 || e.checkout_commit_datetime != 0
        || e.checkin_datetime == 0
}

/// Whether an ETDR cannot be checked out (see [`spec_invalid_for_checkout`]).
pub fn is_etdr_invalid_for_checkout(etdr: &ETDR) -> (r: bool)
    ensures
        r == spec_invalid_for_checkout(*etdr),
{
    etdr.toll_out != 0 || etdr.checkout_datetime != 0 || etdr.checkout_commit_datetime != 0
        || etdr.checkin_datetime == 0
}

/// Whether an ETDR cannot take an entry-lane commit at `commit_station`: no check-in time, a
/// checkout already recorded, or another entry station.
pub open spec fn spec_invalid_for_commit_in(e: ETDR, commit_station: i32) -> bool {
    e.checkin_datetime == 0 || e.checkout_datetime != 0 || e.checkout_commit_datetime != 0
        || e.station_id != commit_station || e.toll_out != 0
}

/// Whether an ETDR cannot take an entry-lane commit (see [`spec_invalid_for_commit_in`]).
pub fn is_etdr_invalid_for_commit_in(etdr: &ETDR, commit_station: i32) -> (r: bool)
    ensures
        r == spec_invalid_for_commit_in(*etdr, commit_station),
{
    etdr.checkin_datetime == 0 || etdr.checkout_datetime != 0 || etdr.checkout_commit_datetime
        != 0 || etdr.station_id != commit_station || etdr.toll_out != 0
}

/// Whether an ETDR cannot take an exit-lane commit at `commit_station`: no check-in or checkout
/// time, a checkout commit already recorded, another exit station, or no entry station.
pub open spec fn spec_invalid_for_commit_out(e: ETDR, commit_station: i32) -> bool {
    e.checkin_datetime == 0 || e.checkout_datetime == 0 || e.checkout_commit_datetime != 0
        || e.toll_out != commit_station || e.station_id == 0
}

/// Whether an ETDR cannot take an exit-lane commit (see [`spec_invalid_for_commit_out`]).
pub fn is_etdr_invalid_for_commit_out(etdr: &ETDR, commit_station: i32) -> (r: bool)
    ensures
        r == spec_invalid_for_commit_out(*etdr, commit_station),
{
    etdr.checkin_datetime == 0 || etdr.checkout_datetime == 0 || etdr.checkout_commit_datetime
        != 0 || etdr.toll_out != commit_station || etdr.station_id == 0
}

/// The database code of an entry lane.
pub open spec fn lane_type_in() -> Seq<char> {
    seq!['1']
}

/// Protocol lane type of a database lane type: "I" for the entry code, "O" otherwise.
pub fn lane_type_protocol_io(db_lane_type: &str) -> (r: String)
    ensures
        r@ == if trim_seq(db_lane_type@) == lane_type_in() { seq!['I'] } else { seq!['O'] },
{
    let t = trim_str(db_lane_type);
    proof {
        reveal_strlit("I");
        reveal_strlit("O");
    }
    let is_in = t.as_str().unicode_len() == 1 && t.as_str().get_char(0) == '1';
    proof {
        if t@.len() == 1 && t@[0] == '1' {
            assert(t@ =~= seq!['1']);
        }
        if t@ == seq!['1'] {
            assert(t@.len() == 1);
        }
    }
    if is_in {
        String::from_str("I")
    } else {
        String::from_str("O")
    }
}

/// The MDH id of a check-in: its request id.
pub fn get_mdh_id_from_checkin(fe_checkin: &FE_CHECKIN) -> (r: Option<i64>)
    ensures
        r == Some(fe_checkin.request_id),
{
    Some(fe_checkin.request_id)
}

/// Of a record from the cache and one from the database, the one with the later check-in
/// time; on a tie the database record.
pub fn merge_latest_checkin_etdr(cache_opt: Option<ETDR>, db_opt: Option<ETDR>) -> (r: Option<
    ETDR,
>)
    ensures
        r == match (cache_opt, db_opt) {
            (None, None) => None,
            (Some(a), None) => Some(a),
            (None, Some(b)) => Some(b),
            (Some(a), Some(b)) => if a.checkin_datetime > b.checkin_datetime {
                Some(a)
            } else {
                Some(b)
            },
        },
{
    match (cache_opt, db_opt) {
        (None, None) => None,
        (Some(a), None) => Some(a),
        (None, Some(b)) => Some(b),
        (Some(a), Some(b)) => {
            if b.checkin_datetime > a.checkin_datetime {
                Some(b)
            } else if a.checkin_datetime > b.checkin_datetime {
                Some(a)
            } else {
                Some(b)
            }
        },
    }
}

/// Over a record's life: checked in and not checked out, it can be checked out, takes an
/// entry-lane commit exactly at its entry station, and no exit-lane commit; once checked out
/// it can be neither checked out again nor committed at an entry lane, and, with an entry
/// station and no checkout commit, it takes an exit-lane commit exactly at its exit station.
pub proof fn law_record_validity_lifecycle(e: ETDR, station: i32)
    ensures
        (e.checkin_datetime != 0 && e.checkout_datetime == 0 && e.checkout_commit_datetime == 0 && e.toll_out == 0) ==> {
            &&& !spec_invalid_for_checkout(e)
            &&& (!spec_invalid_for_commit_in(e, station) <==> e.station_id == station)
            &&& spec_invalid_for_commit_out(e, station)
        },
        e.checkout_datetime != 0 ==> spec_invalid_for_checkout(e) && spec_invalid_for_commit_in(e, station),
        (e.checkin_datetime != 0 && e.checkout_datetime != 0 && e.checkout_commit_datetime == 0 && e.station_id != 0)
            ==> (!spec_invalid_for_commit_out(e, station) <==> e.toll_out == station),
        e.checkin_datetime == 0 ==> spec_invalid_for_checkout(e) && spec_invalid_for_commit_in(e, station)
            && spec_invalid_for_commit_out(e, station),
{
}

} // verus!
