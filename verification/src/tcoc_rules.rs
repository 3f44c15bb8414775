//! What the record of a front-end reply holds besides the reply itself: the entry and exit
//! stations, by the direction of the lane, and the status as text.

use vstd::prelude::*;
use crate::etdr_build::text;
use crate::numtext::{decimal_text, i32_to_string};
use crate::text::{trim_end_nul_seq, trim_end_nul_str};
use crate::wire::{le_i32_at, read_i32_le, read_text, utf8_lossy};

verus! {

/// The entry and exit stations of a reply: an entry lane (`I`) has the request's station as
/// entry; an exit lane (`O`) has the entry station found for it and the request's station as
/// exit; otherwise neither is known.
pub open spec fn response_toll_ids_of(direction: Option<Seq<char>>, toll_id: Option<i64>, station_in_for_out: Option<i64>) -> (Option<i64>, Option<i64>) {
    match direction {
        Some(d) => if d == "I"@ {
            (toll_id, None)
        } else if d == "O"@ {
            (station_in_for_out, toll_id)
        } else {
            (None, None)
        },
        None => (None, None),
    }
}

/// The entry and exit stations of a reply (see [`response_toll_ids_of`]).
pub fn response_toll_ids(direction: Option<&str>, toll_id: Option<i64>, station_in_for_out: Option<i64>) -> (r: (Option<i64>, Option<i64>))
    ensures
        r == response_toll_ids_of(match direction { Some(d) => Some(d@), None => None }, toll_id, station_in_for_out),
{
    match direction {
        Some(d) => {
            let t = text(d);
            if t == text("I") {
                (toll_id, None)
            } else if t == text("O") {
                (station_in_for_out, toll_id)
            } else {
                (None, None)
            }
        },
        None => (None, None),
    }
}

/// The status of a reply as text: its decimal digits, or `0` when it has none.
pub fn response_status_text(status: Option<i32>) -> (r: String)
    ensures
        r@ == match status {
            Some(s) => decimal_text(s as int),
            None => "0"@,
        },
{
    match status {
        Some(s) => i32_to_string(s),
        None => text("0"),
    }
}

/// The length a request announces where it is positive and within the bytes received,
/// otherwise the number of bytes received.
pub fn effective_message_len(message_length: i32, data_len: usize) -> (r: usize)
    ensures
        r == (if message_length <= 0 || message_length as int > data_len as int { data_len as int } else { message_length as int }),
{
    if message_length <= 0 || (message_length as u64) > (data_len as u64) {
        data_len
    } else {
        message_length as usize
    }
}

/// The number field of a request body between `start` and `end`, where the field is laid out
/// (`end > start`) and the request holds it; it must then be four bytes wide.
pub fn body_i32_field(data: &[u8], start: usize, end: usize) -> (r: Option<i64>)
    requires
        end > start && data@.len() >= end ==> end - start == 4,
    ensures
        r == (if end > start && data@.len() >= end { Some(le_i32_at(data@, start as int) as i64) } else { None }),
{
    if end > start && data.len() >= end {
        Some(read_i32_le(data, start) as i64)
    } else {
        None
    }
}

/// The text field of a request body between `start` and `end`, decoded, trailing NULs dropped,
/// where the field is laid out and the request holds it.
pub fn body_text_field(data: &[u8], start: usize, end: usize) -> (r: Option<String>)
    ensures
        match r {
            Some(s) => end > start && data@.len() >= end
                && s@ == trim_end_nul_seq(utf8_lossy(data@.subrange(start as int, end as int))),
            None => !(end > start && data@.len() >= end),
        },
{
    if end > start && data.len() >= end {
        let t = read_text(data, start, end - start);
        Some(trim_end_nul_str(t.as_str()))
    } else {
        None
    }
}

/// At an entry lane (`I`) the request's station is the entry station and there is no exit; at
/// an exit lane (`O`) it is the exit station and the entry is the one found for the trip; a
/// lane of unknown direction knows neither.
pub proof fn law_response_stations_by_direction(toll_id: Option<i64>, station_in_for_out: Option<i64>, d: Seq<char>)
    ensures
        response_toll_ids_of(Some("I"@), toll_id, station_in_for_out).0 == toll_id,
        response_toll_ids_of(Some("I"@), toll_id, station_in_for_out).1 is None,
        response_toll_ids_of(Some("O"@), toll_id, station_in_for_out).0 == station_in_for_out,
        response_toll_ids_of(Some("O"@), toll_id, station_in_for_out).1 == toll_id,
        d != "I"@ && d != "O"@ ==> response_toll_ids_of(Some(d), toll_id, station_in_for_out) == (None::<i64>, None::<i64>),
        response_toll_ids_of(None, toll_id, station_in_for_out) == (None::<i64>, None::<i64>),
{
    reveal_strlit("I");
    reveal_strlit("O");
    assert("I"@[0] != "O"@[0]);
}

} // verus!
