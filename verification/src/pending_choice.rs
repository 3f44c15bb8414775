//! Which pending entry transaction of a tag a checkout continues: the one synchronised from
//! another operator or the one of the back-end's own table, by their times.

use vstd::prelude::*;
use crate::etdr_build::text;
use crate::text::{is_blank, trim_seq, trim_str};

verus! {

/// Name for what `chrono::NaiveDateTime::parse_from_str(s, fmt)` followed by
/// `.and_utc().timestamp_millis()` gives (`None` where the text does not parse).
pub uninterp spec fn naive_utc_millis(s: Seq<char>, fmt: Seq<char>) -> Option<i64>;

/// Wraps `chrono::NaiveDateTime::parse_from_str(s, fmt)`, read as UTC and given in
/// milliseconds since the epoch (`and_utc().timestamp_millis()`), a parse error mapped to
/// `None`. The result depends on `s` and `fmt` alone; which texts parse is left to the name.
#[verifier::external_body]
pub(crate) fn parse_naive_utc_millis(s: &str, fmt: &str) -> (r: Option<i64>)
    ensures
        r == naive_utc_millis(s@, fmt@),
{
    chrono::NaiveDateTime::parse_from_str(s, fmt).ok().map(|dt| dt.and_utc().timestamp_millis())
}

/// The layout of the store's date and time texts.
pub open spec fn db_datetime_format() -> Seq<char> {
    "%Y-%m-%d %H:%M:%S"@
}

/// Name for the text `chrono::DateTime::from_timestamp_millis(ms)` gives, formatted with
/// `fmt` (`None` where the time is out of chrono's range).
pub uninterp spec fn utc_millis_text(ms: i64, fmt: Seq<char>) -> Option<Seq<char>>;

/// Wraps `chrono::DateTime::from_timestamp_millis(ms)` formatted with `fmt`
/// (`.format(fmt).to_string()`), `None` where the time is out of range. The format must be the
/// store's, which chrono formats without error. The text depends on `ms` and `fmt` alone; what
/// it is is left to the name.
#[verifier::external_body]
pub(crate) fn format_utc_millis(ms: i64, fmt: &str) -> (r: Option<String>)
    requires
        fmt@ == db_datetime_format(),
    ensures
        match r {
            Some(t) => utc_millis_text(ms, fmt@) == Some(t@),
            None => utc_millis_text(ms, fmt@) is None,
        },
{
    chrono::DateTime::from_timestamp_millis(ms).map(|dt| dt.format(fmt).to_string())
}

/// The time of a store text in milliseconds: `0` where it is absent, blank or does not parse.
pub open spec fn datetime_ms_of(s: Option<String>) -> i64 {
    match s {
        Some(t) => if trim_seq(t@).len() == 0 {
            0
        } else {
            match naive_utc_millis(trim_seq(t@), db_datetime_format()) {
                Some(ms) => ms,
                None => 0,
            }
        },
        None => 0,
    }
}

/// The time of a store text in milliseconds (see [`datetime_ms_of`]).
pub fn parse_datetime_to_ms(s: Option<&String>) -> (r: i64)
    ensures
        r == datetime_ms_of(match s { Some(t) => Some(*t), None => None }),
{
    match s {
        Some(x) => {
            if is_blank(x.as_str()) {
                0
            } else {
                let fmt = text("%Y-%m-%d %H:%M:%S");
                let t = trim_str(x.as_str());
                match parse_naive_utc_millis(t.as_str(), fmt.as_str()) {
                    Some(ms) => ms,
                    None => 0,
                }
            }
        },
        None => 0,
    }
}

/// The time of a pending record: the later of its checkin time and its insertion time.
pub fn record_time_ms(checkin_datetime: Option<&String>, insert_datetime: Option<&String>) -> (r: i64)
    ensures
        ({
            let a = datetime_ms_of(match checkin_datetime { Some(t) => Some(*t), None => None });
            let b = datetime_ms_of(match insert_datetime { Some(t) => Some(*t), None => None });
            r == if a >= b { a } else { b }
        }),
{
    let a = parse_datetime_to_ms(checkin_datetime);
    let b = parse_datetime_to_ms(insert_datetime);
    if a >= b { a } else { b }
}

/// The pending record a checkout continues.
#[derive(Debug, Clone, Copy, PartialEq, Eq, Structural)]
pub enum PendingChoice {
    /// The record synchronised from another operator.
    Sync,
    /// The record of the back-end's own table.
    Main,
    /// Neither.
    Neither,
}

/// The choice between the synchronised record (`sync`: its id and time) and the own record
/// (`main`: the synchronised id it came from, if any, and its time): the own record where it
/// came from that very synchronised record, or where it is no more than `window_ms` older than
/// the synchronised one; else the synchronised record where there is one.
pub open spec fn pending_choice_of(sync: Option<(i64, i64)>, main: Option<(Option<i64>, i64)>, window_ms: i64) -> PendingChoice {
    match main {
        Some((from_sync, ts_main)) => {
            let ts_sync = match sync { Some((_, t)) => t, None => 0 };
            if sync matches Some((id, _)) && from_sync == Some(id) {
                PendingChoice::Main
            } else if ts_main + window_ms > ts_sync {
                PendingChoice::Main
            } else if sync is Some {
                PendingChoice::Sync
            } else {
                PendingChoice::Neither
            }
        },
        None => if sync is Some { PendingChoice::Sync } else { PendingChoice::Neither },
    }
}

/// The choice between the synchronised and the own pending record (see
/// [`pending_choice_of`]).
pub fn choose_pending(sync: Option<(i64, i64)>, main: Option<(Option<i64>, i64)>, window_ms: i64) -> (r: PendingChoice)
    requires
        main matches Some((_, ts)) ==> i64::MIN <= ts + window_ms <= i64::MAX,
    ensures
        r == pending_choice_of(sync, main, window_ms),
{
    match main {
        Some((from_sync, ts_main)) => {
            let ts_sync: i64 = match sync {
                Some((_, t)) => t,
                None => 0,
            };
            let same = match (sync, from_sync) {
                (Some((id, _)), Some(f)) => f == id,
                _ => false,
            };
            if same {
                PendingChoice::Main
            } else if ts_main + window_ms > ts_sync {
                PendingChoice::Main
            } else if sync.is_some() {
                PendingChoice::Sync
            } else {
                PendingChoice::Neither
            }
        },
        None => if sync.is_some() { PendingChoice::Sync } else { PendingChoice::Neither },
    }
}

/// An own record that came from the synchronised one is always chosen, and so is one no more
/// than the window older than it; without an own record the synchronised one is chosen where
/// there is one; nothing is chosen only where there is no synchronised record, or no own
/// record either.
pub proof fn law_pending_choice(sync: Option<(i64, i64)>, main: Option<(Option<i64>, i64)>, window_ms: i64)
    ensures
        (sync is Some && main is Some && (main->0).0 == Some((sync->0).0)) ==> pending_choice_of(sync, main, window_ms) == PendingChoice::Main,
        (sync is Some && main is Some && (main->0).1 + window_ms > (sync->0).1) ==> pending_choice_of(sync, main, window_ms) == PendingChoice::Main,
        main is None ==> pending_choice_of(sync, main, window_ms) == (if sync is Some { PendingChoice::Sync } else { PendingChoice::Neither }),
        pending_choice_of(sync, main, window_ms) == PendingChoice::Sync ==> sync is Some,
        pending_choice_of(sync, main, window_ms) == PendingChoice::Main ==> main is Some,
        pending_choice_of(sync, main, window_ms) == PendingChoice::Neither ==> sync is None,
{
}

} // verus!
