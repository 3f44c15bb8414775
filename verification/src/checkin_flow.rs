//! Decisions of a checkin at an entry lane of the back-end's own network: whether the minimum
//! balance is checked, what the record learns from the subscriber, what a save to the store
//! leaves in the record, and what the reply to the lane carries.

use vstd::prelude::*;
use crate::checkin_rules::plate_sentinel;
use crate::checkout_rules::{normalize_station_type, station_type_of};
use crate::etdr_types::ETDR;
use crate::numtext::{i32_or, parse_i32_or};
use crate::tcoc_messages::FE_CHECKIN_IN_RESP;
use crate::checkin_rules::plate_empty_sentinel;
use crate::etdr_build::text;
use crate::text::{is_blank, trim_seq};

verus! {

/// Whether the minimum balance is checked at checkin: for a known account (positive id), unless
/// account checks are switched off, at any station or only at open ones (`O`) when so
/// configured, and only when a positive minimum is set.
pub open spec fn min_balance_check_applies_of(account_id: i64, skip_account_check: bool, open_only: bool, toll_type: Seq<char>, minimum_balance: i64) -> bool {
    &&& account_id > 0
    &&& !skip_account_check
    &&& (!open_only || station_type_of(toll_type) == "O"@)
    &&& minimum_balance > 0
}

/// Whether the minimum balance is checked at checkin (see [`min_balance_check_applies_of`]).
pub fn min_balance_check_applies(account_id: i64, skip_account_check: bool, open_only: bool, toll_type: &str, minimum_balance: i64) -> (r: bool)
    ensures
        r == min_balance_check_applies_of(account_id, skip_account_check, open_only, toll_type@, minimum_balance),
{
    if account_id <= 0 || skip_account_check {
        return false;
    }
    let open_station = normalize_station_type(toll_type) == text("O");
    (!open_only || open_station) && minimum_balance > 0
}

/// The ticket of a pending checkin of a tag, from the latest record found for it: its ticket
/// where it is not checked out (no exit station, no checkout time) and has one.
pub fn pending_ticket_of(latest: Option<&ETDR>) -> (r: Option<i64>)
    ensures
        r == (match latest {
            Some(e) => if e.toll_out == 0 && e.checkout_datetime == 0 && e.ticket_id != 0 { Some(e.ticket_id) } else { None },
            None => None,
        }),
{
    match latest {
        Some(e) => if e.toll_out == 0 && e.checkout_datetime == 0 && e.ticket_id != 0 { Some(e.ticket_id) } else { None },
        None => None,
    }
}

/// `new` is `old` with the subscriber's subscriber, account and vehicle ids (their low 32 bits)
/// and its tag id where it is not zero.
pub open spec fn subscriber_applied(old: ETDR, new: ETDR, subscriber_id: i64, account_id: i64, vehicle_id: i64, etag_id: i64) -> bool {
    new == ETDR {
        sub_id: subscriber_id as i32,
        account_id: account_id as i32,
        vehicle_id: vehicle_id as i32,
        etag_key: if etag_id != 0 { Some(etag_id as i32) } else { None },
        ..old
    }
}

/// Copies the subscriber's identifiers into the record (see [`subscriber_applied`]).
pub fn apply_subscriber(etdr: &mut ETDR, subscriber_id: i64, account_id: i64, vehicle_id: i64, etag_id: i64)
    ensures
        subscriber_applied(*old(etdr), *final(etdr), subscriber_id, account_id, vehicle_id, etag_id),
{
    etdr.sub_id = subscriber_id as i32;
    etdr.account_id = account_id as i32;
    etdr.vehicle_id = vehicle_id as i32;
    etdr.etag_key = if etag_id != 0 { Some(etag_id as i32) } else { None };
}

/// How saving the new transaction to the store went.
#[derive(Debug, Clone, Copy, PartialEq, Eq, Structural)]
pub enum CheckinSaveOutcome {
    /// Saved and read back.
    Verified,
    /// Saved but not read back; the record carries `check`.
    VerifyFailed { check: i32 },
    /// Not saved; the record carries `check`.
    SaveFailed { check: i32 },
}

/// `new` is `old` after a save to the store: marked saved where it was read back; otherwise
/// marked unsaved, with the failure's status and one more failed attempt.
pub open spec fn save_recorded(old: ETDR, new: ETDR, outcome: CheckinSaveOutcome) -> bool {
    match outcome {
        CheckinSaveOutcome::Verified => new == ETDR { db_saved: true, ..old },
        CheckinSaveOutcome::VerifyFailed { check } => new == ETDR {
            check,
            db_saved: false,
            db_save_retry_count: (old.db_save_retry_count + 1) as i32,
            ..old
        },
        CheckinSaveOutcome::SaveFailed { check } => new == ETDR {
            check,
            db_saved: false,
            db_save_retry_count: (old.db_save_retry_count + 1) as i32,
            ..old
        },
    }
}

/// Records in the record how its save went (see [`save_recorded`]); the count of failed
/// attempts must have room for one more where the save failed.
pub fn record_checkin_save(etdr: &mut ETDR, outcome: CheckinSaveOutcome)
    requires
        outcome != CheckinSaveOutcome::Verified ==> old(etdr).db_save_retry_count < i32::MAX,
    ensures
        save_recorded(*old(etdr), *final(etdr), outcome),
{
    match outcome {
        CheckinSaveOutcome::Verified => {
            etdr.db_saved = true;
        },
        CheckinSaveOutcome::VerifyFailed { check } => {
            etdr.check = check;
            etdr.db_saved = false;
            etdr.db_save_retry_count = etdr.db_save_retry_count + 1;
        },
        CheckinSaveOutcome::SaveFailed { check } => {
            etdr.check = check;
            etdr.db_saved = false;
            etdr.db_save_retry_count = etdr.db_save_retry_count + 1;
        },
    }
}

/// The plate of a checkin reply: the record's where not blank, else the subscriber's (as it
/// is) where not blank, else the sentinel.
pub open spec fn checkin_resp_plate_of(etdr_plate: Seq<char>, subscriber_plate: Option<Seq<char>>) -> Seq<char> {
    if trim_seq(etdr_plate).len() > 0 {
        etdr_plate
    } else if subscriber_plate matches Some(s) && trim_seq(s).len() > 0 {
        subscriber_plate->0
    } else {
        plate_sentinel()
    }
}

/// What a checkin reply takes from the record: its check status, the transaction's ticket,
/// ticket type `1` (not rated yet), price, vehicle type (`1` where it does not parse), plate
/// (see [`checkin_resp_plate_of`]), plate status and price ticket type.
pub open spec fn checkin_resp_filled(old: FE_CHECKIN_IN_RESP, new: FE_CHECKIN_IN_RESP, e: ETDR, ticket_id: i64, subscriber_plate: Option<Seq<char>>) -> bool {
    &&& new == FE_CHECKIN_IN_RESP {
        status: e.check,
        ticket_id,
        ticket_type: 1,
        price: e.price,
        vehicle_type: i32_or(e.vehicle_type@, 1),
        plate: new.plate,
        plate_type: e.plate_status,
        price_ticket_type: e.price_ticket_type,
        ..old
    }
    &&& new.plate@ == checkin_resp_plate_of(e.plate@, subscriber_plate)
}

/// Fills a checkin reply from the record (see [`checkin_resp_filled`]).
pub fn fill_checkin_resp(fe_resp: &mut FE_CHECKIN_IN_RESP, etdr: &ETDR, ticket_id: i64, subscriber_plate: Option<&str>)
    ensures
        checkin_resp_filled(*old(fe_resp), *final(fe_resp), *etdr, ticket_id,
            match subscriber_plate { Some(s) => Some(s@), None => None }),
{
    fe_resp.status = etdr.check;
    fe_resp.ticket_id = ticket_id;
    fe_resp.ticket_type = 1;
    fe_resp.price = etdr.price;
    fe_resp.vehicle_type = parse_i32_or(etdr.vehicle_type.as_str(), 1);
    fe_resp.plate = if !is_blank(etdr.plate.as_str()) {
        etdr.plate.clone()
    } else {
        match subscriber_plate {
            Some(s) => if !is_blank(s) { text(s) } else { plate_empty_sentinel() },
            None => plate_empty_sentinel(),
        }
    };
    fe_resp.plate_type = etdr.plate_status;
    fe_resp.price_ticket_type = etdr.price_ticket_type;
}

/// A checkin reply carries the record's check as its status, the transaction's ticket, ticket
/// type 1, the record's price as its price (and not as anything else), its plate status and
/// price ticket type, and a plate taken first from the record, then from the subscriber; the
/// header, tag, station and lane of the reply stay.
pub proof fn law_checkin_reply_takes_record(old: FE_CHECKIN_IN_RESP, new: FE_CHECKIN_IN_RESP, e: ETDR, ticket_id: i64, subscriber_plate: Option<Seq<char>>)
    requires
        checkin_resp_filled(old, new, e, ticket_id, subscriber_plate),
    ensures
        new.status == e.check,
        new.ticket_id == ticket_id,
        new.ticket_type == 1,
        new.price == e.price,
        new.vehicle_type == i32_or(e.vehicle_type@, 1),
        new.plate_type == e.plate_status,
        new.price_ticket_type == e.price_ticket_type,
        trim_seq(e.plate@).len() > 0 ==> new.plate@ == e.plate@,
        trim_seq(e.plate@).len() == 0 && subscriber_plate is Some && trim_seq(subscriber_plate->0).len() > 0
            ==> new.plate@ == subscriber_plate->0,
        new.message_length == old.message_length,
        new.command_id == old.command_id,
        new.request_id == old.request_id,
        new.session_id == old.session_id,
        new.etag == old.etag,
        new.station == old.station,
        new.lane == old.lane,
{
}

/// A save read back marks the record saved and changes nothing else; a failed one marks it
/// unsaved, records the failure's status and counts one more failed attempt (where the count
/// has room for it, as saving requires).
pub proof fn law_checkin_save_outcomes(old: ETDR, new: ETDR, outcome: CheckinSaveOutcome)
    requires
        save_recorded(old, new, outcome),
        old.db_save_retry_count < i32::MAX,
    ensures
        outcome == CheckinSaveOutcome::Verified ==> new.db_saved && new.check == old.check
            && new.db_save_retry_count == old.db_save_retry_count && new.ticket_id == old.ticket_id,
        outcome != CheckinSaveOutcome::Verified ==> !new.db_saved
            && new.db_save_retry_count == old.db_save_retry_count + 1 && new.ticket_id == old.ticket_id,
        outcome matches CheckinSaveOutcome::VerifyFailed { check } ==> new.check == check,
        outcome matches CheckinSaveOutcome::SaveFailed { check } ==> new.check == check,
{
}

/// The minimum balance is checked only for a known account with account checks on and a
/// positive minimum; when only open stations are checked, a closed station is never checked.
pub proof fn law_min_balance_check_scope(account_id: i64, skip_account_check: bool, open_only: bool, toll_type: Seq<char>, minimum_balance: i64)
    ensures
        min_balance_check_applies_of(account_id, skip_account_check, open_only, toll_type, minimum_balance)
            ==> account_id > 0 && !skip_account_check && minimum_balance > 0,
        open_only && station_type_of(toll_type) != "O"@
            ==> !min_balance_check_applies_of(account_id, skip_account_check, open_only, toll_type, minimum_balance),
        (account_id > 0 && !skip_account_check && minimum_balance > 0 && !open_only)
            ==> min_balance_check_applies_of(account_id, skip_account_check, open_only, toll_type, minimum_balance),
{
}

/// Applying a subscriber puts its account, subscriber and vehicle ids in their own fields, and
/// sets the tag id only where it is not zero; the rest of the record stays.
pub proof fn law_subscriber_ids_in_place(old: ETDR, new: ETDR, subscriber_id: i64, account_id: i64, vehicle_id: i64, etag_id: i64)
    requires
        subscriber_applied(old, new, subscriber_id, account_id, vehicle_id, etag_id),
        subscriber_id == subscriber_id as i32,
        account_id == account_id as i32,
        vehicle_id == vehicle_id as i32,
    ensures
        new.sub_id == subscriber_id,
        new.account_id == account_id,
        new.vehicle_id == vehicle_id,
        (new.etag_key is None) == (etag_id == 0),
        new.ticket_id == old.ticket_id,
        new.etag_id == old.etag_id,
        new.check == old.check,
{
}

} // verus!
