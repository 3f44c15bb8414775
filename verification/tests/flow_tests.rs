use etc_middleware::checkin_flow::{pending_ticket_of, apply_subscriber, fill_checkin_resp, min_balance_check_applies, record_checkin_save, CheckinSaveOutcome};
use etc_middleware::checkout_cleanup::{cleanup_step, CleanupProbe, CleanupStep};
use etc_middleware::commit_rules::{
    checkin_commit_fields, checkin_commit_refused, checkout_commit_proceeds, checkout_commit_record, checkout_commit_refused,
    checkout_commit_target, commit_in_outcome, is_duplicate_ticket_in, direction_letter, duplicate_check_ticket, find_lane_index, get_direction_from_lane, lane_direction,
    mark_checkin_committed, CommitInOutcome, LaneDirection, StageLookup,
};
use etc_middleware::etdr_types::ETDR;
use etc_middleware::pending_choice::{choose_pending, parse_datetime_to_ms, record_time_ms, PendingChoice};
use etc_middleware::tcoc_messages::{FE_CHECKIN_IN_RESP, FE_COMMIT_IN};
use etc_middleware::toll_types::TOLL_LANE;
use etc_middleware::vehicle_lookup::{lookup_vehicle_outcome, query_vehicle_subscriber_fields, stage_has_checkout, LookupOutcome, LookupStage};

fn lane(code: i32, lane_type: &str) -> TOLL_LANE {
    TOLL_LANE { lane_code: code, lane_type: lane_type.to_string(), ..Default::default() }
}

fn open_record(ticket: i64) -> ETDR {
    let mut e = ETDR::new();
    e.ticket_id = ticket;
    e.checkin_datetime = 100;
    e
}

#[test]
fn lane_directions() {
    assert_eq!(lane_direction("1"), LaneDirection::In);
    assert_eq!(lane_direction("2"), LaneDirection::Out);
    assert_eq!(lane_direction(" 1"), LaneDirection::Unknown);
    assert_eq!(direction_letter(LaneDirection::In).as_deref(), Some("I"));
    assert_eq!(direction_letter(LaneDirection::Out).as_deref(), Some("O"));
    assert_eq!(direction_letter(LaneDirection::Unknown), None);
}

#[test]
fn lane_lookup_takes_first() {
    let lanes = vec![lane(3, "1"), lane(5, "2"), lane(5, "1")];
    assert_eq!(find_lane_index(&lanes, 5), Some(1));
    assert_eq!(find_lane_index(&lanes, 3), Some(0));
    assert_eq!(find_lane_index(&lanes, 9), None);
    assert_eq!(find_lane_index(&[], 1), None);
}

#[test]
fn commit_in_decisions() {
    let e = open_record(42);
    let open = StageLookup::Open { ticket_in_id: Some(7) };
    assert_eq!(commit_in_outcome(None, Some(&e), open, None), CommitInOutcome::StationLaneNotFound);
    assert_eq!(commit_in_outcome(Some(LaneDirection::Unknown), Some(&e), open, None), CommitInOutcome::StationLaneNotFound);
    assert_eq!(commit_in_outcome(Some(LaneDirection::Out), Some(&e), open, None), CommitInOutcome::RouteTransactionNotFound);
    assert_eq!(commit_in_outcome(Some(LaneDirection::In), None, open, None), CommitInOutcome::RouteTransactionNotFound);
    assert_eq!(
        commit_in_outcome(Some(LaneDirection::In), Some(&e), StageLookup::AlreadyCommitted, None),
        CommitInOutcome::RouteTransactionNotFound
    );
    assert_eq!(
        commit_in_outcome(Some(LaneDirection::In), Some(&e), StageLookup::Missing, None),
        CommitInOutcome::RouteTransactionNotFound
    );
    assert_eq!(commit_in_outcome(Some(LaneDirection::In), Some(&e), open, Some(11)), CommitInOutcome::Duplicate { status: 11 });
    assert_eq!(commit_in_outcome(Some(LaneDirection::In), Some(&e), open, None), CommitInOutcome::Commit { transport_trans_id: 42 });
    let mut committed = open_record(42);
    committed.checkin_commit_datetime = 5;
    assert!(checkin_commit_refused(&committed));
    assert_eq!(
        commit_in_outcome(Some(LaneDirection::In), Some(&committed), open, None),
        CommitInOutcome::RouteTransactionNotFound
    );
    assert_eq!(duplicate_check_ticket(open), Some(7));
    assert_eq!(duplicate_check_ticket(StageLookup::Open { ticket_in_id: Some(0) }), None);
    assert_eq!(duplicate_check_ticket(StageLookup::Missing), None);
}

#[test]
fn commit_fields_and_marks() {
    let f = FE_COMMIT_IN { weight: 0, reason_id: 3, image_count: 2, ..Default::default() };
    let c = checkin_commit_fields(&f);
    assert_eq!(c.fe_weight, None);
    assert_eq!(c.fe_reason_id, Some(3));
    assert_eq!(c.img_count, Some(2));
    assert_eq!(c.checkin_status, "2");
    assert_eq!(c.checkin_pass, "P");
    let mut e = open_record(1);
    mark_checkin_committed(&mut e, 900, false);
    assert_eq!(e.checkin_commit_datetime, 900);
    assert_eq!(e.time_route_checkin_commit, 900);
    assert_eq!(e.time_update, 900);
    assert!(!e.db_saved);
    mark_checkin_committed(&mut e, 901, true);
    assert!(e.db_saved);
}

#[test]
fn checkout_commit_decisions() {
    let mut e = open_record(8);
    assert_eq!(checkout_commit_target(5, Some(&e)), 5);
    assert_eq!(checkout_commit_target(0, Some(&e)), 8);
    assert_eq!(checkout_commit_target(0, None), 0);
    assert!(checkout_commit_refused(&e));
    e.checkout_datetime = 10;
    e.checkin_commit_datetime = 9;
    assert!(!checkout_commit_refused(&e));
    assert!(checkout_commit_proceeds(8, Some(&e), true));
    assert!(!checkout_commit_proceeds(8, Some(&e), false));
    assert!(!checkout_commit_proceeds(0, Some(&e), true));
    assert!(!checkout_commit_proceeds(8, None, true));
    assert_eq!(checkout_commit_record(None, Some(open_record(8)), 8).unwrap().ticket_id, 8);
    assert!(checkout_commit_record(None, Some(open_record(9)), 8).is_none());
    assert_eq!(checkout_commit_record(Some(open_record(1)), Some(open_record(8)), 8).unwrap().ticket_id, 1);
}

#[test]
fn cleanup_steps() {
    assert_eq!(cleanup_step(0, 3, 100, CleanupProbe::CommitPersisted, None, 0, 300_000), CleanupStep::Clear);
    assert_eq!(cleanup_step(0, 3, 100, CleanupProbe::RecordMissing, None, 0, 300_000), CleanupStep::RetryAfter { delay_ms: 100 });
    assert_eq!(cleanup_step(2, 3, 100, CleanupProbe::CommitNotPersisted, None, 0, 300_000), CleanupStep::RetryAfter { delay_ms: 300 });
    assert_eq!(cleanup_step(3, 3, 100, CleanupProbe::CommitNotPersisted, None, 0, 300_000), CleanupStep::Skip);
    assert_eq!(cleanup_step(3, 3, 100, CleanupProbe::CommitNotPersisted, Some(1_000), 301_000, 300_000), CleanupStep::Clear);
    assert_eq!(cleanup_step(3, 3, 100, CleanupProbe::CommitNotPersisted, Some(1_000), 300_999, 300_000), CleanupStep::Skip);
}

#[test]
fn min_balance_applies() {
    assert!(min_balance_check_applies(5, false, false, "C", 1000));
    assert!(!min_balance_check_applies(0, false, false, "C", 1000));
    assert!(!min_balance_check_applies(5, true, false, "C", 1000));
    assert!(!min_balance_check_applies(5, false, true, "C", 1000));
    assert!(min_balance_check_applies(5, false, true, " o", 1000));
    assert!(!min_balance_check_applies(5, false, false, "C", 0));
}

#[test]
fn subscriber_and_save_marks() {
    let mut e = ETDR::new();
    apply_subscriber(&mut e, 11, 22, 33, 0);
    assert_eq!((e.sub_id, e.account_id, e.vehicle_id, e.etag_key), (11, 22, 33, None));
    apply_subscriber(&mut e, (1i64 << 32) + 4, 1, 1, 9);
    assert_eq!(e.sub_id, 4);
    assert_eq!(e.etag_key, Some(9));
    record_checkin_save(&mut e, CheckinSaveOutcome::Verified);
    assert!(e.db_saved);
    record_checkin_save(&mut e, CheckinSaveOutcome::VerifyFailed { check: 7 });
    assert!(!e.db_saved);
    assert_eq!(e.check, 7);
    assert_eq!(e.db_save_retry_count, 1);
    record_checkin_save(&mut e, CheckinSaveOutcome::SaveFailed { check: 8 });
    assert_eq!(e.check, 8);
    assert_eq!(e.db_save_retry_count, 2);
}

#[test]
fn checkin_reply_fields() {
    let mut e = ETDR::new();
    e.check = 3;
    e.price = 50;
    e.vehicle_type = "4".to_string();
    e.plate = "  ".to_string();
    e.plate_status = 2;
    e.price_ticket_type = 6;
    let mut r = FE_CHECKIN_IN_RESP { station: 77, ..Default::default() };
    fill_checkin_resp(&mut r, &e, 1234, Some(" SUB "));
    assert_eq!(r.status, 3);
    assert_eq!(r.ticket_id, 1234);
    assert_eq!(r.ticket_type, 1);
    assert_eq!(r.price, 50);
    assert_eq!(r.vehicle_type, 4);
    assert_eq!(r.plate, " SUB ");
    assert_eq!(r.plate_type, 2);
    assert_eq!(r.price_ticket_type, 6);
    assert_eq!(r.station, 77);
    fill_checkin_resp(&mut r, &e, 1, None);
    assert_eq!(r.plate, "NOPLATE");
    e.plate = "P1".to_string();
    fill_checkin_resp(&mut r, &e, 1, Some("S"));
    assert_eq!(r.plate, "P1");
}

#[test]
fn vehicle_lookup_outcomes() {
    assert!(!stage_has_checkout(Some(0), None, Some(&"  ".to_string())));
    assert!(stage_has_checkout(Some(3), None, None));
    assert!(stage_has_checkout(None, Some(&"2024-01-01".to_string()), None));
    assert_eq!(lookup_vehicle_outcome(&None), LookupOutcome::NotFoundTollTransaction);
    let base = LookupStage {
        checkin_commit_datetime: Some("2024-01-01 00:00:00".to_string()),
        checkout_toll_id: None,
        checkout_datetime: None,
        checkout_commit_datetime: None,
        plate: None,
        checkin_plate: Some(" 51A ".to_string()),
        vehicle_type: Some(" 3 ".to_string()),
    };
    assert_eq!(
        lookup_vehicle_outcome(&Some(base.clone())),
        LookupOutcome::Found { plate: "51A".to_string(), vehicle_type: 3 }
    );
    let uncommitted = LookupStage { checkin_commit_datetime: Some(" ".to_string()), ..base.clone() };
    assert_eq!(lookup_vehicle_outcome(&Some(uncommitted)), LookupOutcome::NotFoundLaneTransaction);
    let out = LookupStage { checkout_toll_id: Some(9), ..base.clone() };
    assert_eq!(lookup_vehicle_outcome(&Some(out)), LookupOutcome::NotFoundRouteTransaction);
    let blank = LookupStage { plate: Some("  ".to_string()), vehicle_type: Some("x".to_string()), ..base };
    assert_eq!(
        lookup_vehicle_outcome(&Some(blank)),
        LookupOutcome::Found { plate: "NOPLATE".to_string(), vehicle_type: 1 }
    );
    assert_eq!(query_vehicle_subscriber_fields(" 29C ", "2"), ("29C".to_string(), 2));
    assert_eq!(query_vehicle_subscriber_fields("", " 2"), ("NOPLATE".to_string(), 1));
}

#[test]
fn datetimes_and_pending_choice() {
    assert_eq!(parse_datetime_to_ms(None), 0);
    assert_eq!(parse_datetime_to_ms(Some(&"  ".to_string())), 0);
    assert_eq!(parse_datetime_to_ms(Some(&"not a date".to_string())), 0);
    assert_eq!(parse_datetime_to_ms(Some(&" 1970-01-01 00:00:01 ".to_string())), 1000);
    assert_eq!(parse_datetime_to_ms(Some(&"2024-01-01 00:00:00".to_string())), 1_704_067_200_000);
    assert_eq!(
        record_time_ms(Some(&"1970-01-01 00:00:02".to_string()), Some(&"1970-01-01 00:00:05".to_string())),
        5000
    );
    assert_eq!(choose_pending(None, None, 5000), PendingChoice::Neither);
    assert_eq!(choose_pending(Some((1, 100)), None, 5000), PendingChoice::Sync);
    assert_eq!(choose_pending(Some((1, 100_000)), Some((Some(1), 0)), 5000), PendingChoice::Main);
    assert_eq!(choose_pending(Some((1, 100_000)), Some((None, 96_000)), 5000), PendingChoice::Main);
    assert_eq!(choose_pending(Some((1, 100_000)), Some((Some(2), 95_000)), 5000), PendingChoice::Sync);
    assert_eq!(choose_pending(None, Some((None, 0)), 5000), PendingChoice::Main);
}

#[test]
fn duplicate_and_pending_tickets() {
    assert!(!is_duplicate_ticket_in(0, 5, Some(6)));
    assert!(is_duplicate_ticket_in(9, 5, Some(6)));
    assert!(!is_duplicate_ticket_in(9, 5, Some(5)));
    assert!(!is_duplicate_ticket_in(9, 5, None));
    let e = open_record(12);
    assert_eq!(pending_ticket_of(Some(&e)), Some(12));
    let mut out = open_record(12);
    out.toll_out = 4;
    assert_eq!(pending_ticket_of(Some(&out)), None);
    assert_eq!(pending_ticket_of(Some(&open_record(0))), None);
    assert_eq!(pending_ticket_of(None), None);
}

#[test]
fn direction_from_station_lanes() {
    let lanes = vec![lane(3, " 1 "), lane(5, "2"), lane(5, "1"), lane(7, "9")];
    assert_eq!(get_direction_from_lane(Some(10), Some(3), &lanes).as_deref(), Some("I"));
    assert_eq!(get_direction_from_lane(Some(10), Some(5), &lanes).as_deref(), Some("O"));
    assert_eq!(get_direction_from_lane(Some(10), Some(7), &lanes), None);
    assert_eq!(get_direction_from_lane(Some(10), Some(8), &lanes), None);
    assert_eq!(get_direction_from_lane(None, Some(3), &lanes), None);
    assert_eq!(get_direction_from_lane(Some(10), None, &lanes), None);
    assert_eq!(get_direction_from_lane(Some(1 << 40), Some(3), &lanes), None);
    assert_eq!(get_direction_from_lane(Some(10), Some((1 << 32) + 3), &lanes), None);
}
