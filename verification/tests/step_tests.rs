use etc_middleware::commit_rules::LaneDirection;
use etc_middleware::request_steps::{
    bect_checkin_step, checkout_reserve_step, validate_request, BectCheckinAction, BectCheckinConfig, BectCheckinEvent, BectCheckinState,
    BectReplyStatus, RequestError, ReserveAction, ReserveEvent, ReserveState,
};

fn cfg() -> BectCheckinConfig {
    BectCheckinConfig { skip_account_check: false, allow_zero_fee: false, min_balance_open_only: true, minimum_balance: 10_000 }
}

#[test]
fn request_checks() {
    let table = [(0x66, 106usize), (0x68, 98usize)];
    assert_eq!(validate_request(&table, 0x99, 200), Err(RequestError::InvalidCommand { command_id: 0x99 }));
    assert_eq!(validate_request(&table, 0x66, 4), Err(RequestError::TooShortForHeader { len: 4 }));
    assert_eq!(validate_request(&table, 0x66, 100), Err(RequestError::TooShort { len: 100, min_len: 106 }));
    assert_eq!(validate_request(&table, 0x66, 106), Ok(106));
    assert_eq!(validate_request(&table, 0x68, 98), Ok(98));
}

#[test]
fn exit_lane_invalid_record_writes_nothing() {
    let c = cfg();
    let (s, a) = bect_checkin_step(&c, BectCheckinState::Start, BectCheckinEvent::Started { lane: LaneDirection::Out, open_station: false });
    assert_eq!(a, BectCheckinAction::LookUpSubscriber);
    let (s, a) = bect_checkin_step(&c, s, BectCheckinEvent::SubscriberLooked { account: Some(5) });
    assert_eq!(a, BectCheckinAction::ResolvePendingRecord);
    let (s2, a2) = bect_checkin_step(&c, s, BectCheckinEvent::PendingResolved { found: Some(true) });
    assert_eq!(s2, BectCheckinState::Done);
    assert_eq!(a2, BectCheckinAction::Reply { status: BectReplyStatus::NotFoundRouteTransaction });
}

#[test]
fn exit_lane_checkout_written_then_account_error() {
    let c = cfg();
    let s = BectCheckinState::AwaitPending { account: None };
    let (s, a) = bect_checkin_step(&c, s, BectCheckinEvent::PendingResolved { found: Some(false) });
    assert_eq!(a, BectCheckinAction::CalculateFee);
    let (s, a) = bect_checkin_step(&c, s, BectCheckinEvent::FeeCalculated { ok: true });
    assert_eq!(a, BectCheckinAction::SaveCheckout { status: BectReplyStatus::SubscriberNotFound });
    let (s, a) = bect_checkin_step(&c, s, BectCheckinEvent::CheckoutSaved);
    assert_eq!(s, BectCheckinState::Done);
    assert_eq!(a, BectCheckinAction::Reply { status: BectReplyStatus::SubscriberNotFound });
    let (_, a) = bect_checkin_step(&c, BectCheckinState::AwaitFee { account: Some(3) }, BectCheckinEvent::FeeCalculated { ok: false });
    assert_eq!(a, BectCheckinAction::Reply { status: BectReplyStatus::NotFoundPriceInfo });
}

#[test]
fn entry_lane_balance_and_save() {
    let c = cfg();
    let s = BectCheckinState::AwaitSubscriber { out_lane: false, open_station: true };
    let (s1, a) = bect_checkin_step(&c, s, BectCheckinEvent::SubscriberLooked { account: Some(8) });
    assert_eq!(a, BectCheckinAction::CheckMinimumBalance);
    let (_, a) = bect_checkin_step(&c, s1, BectCheckinEvent::BalanceChecked { enough: false });
    assert_eq!(a, BectCheckinAction::Reply { status: BectReplyStatus::AccountNotEnoughMoney });
    let closed = BectCheckinState::AwaitSubscriber { out_lane: false, open_station: false };
    let (s2, a) = bect_checkin_step(&c, closed, BectCheckinEvent::SubscriberLooked { account: Some(8) });
    assert_eq!(a, BectCheckinAction::SaveCheckin);
    let (_, a) = bect_checkin_step(&c, s2, BectCheckinEvent::CheckinSaved { check: 0 });
    assert_eq!(a, BectCheckinAction::Reply { status: BectReplyStatus::Check { check: 0 } });
    let (s3, a) = bect_checkin_step(&c, s2, BectCheckinEvent::CheckoutSaved);
    assert_eq!(s3, s2);
    assert_eq!(a, BectCheckinAction::Ignore);
}

#[test]
fn reservation_steps() {
    let c = BectCheckinConfig { allow_zero_fee: true, ..cfg() };
    let (s, a) = checkout_reserve_step(&c, ReserveState::Start, ReserveEvent::Started);
    assert_eq!(a, ReserveAction::ResolvePendingRecord);
    let (_, a) = checkout_reserve_step(&c, s, ReserveEvent::PendingResolved { found: None });
    assert_eq!(a, ReserveAction::Reply { status: BectReplyStatus::NotFoundRouteTransaction });
    let (s, _) = checkout_reserve_step(&c, s, ReserveEvent::PendingResolved { found: Some(false) });
    let (s, a) = checkout_reserve_step(&c, s, ReserveEvent::FeeCalculated { ok: false });
    assert_eq!(a, ReserveAction::LookUpSubscriber);
    let (s, a) = checkout_reserve_step(&c, s, ReserveEvent::SubscriberLooked { account: Some(0) });
    assert_eq!(a, ReserveAction::SaveCheckout { status: BectReplyStatus::AccountIsNotActive });
    let (_, a) = checkout_reserve_step(&c, s, ReserveEvent::CheckoutSaved);
    assert_eq!(a, ReserveAction::Reply { status: BectReplyStatus::AccountIsNotActive });
}
