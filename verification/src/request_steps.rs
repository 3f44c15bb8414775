//! The decisions of the request handlers, one step at a time: whether a decrypted request is
//! taken at all, and how a back-end checkin goes from the request to the reply. The caller
//! performs each action (a store read or write, a fee calculation, a reply) and hands back what
//! came of it as the next event.

use vstd::prelude::*;
use crate::checkout_rules::{bect_account_check_of, BectAccountCheck};
use crate::commit_rules::LaneDirection;

verus! {

/// Why a decrypted request is refused before any handler sees it.
#[derive(Debug, Clone, Copy, PartialEq, Eq, Structural)]
pub enum RequestError {
    /// The command is not one the front-end may send.
    InvalidCommand { command_id: i32 },
    /// Fewer than the 8 bytes of length and command.
    TooShortForHeader { len: usize },
    /// Fewer bytes than the command's message needs.
    TooShort { len: usize, min_len: usize },
}

/// The header: message length and command.
pub const REQUEST_HEADER_LEN: usize = 8;

/// The entry of `command_id` in the protocol's table of commands and minimum lengths, if any.
pub open spec fn command_min_len(commands: Seq<(i32, usize)>, command_id: i32) -> Option<usize>
    decreases commands.len(),
{
    if commands.len() == 0 {
        None
    } else if commands[0].0 == command_id {
        Some(commands[0].1)
    } else {
        command_min_len(commands.drop_first(), command_id)
    }
}

/// Whether a request of `len` bytes for `command_id` is taken, given the protocol's table of
/// the commands the front-end may send with their minimum lengths: an unknown command is
/// refused first, then a request without a whole header, then one shorter than its command's
/// message; a request taken yields its command's minimum length.
pub open spec fn request_check_of(commands: Seq<(i32, usize)>, command_id: i32, len: usize) -> Result<usize, RequestError> {
    match command_min_len(commands, command_id) {
        None => Err(RequestError::InvalidCommand { command_id }),
        Some(min_len) => if len < REQUEST_HEADER_LEN {
            Err(RequestError::TooShortForHeader { len })
        } else if len < min_len {
            Err(RequestError::TooShort { len, min_len })
        } else {
            Ok(min_len)
        },
    }
}

/// Checks a decrypted request before dispatch (see [`request_check_of`]).
pub fn validate_request(commands: &[(i32, usize)], command_id: i32, len: usize) -> (r: Result<usize, RequestError>)
    ensures
        r == request_check_of(commands@, command_id, len),
{
    let mut i: usize = 0;
    let mut found: Option<usize> = None;
    proof {
        assert(commands@.subrange(0, commands@.len() as int) =~= commands@);
    }
    while i < commands.len()
        invariant
            i <= commands@.len(),
            found is None ==> command_min_len(commands@, command_id) == command_min_len(commands@.subrange(i as int, commands@.len() as int), command_id),
            found matches Some(m) ==> command_min_len(commands@, command_id) == Some(m),
        decreases commands@.len() - i,
    {
        if found.is_none() {
            let ghost rest = commands@.subrange(i as int, commands@.len() as int);
            proof {
                assert(rest.drop_first() =~= commands@.subrange(i + 1, commands@.len() as int));
                assert(rest[0] == commands@[i as int]);
            }
            if commands[i].0 == command_id {
                found = Some(commands[i].1);
            }
        }
        i = i + 1;
    }
    proof {
        if found is None {
            assert(commands@.subrange(commands@.len() as int, commands@.len() as int).len() == 0);
        }
    }
    match found {
        None => Err(RequestError::InvalidCommand { command_id }),
        Some(min_len) => if len < REQUEST_HEADER_LEN {
            Err(RequestError::TooShortForHeader { len })
        } else if len < min_len {
            Err(RequestError::TooShort { len, min_len })
        } else {
            Ok(min_len)
        },
    }
}

/// The status a back-end checkin is answered with.
#[derive(Debug, Clone, Copy, PartialEq, Eq, Structural)]
pub enum BectReplyStatus {
    /// Success.
    Success,
    /// No pending entry transaction to check out.
    NotFoundRouteTransaction,
    /// No fee could be calculated.
    NotFoundPriceInfo,
    /// The subscriber's account is not active.
    AccountIsNotActive,
    /// The tag has no subscriber.
    SubscriberNotFound,
    /// The account holds less than the minimum balance.
    AccountNotEnoughMoney,
    /// The record's own check result, as the entry reply carries it.
    Check { check: i32 },
}

/// The settings a back-end checkin runs under.
#[derive(Debug, Clone, Copy)]
pub struct BectCheckinConfig {
    /// Account checks are switched off.
    pub skip_account_check: bool,
    /// A trip without a price is charged zero instead of refused.
    pub allow_zero_fee: bool,
    /// The minimum balance is checked at open stations only.
    pub min_balance_open_only: bool,
    /// The minimum balance at entry; none is checked where it is not positive.
    pub minimum_balance: i64,
}

/// Where a back-end checkin stands.
#[derive(Debug, Clone, Copy, PartialEq, Eq, Structural)]
pub enum BectCheckinState {
    /// Nothing done yet.
    Start,
    /// Waiting for the tag's subscriber; whether the lane is an exit lane and the station open.
    AwaitSubscriber { out_lane: bool, open_station: bool },
    /// Exit lane: waiting for the tag's pending entry transaction.
    AwaitPending { account: Option<i64> },
    /// Exit lane: waiting for the fee of the trip.
    AwaitFee { account: Option<i64> },
    /// Exit lane: waiting for the checkout to be written; the status to answer afterwards.
    AwaitCheckoutSaved { status: BectReplyStatus },
    /// Entry lane: waiting for the account's balance check.
    AwaitBalance,
    /// Entry lane: waiting for the checkin to be written.
    AwaitCheckinSaved,
    /// Answered.
    Done,
}

/// What came of the last action.
#[derive(Debug, Clone, Copy, PartialEq, Eq, Structural)]
pub enum BectCheckinEvent {
    /// The request arrived through a lane of direction `lane` at a station that is open or not.
    Started { lane: LaneDirection, open_station: bool },
    /// The subscriber lookup gave the subscriber's account, or none without a subscriber.
    SubscriberLooked { account: Option<i64> },
    /// The pending entry transaction was looked up: none, or one that can or cannot be checked
    /// out.
    PendingResolved { found: Option<bool> },
    /// The fee calculation succeeded or not.
    FeeCalculated { ok: bool },
    /// The checkout was written.
    CheckoutSaved,
    /// The balance check found the balance enough (or no account to check).
    BalanceChecked { enough: bool },
    /// The checkin was written; the record's check result.
    CheckinSaved { check: i32 },
}

/// What to do next.
#[derive(Debug, Clone, Copy, PartialEq, Eq, Structural)]
pub enum BectCheckinAction {
    /// Look up the tag's subscriber.
    LookUpSubscriber,
    /// Look up the tag's pending entry transaction.
    ResolvePendingRecord,
    /// Calculate the fee of the trip.
    CalculateFee,
    /// Write the checkout (record, stage row, fee details), whatever `status` will be answered.
    SaveCheckout { status: BectReplyStatus },
    /// Check the account's balance against the minimum.
    CheckMinimumBalance,
    /// Write the checkin.
    SaveCheckin,
    /// Answer with `status`; nothing more is written.
    Reply { status: BectReplyStatus },
    /// The event does not fit the state; nothing to do.
    Ignore,
}

/// Whether the minimum balance is checked at an entry lane: for a subscriber with an account,
/// with account checks on, at an open station where only those are checked, and with a
/// positive minimum.
pub open spec fn entry_balance_checked(cfg: BectCheckinConfig, account: Option<i64>, open_station: bool) -> bool {
    &&& account matches Some(a) && a > 0
    &&& !cfg.skip_account_check
    &&& (!cfg.min_balance_open_only || open_station)
    &&& cfg.minimum_balance > 0
}

/// The status a checkout is answered with after its account check.
pub open spec fn account_status(c: BectAccountCheck) -> BectReplyStatus {
    match c {
        BectAccountCheck::Passed => BectReplyStatus::Success,
        BectAccountCheck::AccountNotActive => BectReplyStatus::AccountIsNotActive,
        BectAccountCheck::SubscriberNotFound => BectReplyStatus::SubscriberNotFound,
    }
}

/// One step of a back-end checkin. At an exit lane: the subscriber, then the pending entry
/// transaction (none, or one that cannot be checked out, is answered "not found" and nothing is
/// written), then the fee (none is answered "no price" unless zero fees are allowed), then the
/// checkout is written whatever the account check says, and answered with that. At any other
/// lane: the subscriber, then the minimum balance where it applies (too little is answered so,
/// nothing written), then the checkin is written and answered with the record's check. An
/// event that does not fit leaves the state and asks nothing.
pub open spec fn bect_checkin_step_of(cfg: BectCheckinConfig, s: BectCheckinState, ev: BectCheckinEvent) -> (BectCheckinState, BectCheckinAction) {
    match (s, ev) {
        (BectCheckinState::Start, BectCheckinEvent::Started { lane, open_station }) =>
            (BectCheckinState::AwaitSubscriber { out_lane: lane == LaneDirection::Out, open_station }, BectCheckinAction::LookUpSubscriber),
        (BectCheckinState::AwaitSubscriber { out_lane, open_station }, BectCheckinEvent::SubscriberLooked { account }) =>
            if out_lane {
                (BectCheckinState::AwaitPending { account }, BectCheckinAction::ResolvePendingRecord)
            } else if entry_balance_checked(cfg, account, open_station) {
                (BectCheckinState::AwaitBalance, BectCheckinAction::CheckMinimumBalance)
            } else {
                (BectCheckinState::AwaitCheckinSaved, BectCheckinAction::SaveCheckin)
            },
        (BectCheckinState::AwaitPending { account }, BectCheckinEvent::PendingResolved { found }) =>
            match found {
                Some(false) => (BectCheckinState::AwaitFee { account }, BectCheckinAction::CalculateFee),
                _ => (BectCheckinState::Done, BectCheckinAction::Reply { status: BectReplyStatus::NotFoundRouteTransaction }),
            },
        (BectCheckinState::AwaitFee { account }, BectCheckinEvent::FeeCalculated { ok }) =>
            if !ok && !cfg.allow_zero_fee {
                (BectCheckinState::Done, BectCheckinAction::Reply { status: BectReplyStatus::NotFoundPriceInfo })
            } else {
                let st = account_status(bect_account_check_of(cfg.skip_account_check, account));
                (BectCheckinState::AwaitCheckoutSaved { status: st }, BectCheckinAction::SaveCheckout { status: st })
            },
        (BectCheckinState::AwaitCheckoutSaved { status }, BectCheckinEvent::CheckoutSaved) =>
            (BectCheckinState::Done, BectCheckinAction::Reply { status }),
        (BectCheckinState::AwaitBalance, BectCheckinEvent::BalanceChecked { enough }) =>
            if enough {
                (BectCheckinState::AwaitCheckinSaved, BectCheckinAction::SaveCheckin)
            } else {
                (BectCheckinState::Done, BectCheckinAction::Reply { status: BectReplyStatus::AccountNotEnoughMoney })
            },
        (BectCheckinState::AwaitCheckinSaved, BectCheckinEvent::CheckinSaved { check }) =>
            (BectCheckinState::Done, BectCheckinAction::Reply { status: BectReplyStatus::Check { check } }),
        _ => (s, BectCheckinAction::Ignore),
    }
}

fn account_reply_status(skip_account_check: bool, account: Option<i64>) -> (r: BectReplyStatus)
    ensures
        r == account_status(bect_account_check_of(skip_account_check, account)),
{
    match crate::checkout_rules::bect_account_check(skip_account_check, account) {
        BectAccountCheck::Passed => BectReplyStatus::Success,
        BectAccountCheck::AccountNotActive => BectReplyStatus::AccountIsNotActive,
        BectAccountCheck::SubscriberNotFound => BectReplyStatus::SubscriberNotFound,
    }
}

/// One step of a back-end checkin (see [`bect_checkin_step_of`]).
pub fn bect_checkin_step(cfg: &BectCheckinConfig, s: BectCheckinState, ev: BectCheckinEvent) -> (r: (BectCheckinState, BectCheckinAction))
    ensures
        r == bect_checkin_step_of(*cfg, s, ev),
{
    match (s, ev) {
        (BectCheckinState::Start, BectCheckinEvent::Started { lane, open_station }) =>
            (BectCheckinState::AwaitSubscriber { out_lane: lane == LaneDirection::Out, open_station }, BectCheckinAction::LookUpSubscriber),
        (BectCheckinState::AwaitSubscriber { out_lane, open_station }, BectCheckinEvent::SubscriberLooked { account }) => {
            if out_lane {
                (BectCheckinState::AwaitPending { account }, BectCheckinAction::ResolvePendingRecord)
            } else {
                let checked = match account {
                    Some(a) => a > 0 && !cfg.skip_account_check && (!cfg.min_balance_open_only || open_station) && cfg.minimum_balance > 0,
                    None => false,
                };
                if checked {
                    (BectCheckinState::AwaitBalance, BectCheckinAction::CheckMinimumBalance)
                } else {
                    (BectCheckinState::AwaitCheckinSaved, BectCheckinAction::SaveCheckin)
                }
            }
        },
        (BectCheckinState::AwaitPending { account }, BectCheckinEvent::PendingResolved { found }) => {
            match found {
                Some(false) => (BectCheckinState::AwaitFee { account }, BectCheckinAction::CalculateFee),
                _ => (BectCheckinState::Done, BectCheckinAction::Reply { status: BectReplyStatus::NotFoundRouteTransaction }),
            }
        },
        (BectCheckinState::AwaitFee { account }, BectCheckinEvent::FeeCalculated { ok }) => {
            if !ok && !cfg.allow_zero_fee {
                (BectCheckinState::Done, BectCheckinAction::Reply { status: BectReplyStatus::NotFoundPriceInfo })
            } else {
                let st = account_reply_status(cfg.skip_account_check, account);
                (BectCheckinState::AwaitCheckoutSaved { status: st }, BectCheckinAction::SaveCheckout { status: st })
            }
        },
        (BectCheckinState::AwaitCheckoutSaved { status }, BectCheckinEvent::CheckoutSaved) =>
            (BectCheckinState::Done, BectCheckinAction::Reply { status }),
        (BectCheckinState::AwaitBalance, BectCheckinEvent::BalanceChecked { enough }) => {
            if enough {
                (BectCheckinState::AwaitCheckinSaved, BectCheckinAction::SaveCheckin)
            } else {
                (BectCheckinState::Done, BectCheckinAction::Reply { status: BectReplyStatus::AccountNotEnoughMoney })
            }
        },
        (BectCheckinState::AwaitCheckinSaved, BectCheckinEvent::CheckinSaved { check }) =>
            (BectCheckinState::Done, BectCheckinAction::Reply { status: BectReplyStatus::Check { check } }),
        _ => (s, BectCheckinAction::Ignore),
    }
}

/// Where a back-end checkout reservation stands.
#[derive(Debug, Clone, Copy, PartialEq, Eq, Structural)]
pub enum ReserveState {
    /// Nothing done yet.
    Start,
    /// Waiting for the tag's pending entry transaction.
    AwaitPending,
    /// Waiting for the fee of the trip.
    AwaitFee,
    /// Waiting for the tag's subscriber.
    AwaitSubscriber,
    /// Waiting for the checkout to be written; the status to answer afterwards.
    AwaitCheckoutSaved { status: BectReplyStatus },
    /// Answered.
    Done,
}

/// What came of the last action of a checkout reservation.
#[derive(Debug, Clone, Copy, PartialEq, Eq, Structural)]
pub enum ReserveEvent {
    /// The reservation request arrived.
    Started,
    /// The pending entry transaction was looked up: none, or one that can (`false`) or cannot
    /// (`true`) be checked out.
    PendingResolved { found: Option<bool> },
    /// The fee calculation succeeded or not.
    FeeCalculated { ok: bool },
    /// The subscriber lookup gave the subscriber's account, or none without a subscriber.
    SubscriberLooked { account: Option<i64> },
    /// The checkout was written.
    CheckoutSaved,
}

/// What a checkout reservation does next.
#[derive(Debug, Clone, Copy, PartialEq, Eq, Structural)]
pub enum ReserveAction {
    /// Look up the tag's pending entry transaction.
    ResolvePendingRecord,
    /// Calculate the fee of the trip.
    CalculateFee,
    /// Look up the tag's subscriber.
    LookUpSubscriber,
    /// Write the checkout (stage row, account transaction, fee details), whatever `status` will
    /// be answered.
    SaveCheckout { status: BectReplyStatus },
    /// Answer with `status`; nothing more is written.
    Reply { status: BectReplyStatus },
    /// The event does not fit the state; nothing to do.
    Ignore,
}

/// One step of a back-end checkout reservation: the pending entry transaction (none, or one
/// that cannot be checked out, is answered "not found" and nothing is written), then the fee
/// (none is answered "no price" unless zero fees are allowed), then the subscriber, then the
/// checkout is written whatever the account check says, and answered with that. An event that
/// does not fit leaves the state and asks nothing.
pub open spec fn checkout_reserve_step_of(cfg: BectCheckinConfig, s: ReserveState, ev: ReserveEvent) -> (ReserveState, ReserveAction) {
    match (s, ev) {
        (ReserveState::Start, ReserveEvent::Started) => (ReserveState::AwaitPending, ReserveAction::ResolvePendingRecord),
        (ReserveState::AwaitPending, ReserveEvent::PendingResolved { found }) => match found {
            Some(false) => (ReserveState::AwaitFee, ReserveAction::CalculateFee),
            _ => (ReserveState::Done, ReserveAction::Reply { status: BectReplyStatus::NotFoundRouteTransaction }),
        },
        (ReserveState::AwaitFee, ReserveEvent::FeeCalculated { ok }) =>
            if !ok && !cfg.allow_zero_fee {
                (ReserveState::Done, ReserveAction::Reply { status: BectReplyStatus::NotFoundPriceInfo })
            } else {
                (ReserveState::AwaitSubscriber, ReserveAction::LookUpSubscriber)
            },
        (ReserveState::AwaitSubscriber, ReserveEvent::SubscriberLooked { account }) => {
            let st = account_status(bect_account_check_of(cfg.skip_account_check, account));
            (ReserveState::AwaitCheckoutSaved { status: st }, ReserveAction::SaveCheckout { status: st })
        },
        (ReserveState::AwaitCheckoutSaved { status }, ReserveEvent::CheckoutSaved) => (ReserveState::Done, ReserveAction::Reply { status }),
        _ => (s, ReserveAction::Ignore),
    }
}

/// One step of a back-end checkout reservation (see [`checkout_reserve_step_of`]).
pub fn checkout_reserve_step(cfg: &BectCheckinConfig, s: ReserveState, ev: ReserveEvent) -> (r: (ReserveState, ReserveAction))
    ensures
        r == checkout_reserve_step_of(*cfg, s, ev),
{
    match (s, ev) {
        (ReserveState::Start, ReserveEvent::Started) => (ReserveState::AwaitPending, ReserveAction::ResolvePendingRecord),
        (ReserveState::AwaitPending, ReserveEvent::PendingResolved { found }) => match found {
            Some(false) => (ReserveState::AwaitFee, ReserveAction::CalculateFee),
            _ => (ReserveState::Done, ReserveAction::Reply { status: BectReplyStatus::NotFoundRouteTransaction }),
        },
        (ReserveState::AwaitFee, ReserveEvent::FeeCalculated { ok }) => {
            if !ok && !cfg.allow_zero_fee {
                (ReserveState::Done, ReserveAction::Reply { status: BectReplyStatus::NotFoundPriceInfo })
            } else {
                (ReserveState::AwaitSubscriber, ReserveAction::LookUpSubscriber)
            }
        },
        (ReserveState::AwaitSubscriber, ReserveEvent::SubscriberLooked { account }) => {
            let st = account_reply_status(cfg.skip_account_check, account);
            (ReserveState::AwaitCheckoutSaved { status: st }, ReserveAction::SaveCheckout { status: st })
        },
        (ReserveState::AwaitCheckoutSaved { status }, ReserveEvent::CheckoutSaved) => (ReserveState::Done, ReserveAction::Reply { status }),
        _ => (s, ReserveAction::Ignore),
    }
}

/// A pending entry transaction that cannot be checked out ends the checkin with "not found",
/// and nothing is written.
pub proof fn law_invalid_pending_writes_nothing(cfg: BectCheckinConfig, account: Option<i64>)
    ensures
        bect_checkin_step_of(cfg, BectCheckinState::AwaitPending { account }, BectCheckinEvent::PendingResolved { found: Some(true) })
            == (BectCheckinState::Done, BectCheckinAction::Reply { status: BectReplyStatus::NotFoundRouteTransaction }),
        bect_checkin_step_of(cfg, BectCheckinState::AwaitPending { account }, BectCheckinEvent::PendingResolved { found: None })
            == (BectCheckinState::Done, BectCheckinAction::Reply { status: BectReplyStatus::NotFoundRouteTransaction }),
{
}

/// Once the checkout is being written, the checkin is answered with the status of its account
/// check, whatever comes of the write: failing the account check never skips the write.
pub proof fn law_checkout_written_before_account_error(cfg: BectCheckinConfig, account: Option<i64>, ok: bool)
    requires
        ok || cfg.allow_zero_fee,
    ensures
        ({
            let st = account_status(bect_account_check_of(cfg.skip_account_check, account));
            let (s1, a1) = bect_checkin_step_of(cfg, BectCheckinState::AwaitFee { account }, BectCheckinEvent::FeeCalculated { ok });
            &&& a1 == BectCheckinAction::SaveCheckout { status: st }
            &&& bect_checkin_step_of(cfg, s1, BectCheckinEvent::CheckoutSaved) == (BectCheckinState::Done, BectCheckinAction::Reply { status: st })
        }),
{
}

/// At an entry lane, the balance check decides the checkin: a balance found enough goes on to
/// write the checkin (answered later with the record's check), and only a balance found too
/// little is refused "not enough money", with nothing written.
pub proof fn law_bect_balance_check_decides(cfg: BectCheckinConfig, enough: bool)
    ensures
        ({
            let (next, act) = bect_checkin_step_of(cfg, BectCheckinState::AwaitBalance, BectCheckinEvent::BalanceChecked { enough });
            &&& (act == BectCheckinAction::SaveCheckin) == enough
            &&& enough ==> next == BectCheckinState::AwaitCheckinSaved
            &&& !enough ==> next == BectCheckinState::Done
                && act == (BectCheckinAction::Reply { status: BectReplyStatus::AccountNotEnoughMoney })
            &&& enough ==> bect_checkin_step_of(cfg, next, BectCheckinEvent::CheckinSaved { check: 0 }).0 == BectCheckinState::Done
        }),
{
}

/// A checkin is written only at an entry lane: right after the subscriber lookup where no
/// balance check applies, or after a balance check that found enough money.
pub proof fn law_bect_checkin_written_only_at_entry(cfg: BectCheckinConfig, s: BectCheckinState, ev: BectCheckinEvent)
    requires
        bect_checkin_step_of(cfg, s, ev).1 == BectCheckinAction::SaveCheckin,
    ensures
        (s is AwaitSubscriber && !s->AwaitSubscriber_out_lane && ev is SubscriberLooked
            && !entry_balance_checked(cfg, ev->SubscriberLooked_account, s->AwaitSubscriber_open_station))
        || (s == BectCheckinState::AwaitBalance && ev == (BectCheckinEvent::BalanceChecked { enough: true })),
{
}

/// A refusal for lack of money comes only from a balance check that found too little (the
/// status kept for after a checkout write is never that one, see
/// [`law_bect_checkout_status_is_account_status`]).
pub proof fn law_bect_money_refusal_only_after_short_balance(cfg: BectCheckinConfig, s: BectCheckinState, ev: BectCheckinEvent)
    requires
        !(s is AwaitCheckoutSaved),
        bect_checkin_step_of(cfg, s, ev).1 == (BectCheckinAction::Reply { status: BectReplyStatus::AccountNotEnoughMoney }),
    ensures
        s == BectCheckinState::AwaitBalance,
        ev == (BectCheckinEvent::BalanceChecked { enough: false }),
{
}

/// The status written with a checkout, and answered after it, is the account check's:
/// success, account not active, or subscriber not found.
pub proof fn law_bect_checkout_status_is_account_status(cfg: BectCheckinConfig, s: BectCheckinState, ev: BectCheckinEvent, status: BectReplyStatus)
    requires
        bect_checkin_step_of(cfg, s, ev).1 == (BectCheckinAction::SaveCheckout { status }),
    ensures
        status == BectReplyStatus::Success || status == BectReplyStatus::AccountIsNotActive
            || status == BectReplyStatus::SubscriberNotFound,
        bect_checkin_step_of(cfg, s, ev).0 == (BectCheckinState::AwaitCheckoutSaved { status }),
{
}

/// Every answer ends a back-end checkin, an event that does not fit leaves it where it was, and
/// an exit lane never writes a checkin nor an entry lane a checkout.
pub proof fn law_bect_step_shape(cfg: BectCheckinConfig, s: BectCheckinState, ev: BectCheckinEvent)
    ensures
        bect_checkin_step_of(cfg, s, ev).1 is Reply ==> bect_checkin_step_of(cfg, s, ev).0 == BectCheckinState::Done,
        bect_checkin_step_of(cfg, s, ev).1 == BectCheckinAction::Ignore ==> bect_checkin_step_of(cfg, s, ev).0 == s,
        s == BectCheckinState::Done ==> bect_checkin_step_of(cfg, s, ev).1 == BectCheckinAction::Ignore,
        s is AwaitSubscriber && s->AwaitSubscriber_out_lane ==> bect_checkin_step_of(cfg, s, ev).1 != BectCheckinAction::SaveCheckin,
        s is AwaitSubscriber && !s->AwaitSubscriber_out_lane ==> !(bect_checkin_step_of(cfg, s, ev).1 is SaveCheckout),
{
}

/// Every answer ends a checkout reservation, an event that does not fit leaves it where it
/// was, and the checkout is written only after the subscriber lookup, with the account
/// check's status.
pub proof fn law_reserve_step_shape(cfg: BectCheckinConfig, s: ReserveState, ev: ReserveEvent)
    ensures
        checkout_reserve_step_of(cfg, s, ev).1 is Reply ==> checkout_reserve_step_of(cfg, s, ev).0 == ReserveState::Done,
        checkout_reserve_step_of(cfg, s, ev).1 == ReserveAction::Ignore ==> checkout_reserve_step_of(cfg, s, ev).0 == s,
        s == ReserveState::Done ==> checkout_reserve_step_of(cfg, s, ev).1 == ReserveAction::Ignore,
        checkout_reserve_step_of(cfg, s, ev).1 is SaveCheckout ==> s == ReserveState::AwaitSubscriber
            && ev is SubscriberLooked
            && checkout_reserve_step_of(cfg, s, ev).1 == (ReserveAction::SaveCheckout {
                status: account_status(bect_account_check_of(cfg.skip_account_check, ev->SubscriberLooked_account)) }),
{
}

/// A fee found, or a missing one where zero fees are allowed, goes on to the subscriber; a
/// missing fee otherwise is answered "no price" with nothing written.
pub proof fn law_reserve_fee_decides(cfg: BectCheckinConfig, ok: bool)
    ensures
        ({
            let (next, act) = checkout_reserve_step_of(cfg, ReserveState::AwaitFee, ReserveEvent::FeeCalculated { ok });
            &&& (ok || cfg.allow_zero_fee) ==> next == ReserveState::AwaitSubscriber && act == ReserveAction::LookUpSubscriber
            &&& !(ok || cfg.allow_zero_fee) ==> next == ReserveState::Done
                && act == (ReserveAction::Reply { status: BectReplyStatus::NotFoundPriceInfo })
        }),
{
}

proof fn lemma_command_min_len(commands: Seq<(i32, usize)>, command_id: i32)
    ensures
        command_min_len(commands, command_id) is None <==> forall|i: int| 0 <= i < commands.len() ==> (#[trigger] commands[i]).0 != command_id,
        command_min_len(commands, command_id) matches Some(m) ==> exists|i: int| 0 <= i < commands.len()
            && #[trigger] commands[i] == (command_id, m) && forall|j: int| 0 <= j < i ==> (#[trigger] commands[j]).0 != command_id,
    decreases commands.len(),
{
    if commands.len() > 0 {
        let t = commands.drop_first();
        lemma_command_min_len(t, command_id);
        if commands[0].0 == command_id {
            assert(commands[0] == (command_id, commands[0].1));
        } else {
            assert forall|i: int| 0 <= i < t.len() implies #[trigger] t[i] == commands[i + 1] by {}
            if command_min_len(t, command_id) is None {
                assert forall|i: int| 0 <= i < commands.len() implies (#[trigger] commands[i]).0 != command_id by {
                    if i > 0 {
                        assert(commands[i] == t[i - 1]);
                    }
                }
            } else {
                let m = command_min_len(t, command_id)->0;
                let k = choose|k: int| 0 <= k < t.len() && #[trigger] t[k] == (command_id, m)
                    && forall|j: int| 0 <= j < k ==> (#[trigger] t[j]).0 != command_id;
                assert(commands[k + 1] == (command_id, m));
                assert forall|j: int| 0 <= j < k + 1 implies (#[trigger] commands[j]).0 != command_id by {
                    if j > 0 {
                        assert(commands[j] == t[j - 1]);
                    }
                }
                assert(t[k] == commands[k + 1]);
            }
        }
    }
}

/// A request is taken exactly when its command is in the protocol's table and it holds at
/// least the header and its command's minimum length (the first entry for the command counts);
/// a command outside the table is refused whatever the length, and a known command shorter than
/// the header is refused as such.
pub proof fn law_request_check(commands: Seq<(i32, usize)>, command_id: i32, len: usize)
    ensures
        request_check_of(commands, command_id, len) matches Ok(m) ==> len >= REQUEST_HEADER_LEN && len >= m
            && exists|i: int| 0 <= i < commands.len() && #[trigger] commands[i] == (command_id, m),
        (forall|i: int| 0 <= i < commands.len() ==> (#[trigger] commands[i]).0 != command_id)
            ==> request_check_of(commands, command_id, len) == Err::<usize, RequestError>(RequestError::InvalidCommand { command_id }),
        (exists|i: int| 0 <= i < commands.len() && (#[trigger] commands[i]).0 == command_id) && len < REQUEST_HEADER_LEN
            ==> request_check_of(commands, command_id, len) == Err::<usize, RequestError>(RequestError::TooShortForHeader { len }),
        (0 < commands.len() && commands[0].0 == command_id && len >= REQUEST_HEADER_LEN && len >= commands[0].1)
            ==> request_check_of(commands, command_id, len) == Ok::<usize, RequestError>(commands[0].1),
{
    lemma_command_min_len(commands, command_id);
}

} // verus!
