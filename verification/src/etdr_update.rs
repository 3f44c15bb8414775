//! Transitions of an entry transaction record: commit of the checkin, checkout (from the
//! operator's reply or locally), and the merge of two records of one ticket.

use vstd::prelude::*;
use crate::bect_messages::{CHECKOUT_RESERVE_BOO, CHECKOUT_RESERVE_BOO_RESP, COMMIT_BOO_RESP};
use crate::checkin_rules::lemma_trim_idempotent;
use crate::clock::timestamp_ms;
use crate::etdr_build::text;
use crate::etdr_types::{clone_etdr, etdr_same, ETDR};
use crate::numtext::{decimal_text, i64_to_string};
use crate::tcoc_messages::FE_CHECKIN;
use crate::text::{is_blank, trim_seq, trim_str};
use crate::vetc_messages::{VETC_CHECKOUT_RESERVE_BOO, VETC_CHECKOUT_RESERVE_BOO_RESP, VETC_COMMIT_BOO_RESP};

verus! {

/// `new` is `old` after the commit of its checkin at `now` with outcome `status` and
/// reference transaction `ref_trans_id`.
pub open spec fn committed(old: ETDR, new: ETDR, status: i32, ref_trans_id: i64, now: i64) -> bool {
    new == ETDR { status, checkin_commit_datetime: now, time_route_checkin_commit: now, ref_trans_id, ..old }
}

/// `new` is `old` after a checkout at `now` answered with `status`, leaving at `station_out`
/// / `lane_out` for `amount` at `trans_datetime`; a positive hub in the reply replaces the hub.
pub open spec fn checked_out(old: ETDR, new: ETDR, status: i32, station_out: i32, lane_out: i32, hub: Option<i64>, ticket_etag: i64, amount: i32, trans_datetime: i64, now: i64) -> bool {
    &&& new == ETDR {
        status,
        checkout_datetime: now,
        time_route_checkout: now,
        time_update: now,
        toll_out: station_out,
        lane_out,
        ticket_out_id: Some(old.ticket_id),
        hub_id: if hub matches Some(id) && id > 0 { hub } else { old.hub_id },
        ticket_eTag_id: Some(ticket_etag),
        price: amount,
        boo_trans_amount: amount,
        boo_trans_datetime: Some(trans_datetime),
        boo_lane_type: new.boo_lane_type,
        ..old
    }
    &&& new.boo_lane_type matches Some(s) && s@ == "O"@
}

/// `new` is `old` after a local checkout at `now` through the lane of `fe` for `amount`; a
/// plate that is not blank replaces the plate, trimmed.
pub open spec fn checked_out_locally(old: ETDR, new: ETDR, fe: FE_CHECKIN, amount: i32, now: i64) -> bool {
    &&& new == ETDR {
        status: 0,
        checkout_datetime: now,
        time_route_checkout: now,
        time_update: now,
        toll_out: fe.station,
        lane_out: fe.lane,
        price: amount,
        boo_trans_amount: amount,
        boo_trans_datetime: Some(now),
        boo_lane_type: new.boo_lane_type,
        plate: new.plate,
        ..old
    }
    &&& new.boo_lane_type matches Some(s) && s@ == "O"@
    &&& trim_seq(fe.plate@).len() > 0 ==> new.plate@ == trim_seq(fe.plate@)
    &&& trim_seq(fe.plate@).len() == 0 ==> new.plate == old.plate
}

impl ETDR {
    /// Records the commit of the checkin at `now` from the operator's reply.
    pub fn update_from_commit_at(&mut self, vdtc_commit_resp: &COMMIT_BOO_RESP, now: i64)
        ensures
            committed(*old(self), *final(self), vdtc_commit_resp.status, vdtc_commit_resp.ref_trans_id, now),
    {
        self.status = vdtc_commit_resp.status;
        self.checkin_commit_datetime = now;
        self.time_route_checkin_commit = now;
        self.ref_trans_id = vdtc_commit_resp.ref_trans_id;
    }

    /// Records the commit of the checkin now from the operator's reply.
    pub fn update_from_commit(&mut self, vdtc_commit_resp: &COMMIT_BOO_RESP)
        ensures
            exists|now: i64| committed(*old(self), *final(self), vdtc_commit_resp.status, vdtc_commit_resp.ref_trans_id, now),
    {
        let now = timestamp_ms();
        self.update_from_commit_at(vdtc_commit_resp, now);
    }

    /// Records the commit of the checkin at `now` from the reply on the VETC path.
    pub fn update_from_commit_vetc_at(&mut self, vetc_commit_resp: &VETC_COMMIT_BOO_RESP, now: i64)
        ensures
            committed(*old(self), *final(self), vetc_commit_resp.status, vetc_commit_resp.ref_trans_id, now),
    {
        self.status = vetc_commit_resp.status;
        self.checkin_commit_datetime = now;
        self.time_route_checkin_commit = now;
        self.ref_trans_id = vetc_commit_resp.ref_trans_id;
    }

    /// Records the commit of the checkin now from the reply on the VETC path.
    pub fn update_from_commit_vetc(&mut self, vetc_commit_resp: &VETC_COMMIT_BOO_RESP)
        ensures
            exists|now: i64| committed(*old(self), *final(self), vetc_commit_resp.status, vetc_commit_resp.ref_trans_id, now),
    {
        let now = timestamp_ms();
        self.update_from_commit_vetc_at(vetc_commit_resp, now);
    }

    /// Records a checkout at `now` from the checkout request and reply on the VETC path.
    pub fn update_from_checkout_vetc_at(&mut self, vetc_checkout: &VETC_CHECKOUT_RESERVE_BOO, vetc_checkout_resp: &VETC_CHECKOUT_RESERVE_BOO_RESP, now: i64)
        ensures
            checked_out(*old(self), *final(self), vetc_checkout_resp.status, vetc_checkout.station_out, vetc_checkout.lane_out,
                vetc_checkout_resp.hub_id, vetc_checkout_resp.ticket_eTag_id, vetc_checkout.trans_amount, vetc_checkout.trans_datetime, now),
    {
        self.status = vetc_checkout_resp.status;
        self.checkout_datetime = now;
        self.time_route_checkout = now;
        self.time_update = now;
        self.toll_out = vetc_checkout.station_out;
        self.lane_out = vetc_checkout.lane_out;
        self.ticket_out_id = Some(self.ticket_id);
        if let Some(id) = vetc_checkout_resp.hub_id {
            if id > 0 {
                self.hub_id = Some(id);
            }
        }
        self.ticket_eTag_id = Some(vetc_checkout_resp.ticket_eTag_id);
        self.price = vetc_checkout.trans_amount;
        self.boo_trans_amount = vetc_checkout.trans_amount;
        self.boo_trans_datetime = Some(vetc_checkout.trans_datetime);
        self.boo_lane_type = Some(text("O"));
    }

    /// Records a checkout now from the checkout request and reply on the VETC path.
    pub fn update_from_checkout_vetc(&mut self, vetc_checkout: &VETC_CHECKOUT_RESERVE_BOO, vetc_checkout_resp: &VETC_CHECKOUT_RESERVE_BOO_RESP)
        ensures
            exists|now: i64| checked_out(*old(self), *final(self), vetc_checkout_resp.status, vetc_checkout.station_out, vetc_checkout.lane_out,
                vetc_checkout_resp.hub_id, vetc_checkout_resp.ticket_eTag_id, vetc_checkout.trans_amount, vetc_checkout.trans_datetime, now),
    {
        let now = timestamp_ms();
        self.update_from_checkout_vetc_at(vetc_checkout, vetc_checkout_resp, now);
    }

    /// Records a checkout at `now` from the operator's checkout request and reply.
    pub fn update_from_checkout_at(&mut self, vdtc_checkout: &CHECKOUT_RESERVE_BOO, vdtc_checkout_resp: &CHECKOUT_RESERVE_BOO_RESP, now: i64)
        ensures
            checked_out(*old(self), *final(self), vdtc_checkout_resp.status, vdtc_checkout.station_out, vdtc_checkout.lane_out,
                vdtc_checkout_resp.hub_id, vdtc_checkout_resp.ticket_eTag_id, vdtc_checkout.trans_amount, vdtc_checkout.trans_datetime, now),
    {
        self.status = vdtc_checkout_resp.status;
        self.checkout_datetime = now;
        self.time_route_checkout = now;
        self.time_update = now;
        self.toll_out = vdtc_checkout.station_out;
        self.lane_out = vdtc_checkout.lane_out;
        self.ticket_out_id = Some(self.ticket_id);
        if let Some(id) = vdtc_checkout_resp.hub_id {
            if id > 0 {
                self.hub_id = Some(id);
            }
        }
        self.ticket_eTag_id = Some(vdtc_checkout_resp.ticket_eTag_id);
        self.price = vdtc_checkout.trans_amount;
        self.boo_trans_amount = vdtc_checkout.trans_amount;
        self.boo_trans_datetime = Some(vdtc_checkout.trans_datetime);
        self.boo_lane_type = Some(text("O"));
    }

    /// Records a checkout now from the operator's checkout request and reply.
    pub fn update_from_checkout(&mut self, vdtc_checkout: &CHECKOUT_RESERVE_BOO, vdtc_checkout_resp: &CHECKOUT_RESERVE_BOO_RESP)
        ensures
            exists|now: i64| checked_out(*old(self), *final(self), vdtc_checkout_resp.status, vdtc_checkout.station_out, vdtc_checkout.lane_out,
                vdtc_checkout_resp.hub_id, vdtc_checkout_resp.ticket_eTag_id, vdtc_checkout.trans_amount, vdtc_checkout.trans_datetime, now),
    {
        let now = timestamp_ms();
        self.update_from_checkout_at(vdtc_checkout, vdtc_checkout_resp, now);
    }

    /// Records a local checkout at `now` through the lane of `fe_checkin` for `trans_amount`.
    pub fn update_from_checkout_local_at(&mut self, fe_checkin: &FE_CHECKIN, trans_amount: i32, now: i64)
        ensures
            checked_out_locally(*old(self), *final(self), *fe_checkin, trans_amount, now),
    {
        self.status = 0;
        self.checkout_datetime = now;
        self.time_route_checkout = now;
        self.time_update = now;
        self.toll_out = fe_checkin.station;
        self.lane_out = fe_checkin.lane;
        self.price = trans_amount;
        self.boo_trans_amount = trans_amount;
        self.boo_trans_datetime = Some(now);
        self.boo_lane_type = Some(text("O"));
        let p = trim_str(fe_checkin.plate.as_str());
        proof {
            lemma_trim_idempotent(fe_checkin.plate@);
        }
        if !is_blank(p.as_str()) {
            self.plate = p;
        }
    }

    /// Records a local checkout now through the lane of `fe_checkin` for `trans_amount`.
    pub fn update_from_checkout_local(&mut self, fe_checkin: &FE_CHECKIN, trans_amount: i32)
        ensures
            exists|now: i64| checked_out_locally(*old(self), *final(self), *fe_checkin, trans_amount, now),
    {
        let now = timestamp_ms();
        self.update_from_checkout_local_at(fe_checkin, trans_amount, now);
    }
}

/// The record of two with the later checkin (the first on a tie).
pub open spec fn merge_base(a: ETDR, b: ETDR) -> ETDR {
    if a.checkin_datetime >= b.checkin_datetime { a } else { b }
}

/// The other record of two.
pub open spec fn merge_other(a: ETDR, b: ETDR) -> ETDR {
    if a.checkin_datetime >= b.checkin_datetime { b } else { a }
}

/// `w` where it is non-zero, else `v`.
pub open spec fn nz_or_i64(v: i64, w: i64) -> i64 {
    if w != 0 { w } else { v }
}

/// `w` where it is non-zero, else `v`.
pub open spec fn nz_or_i32(v: i32, w: i32) -> i32 {
    if w != 0 { w } else { v }
}

/// The larger of two.
pub open spec fn max_i64(x: i64, y: i64) -> i64 {
    if x >= y { x } else { y }
}

/// The larger of two.
pub open spec fn max_i32(x: i32, y: i32) -> i32 {
    if x >= y { x } else { y }
}

/// Two records of one ticket merged: the record with the later checkin is the base; the later
/// checkin, checkin commit, checkout and checkout commit times and the larger retry count win;
/// exit station and lane, plate, price, amount and etag number come from the other record where it
/// has them; entry station and lane and image count come from the base where it has them.
pub open spec fn merged(a: ETDR, b: ETDR) -> ETDR {
    merged_onto(merge_base(a, b), merge_other(a, b))
}

/// `base` with the fields of [`merged`] taken from `other`.
pub open spec fn merged_onto(base: ETDR, other: ETDR) -> ETDR {
    ETDR {
        checkin_datetime: max_i64(base.checkin_datetime, other.checkin_datetime),
        checkin_commit_datetime: max_i64(base.checkin_commit_datetime, other.checkin_commit_datetime),
        checkout_datetime: max_i64(base.checkout_datetime, other.checkout_datetime),
        checkout_commit_datetime: max_i64(base.checkout_commit_datetime, other.checkout_commit_datetime),
        station_id: if base.station_id != 0 { base.station_id } else { other.station_id },
        lane_id: if base.lane_id != 0 { base.lane_id } else { other.lane_id },
        toll_out: nz_or_i32(base.toll_out, other.toll_out),
        lane_out: nz_or_i32(base.lane_out, other.lane_out),
        plate: if other.plate@.len() == 0 { base.plate } else { other.plate },
        price: nz_or_i32(base.price, other.price),
        commit_amount: nz_or_i32(base.commit_amount, other.commit_amount),
        image_count: if base.image_count != 0 { base.image_count } else { other.image_count },
        etag_number: if other.etag_number@.len() == 0 { base.etag_number } else { other.etag_number },
        db_save_retry_count: max_i32(base.db_save_retry_count, other.db_save_retry_count),
        ..base
    }
}

fn merge_into(base: ETDR, other: &ETDR) -> (r: ETDR)
    ensures
        r == merged_onto(base, *other),
{
    let plate = if other.plate.as_str().is_empty() { base.plate.clone() } else { other.plate.clone() };
    let etag_number = if other.etag_number.as_str().is_empty() { base.etag_number.clone() } else { other.etag_number.clone() };
    ETDR {
        checkin_datetime: if base.checkin_datetime >= other.checkin_datetime { base.checkin_datetime } else { other.checkin_datetime },
        checkin_commit_datetime: if base.checkin_commit_datetime >= other.checkin_commit_datetime { base.checkin_commit_datetime } else { other.checkin_commit_datetime },
        checkout_datetime: if base.checkout_datetime >= other.checkout_datetime { base.checkout_datetime } else { other.checkout_datetime },
        checkout_commit_datetime: if base.checkout_commit_datetime >= other.checkout_commit_datetime { base.checkout_commit_datetime } else { other.checkout_commit_datetime },
        station_id: if base.station_id != 0 { base.station_id } else { other.station_id },
        lane_id: if base.lane_id != 0 { base.lane_id } else { other.lane_id },
        toll_out: if other.toll_out != 0 { other.toll_out } else { base.toll_out },
        lane_out: if other.lane_out != 0 { other.lane_out } else { base.lane_out },
        plate,
        price: if other.price != 0 { other.price } else { base.price },
        commit_amount: if other.commit_amount != 0 { other.commit_amount } else { base.commit_amount },
        image_count: if base.image_count != 0 { base.image_count } else { other.image_count },
        etag_number,
        db_save_retry_count: if base.db_save_retry_count >= other.db_save_retry_count { base.db_save_retry_count } else { other.db_save_retry_count },
        ..base
    }
}

/// Merges two records of one ticket into one (see [`merged`]).
pub fn merge_etdr_same_ticket_id(a: &ETDR, b: &ETDR) -> (r: ETDR)
    ensures
        etdr_same(r, merged(*a, *b)),
{
    if a.checkin_datetime >= b.checkin_datetime {
        let base = clone_etdr(a);
        merge_into(base, b)
    } else {
        let base = clone_etdr(b);
        merge_into(base, a)
    }
}

/// Merges two owned records of one ticket into one, exactly as [`merged`] says.
fn merge_owned(a: ETDR, b: ETDR) -> (r: ETDR)
    ensures
        r == merged(a, b),
{
    if a.checkin_datetime >= b.checkin_datetime {
        merge_into(a, &b)
    } else {
        merge_into(b, &a)
    }
}

/// Merging a record with itself gives it back.
pub proof fn law_merge_self(a: ETDR)
    ensures
        merged(a, a) == a,
{
    assert(merged(a, a) =~= a);
}

/// Two records of one ticket with different checkin times merge the same way in either order.
pub proof fn law_merge_commutes(a: ETDR, b: ETDR)
    requires
        a.checkin_datetime != b.checkin_datetime,
    ensures
        merged(a, b) == merged(b, a),
{
}

/// The merge keeps the later checkin, checkin commit, checkout and checkout commit times and the
/// larger retry count of the two records.
pub proof fn law_merge_keeps_latest(a: ETDR, b: ETDR)
    ensures
        merged(a, b).checkin_datetime == max_i64(a.checkin_datetime, b.checkin_datetime),
        merged(a, b).checkin_commit_datetime == max_i64(a.checkin_commit_datetime, b.checkin_commit_datetime),
        merged(a, b).checkout_datetime == max_i64(a.checkout_datetime, b.checkout_datetime),
        merged(a, b).checkout_commit_datetime == max_i64(a.checkout_commit_datetime, b.checkout_commit_datetime),
        merged(a, b).db_save_retry_count == max_i32(a.db_save_retry_count, b.db_save_retry_count),
        merged(a, b).ticket_id == merge_base(a, b).ticket_id,
{
}

/// The key under which the retry store keeps the record of ticket `t`.
pub open spec fn retry_key(t: i64) -> Seq<char> {
    "etdr_retry:"@ + decimal_text(t as int)
}

/// The key kept when record `e` under key `k` is merged into record `ee` under key `ek`: the
/// retry key of the ticket where either key is it, else the key of the later checkin (the new
/// one on a tie).
pub open spec fn kept_key(ek: Seq<char>, ee: ETDR, k: Seq<char>, e: ETDR) -> Seq<char> {
    let kr = retry_key(e.ticket_id);
    if k == kr || ek == kr {
        kr
    } else if e.checkin_datetime >= ee.checkin_datetime {
        k
    } else {
        ek
    }
}

/// Position `i` of `acc` holds ticket `t`.
pub open spec fn ticket_at(acc: Seq<(Seq<char>, ETDR)>, t: i64, i: int) -> bool {
    0 <= i < acc.len() && acc[i].1.ticket_id == t
}

/// One record per ticket: records without a ticket are dropped; a record whose ticket was seen
/// is merged into the earlier one (see [`merged`], [`kept_key`]); tickets keep the order in
/// which they were first seen.
pub open spec fn deduped(s: Seq<(Seq<char>, ETDR)>) -> Seq<(Seq<char>, ETDR)>
    decreases s.len(),
{
    if s.len() == 0 {
        Seq::empty()
    } else {
        let acc = deduped(s.drop_last());
        let k = s.last().0;
        let e = s.last().1;
        if e.ticket_id == 0 {
            acc
        } else if exists|i: int| ticket_at(acc, e.ticket_id, i) {
            let i = choose|i: int| ticket_at(acc, e.ticket_id, i);
            acc.update(i, (kept_key(acc[i].0, acc[i].1, k, e), merged(acc[i].1, e)))
        } else {
            acc.push((k, e))
        }
    }
}

/// Each key by its text.
pub open spec fn pairs_view(v: Seq<(String, ETDR)>) -> Seq<(Seq<char>, ETDR)> {
    v.map_values(|p: (String, ETDR)| (p.0@, p.1))
}

/// The retry key of ticket `t`.
pub fn retry_key_of(t: i64) -> (r: String)
    ensures
        r@ == retry_key(t),
{
    text("etdr_retry:").concat(i64_to_string(t).as_str())
}

/// Keeps one record per ticket, merging records of one ticket (see [`deduped`]).
pub fn dedupe_by_ticket_id(to_save: Vec<(String, ETDR)>) -> (r: Vec<(String, ETDR)>)
    ensures
        pairs_view(r@) == deduped(pairs_view(to_save@)),
        forall|a: int, b: int| 0 <= a < b < r@.len() ==> r@[a].1.ticket_id != r@[b].1.ticket_id,
        forall|a: int| 0 <= a < r@.len() ==> #[trigger] r@[a].1.ticket_id != 0,
{
    let ghost s0 = pairs_view(to_save@);
    let mut src = to_save;
    let mut acc: Vec<(String, ETDR)> = Vec::new();
    let n = src.len();
    let mut i: usize = 0;
    proof {
        assert(s0.subrange(0, 0) =~= Seq::<(Seq<char>, ETDR)>::empty());
        assert(pairs_view(acc@) =~= Seq::<(Seq<char>, ETDR)>::empty());
    }
    while i < n
        invariant
            n == s0.len(),
            i <= n,
            pairs_view(src@) == s0.subrange(i as int, n as int),
            pairs_view(acc@) == deduped(s0.subrange(0, i as int)),
            forall|a: int, b: int| 0 <= a < b < acc@.len() ==> acc@[a].1.ticket_id != acc@[b].1.ticket_id,
            forall|a: int| 0 <= a < acc@.len() ==> #[trigger] acc@[a].1.ticket_id != 0,
        decreases n - i,
    {
        let ghost pfx = s0.subrange(0, i as int);
        let ghost acc0 = acc@;
        let ghost src_before = src@;
        proof {
            assert(pairs_view(src@).len() == src@.len());
            assert(src@.len() == n - i);
            assert(s0.subrange(0, i + 1).drop_last() =~= pfx);
            assert(pairs_view(src@)[0] == s0[i as int]);
        }
        let (k, e) = src.remove(0);
        proof {
            assert forall|j: int| 0 <= j < src@.len() implies #[trigger] pairs_view(src@)[j] == s0.subrange(i + 1, n as int)[j] by {
                assert(src@[j] == src_before[j + 1]);
                assert(pairs_view(src_before)[j + 1] == s0.subrange(i as int, n as int)[j + 1]);
            }
            assert(pairs_view(src@) =~= s0.subrange(i + 1, n as int));
        }
        proof {
            assert(s0.subrange(0, i + 1).last() == (k@, e));
        }
        if e.ticket_id != 0 {
            let t = e.ticket_id;
            let mut pos: usize = 0;
            let mut found = false;
            while pos < acc.len() && !found
                invariant
                    pos <= acc@.len(),
                    found ==> pos > 0 && acc@[pos - 1].1.ticket_id == t,
                    !found ==> forall|q: int| 0 <= q < pos ==> acc@[q].1.ticket_id != t,
                decreases acc@.len() - pos + (if found { 0int } else { 1int }),
            {
                if acc[pos].1.ticket_id == t {
                    found = true;
                }
                pos = pos + 1;
            }
            if found {
                let p = pos - 1;
                let ghost pv = pairs_view(acc0);
                proof {
                    assert(ticket_at(pv, t, p as int));
                    let c = choose|c: int| ticket_at(pv, t, c);
                    assert(c == p as int) by {
                        if c != p as int {
                            assert(acc0[c].1.ticket_id == pv[c].1.ticket_id);
                        }
                    }
                }
                let (ek, ee) = acc.remove(p);
                let kr = retry_key_of(t);
                let ee_checkin = ee.checkin_datetime;
                let kept = if k == kr || ek == kr {
                    kr
                } else if e.checkin_datetime >= ee_checkin {
                    k
                } else {
                    ek
                };
                let ghost ee0 = ee;
                let m = merge_owned(ee, e);
                proof {
                    assert(kept@ == kept_key(pv[p as int].0, pv[p as int].1, pfx.push((k@, e)).last().0, e));
                }
                acc.insert(p, (kept, m));
                proof {
                    assert(pairs_view(acc@) =~= pv.update(p as int, (kept_key(pv[p as int].0, pv[p as int].1, k@, e), merged(pv[p as int].1, e))));
                    assert forall|a: int, b: int| 0 <= a < b < acc@.len() implies acc@[a].1.ticket_id != acc@[b].1.ticket_id by {
                        assert(acc0[a].1.ticket_id != acc0[b].1.ticket_id);
                    }
                }
            } else {
                let ghost pv = pairs_view(acc0);
                proof {
                    assert forall|c: int| !ticket_at(pv, t, c) by {
                        if 0 <= c < pv.len() {
                            assert(acc0[c].1.ticket_id == pv[c].1.ticket_id);
                        }
                    }
                }
                acc.push((k, e));
                proof {
                    assert(pairs_view(acc@) =~= pv.push((k@, e)));
                }
            }
        }
        i = i + 1;
    }
    proof {
        assert(s0.subrange(0, n as int) =~= s0);
    }
    acc
}

} // verus!
