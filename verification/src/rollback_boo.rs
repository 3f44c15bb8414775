//! The check-in rollback message sent to the card issuer's back-end, with its fixed-width texts.

use vstd::prelude::*;
use vstd::utf8::{encode_utf8, is_char_boundary};
use vstd::string::StringSliceAdditionalSpecFns;
use crate::bect_messages::CHECKIN_ROLLBACK_BOO;
use crate::clock::timestamp_ms;
use crate::etdr_types::ETDR;
use crate::tcoc_messages::FE_ROLLBACK;
use crate::text::{trim_seq, trim_str};
use crate::wire::char_to_string;

verus! {

/// `n` zero bytes.
pub open spec fn nul_bytes(n: nat) -> Seq<u8> {
    Seq::new(n, |i: int| 0u8)
}

/// The bytes `b` cut to `len`, then filled up to `len` with zero bytes.
pub open spec fn nul_padded(b: Seq<u8>, len: nat) -> Seq<u8> {
    if b.len() <= len {
        b + nul_bytes((len - b.len()) as nat)
    } else {
        b.subrange(0, len as int)
    }
}

/// Whether the text `s` can be cut to `len` bytes: it is no longer, or byte `len` starts a
/// character.
pub open spec fn cuttable(s: Seq<char>, len: nat) -> bool {
    len < encode_utf8(s).len() ==> is_char_boundary(encode_utf8(s), len as int)
}

proof fn lemma_encode_concat(a: Seq<char>, b: Seq<char>)
    ensures
        encode_utf8(a + b) == encode_utf8(a) + encode_utf8(b),
    decreases a.len(),
{
    if a.len() == 0 {
        assert(a + b =~= b);
        assert(encode_utf8(a) =~= Seq::<u8>::empty());
        assert(encode_utf8(a) + encode_utf8(b) =~= encode_utf8(b));
    } else {
        lemma_encode_concat(a.drop_first(), b);
        assert((a + b).drop_first() =~= a.drop_first() + b);
        assert((a + b)[0] == a[0]);
        assert(encode_utf8(a + b) =~= encode_utf8(a) + encode_utf8(b));
    }
}

proof fn lemma_encode_nul()
    ensures
        encode_utf8(seq!['\0']) == seq![0u8],
{
    let s = seq!['\0'];
    assert(s.drop_first() =~= Seq::<char>::empty());
    assert(s[0] as u32 == 0);
    assert((0u32 & 0x7F) as u8 == 0u8) by (bit_vector);
    assert(encode_utf8(Seq::<char>::empty()) =~= Seq::<u8>::empty());
    assert(encode_utf8(s) =~= seq![0u8]);
}

/// `s` as exactly `len` bytes: cut to `len` bytes, or filled with NUL characters.
pub fn pad_str(s: &str, len: usize) -> (r: String)
    requires
        cuttable(s@, len as nat),
    ensures
        encode_utf8(r@) == nul_padded(encode_utf8(s@), len as nat),
{
    let ghost b = encode_utf8(s@);
    let ghost kept = if b.len() <= len { b } else { b.subrange(0, len as int) };
    let n_bytes = s.as_bytes().len();
    let mut out: String;
    if len < n_bytes {
        let (head, _tail) = s.split_at(len);
        out = head.to_owned();
        proof {
            assert(head.spec_bytes() == encode_utf8(head@));
            assert(encode_utf8(out@) == kept);
        }
    } else {
        out = s.to_owned();
        proof {
            assert(s.spec_bytes() == b);
            assert(encode_utf8(out@) == kept);
        }
    }
    let ghost mut n: nat = 0;
    proof {
        assert(kept + nul_bytes(0) =~= kept);
    }
    while out.as_str().len() < len
        invariant
            kept.len() <= len,
            kept.len() + n <= len || n == 0,
            encode_utf8(out@) == kept + nul_bytes(n),
            kept == (if encode_utf8(s@).len() <= len { encode_utf8(s@) } else { encode_utf8(s@).subrange(0, len as int) }),
        decreases len - encode_utf8(out@).len(),
    {
        let ghost before = out@;
        proof {
            reveal_strlit("\0");
        }
        out.append("\0");
        proof {
            lemma_encode_concat(before, seq!['\0']);
            lemma_encode_nul();
            assert(out@ == before + seq!['\0']);
            assert(encode_utf8(out@) =~= kept + nul_bytes(n + 1));
            n = n + 1;
        }
    }
    proof {
        let b = encode_utf8(s@);
        assert(encode_utf8(out@).len() == len);
        if b.len() <= len {
            assert(n == len - b.len());
        } else {
            assert(n == 0);
            assert(kept + nul_bytes(0) =~= kept);
        }
    }
    out
}

/// The first character of the text `t`, or `d` where it is absent or empty.
pub open spec fn first_char_or(t: Option<String>, d: char) -> char {
    match t {
        Some(s) => if s@.len() > 0 { s@[0] } else { d },
        None => d,
    }
}

fn first_char_or_exec(t: &Option<String>, d: char) -> (c: char)
    ensures
        c == first_char_or(*t, d),
{
    match t {
        Some(s) => {
            if s.as_str().unicode_len() > 0 {
                s.as_str().get_char(0)
            } else {
                d
            }
        },
        None => d,
    }
}

/// Whether the rollback of `etdr`, asked by `fe`, can be written: each text fits its field
/// without cutting a character in two.
pub open spec fn rollback_texts_fit(fe: FE_ROLLBACK, etdr: ETDR) -> bool {
    &&& cuttable(trim_seq(etdr.t_id@), 24)
    &&& cuttable(trim_seq(etdr.etag_number@), 24)
    &&& cuttable(seq![first_char_or(etdr.boo_toll_type, 'C')], 1)
    &&& cuttable(seq![first_char_or(etdr.boo_lane_type, 'I')], 1)
    &&& cuttable(trim_seq(fe.plate@), 10)
}

/// The check-in rollback message (152 bytes, command 106) for `etdr`, asked by `fe` in session
/// `session_id`, written at `now`: the station type is the first character of the operator's
/// toll type (`C` by default), the lane type that of its lane type (`I` by default), and the
/// texts are trimmed and cut or filled with NULs to their field widths.
pub open spec fn is_checkin_rollback_boo(r: CHECKIN_ROLLBACK_BOO, fe: FE_ROLLBACK, etdr: ETDR, session_id: i64, version_id: i32, now: i64) -> bool {
    &&& r.message_length == 152
    &&& r.command_id == 106
    &&& r.version_id == version_id
    &&& r.request_id == fe.request_id
    &&& r.session_id == session_id
    &&& r.timestamp == now
    &&& r.ticket_id == etdr.ticket_id
    &&& r.ref_trans_id == etdr.ref_trans_id
    &&& encode_utf8(r.tid@) == nul_padded(encode_utf8(trim_seq(etdr.t_id@)), 24)
    &&& encode_utf8(r.etag@) == nul_padded(encode_utf8(trim_seq(etdr.etag_number@)), 24)
    &&& r.station == fe.station
    &&& encode_utf8(r.station_type@) == nul_padded(encode_utf8(seq![first_char_or(etdr.boo_toll_type, 'C')]), 1)
    &&& encode_utf8(r.lane_type@) == nul_padded(encode_utf8(seq![first_char_or(etdr.boo_lane_type, 'I')]), 1)
    &&& r.lane == fe.lane
    &&& encode_utf8(r.plate_from_toll@) == nul_padded(encode_utf8(trim_seq(fe.plate@)), 10)
    &&& r.commit_datetime == now
    &&& r.general1@ == Seq::new(8, |i: int| 0u8)
    &&& r.general2@ == Seq::new(16, |i: int| 0u8)
}

/// The check-in rollback message written at `now` (see [`is_checkin_rollback_boo`]).
pub fn build_checkin_rollback_boo_at(fe_rollback: &FE_ROLLBACK, etdr: &ETDR, session_id: i64, version_id: i32, now: i64) -> (r: CHECKIN_ROLLBACK_BOO)
    requires
        rollback_texts_fit(*fe_rollback, *etdr),
    ensures
        is_checkin_rollback_boo(r, *fe_rollback, *etdr, session_id, version_id, now),
{
    let station_type = first_char_or_exec(&etdr.boo_toll_type, 'C');
    let lane_type = first_char_or_exec(&etdr.boo_lane_type, 'I');
    let tid = trim_str(etdr.t_id.as_str());
    let etag = trim_str(etdr.etag_number.as_str());
    let plate = trim_str(fe_rollback.plate.as_str());
    let st = char_to_string(station_type);
    let lt = char_to_string(lane_type);
    let general1: [u8; 8] = [0u8; 8];
    let general2: [u8; 16] = [0u8; 16];
    proof {
        assert(general1@ =~= Seq::new(8, |i: int| 0u8));
        assert(general2@ =~= Seq::new(16, |i: int| 0u8));
    }
    CHECKIN_ROLLBACK_BOO {
        message_length: 152,
        command_id: 106,
        version_id,
        request_id: fe_rollback.request_id,
        session_id,
        timestamp: now,
        ticket_id: etdr.ticket_id,
        ref_trans_id: etdr.ref_trans_id,
        tid: pad_str(tid.as_str(), 24),
        etag: pad_str(etag.as_str(), 24),
        station: fe_rollback.station,
        station_type: pad_str(st.as_str(), 1),
        lane_type: pad_str(lt.as_str(), 1),
        lane: fe_rollback.lane,
        plate_from_toll: pad_str(plate.as_str(), 10),
        commit_datetime: now,
        general1,
        general2,
    }
}

/// The check-in rollback message written now (see [`build_checkin_rollback_boo_at`]).
pub fn build_checkin_rollback_boo(fe_rollback: &FE_ROLLBACK, etdr: &ETDR, session_id: i64, version_id: i32) -> (r: CHECKIN_ROLLBACK_BOO)
    requires
        rollback_texts_fit(*fe_rollback, *etdr),
    ensures
        exists|now: i64| is_checkin_rollback_boo(r, *fe_rollback, *etdr, session_id, version_id, now),
{
    let now = timestamp_ms();
    build_checkin_rollback_boo_at(fe_rollback, etdr, session_id, version_id, now)
}

} // verus!
