//! Little-endian integer fields and fixed-width text fields of the binary wire messages.

use vstd::bytes::*;
use vstd::prelude::*;
use vstd::slice::slice_subrange;
use vstd::utf8::*;

verus! {

/// The 4 bytes of `s` at `off`, read as a little-endian `i32`.
pub open spec fn le_i32_at(s: Seq<u8>, off: int) -> i32 {
    spec_u32_from_le_bytes(s.subrange(off, off + 4)) as i32
}

/// The 8 bytes of `s` at `off`, read as a little-endian `i64`.
pub open spec fn le_i64_at(s: Seq<u8>, off: int) -> i64 {
    spec_u64_from_le_bytes(s.subrange(off, off + 8)) as i64
}

/// The little-endian encoding of `x` (`i32::to_le_bytes`).
pub open spec fn i32_le(x: i32) -> Seq<u8> {
    spec_u32_to_le_bytes(x as u32)
}

/// The little-endian encoding of `x` (`i64::to_le_bytes`).
pub open spec fn i64_le(x: i64) -> Seq<u8> {
    spec_u64_to_le_bytes(x as u64)
}

/// `n` zero bytes.
pub open spec fn zeros(n: nat) -> Seq<u8> {
    Seq::new(n, |i: int| 0u8)
}

/// `b` cut or zero-padded to exactly `w` bytes (what `Vec::resize(w, 0)` makes of it).
pub open spec fn padded(b: Seq<u8>, w: nat) -> Seq<u8> {
    if b.len() >= w {
        b.subrange(0, w as int)
    } else {
        b + zeros((w - b.len()) as nat)
    }
}

/// Name for the text that `String::from_utf8_lossy` makes of a byte sequence.
pub uninterp spec fn utf8_lossy(b: Seq<u8>) -> Seq<char>;

/// Wraps `String::from_utf8_lossy`: the result is the lossy decoding of `b`, and, as its
/// documentation states, exactly the decoded text when `b` is valid UTF-8. What it makes of
/// invalid sequences (replacement characters) is left to the name.
#[verifier::external_body]
pub(crate) fn string_from_utf8_lossy(b: &[u8]) -> (s: String)
    ensures
        s@ == utf8_lossy(b@),
        valid_utf8(b@) ==> s@ == decode_utf8(b@),
{
    String::from_utf8_lossy(b).into_owned()
}

/// Wraps `char::to_string`: the one-character string holding `c`.
#[verifier::external_body]
pub(crate) fn char_to_string(c: char) -> (s: String)
    ensures
        s@ == seq![c],
{
    c.to_string()
}

/// The little-endian `i32` at `off`.
pub fn read_i32_le(data: &[u8], off: usize) -> (r: i32)
    requires
        off + 4 <= data@.len(),
    ensures
        r == le_i32_at(data@, off as int),
{
    let _len = data.len();
    let sl = slice_subrange(data, off, off + 4);
    let u = u32_from_le_bytes(sl);
    u as i32
}

/// The little-endian `i64` at `off`.
pub fn read_i64_le(data: &[u8], off: usize) -> (r: i64)
    requires
        off + 8 <= data@.len(),
    ensures
        r == le_i64_at(data@, off as int),
{
    let _len = data.len();
    let sl = slice_subrange(data, off, off + 8);
    let u = u64_from_le_bytes(sl);
    u as i64
}

/// The `w` bytes at `off`, as lossily decoded text.
pub fn read_text(data: &[u8], off: usize, w: usize) -> (r: String)
    requires
        off + w <= data@.len(),
    ensures
        r@ == utf8_lossy(data@.subrange(off as int, off + w)),
{
    let _len = data.len();
    let sl = slice_subrange(data, off, off + w);
    string_from_utf8_lossy(sl)
}

/// Copies 8 bytes of `data` at `off` into an array.
pub fn read_array8(data: &[u8], off: usize) -> (r: [u8; 8])
    requires
        off + 8 <= data@.len(),
    ensures
        r@ == data@.subrange(off as int, off + 8),
{
    let _len = data.len();
    let mut r = [0u8; 8];
    let mut k: usize = 0;
    while k < 8
        invariant
            k <= 8,
            off + 8 <= data@.len(),
            data@.len() == _len,
            forall|i: int| 0 <= i < k ==> r@[i] == data@[off + i],
        decreases 8 - k,
    {
        r[k] = data[off + k];
        k = k + 1;
    }
    assert(r@ =~= data@.subrange(off as int, off + 8));
    r
}

/// Copies 16 bytes of `data` at `off` into an array.
pub fn read_array16(data: &[u8], off: usize) -> (r: [u8; 16])
    requires
        off + 16 <= data@.len(),
    ensures
        r@ == data@.subrange(off as int, off + 16),
{
    let _len = data.len();
    let mut r = [0u8; 16];
    let mut k: usize = 0;
    while k < 16
        invariant
            k <= 16,
            off + 16 <= data@.len(),
            data@.len() == _len,
            forall|i: int| 0 <= i < k ==> r@[i] == data@[off + i],
        decreases 16 - k,
    {
        r[k] = data[off + k];
        k = k + 1;
    }
    assert(r@ =~= data@.subrange(off as int, off + 16));
    r
}

/// Appends the little-endian encoding of `x`.
pub fn push_i32_le(buf: &mut Vec<u8>, x: i32)
    ensures
        final(buf)@ == old(buf)@ + i32_le(x),
{
    let mut b = u32_to_le_bytes(x as u32);
    buf.append(&mut b);
}

/// Appends the little-endian encoding of `x`.
pub fn push_i64_le(buf: &mut Vec<u8>, x: i64)
    ensures
        final(buf)@ == old(buf)@ + i64_le(x),
{
    let mut b = u64_to_le_bytes(x as u64);
    buf.append(&mut b);
}

/// Appends all of `b`.
pub fn push_bytes(buf: &mut Vec<u8>, b: &[u8])
    ensures
        final(buf)@ == old(buf)@ + b@,
{
    let mut k: usize = 0;
    let ghost start = buf@;
    while k < b.len()
        invariant
            k <= b@.len(),
            buf@ == start + b@.subrange(0, k as int),
        decreases b@.len() - k,
    {
        buf.push(b[k]);
        proof {
            assert(b@.subrange(0, k + 1) =~= b@.subrange(0, k as int).push(b@[k as int]));
        }
        k = k + 1;
    }
    assert(b@.subrange(0, b@.len() as int) =~= b@);
}

/// Appends `b` cut or zero-padded to exactly `w` bytes.
pub fn push_padded(buf: &mut Vec<u8>, b: &[u8], w: usize)
    ensures
        final(buf)@ == old(buf)@ + padded(b@, w as nat),
{
    let ghost start = buf@;
    let n = if b.len() < w {
        b.len()
    } else {
        w
    };
    let mut k: usize = 0;
    while k < n
        invariant
            k <= n,
            n <= b@.len(),
            n == if b@.len() < w { b@.len() } else { w as nat },
            buf@ == start + b@.subrange(0, k as int),
        decreases n - k,
    {
        buf.push(b[k]);
        proof {
            assert(b@.subrange(0, k + 1) =~= b@.subrange(0, k as int).push(b@[k as int]));
        }
        k = k + 1;
    }
    let mut z: usize = n;
    while z < w
        invariant
            n <= z <= w,
            n <= b@.len(),
            n == if b@.len() < w { b@.len() } else { w as nat },
            buf@ == start + b@.subrange(0, n as int) + zeros((z - n) as nat),
        decreases w - z,
    {
        buf.push(0u8);
        proof {
            assert(zeros((z + 1 - n) as nat) =~= zeros((z - n) as nat).push(0u8));
        }
        z = z + 1;
    }
    proof {
        if b@.len() >= w {
            assert(zeros(0) =~= Seq::<u8>::empty());
            assert(start + b@.subrange(0, n as int) + zeros(0) =~= start + padded(b@, w as nat));
        } else {
            assert(b@.subrange(0, n as int) =~= b@);
            assert(start + b@.subrange(0, n as int) + zeros((w - n) as nat) =~= start + padded(
                b@,
                w as nat,
            ));
        }
    }
}

/// Reading back the encoding of an `i32` gives the value that was written.
pub proof fn law_i32_le_roundtrip(x: i32)
    ensures
        i32_le(x).len() == 4,
        spec_u32_from_le_bytes(i32_le(x)) as i32 == x,
{
    lemma_auto_spec_u32_to_from_le_bytes();
    let u = x as u32;
    assert(spec_u32_to_le_bytes(u).len() == 4);
    assert(spec_u32_from_le_bytes(spec_u32_to_le_bytes(u)) == u);
    assert((u as i32) == x) by (bit_vector)
        requires
            u == x as u32,
    ;
}

/// Reading back the encoding of an `i64` gives the value that was written.
pub proof fn law_i64_le_roundtrip(x: i64)
    ensures
        i64_le(x).len() == 8,
        spec_u64_from_le_bytes(i64_le(x)) as i64 == x,
{
    lemma_auto_spec_u64_to_from_le_bytes();
    let u = x as u64;
    assert(spec_u64_to_le_bytes(u).len() == 8);
    assert(spec_u64_from_le_bytes(spec_u64_to_le_bytes(u)) == u);
    assert((u as i64) == x) by (bit_vector)
        requires
            u == x as u64,
    ;
}

/// Four bytes holding the encoding of `x` read back as `x`.
pub proof fn lemma_read_back_i32(d: Seq<u8>, off: int, x: i32)
    requires
        0 <= off,
        off + 4 <= d.len(),
        d.subrange(off, off + 4) == i32_le(x),
    ensures
        le_i32_at(d, off) == x,
{
    law_i32_le_roundtrip(x);
}

/// Eight bytes holding the encoding of `x` read back as `x`.
pub proof fn lemma_read_back_i64(d: Seq<u8>, off: int, x: i64)
    requires
        0 <= off,
        off + 8 <= d.len(),
        d.subrange(off, off + 8) == i64_le(x),
    ensures
        le_i64_at(d, off) == x,
{
    law_i64_le_roundtrip(x);
}

} // verus!
