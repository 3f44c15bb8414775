//! Text helpers on strings seen as sequences of `char`: whitespace trimming, NUL trimming and the
//! normal form of tag numbers and other fixed-width text fields.

use vstd::prelude::*;

verus! {

/// Unicode `White_Space` code points: the characters `char::is_whitespace` accepts and `str::trim` drops.
pub open spec fn is_white_space(c: char) -> bool {
    let u = c as u32;
    ||| 0x9 <= u <= 0xD
    ||| u == 0x20
    ||| u == 0x85
    ||| u == 0xA0
    ||| u == 0x1680
    ||| 0x2000 <= u <= 0x200A
    ||| u == 0x2028
    ||| u == 0x2029
    ||| u == 0x202F
    ||| u == 0x205F
    ||| u == 0x3000
}

/// `s` without its leading white space.
pub open spec fn trim_start_seq(s: Seq<char>) -> Seq<char>
    decreases s.len(),
{
    if s.len() > 0 && is_white_space(s[0]) {
        trim_start_seq(s.drop_first())
    } else {
        s
    }
}

/// `s` without its trailing white space.
pub open spec fn trim_end_seq(s: Seq<char>) -> Seq<char>
    decreases s.len(),
{
    if s.len() > 0 && is_white_space(s.last()) {
        trim_end_seq(s.drop_last())
    } else {
        s
    }
}

/// `s` without leading and trailing white space.
pub open spec fn trim_seq(s: Seq<char>) -> Seq<char> {
    trim_end_seq(trim_start_seq(s))
}

/// `s` without its trailing NUL characters.
pub open spec fn trim_end_nul_seq(s: Seq<char>) -> Seq<char>
    decreases s.len(),
{
    if s.len() > 0 && s.last() == '\0' {
        trim_end_nul_seq(s.drop_last())
    } else {
        s
    }
}

/// Normal form of a tag number or text field read from the wire: trailing NULs dropped, then
/// white space trimmed at both ends.
pub open spec fn normalize_seq(s: Seq<char>) -> Seq<char> {
    trim_seq(trim_end_nul_seq(s))
}

/// Whether `c` is white space.
pub fn is_white_space_char(c: char) -> (r: bool)
    ensures
        r == is_white_space(c),
{
    let u = c as u32;
    (0x9 <= u && u <= 0xD) || u == 0x20 || u == 0x85 || u == 0xA0 || u == 0x1680 || (0x2000 <= u
        && u <= 0x200A) || u == 0x2028 || u == 0x2029 || u == 0x202F || u == 0x205F || u == 0x3000
}

proof fn lemma_trim_start_step(s: Seq<char>, i: int)
    requires
        0 <= i < s.len(),
        is_white_space(s[i]),
    ensures
        trim_start_seq(s.subrange(i, s.len() as int)) == trim_start_seq(
            s.subrange(i + 1, s.len() as int),
        ),
{
    let t = s.subrange(i, s.len() as int);
    assert(t.drop_first() =~= s.subrange(i + 1, s.len() as int));
}

proof fn lemma_trim_end_nul_step(s: Seq<char>, j: int)
    requires
        0 < j <= s.len(),
        s[j - 1] == '\0',
    ensures
        trim_end_nul_seq(s.subrange(0, j)) == trim_end_nul_seq(s.subrange(0, j - 1)),
{
    let t = s.subrange(0, j);
    assert(t.drop_last() =~= s.subrange(0, j - 1));
}

/// Index of the first character of `s` that is not white space (`s@.len()` when there is none).
fn first_non_white(s: &str) -> (i: usize)
    ensures
        i <= s@.len(),
        trim_start_seq(s@) == s@.subrange(i as int, s@.len() as int),
        i < s@.len() ==> !is_white_space(s@[i as int]),
{
    let n = s.unicode_len();
    let mut i: usize = 0;
    assert(s@.subrange(0, s@.len() as int) =~= s@);
    while i < n
        invariant
            n == s@.len(),
            i <= n,
            trim_start_seq(s@) == trim_start_seq(s@.subrange(i as int, n as int)),
        decreases n - i,
    {
        let c = s.get_char(i);
        if !is_white_space_char(c) {
            let ghost t = s@.subrange(i as int, n as int);
            assert(t[0] == c);
            return i;
        }
        proof {
            lemma_trim_start_step(s@, i as int);
        }
        i = i + 1;
    }
    assert(s@.subrange(n as int, n as int).len() == 0);
    i
}

/// Index just past the last character of `s[..end]` that is not white space (`start` when the
/// characters of `s[start..end]` are all white space).
fn last_non_white(s: &str, start: usize, end: usize) -> (j: usize)
    requires
        start <= end <= s@.len(),
    ensures
        start <= j <= end,
        trim_end_seq(s@.subrange(start as int, end as int)) == s@.subrange(start as int, j as int),
{
    let ghost t = s@.subrange(start as int, end as int);
    let mut j: usize = end;
    while j > start
        invariant
            start <= j <= end <= s@.len(),
            t == s@.subrange(start as int, end as int),
            trim_end_seq(t) == trim_end_seq(s@.subrange(start as int, j as int)),
        decreases j - start,
    {
        let c = s.get_char(j - 1);
        if !is_white_space_char(c) {
            let ghost u = s@.subrange(start as int, j as int);
            assert(u.last() == c);
            return j;
        }
        proof {
            let ghost u = s@.subrange(start as int, j as int);
            assert(u.drop_last() =~= s@.subrange(start as int, j - 1));
        }
        j = j - 1;
    }
    assert(s@.subrange(start as int, start as int).len() == 0);
    j
}

/// Index just past the last character of `s` that is not NUL.
fn last_non_nul(s: &str) -> (j: usize)
    ensures
        j <= s@.len(),
        trim_end_nul_seq(s@) == s@.subrange(0, j as int),
{
    let n = s.unicode_len();
    let mut j: usize = n;
    assert(s@.subrange(0, n as int) =~= s@);
    while j > 0
        invariant
            n == s@.len(),
            j <= n,
            trim_end_nul_seq(s@) == trim_end_nul_seq(s@.subrange(0, j as int)),
        decreases j,
    {
        let c = s.get_char(j - 1);
        if c != '\0' {
            let ghost u = s@.subrange(0, j as int);
            assert(u.last() == c);
            return j;
        }
        proof {
            lemma_trim_end_nul_step(s@, j as int);
        }
        j = j - 1;
    }
    assert(s@.subrange(0, 0).len() == 0);
    j
}

/// `s` with white space trimmed at both ends (`str::trim`).
pub fn trim_str(s: &str) -> (r: String)
    ensures
        r@ == trim_seq(s@),
{
    let n = s.unicode_len();
    let i = first_non_white(s);
    let j = last_non_white(s, i, n);
    let sub = s.substring_char(i, j);
    sub.to_owned()
}

/// `s` with its trailing NUL characters dropped (`str::trim_end_matches('\0')`).
pub fn trim_end_nul_str(s: &str) -> (r: String)
    ensures
        r@ == trim_end_nul_seq(s@),
{
    let j = last_non_nul(s);
    let sub = s.substring_char(0, j);
    sub.to_owned()
}

/// Normal form of a tag number or text field: trailing NULs dropped, then white space trimmed.
pub fn normalize_etag(s: &str) -> (r: String)
    ensures
        r@ == normalize_seq(s@),
{
    let t = trim_end_nul_str(s);
    trim_str(t.as_str())
}

proof fn lemma_trim_end_keeps_head(t: Seq<char>)
    requires
        t.len() > 0,
        !is_white_space(t[0]),
    ensures
        trim_end_seq(t).len() > 0,
    decreases t.len(),
{
    if t.len() > 1 && is_white_space(t.last()) {
        lemma_trim_end_keeps_head(t.drop_last());
    }
}

/// Whether `s` is empty or white space only (`s.trim().is_empty()`).
pub fn is_blank(s: &str) -> (r: bool)
    ensures
        r == (trim_seq(s@).len() == 0),
{
    let n = s.unicode_len();
    let i = first_non_white(s);
    proof {
        let t = s@.subrange(i as int, n as int);
        if i < n {
            assert(t[0] == s@[i as int]);
            lemma_trim_end_keeps_head(t);
        } else {
            assert(t.len() == 0);
        }
    }
    i == n
}

} // verus!
