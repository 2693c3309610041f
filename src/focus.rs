//! Reading the process id that the window-focus helper prints.

use vstd::prelude::*;

verus! {

/// Whether `w` is the UTF-8 encoding of a whitespace character, as
/// `char::is_whitespace` and so `str::trim` take it: U+0009 to U+000D, U+0020,
/// U+0085, U+00A0, U+1680, U+2000 to U+200A, U+2028, U+2029, U+202F, U+205F
/// and U+3000.
pub open spec fn is_blank_char(w: Seq<u8>) -> bool {
    ||| (w.len() == 1 && ((9 <= w[0] && w[0] <= 13) || w[0] == 32))
    ||| (w.len() == 2 && w[0] == 0xC2 && (w[1] == 0x85 || w[1] == 0xA0))
    ||| (w.len() == 3 && w[0] == 0xE1 && w[1] == 0x9A && w[2] == 0x80)
    ||| (w.len() == 3 && w[0] == 0xE2 && w[1] == 0x80 && ((0x80 <= w[2] && w[2] <= 0x8A) || w[2]
        == 0xA8 || w[2] == 0xA9 || w[2] == 0xAF))
    ||| (w.len() == 3 && w[0] == 0xE2 && w[1] == 0x81 && w[2] == 0x9F)
    ||| (w.len() == 3 && w[0] == 0xE3 && w[1] == 0x80 && w[2] == 0x80)
}

pub open spec fn is_digit(b: u8) -> bool {
    48 <= b <= 57
}

/// The length of the whitespace character that `s` starts with, or 0.
pub open spec fn blank_len_front(s: Seq<u8>) -> int {
    if s.len() >= 1 && is_blank_char(s.take(1)) {
        1
    } else if s.len() >= 2 && is_blank_char(s.take(2)) {
        2
    } else if s.len() >= 3 && is_blank_char(s.take(3)) {
        3
    } else {
        0
    }
}

/// The length of the whitespace character that `s` ends with, or 0.
pub open spec fn blank_len_back(s: Seq<u8>) -> int {
    if s.len() >= 1 && is_blank_char(s.skip(s.len() - 1)) {
        1
    } else if s.len() >= 2 && is_blank_char(s.skip(s.len() - 2)) {
        2
    } else if s.len() >= 3 && is_blank_char(s.skip(s.len() - 3)) {
        3
    } else {
        0
    }
}

pub open spec fn trim_front(s: Seq<u8>) -> Seq<u8>
    decreases s.len(),
{
    let n = blank_len_front(s);
    if n > 0 {
        trim_front(s.skip(n))
    } else {
        s
    }
}

pub open spec fn trim_back(s: Seq<u8>) -> Seq<u8>
    decreases s.len(),
{
    let n = blank_len_back(s);
    if n > 0 {
        trim_back(s.take(s.len() - n))
    } else {
        s
    }
}

/// The text with whitespace characters removed at both ends, as `str::trim`
/// removes them.
pub open spec fn trimmed(s: Seq<u8>) -> Seq<u8> {
    trim_back(trim_front(s))
}

/// The text without one leading `+`, which an unsigned number may carry.
pub open spec fn unsigned_digits(t: Seq<u8>) -> Seq<u8> {
    if t.len() > 0 && t[0] == 43 {
        t.drop_first()
    } else {
        t
    }
}

pub open spec fn all_digits(d: Seq<u8>) -> bool {
    forall|i: int| 0 <= i < d.len() ==> is_digit(#[trigger] d[i])
}

/// The value of a string of decimal digits, most significant first.
pub open spec fn digits_value(d: Seq<u8>) -> nat
    decreases d.len(),
{
    if d.len() == 0 {
        0
    } else {
        digits_value(d.drop_last()) * 10 + (d.last() - 48) as nat
    }
}

/// The process id written in the helper's output: decimal digits, with an
/// optional `+`, between optional whitespace, and no larger than `u32::MAX`.
pub open spec fn pid_in_output(out: Seq<u8>) -> Option<u32> {
    let d = unsigned_digits(trimmed(out));
    if d.len() > 0 && all_digits(d) && digits_value(d) <= u32::MAX {
        Some(digits_value(d) as u32)
    } else {
        None
    }
}

/// The length of the whitespace character that `s[lo..hi]` starts with, or 0.
fn blank_at_front(s: &[u8], lo: usize, hi: usize) -> (n: usize)
    requires
        lo <= hi <= s@.len(),
    ensures
        n == blank_len_front(s@.subrange(lo as int, hi as int)),
{
    let ghost t = s@.subrange(lo as int, hi as int);
    let len = hi - lo;
    if len >= 1 {
        let b0 = s[lo];
        assert(t.take(1) =~= seq![b0]);
        if (9 <= b0 && b0 <= 13) || b0 == 32 {
            return 1;
        }
    }
    if len >= 2 {
        let b0 = s[lo];
        let b1 = s[lo + 1];
        assert(t.take(2) =~= seq![b0, b1]);
        if b0 == 0xC2 && (b1 == 0x85 || b1 == 0xA0) {
            return 2;
        }
    }
    if len >= 3 {
        let b0 = s[lo];
        let b1 = s[lo + 1];
        let b2 = s[lo + 2];
        assert(t.take(3) =~= seq![b0, b1, b2]);
        if blank_triple(b0, b1, b2) {
            return 3;
        }
    }
    0
}

/// The length of the whitespace character that `s[lo..hi]` ends with, or 0.
fn blank_at_back(s: &[u8], lo: usize, hi: usize) -> (n: usize)
    requires
        lo <= hi <= s@.len(),
    ensures
        n == blank_len_back(s@.subrange(lo as int, hi as int)),
{
    let ghost t = s@.subrange(lo as int, hi as int);
    let len = hi - lo;
    if len >= 1 {
        let b0 = s[hi - 1];
        assert(t.skip(t.len() - 1) =~= seq![b0]);
        if (9 <= b0 && b0 <= 13) || b0 == 32 {
            return 1;
        }
    }
    if len >= 2 {
        let b0 = s[hi - 2];
        let b1 = s[hi - 1];
        assert(t.skip(t.len() - 2) =~= seq![b0, b1]);
        if b0 == 0xC2 && (b1 == 0x85 || b1 == 0xA0) {
            return 2;
        }
    }
    if len >= 3 {
        let b0 = s[hi - 3];
        let b1 = s[hi - 2];
        let b2 = s[hi - 1];
        assert(t.skip(t.len() - 3) =~= seq![b0, b1, b2]);
        if blank_triple(b0, b1, b2) {
            return 3;
        }
    }
    0
}

/// Whether three bytes encode one of the three-byte whitespace characters.
fn blank_triple(b0: u8, b1: u8, b2: u8) -> (r: bool)
    ensures
        r == is_blank_char(seq![b0, b1, b2]),
{
    (b0 == 0xE1 && b1 == 0x9A && b2 == 0x80) || (b0 == 0xE2 && b1 == 0x80 && ((0x80 <= b2 && b2
        <= 0x8A) || b2 == 0xA8 || b2 == 0xA9 || b2 == 0xAF)) || (b0 == 0xE2 && b1 == 0x81 && b2
        == 0x9F) || (b0 == 0xE3 && b1 == 0x80 && b2 == 0x80)
}

/// Index of the first byte after the leading whitespace.
fn skip_blanks_front(s: &[u8]) -> (lo: usize)
    ensures
        lo <= s@.len(),
        trim_front(s@) == s@.subrange(lo as int, s@.len() as int),
{
    let mut lo: usize = 0;
    assert(s@.subrange(0, s@.len() as int) =~= s@);
    loop
        invariant
            lo <= s@.len(),
            trim_front(s@) == trim_front(s@.subrange(lo as int, s@.len() as int)),
        decreases s@.len() - lo,
    {
        let n = blank_at_front(s, lo, s.len());
        if n == 0 {
            return lo;
        }
        assert(s@.subrange(lo as int, s@.len() as int).skip(n as int) =~= s@.subrange(
            lo + n,
            s@.len() as int,
        ));
        lo = lo + n;
    }
}

/// Index just past the last byte of `s[lo..]` that the trailing whitespace
/// leaves.
fn skip_blanks_back(s: &[u8], lo: usize) -> (hi: usize)
    requires
        lo <= s@.len(),
    ensures
        lo <= hi <= s@.len(),
        trim_back(s@.subrange(lo as int, s@.len() as int)) == s@.subrange(lo as int, hi as int),
{
    let mut hi: usize = s.len();
    loop
        invariant
            lo <= hi <= s@.len(),
            trim_back(s@.subrange(lo as int, s@.len() as int)) == trim_back(
                s@.subrange(lo as int, hi as int),
            ),
        decreases hi,
    {
        let n = blank_at_back(s, lo, hi);
        if n == 0 {
            return hi;
        }
        let ghost t = s@.subrange(lo as int, hi as int);
        assert(t.take(t.len() - n) =~= s@.subrange(lo as int, hi - n));
        hi = hi - n;
    }
}

/// Reads the process id from the helper's standard output; `None` where the
/// output is not a valid process id.
pub fn parse_pid(out: &[u8]) -> (r: Option<u32>)
    ensures
        r == pid_in_output(out@),
{
    let lo = skip_blanks_front(out);
    let hi = skip_blanks_back(out, lo);
    let ghost t = out@.subrange(lo as int, hi as int);
    assert(t == trimmed(out@));
    let mut start: usize = lo;
    if lo < hi && out[lo] == 43 {
        start = lo + 1;
        assert(t.drop_first() =~= out@.subrange(start as int, hi as int));
    }
    let ghost d = out@.subrange(start as int, hi as int);
    assert(d == unsigned_digits(t));
    if start == hi {
        return None;
    }
    let mut i: usize = start;
    let mut acc: u64 = 0;
    while i < hi
        invariant
            start <= i <= hi <= out@.len(),
            d == out@.subrange(start as int, hi as int),
            d == unsigned_digits(trimmed(out@)),
            forall|j: int| start <= j < i ==> is_digit(#[trigger] out@[j]),
            digits_value(out@.subrange(start as int, i as int)) <= u32::MAX ==> acc
                == digits_value(out@.subrange(start as int, i as int)),
            digits_value(out@.subrange(start as int, i as int)) > u32::MAX ==> u32::MAX < acc
                <= 10 * (u32::MAX as u64) + 9,
        decreases hi - i,
    {
        let b = out[i];
        if b < 48 || b > 57 {
            assert(!is_digit(d[i - start]));
            return None;
        }
        let ghost before = out@.subrange(start as int, i as int);
        assert(out@.subrange(start as int, i + 1).drop_last() =~= before);
        if acc <= u32::MAX as u64 {
            acc = acc * 10 + (b - 48) as u64;
        }
        i = i + 1;
    }
    assert(out@.subrange(start as int, i as int) =~= d);
    if acc > u32::MAX as u64 {
        None
    } else {
        Some(acc as u32)
    }
}

} // verus!
