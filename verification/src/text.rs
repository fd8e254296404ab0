//! Byte-level text helpers: classification, searching, and decimal
//! number parsing over raw line bytes.
//!
//! All delimiters of the log syntax are single ASCII bytes, so lines are
//! handled as byte slices; splitting at ASCII bytes never cuts a UTF-8
//! character in half.

use vstd::prelude::*;
use vstd::arithmetic::div_mod::lemma_fundamental_div_mod;

verus! {

/// Whether a byte is an ASCII decimal digit.
pub open spec fn is_digit(b: u8) -> bool {
    '0' as u8 <= b && b <= '9' as u8
}

/// Whether every byte of `t` is a decimal digit.
pub open spec fn all_digits(t: Seq<u8>) -> bool {
    forall|i: int| 0 <= i < t.len() ==> is_digit(#[trigger] t[i])
}

/// Whether a byte is ASCII whitespace, the single-byte cases of what
/// `str::trim_start` removes.
pub open spec fn is_ws(b: u8) -> bool {
    b == ' ' as u8 || (9 <= b && b <= 13)
}

/// The numeric value of a digit string, most significant digit first.
pub open spec fn dec_val(t: Seq<u8>) -> int
    decreases t.len(),
{
    if t.len() == 0 {
        0
    } else {
        dec_val(t.drop_last()) * 10 + (t.last() - '0' as u8)
    }
}

/// A non-empty, all-digit token.
pub open spec fn valid_dec(t: Seq<u8>) -> bool {
    t.len() > 0 && all_digits(t)
}

pub proof fn lemma_dec_val_nonneg(t: Seq<u8>)
    requires
        all_digits(t),
    ensures
        dec_val(t) >= 0,
    decreases t.len(),
{
    if t.len() > 0 {
        assert(all_digits(t.drop_last())) by {
            assert(forall|i: int|
                0 <= i < t.len() - 1 ==> is_digit(#[trigger] t.drop_last()[i]) == is_digit(t[i]));
        }
        lemma_dec_val_nonneg(t.drop_last());
    }
}

/// A digit string is worth at least any of its prefixes.
pub proof fn lemma_dec_val_prefix(t: Seq<u8>, j: int)
    requires
        all_digits(t),
        0 <= j <= t.len(),
    ensures
        dec_val(t.take(j)) <= dec_val(t),
    decreases t.len() - j,
{
    if j < t.len() {
        lemma_dec_val_prefix(t, j + 1);
        let u = t.take(j + 1);
        assert(u.drop_last() =~= t.take(j));
        assert(all_digits(u.drop_last()));
        lemma_dec_val_nonneg(u.drop_last());
        assert(dec_val(u) == dec_val(t.take(j)) * 10 + (u.last() - '0' as u8));
    } else {
        assert(t.take(j) =~= t);
    }
}

/// Parses `tok` as an unsigned decimal number of value at most `max`:
/// the token must be non-empty, all digits, and within the bound.
pub fn parse_dec(tok: &[u8], max: u64) -> (r: Option<u64>)
    ensures
        match r {
            Some(v) => valid_dec(tok@) && dec_val(tok@) == v && v <= max,
            None => !(valid_dec(tok@) && dec_val(tok@) <= max),
        },
{
    let n: usize = tok.len();
    if n == 0 {
        return None;
    }
    let mut v: u64 = 0;
    let mut i: usize = 0;
    while i < n
        invariant
            0 <= i <= n,
            n == tok@.len(),
            all_digits(tok@.take(i as int)),
            v == dec_val(tok@.take(i as int)),
            v <= max,
        decreases n - i,
    {
        let b = tok[i];
        if !(b >= '0' as u8 && b <= '9' as u8) {
            return None;
        }
        let d: u64 = (b - '0' as u8) as u64;
        proof {
            assert(tok@.take(i + 1).drop_last() =~= tok@.take(i as int));
            assert(dec_val(tok@.take(i + 1)) == v * 10 + d);
            assert(all_digits(tok@.take(i + 1)));
        }
        if v > max / 10 {
            proof {
                lemma_fundamental_div_mod(max as int, 10);
                assert(v * 10 + d > max);
                if all_digits(tok@) {
                    lemma_dec_val_prefix(tok@, i + 1);
                }
            }
            return None;
        }
        proof {
            lemma_fundamental_div_mod(max as int, 10);
            assert(v * 10 <= (max / 10) * 10);
        }
        let w: u64 = v * 10;
        if d > max - w {
            proof {
                assert(v * 10 + d > max);
                if all_digits(tok@) {
                    lemma_dec_val_prefix(tok@, i + 1);
                }
            }
            return None;
        }
        v = w + d;
        i = i + 1;
    }
    proof {
        assert(tok@.take(n as int) =~= tok@);
    }
    Some(v)
}

/// The value of a signed decimal token: an optional `-` or `+` sign
/// followed by at least one digit, of magnitude at most `i64::MAX`.
pub open spec fn spec_signed(t: Seq<u8>) -> Option<int> {
    if t.len() > 0 && t[0] == '-' as u8 {
        if valid_dec(t.skip(1)) && dec_val(t.skip(1)) <= i64::MAX {
            Some(-dec_val(t.skip(1)))
        } else {
            None
        }
    } else if t.len() > 0 && t[0] == '+' as u8 {
        if valid_dec(t.skip(1)) && dec_val(t.skip(1)) <= i64::MAX {
            Some(dec_val(t.skip(1)))
        } else {
            None
        }
    } else {
        if valid_dec(t) && dec_val(t) <= i64::MAX {
            Some(dec_val(t))
        } else {
            None
        }
    }
}

/// Parses a signed decimal token.
pub fn parse_signed(tok: &[u8]) -> (r: Option<i64>)
    ensures
        match r {
            Some(v) => spec_signed(tok@) == Some(v as int),
            None => spec_signed(tok@) is None,
        },
{
    let n: usize = tok.len();
    if n > 0 && (tok[0] == '-' as u8 || tok[0] == '+' as u8) {
        let neg = tok[0] == '-' as u8;
        let rest = &tok[1..n];
        proof {
            assert(rest@ =~= tok@.skip(1));
        }
        match parse_dec(rest, 9_223_372_036_854_775_807) {
            Some(v) => {
                if neg {
                    Some(-(v as i64))
                } else {
                    Some(v as i64)
                }
            },
            None => None,
        }
    } else {
        match parse_dec(tok, 9_223_372_036_854_775_807) {
            Some(v) => Some(v as i64),
            None => None,
        }
    }
}

/// The first position in `[i, s.len())` where the two-byte pattern
/// `c0 c1` begins, or `s.len()` if it never occurs.
pub open spec fn find_pair(s: Seq<u8>, i: int, c0: u8, c1: u8) -> int
    decreases s.len() - i when 0 <= i <= s.len()
{
    if i + 1 >= s.len() {
        s.len() as int
    } else if s[i] == c0 && s[i + 1] == c1 {
        i
    } else {
        find_pair(s, i + 1, c0, c1)
    }
}

/// Where `find_pair` stops: at or after `i`, and on a match both
/// pattern bytes are in range and in place.
pub proof fn lemma_find_pair(s: Seq<u8>, i: int, c0: u8, c1: u8)
    requires
        0 <= i <= s.len(),
    ensures
        i <= find_pair(s, i, c0, c1) <= s.len(),
        find_pair(s, i, c0, c1) < s.len() ==> {
            let r = find_pair(s, i, c0, c1);
            r + 1 < s.len() && s[r] == c0 && s[r + 1] == c1
        },
    decreases s.len() - i,
{
    if i + 1 >= s.len() {
    } else if s[i] == c0 && s[i + 1] == c1 {
    } else {
        lemma_find_pair(s, i + 1, c0, c1);
    }
}

/// The first position in `[i, end)` holding byte `c`, or `end` if none.
pub open spec fn find_byte(s: Seq<u8>, i: int, end: int, c: u8) -> int
    decreases end - i when 0 <= i <= end <= s.len()
{
    if i >= end {
        end
    } else if s[i] == c {
        i
    } else {
        find_byte(s, i + 1, end, c)
    }
}

/// The first position in `[i, s.len())` holding a byte other than `c`,
/// or `s.len()` if none.
pub open spec fn skip_byte(s: Seq<u8>, i: int, c: u8) -> int
    decreases s.len() - i when 0 <= i <= s.len()
{
    if i >= s.len() {
        s.len() as int
    } else if s[i] != c {
        i
    } else {
        skip_byte(s, i + 1, c)
    }
}

/// The first position in `[i, end)` holding a byte that is not ASCII
/// whitespace, or `end` if none.
pub open spec fn skip_ws(s: Seq<u8>, i: int, end: int) -> int
    decreases end - i when 0 <= i <= end <= s.len()
{
    if i >= end {
        end
    } else if !is_ws(s[i]) {
        i
    } else {
        skip_ws(s, i + 1, end)
    }
}

/// Finds the first occurrence of the two-byte pattern `c0 c1` at or
/// after `from`.
pub fn find_pair_at(line: &[u8], from: usize, c0: u8, c1: u8) -> (r: usize)
    requires
        from <= line@.len(),
    ensures
        r == find_pair(line@, from as int, c0, c1),
        from <= r <= line@.len(),
    decreases line@.len() - from,
{
    let n: usize = line.len();
    if n - from <= 1 {
        n
    } else if line[from] == c0 && line[from + 1] == c1 {
        from
    } else {
        find_pair_at(line, from + 1, c0, c1)
    }
}

/// Finds the first occurrence of byte `c` in `[from, end)`.
pub fn find_byte_at(line: &[u8], from: usize, end: usize, c: u8) -> (r: usize)
    requires
        from <= end <= line@.len(),
    ensures
        r == find_byte(line@, from as int, end as int, c),
        from <= r <= end,
    decreases end - from,
{
    if from >= end {
        end
    } else if line[from] == c {
        from
    } else {
        find_byte_at(line, from + 1, end, c)
    }
}

/// Finds the first position at or after `from` whose byte is not `c`.
pub fn skip_byte_at(line: &[u8], from: usize, c: u8) -> (r: usize)
    requires
        from <= line@.len(),
    ensures
        r == skip_byte(line@, from as int, c),
        from <= r <= line@.len(),
    decreases line@.len() - from,
{
    let n: usize = line.len();
    if from >= n {
        n
    } else if line[from] != c {
        from
    } else {
        skip_byte_at(line, from + 1, c)
    }
}

/// Finds the first position in `[from, end)` that is not ASCII
/// whitespace.
pub fn skip_ws_at(line: &[u8], from: usize, end: usize) -> (r: usize)
    requires
        from <= end <= line@.len(),
    ensures
        r == skip_ws(line@, from as int, end as int),
        from <= r <= end,
    decreases end - from,
{
    if from >= end {
        end
    } else if !(line[from] == ' ' as u8 || (line[from] >= 9 && line[from] <= 13)) {
        from
    } else {
        skip_ws_at(line, from + 1, end)
    }
}

/// Whether two byte slices hold the same bytes.
pub fn bytes_eq(a: &[u8], b: &[u8]) -> (r: bool)
    ensures
        r == (a@ == b@),
{
    let n: usize = a.len();
    if n != b.len() {
        proof {
            assert(a@ != b@);
        }
        return false;
    }
    let mut i: usize = 0;
    while i < n
        invariant
            0 <= i <= n,
            n == a@.len() == b@.len(),
            forall|j: int| 0 <= j < i ==> a@[j] == b@[j],
        decreases n - i,
    {
        if a[i] != b[i] {
            return false;
        }
        i = i + 1;
    }
    proof {
        assert(a@ =~= b@);
    }
    true
}

} // verus!
