//! Character-level string utilities: equality of string slices and
//! parsing of decimal integers, with exact specifications of which
//! strings are accepted and what value they denote.

use vstd::prelude::*;

verus! {

/// A decimal digit, `'0'` through `'9'`.
pub open spec fn is_digit(c: char) -> bool {
    48 <= (c as u32) && (c as u32) <= 57
}

/// Numeric value of a single digit character.
pub open spec fn digit_val(c: char) -> int {
    (c as u32) as int - 48
}

/// Every character of `s` is a decimal digit.
pub open spec fn all_digits(s: Seq<char>) -> bool {
    forall|i: int| 0 <= i < s.len() ==> is_digit(s[i])
}

/// Value of a digit string read in base ten, most significant first.
pub open spec fn digits_val(s: Seq<char>) -> int
    decreases s.len(),
{
    if s.len() == 0 {
        0
    } else {
        digits_val(s.drop_last()) * 10 + digit_val(s.last())
    }
}

/// Ten to the power `n`.
pub open spec fn pow10(n: int) -> int
    decreases n,
{
    if n <= 0 {
        1
    } else {
        10 * pow10(n - 1)
    }
}

/// The small powers of ten, spelled out.
pub proof fn lemma_pow10_upto6()
    ensures
        pow10(0) == 1,
        pow10(1) == 10,
        pow10(2) == 100,
        pow10(3) == 1000,
        pow10(4) == 10000,
        pow10(5) == 100000,
        pow10(6) == 1000000,
{
    assert(pow10(0) == 1);
    assert(pow10(1) == 10);
    assert(pow10(2) == 100);
    assert(pow10(3) == 1000);
    assert(pow10(4) == 10000);
    assert(pow10(5) == 100000);
    assert(pow10(6) == 1000000);
}

/// A digit string of at most `k` digits denotes a value below ten to
/// the `k`.
pub proof fn lemma_digits_val_bound(s: Seq<char>, k: int)
    requires
        all_digits(s),
        s.len() <= k,
    ensures
        digits_val(s) < pow10(k),
    decreases s.len(),
{
    if s.len() == 0 {
        assert(pow10(k) >= 1) by {
            lemma_pow10_pos(k);
        }
    } else {
        lemma_digits_val_bound(s.drop_last(), k - 1);
        assert(pow10(k) == 10 * pow10(k - 1));
    }
}

pub proof fn lemma_pow10_pos(n: int)
    ensures
        pow10(n) >= 1,
    decreases n,
{
    if n > 0 {
        lemma_pow10_pos(n - 1);
    }
}

pub proof fn lemma_digits_val_nonneg(s: Seq<char>)
    requires
        all_digits(s),
    ensures
        digits_val(s) >= 0,
    decreases s.len(),
{
    if s.len() > 0 {
        lemma_digits_val_nonneg(s.drop_last());
    }
}

/// Reading more digits never decreases the value: the value of a prefix
/// bounds the value of the whole digit string from below.
pub proof fn lemma_digits_val_prefix_le(s: Seq<char>, i: int)
    requires
        all_digits(s),
        0 <= i <= s.len(),
    ensures
        digits_val(s.take(i)) <= digits_val(s),
    decreases s.len() - i,
{
    if i < s.len() {
        assert(s.take(i + 1).drop_last() =~= s.take(i));
        assert(s.take(i + 1).last() == s[i]);
        lemma_digits_val_nonneg(s.take(i));
        lemma_digits_val_prefix_le(s, i + 1);
    } else {
        assert(s.take(i) =~= s);
    }
}

/// The digit part of an unsigned number token: an optional leading `'+'`
/// is dropped.
pub open spec fn unsigned_body(s: Seq<char>) -> Seq<char> {
    if s.len() > 0 && s[0] == '+' {
        s.drop_first()
    } else {
        s
    }
}

/// `s` is a well-formed unsigned decimal integer: an optional `'+'`
/// followed by at least one digit and nothing else.
pub open spec fn parses_as_unsigned(s: Seq<char>) -> bool {
    unsigned_body(s).len() > 0 && all_digits(unsigned_body(s))
}

/// Value denoted by a well-formed unsigned decimal integer.
pub open spec fn unsigned_val(s: Seq<char>) -> int {
    digits_val(unsigned_body(s))
}

/// The sign of a signed number token.
pub open spec fn signed_neg(s: Seq<char>) -> bool {
    s.len() > 0 && s[0] == '-'
}

/// The digit part of a signed number token: an optional leading `'+'`
/// or `'-'` is dropped.
pub open spec fn signed_body(s: Seq<char>) -> Seq<char> {
    if s.len() > 0 && (s[0] == '+' || s[0] == '-') {
        s.drop_first()
    } else {
        s
    }
}

/// `s` is a well-formed signed decimal integer: an optional sign
/// followed by at least one digit and nothing else.
pub open spec fn parses_as_signed(s: Seq<char>) -> bool {
    signed_body(s).len() > 0 && all_digits(signed_body(s))
}

/// Value denoted by a well-formed signed decimal integer.
pub open spec fn signed_val(s: Seq<char>) -> int {
    if signed_neg(s) {
        -digits_val(signed_body(s))
    } else {
        digits_val(signed_body(s))
    }
}

/// Character-by-character equality of two string slices.
pub fn str_eq(a: &str, b: &str) -> (r: bool)
    ensures
        r == (a@ == b@),
{
    let alen: usize = a.unicode_len();
    let blen: usize = b.unicode_len();
    if alen != blen {
        return false;
    }
    let mut i: usize = 0;
    while i < alen
        invariant
            alen == a@.len(),
            alen == b@.len(),
            i <= alen,
            forall|j: int| 0 <= j < i ==> a@[j] == b@[j],
        decreases alen - i,
    {
        if a.get_char(i) != b.get_char(i) {
            return false;
        }
        i = i + 1;
    }
    proof {
        assert(a@ =~= b@);
    }
    true
}

/// Scans `s` from position `from` to its end as a digit string and
/// returns its value, or `None` when a non-digit occurs, no digit at
/// all occurs, or the value does not fit in `u64`.
fn parse_digits(s: &str, from: usize) -> (r: Option<u64>)
    requires
        from as int <= s@.len(),
    ensures
        ({
            let b = s@.skip(from as int);
            &&& r.is_some() <==> (b.len() > 0 && all_digits(b) && digits_val(b) <= u64::MAX)
            &&& r.is_some() ==> r->Some_0 == digits_val(b)
        }),
{
    let ghost b = s@.skip(from as int);
    let n: usize = s.unicode_len();
    if from == n {
        return None;
    }
    let mut i: usize = from;
    let mut acc: u64 = 0;
    while i < n
        invariant
            from <= i <= n,
            n == s@.len(),
            b == s@.skip(from as int),
            all_digits(b.take(i - from)),
            acc == digits_val(b.take(i - from)),
        decreases n - i,
    {
        let c = s.get_char(i);
        let cv: u32 = c as u32;
        if cv < 48 || cv > 57 {
            proof {
                assert(b[i - from] == s@[i as int]);
                assert(!is_digit(b[i - from]));
            }
            return None;
        }
        let d: u64 = (cv - 48) as u64;
        if acc > 1844674407370955161u64 || (acc == 1844674407370955161u64 && d > 5) {
            // The value exceeds u64::MAX already; any further digits
            // only increase it.
            proof {
                assert(b.take(i - from + 1).drop_last() =~= b.take(i - from));
                assert(b.take(i - from + 1).last() == b[i - from]);
                assert(digits_val(b.take(i - from + 1)) > u64::MAX);
                if all_digits(b) {
                    lemma_digits_val_prefix_le(b, i - from + 1);
                }
            }
            return None;
        }
        proof {
            assert(b.take(i - from + 1).drop_last() =~= b.take(i - from));
            assert(b.take(i - from + 1).last() == b[i - from]);
        }
        acc = acc * 10 + d;
        i = i + 1;
    }
    proof {
        assert(b.take(n - from) =~= b);
    }
    Some(acc)
}

/// Parses an unsigned 64-bit decimal integer: an optional `'+'`,
/// then one or more digits, value at most `u64::MAX`.
pub fn parse_u64(s: &str) -> (r: Option<u64>)
    ensures
        r.is_some() <==> (parses_as_unsigned(s@) && unsigned_val(s@) <= u64::MAX),
        r.is_some() ==> r->Some_0 == unsigned_val(s@),
{
    let n: usize = s.unicode_len();
    if n == 0 {
        return None;
    }
    let start: usize = if s.get_char(0) == '+' {
        1
    } else {
        0
    };
    proof {
        if start == 1 {
            assert(s@.skip(1) =~= unsigned_body(s@));
        } else {
            assert(s@.skip(0) =~= unsigned_body(s@));
        }
    }
    parse_digits(s, start)
}

/// Parses an unsigned 32-bit decimal integer.
pub fn parse_u32(s: &str) -> (r: Option<u32>)
    ensures
        r.is_some() <==> (parses_as_unsigned(s@) && unsigned_val(s@) <= u32::MAX),
        r.is_some() ==> r->Some_0 == unsigned_val(s@),
{
    match parse_u64(s) {
        Some(v) => {
            if v <= 0xffff_ffffu64 {
                Some(v as u32)
            } else {
                None
            }
        },
        None => None,
    }
}

/// Parses a signed 64-bit decimal integer: an optional sign, then one
/// or more digits, value within the range of `i64`.
pub fn parse_i64(s: &str) -> (r: Option<i64>)
    ensures
        r.is_some() <==> (parses_as_signed(s@) && i64::MIN <= signed_val(s@) <= i64::MAX),
        r.is_some() ==> r->Some_0 == signed_val(s@),
{
    let n: usize = s.unicode_len();
    if n == 0 {
        return None;
    }
    let c0 = s.get_char(0);
    let neg: bool = c0 == '-';
    let start: usize = if c0 == '-' || c0 == '+' {
        1
    } else {
        0
    };
    proof {
        if start == 1 {
            assert(s@.skip(1) =~= signed_body(s@));
        } else {
            assert(s@.skip(0) =~= signed_body(s@));
        }
    }
    match parse_digits(s, start) {
        Some(m) => {
            if neg {
                if m <= 9223372036854775807u64 {
                    Some(-(m as i64))
                } else if m == 9223372036854775808u64 {
                    Some(i64::MIN)
                } else {
                    None
                }
            } else {
                if m <= 9223372036854775807u64 {
                    Some(m as i64)
                } else {
                    None
                }
            }
        },
        None => None,
    }
}

/// Parses a signed 32-bit decimal integer.
pub fn parse_i32(s: &str) -> (r: Option<i32>)
    ensures
        r.is_some() <==> (parses_as_signed(s@) && i32::MIN <= signed_val(s@) <= i32::MAX),
        r.is_some() ==> r->Some_0 == signed_val(s@),
{
    match parse_i64(s) {
        Some(v) => {
            if -2147483648i64 <= v && v <= 2147483647i64 {
                Some(v as i32)
            } else {
                None
            }
        },
        None => None,
    }
}

} // verus!
