//! The wire grammar of a box parameter: `"(lon,lat),(lon,lat)"`, each
//! number a signed decimal with an optional fraction.  The grammar is
//! specified over character sequences; the scanner finds the leftmost
//! occurrence of the pattern in the input, mirroring a search rather
//! than an anchored match, and reports each coordinate in
//! micro-degrees together with per-axis range validation.

use crate::text::{
    all_digits, digit_val, digits_val, is_digit, lemma_digits_val_bound, lemma_digits_val_nonneg,
    lemma_pow10_upto6, pow10,
};
use vstd::prelude::*;

verus! {

/// End of the maximal run of digits starting at `i`.
pub open spec fn digit_run_end(s: Seq<char>, i: int) -> int
    decreases s.len() - i
    when 0 <= i <= s.len()
{
    if i < s.len() && is_digit(s[i]) {
        digit_run_end(s, i + 1)
    } else {
        i
    }
}

/// A run of digits over `[i, k)` that cannot be extended right ends
/// exactly at `k`.
proof fn lemma_digit_run_end_is(s: Seq<char>, i: int, k: int)
    requires
        0 <= i <= k <= s.len(),
        forall|j: int| i <= j < k ==> is_digit(s[j]),
        k == s.len() || !is_digit(s[k]),
    ensures
        digit_run_end(s, i) == k,
    decreases k - i,
{
    if i < k {
        lemma_digit_run_end_is(s, i + 1, k);
    }
}

/// Number of characters taken by the optional sign of a number token
/// starting at `i`.
pub open spec fn num_sign_len(s: Seq<char>, i: int) -> int {
    if i < s.len() && (s[i] == '+' || s[i] == '-') {
        1
    } else {
        0
    }
}

/// The number token at `i` is negative.
pub open spec fn num_neg(s: Seq<char>, i: int) -> bool {
    i < s.len() && s[i] == '-'
}

/// Start of the integer digits of the number token at `i`.
pub open spec fn num_int_start(s: Seq<char>, i: int) -> int {
    i + num_sign_len(s, i)
}

/// End of the integer digits of the number token at `i`.
pub open spec fn num_int_end(s: Seq<char>, i: int) -> int {
    digit_run_end(s, num_int_start(s, i))
}

/// The number token at `i` carries a fraction: a dot followed by at
/// least one digit right after its integer digits.
pub open spec fn num_has_frac(s: Seq<char>, i: int) -> bool {
    let ie = num_int_end(s, i);
    ie < s.len() && s[ie] == '.' && ie + 1 < s.len() && is_digit(s[ie + 1])
}

/// First fraction digit of the number token at `i` (meaningful only
/// when the token has a fraction).
pub open spec fn num_frac_start(s: Seq<char>, i: int) -> int {
    num_int_end(s, i) + 1
}

/// End of the number token at `i`: its fraction digits when a fraction
/// is present, its integer digits otherwise.
pub open spec fn num_end(s: Seq<char>, i: int) -> int {
    if num_has_frac(s, i) {
        digit_run_end(s, num_frac_start(s, i))
    } else {
        num_int_end(s, i)
    }
}

/// A number token stands at `i`: at least one integer digit.
pub open spec fn num_matches(s: Seq<char>, i: int) -> bool {
    num_int_end(s, i) > num_int_start(s, i)
}

/// Value of the integer digits of the number token at `i`.
pub open spec fn num_intval(s: Seq<char>, i: int) -> int {
    digits_val(s.subrange(num_int_start(s, i), num_int_end(s, i)))
}

/// The fraction digits of the number token at `i`, empty when none.
pub open spec fn num_frac_digits(s: Seq<char>, i: int) -> Seq<char> {
    if num_has_frac(s, i) {
        s.subrange(num_frac_start(s, i), digit_run_end(s, num_frac_start(s, i)))
    } else {
        Seq::empty()
    }
}

/// Every fraction digit of the number token at `i` is zero.
pub open spec fn num_frac_zero(s: Seq<char>, i: int) -> bool {
    forall|k: int| 0 <= k < num_frac_digits(s, i).len() ==> num_frac_digits(s, i)[k] == '0'
}

/// The fraction digits truncated to micro-degree precision: the value
/// of the first six digits, scaled up when fewer are present.
pub open spec fn frac6_val(d: Seq<char>) -> int {
    if d.len() >= 6 {
        digits_val(d.take(6))
    } else {
        digits_val(d) * pow10(6 - d.len())
    }
}

/// Magnitude of the number token at `i` in micro-degrees, its fraction
/// truncated after six digits.
pub open spec fn num_micro_mag(s: Seq<char>, i: int) -> int {
    num_intval(s, i) * 1000000 + frac6_val(num_frac_digits(s, i))
}

/// Signed micro-degree value of the number token at `i`.
pub open spec fn num_micro(s: Seq<char>, i: int) -> int {
    if num_neg(s, i) {
        -num_micro_mag(s, i)
    } else {
        num_micro_mag(s, i)
    }
}

/// The magnitude of the number token at `i` is at most `limit` whole
/// degrees: its integer part is below the limit, or equal to it with a
/// fraction of zero.
pub open spec fn num_in_range(s: Seq<char>, i: int, limit: int) -> bool {
    num_intval(s, i) < limit || (num_intval(s, i) == limit && num_frac_zero(s, i))
}

/// Start of the first number of a box pattern at `i`.
pub open spec fn bp1(s: Seq<char>, i: int) -> int {
    i + 1
}

pub open spec fn be1(s: Seq<char>, i: int) -> int {
    num_end(s, bp1(s, i))
}

/// Start of the second number of a box pattern at `i`.
pub open spec fn bp2(s: Seq<char>, i: int) -> int {
    be1(s, i) + 1
}

pub open spec fn be2(s: Seq<char>, i: int) -> int {
    num_end(s, bp2(s, i))
}

/// Start of the third number of a box pattern at `i`.
pub open spec fn bp3(s: Seq<char>, i: int) -> int {
    be2(s, i) + 3
}

pub open spec fn be3(s: Seq<char>, i: int) -> int {
    num_end(s, bp3(s, i))
}

/// Start of the fourth number of a box pattern at `i`.
pub open spec fn bp4(s: Seq<char>, i: int) -> int {
    be3(s, i) + 1
}

pub open spec fn be4(s: Seq<char>, i: int) -> int {
    num_end(s, bp4(s, i))
}

/// The box pattern `(num,num),(num,num)` stands at position `i`.
pub open spec fn box_match_at(s: Seq<char>, i: int) -> bool {
    &&& 0 <= i && i < s.len() && s[i] == '('
    &&& num_matches(s, bp1(s, i))
    &&& be1(s, i) < s.len() && s[be1(s, i)] == ','
    &&& num_matches(s, bp2(s, i))
    &&& be2(s, i) + 2 < s.len()
    &&& s[be2(s, i)] == ')'
    &&& s[be2(s, i) + 1] == ','
    &&& s[be2(s, i) + 2] == '('
    &&& num_matches(s, bp3(s, i))
    &&& be3(s, i) < s.len() && s[be3(s, i)] == ','
    &&& num_matches(s, bp4(s, i))
    &&& be4(s, i) < s.len() && s[be4(s, i)] == ')'
}

/// Position of the leftmost box pattern at or after `i`, if any.
pub open spec fn first_box_match(s: Seq<char>, i: int) -> Option<int>
    decreases s.len() - i
    when 0 <= i <= s.len()
{
    if i >= s.len() {
        None
    } else if box_match_at(s, i) {
        Some(i)
    } else {
        first_box_match(s, i + 1)
    }
}

/// With no match before `i`, the leftmost match of the whole string is
/// the leftmost match at or after `i`.
proof fn lemma_first_box_match_from(s: Seq<char>, i: int)
    requires
        0 <= i <= s.len(),
        forall|j: int| 0 <= j < i ==> !box_match_at(s, j),
    ensures
        first_box_match(s, 0) == first_box_match(s, i),
    decreases i,
{
    if i > 0 {
        lemma_first_box_match_from(s, i - 1);
    }
}

/// The four coordinate fields of a box parameter, in the order the
/// wire form lists them.
#[derive(Debug, Clone, Copy, PartialEq, Eq, Structural)]
pub enum BoxField {
    BottomLeftLon,
    BottomLeftLat,
    UpperRightLon,
    UpperRightLat,
}

/// Everything a parse of a box parameter can come to: no occurrence of
/// the pattern; a first occurrence whose named field is the first one
/// out of range; or four in-range coordinates in micro-degrees.
pub ghost enum BoxOutcome {
    NoMatch,
    OutOfRange(BoxField),
    Box { bl_lon: int, bl_lat: int, ur_lon: int, ur_lat: int },
}

/// Outcome of parsing `s` as a box parameter: the leftmost occurrence
/// of the pattern decides, its fields range-checked in wire order
/// (longitudes within 180 degrees, latitudes within 90).
pub open spec fn box_outcome(s: Seq<char>) -> BoxOutcome {
    match first_box_match(s, 0) {
        None => BoxOutcome::NoMatch,
        Some(i) => {
            if !num_in_range(s, bp1(s, i), 180) {
                BoxOutcome::OutOfRange(BoxField::BottomLeftLon)
            } else if !num_in_range(s, bp2(s, i), 90) {
                BoxOutcome::OutOfRange(BoxField::BottomLeftLat)
            } else if !num_in_range(s, bp3(s, i), 180) {
                BoxOutcome::OutOfRange(BoxField::UpperRightLon)
            } else if !num_in_range(s, bp4(s, i), 90) {
                BoxOutcome::OutOfRange(BoxField::UpperRightLat)
            } else {
                BoxOutcome::Box {
                    bl_lon: num_micro(s, bp1(s, i)),
                    bl_lat: num_micro(s, bp2(s, i)),
                    ur_lon: num_micro(s, bp3(s, i)),
                    ur_lat: num_micro(s, bp4(s, i)),
                }
            }
        },
    }
}

/// What the scanner records of one number token.
struct NumScan {
    /// One past the last character of the token.
    end: usize,
    /// The token starts with `'-'`.
    neg: bool,
    /// The integer part reached 1000 and is out of range for any axis.
    int_big: bool,
    /// Exact value of the integer part, when `int_big` is false.
    intval: u64,
    /// Fraction truncated to six digits, scaled to micro-degrees.
    frac6: u64,
    /// Every fraction digit is zero.
    frac_zero: bool,
}

/// The scan record `t` faithfully describes the number token at `i`.
spec fn num_scan_describes(t: NumScan, s: Seq<char>, i: int) -> bool {
    &&& num_matches(s, i)
    &&& t.end as int == num_end(s, i)
    &&& i < t.end as int <= s.len()
    &&& t.neg == num_neg(s, i)
    &&& (t.int_big <==> num_intval(s, i) >= 1000)
    &&& (!t.int_big ==> t.intval == num_intval(s, i) && t.intval < 1000)
    &&& t.frac_zero == num_frac_zero(s, i)
    &&& t.frac6 == frac6_val(num_frac_digits(s, i))
    &&& t.frac6 <= 999999
}

fn is_digit_at(s: &str, j: usize) -> (r: bool)
    requires
        (j as int) < s@.len(),
    ensures
        r == is_digit(s@[j as int]),
{
    let v: u32 = s.get_char(j) as u32;
    48 <= v && v <= 57
}

/// Scales the value of fewer than six fraction digits up to
/// micro-degree precision.
fn scale_to_six(v: u64, fcount: usize, d: Ghost<Seq<char>>) -> (r: u64)
    requires
        all_digits(d@),
        d@.len() == fcount,
        fcount < 6,
        v == digits_val(d@),
    ensures
        r == frac6_val(d@),
        r <= 999999,
{
    proof {
        lemma_pow10_upto6();
        lemma_digits_val_bound(d@, fcount as int);
        lemma_digits_val_nonneg(d@);
    }
    if fcount == 0 {
        v * 1000000
    } else if fcount == 1 {
        v * 100000
    } else if fcount == 2 {
        v * 10000
    } else if fcount == 3 {
        v * 1000
    } else if fcount == 4 {
        v * 100
    } else {
        v * 10
    }
}

/// Scans the number token at `i`, if one stands there.
fn scan_num(s: &str, i: usize, n: usize) -> (r: Option<NumScan>)
    requires
        i as int <= s@.len(),
        n == s@.len(),
    ensures
        r.is_some() == num_matches(s@, i as int),
        match r {
            Some(t) => num_scan_describes(t, s@, i as int),
            None => true,
        },
{
    let mut j: usize = i;
    let mut neg: bool = false;
    if j < n {
        let c0 = s.get_char(j);
        if c0 == '+' || c0 == '-' {
            neg = c0 == '-';
            j = j + 1;
        }
    }
    let int_start: usize = j;
    proof {
        assert(int_start as int == num_int_start(s@, i as int));
        assert(s@.subrange(int_start as int, int_start as int) =~= Seq::<char>::empty());
    }
    let mut intval: u64 = 0;
    let mut int_big: bool = false;
    while j < n && is_digit_at(s, j)
        invariant
            n == s@.len(),
            i <= int_start <= j <= n,
            int_start as int == num_int_start(s@, i as int),
            forall|k: int| int_start <= k < j ==> is_digit(s@[k]),
            int_big <==> digits_val(s@.subrange(int_start as int, j as int)) >= 1000,
            !int_big ==> intval == digits_val(s@.subrange(int_start as int, j as int)) && intval
                < 1000,
        decreases n - j,
    {
        let d: u64 = (s.get_char(j) as u32 - 48) as u64;
        proof {
            let pre = s@.subrange(int_start as int, j as int);
            let post = s@.subrange(int_start as int, j as int + 1);
            assert(post.drop_last() =~= pre);
            assert(post.last() == s@[j as int]);
            lemma_digits_val_nonneg(pre);
            assert(digits_val(post) == digits_val(pre) * 10 + digit_val(s@[j as int]));
        }
        if !int_big {
            let next: u64 = intval * 10 + d;
            if next >= 1000 {
                int_big = true;
            } else {
                intval = next;
            }
        }
        j = j + 1;
    }
    proof {
        lemma_digit_run_end_is(s@, int_start as int, j as int);
        assert(num_int_end(s@, i as int) == j as int);
    }
    if j == int_start {
        return None;
    }
    let int_end: usize = j;
    // fraction detection
    let mut has_frac: bool = false;
    if j < n {
        if s.get_char(j) == '.' {
            if j + 1 < n {
                if is_digit_at(s, j + 1) {
                    has_frac = true;
                }
            }
        }
    }
    proof {
        assert(has_frac == num_has_frac(s@, i as int));
    }
    let mut frac6: u64 = 0;
    let mut frac_zero: bool = true;
    let mut end: usize = int_end;
    if has_frac {
        let frac_start: usize = int_end + 1;
        let mut fcount: usize = 0;
        proof {
            assert(s@.subrange(frac_start as int, frac_start as int) =~= Seq::<char>::empty());
        }
        j = frac_start;
        while j < n && is_digit_at(s, j)
            invariant
                n == s@.len(),
                frac_start as int == num_frac_start(s@, i as int),
                frac_start <= j <= n,
                fcount == j - frac_start,
                forall|k: int| frac_start <= k < j ==> is_digit(s@[k]),
                frac_zero <==> (forall|k: int| frac_start <= k < j ==> s@[k] == '0'),
                fcount >= 6 ==> frac6 == digits_val(
                    s@.subrange(frac_start as int, j as int).take(6),
                ),
                fcount < 6 ==> frac6 == digits_val(s@.subrange(frac_start as int, j as int)),
                frac6 <= 999999,
            decreases n - j,
        {
            let c = s.get_char(j);
            let d: u64 = (c as u32 - 48) as u64;
            proof {
                let pre = s@.subrange(frac_start as int, j as int);
                let post = s@.subrange(frac_start as int, j as int + 1);
                assert(post.drop_last() =~= pre);
                assert(post.last() == s@[j as int]);
                lemma_digits_val_nonneg(pre);
                if fcount >= 6 {
                    assert(post.take(6) =~= pre.take(6));
                } else {
                    lemma_pow10_upto6();
                    lemma_digits_val_bound(pre, 5);
                    if fcount + 1 >= 6 {
                        assert(post.take(6) =~= post);
                    }
                }
                assert(digits_val(post) == digits_val(pre) * 10 + digit_val(s@[j as int]));
                if d == 0 {
                    assert(s@[j as int] as u32 == 48);
                    assert('0' as u32 == 48);
                    assert(s@[j as int] == '0');
                } else {
                    assert(s@[j as int] != '0');
                }
            }
            if d != 0 {
                frac_zero = false;
            }
            if fcount < 6 {
                frac6 = frac6 * 10 + d;
            }
            fcount = fcount + 1;
            j = j + 1;
        }
        proof {
            lemma_digit_run_end_is(s@, frac_start as int, j as int);
        }
        end = j;
        if fcount < 6 {
            frac6 = scale_to_six(
                frac6,
                fcount,
                Ghost(s@.subrange(frac_start as int, j as int)),
            );
        }
        proof {
            let d = num_frac_digits(s@, i as int);
            assert(d =~= s@.subrange(frac_start as int, j as int));
            assert(frac6 == frac6_val(d));
            if frac_zero {
                assert forall|k: int| 0 <= k < d.len() implies d[k] == '0' by {
                    assert(d[k] == s@[frac_start + k]);
                }
            } else {
                let k0 = choose|k: int| frac_start <= k < j && s@[k] != '0';
                assert(d[k0 - frac_start] == s@[k0]);
                assert(!num_frac_zero(s@, i as int));
            }
            assert(frac_zero == num_frac_zero(s@, i as int));
        }
    } else {
        proof {
            let d = num_frac_digits(s@, i as int);
            assert(d =~= Seq::<char>::empty());
            lemma_pow10_upto6();
            assert(frac6_val(d) == 0);
            assert(num_frac_zero(s@, i as int));
        }
    }
    Some(NumScan { end, neg, int_big, intval, frac6, frac_zero })
}

fn char_at_is(s: &str, j: usize, n: usize, c: char) -> (r: bool)
    requires
        n == s@.len(),
        j <= n,
    ensures
        r == ((j as int) < s@.len() && s@[j as int] == c),
{
    j < n && s.get_char(j) == c
}

/// The four scanned numbers of one occurrence of the pattern.
struct BoxScanNums {
    n1: NumScan,
    n2: NumScan,
    n3: NumScan,
    n4: NumScan,
}

/// Tries to read the whole box pattern standing at `i`.
fn scan_box_at(s: &str, i: usize, n: usize) -> (r: Option<BoxScanNums>)
    requires
        (i as int) < s@.len(),
        n == s@.len(),
    ensures
        r.is_some() == box_match_at(s@, i as int),
        match r {
            Some(b) => {
                &&& num_scan_describes(b.n1, s@, bp1(s@, i as int))
                &&& num_scan_describes(b.n2, s@, bp2(s@, i as int))
                &&& num_scan_describes(b.n3, s@, bp3(s@, i as int))
                &&& num_scan_describes(b.n4, s@, bp4(s@, i as int))
            },
            None => true,
        },
{
    if s.get_char(i) != '(' {
        return None;
    }
    let p1: usize = i + 1;
    let n1 = match scan_num(s, p1, n) {
        Some(t) => t,
        None => {
            return None;
        },
    };
    if !char_at_is(s, n1.end, n, ',') {
        return None;
    }
    let p2: usize = n1.end + 1;
    let n2 = match scan_num(s, p2, n) {
        Some(t) => t,
        None => {
            return None;
        },
    };
    if !char_at_is(s, n2.end, n, ')') {
        return None;
    }
    if !char_at_is(s, n2.end + 1, n, ',') {
        return None;
    }
    if !char_at_is(s, n2.end + 2, n, '(') {
        return None;
    }
    let p3: usize = n2.end + 3;
    let n3 = match scan_num(s, p3, n) {
        Some(t) => t,
        None => {
            return None;
        },
    };
    if !char_at_is(s, n3.end, n, ',') {
        return None;
    }
    let p4: usize = n3.end + 1;
    let n4 = match scan_num(s, p4, n) {
        Some(t) => t,
        None => {
            return None;
        },
    };
    if !char_at_is(s, n4.end, n, ')') {
        return None;
    }
    Some(BoxScanNums { n1, n2, n3, n4 })
}

/// The token described by `t` is within `limit` whole degrees.
fn num_scan_in_range(t: &NumScan, limit: u64, s: Ghost<Seq<char>>, i: Ghost<int>) -> (r: bool)
    requires
        num_scan_describes(*t, s@, i@),
        limit == 180 || limit == 90,
    ensures
        r == num_in_range(s@, i@, limit as int),
{
    !t.int_big && (t.intval < limit || (t.intval == limit && t.frac_zero))
}

/// Signed micro-degree value of the token described by `t`.
fn num_scan_micro(t: &NumScan, s: Ghost<Seq<char>>, i: Ghost<int>) -> (r: i64)
    requires
        num_scan_describes(*t, s@, i@),
        !t.int_big,
    ensures
        r as int == num_micro(s@, i@),
{
    let mag: u64 = t.intval * 1000000 + t.frac6;
    if t.neg {
        -(mag as i64)
    } else {
        mag as i64
    }
}

/// Result of parsing a whole box parameter.
pub enum BoxScan {
    /// The pattern occurs nowhere in the input.
    NoMatch,
    /// The pattern occurs, but the named field of its leftmost
    /// occurrence is the first one out of range.
    OutOfRange(BoxField),
    /// Micro-degree coordinates of the leftmost occurrence, all in
    /// range, in wire order.
    Found { bl_lon: i64, bl_lat: i64, ur_lon: i64, ur_lat: i64 },
}

/// Parses `s` as a box parameter: finds the leftmost occurrence of the
/// pattern and range-checks its fields in wire order.
pub fn parse_box(s: &str) -> (r: BoxScan)
    ensures
        match r {
            BoxScan::NoMatch => box_outcome(s@) == BoxOutcome::NoMatch,
            BoxScan::OutOfRange(f) => box_outcome(s@) == BoxOutcome::OutOfRange(f),
            BoxScan::Found { bl_lon, bl_lat, ur_lon, ur_lat } => box_outcome(s@)
                == (BoxOutcome::Box {
                bl_lon: bl_lon as int,
                bl_lat: bl_lat as int,
                ur_lon: ur_lon as int,
                ur_lat: ur_lat as int,
            }),
        },
{
    let n: usize = s.unicode_len();
    let mut i: usize = 0;
    while i < n
        invariant
            n == s@.len(),
            i <= n,
            forall|j: int| 0 <= j < i ==> !box_match_at(s@, j),
        decreases n - i,
    {
        match scan_box_at(s, i, n) {
            Some(b) => {
                proof {
                    lemma_first_box_match_from(s@, i as int);
                    assert(first_box_match(s@, i as int) == Some(i as int));
                }
                if !num_scan_in_range(&b.n1, 180, Ghost(s@), Ghost(bp1(s@, i as int))) {
                    return BoxScan::OutOfRange(BoxField::BottomLeftLon);
                }
                if !num_scan_in_range(&b.n2, 90, Ghost(s@), Ghost(bp2(s@, i as int))) {
                    return BoxScan::OutOfRange(BoxField::BottomLeftLat);
                }
                if !num_scan_in_range(&b.n3, 180, Ghost(s@), Ghost(bp3(s@, i as int))) {
                    return BoxScan::OutOfRange(BoxField::UpperRightLon);
                }
                if !num_scan_in_range(&b.n4, 90, Ghost(s@), Ghost(bp4(s@, i as int))) {
                    return BoxScan::OutOfRange(BoxField::UpperRightLat);
                }
                let bl_lon = num_scan_micro(&b.n1, Ghost(s@), Ghost(bp1(s@, i as int)));
                let bl_lat = num_scan_micro(&b.n2, Ghost(s@), Ghost(bp2(s@, i as int)));
                let ur_lon = num_scan_micro(&b.n3, Ghost(s@), Ghost(bp3(s@, i as int)));
                let ur_lat = num_scan_micro(&b.n4, Ghost(s@), Ghost(bp4(s@, i as int)));
                return BoxScan::Found { bl_lon, bl_lat, ur_lon, ur_lat };
            },
            None => {},
        }
        i = i + 1;
    }
    proof {
        lemma_first_box_match_from(s@, n as int);
    }
    BoxScan::NoMatch
}

} // verus!
