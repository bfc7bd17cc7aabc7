use vstd::prelude::*;
use crate::duration::{is_digit_char, is_word_char, is_digit_c, is_word_c, chars_of};

verus! {

/// The first index at or after `i` holding a decimal digit, or `s.len()`.
pub open spec fn spec_find_digit(s: Seq<char>, i: int) -> int
    decreases s.len() - i,
{
    if i < 0 || i >= s.len() {
        s.len() as int
    } else if is_digit_char(s[i]) {
        i
    } else {
        spec_find_digit(s, i + 1)
    }
}

/// The first index at or after `i` holding no digit, or `s.len()`.
pub open spec fn spec_digit_run_end(s: Seq<char>, i: int) -> int
    decreases s.len() - i,
{
    if i < 0 || i >= s.len() {
        s.len() as int
    } else if is_digit_char(s[i]) {
        spec_digit_run_end(s, i + 1)
    } else {
        i
    }
}

/// The decimal value of the digits `s[a..b]`.
pub open spec fn spec_digits_value(s: Seq<char>, a: int, b: int) -> int
    decreases b - a,
{
    if a >= b {
        0
    } else {
        spec_digits_value(s, a, b - 1) * 10 + (s[b - 1] as int - '0' as int)
    }
}

/// The free-text count a fragment of prose carries: the value of the first
/// run of digits, when it fits a signed 32-bit integer.
pub open spec fn spec_first_count(s: Seq<char>) -> Option<i32> {
    let a = spec_find_digit(s, 0);
    if a < s.len() {
        let b = spec_digit_run_end(s, a);
        let value = spec_digits_value(s, a, b);
        if value <= i32::MAX {
            Some(value as i32)
        } else {
            None
        }
    } else {
        None
    }
}

/// The value of a digit run is never negative.
proof fn lemma_digits_value_nonneg(s: Seq<char>, a: int, b: int)
    requires
        0 <= a <= b <= s.len(),
        forall|k: int| a <= k < b ==> is_digit_char(#[trigger] s[k]),
    ensures
        spec_digits_value(s, a, b) >= 0,
    decreases b - a,
{
    if a < b {
        lemma_digits_value_nonneg(s, a, b - 1);
        assert(spec_digits_value(s, a, b - 1) * 10 >= 0) by (nonlinear_arith)
            requires
                spec_digits_value(s, a, b - 1) >= 0,
        ;
        assert(s[b - 1] as int - '0' as int >= 0);
    }
}

/// Appending digits never shrinks the value.
proof fn lemma_digits_value_monotonic(s: Seq<char>, a: int, i: int, b: int)
    requires
        0 <= a <= i <= b <= s.len(),
        forall|k: int| a <= k < b ==> is_digit_char(#[trigger] s[k]),
    ensures
        spec_digits_value(s, a, b) >= spec_digits_value(s, a, i),
    decreases b - i,
{
    if i < b {
        lemma_digits_value_monotonic(s, a, i, b - 1);
        lemma_digits_value_nonneg(s, a, b - 1);
        assert(spec_digits_value(s, a, b - 1) * 10 >= spec_digits_value(s, a, b - 1))
            by (nonlinear_arith)
            requires
                spec_digits_value(s, a, b - 1) >= 0,
        ;
        assert(s[b - 1] as int - '0' as int >= 0);
    }
}

/// Parses a free-text count such as an applicant count: the first run of
/// digits, read as a decimal number; absent when the text holds no digit
/// or the number does not fit a signed 32-bit integer.
pub fn parse_applicant_count(s: &str) -> (r: Option<i32>)
    ensures
        r == spec_first_count(s@),
{
    let v = chars_of(s);
    let n = v.len();
    let mut a: usize = 0;
    while a < n && !is_digit_c(v[a])
        invariant
            n == v@.len(),
            v@ == s@,
            0 <= a <= n,
            spec_find_digit(s@, 0) == spec_find_digit(s@, a as int),
        decreases n - a,
    {
        a = a + 1;
    }
    if a == n {
        return None;
    }
    let mut b: usize = a;
    let mut val: u64 = 0;
    while b < n && is_digit_c(v[b])
        invariant
            n == v@.len(),
            v@ == s@,
            0 <= a <= b <= n,
            a < n,
            spec_find_digit(s@, 0) == a as int,
            spec_digit_run_end(s@, a as int) == spec_digit_run_end(s@, b as int),
            forall|k: int| a <= k < b ==> is_digit_char(#[trigger] s@[k]),
            val == spec_digits_value(s@, a as int, b as int),
            val <= 0x7fffffffu64 * 10 + 9,
        decreases n - b,
    {
        if val > 0x7fffffff {
            proof {
                lemma_digit_run_all_digits(s@, a as int, b as int);
                lemma_digits_value_monotonic(
                    s@,
                    a as int,
                    b as int,
                    spec_digit_run_end(s@, a as int),
                );
            }
            return None;
        }
        let d: u64 = (v[b] as u32 as u64) - 48;
        val = val * 10 + d;
        b = b + 1;
    }
    if val > 0x7fffffff {
        return None;
    }
    Some(val as i32)
}

/// Every index between `b` and the end of the digit run holds a digit.
proof fn lemma_digit_run_all_digits(s: Seq<char>, a: int, b: int)
    requires
        0 <= a <= b <= s.len(),
        forall|k: int| a <= k < b ==> is_digit_char(#[trigger] s[k]),
    ensures
        forall|k: int| a <= k < spec_digit_run_end(s, b) ==> is_digit_char(#[trigger] s[k]),
        b <= spec_digit_run_end(s, b) <= s.len(),
    decreases s.len() - b,
{
    if b < s.len() && is_digit_char(s[b]) {
        lemma_digit_run_all_digits(s, a, b + 1);
    }
}

/// Whether `d` starts a four-digit run set off by word boundaries.
pub open spec fn spec_year_at(s: Seq<char>, d: int) -> bool {
    &&& 0 <= d
    &&& d + 4 <= s.len()
    &&& is_digit_char(s[d])
    &&& is_digit_char(s[d + 1])
    &&& is_digit_char(s[d + 2])
    &&& is_digit_char(s[d + 3])
    &&& (d == 0 || !is_word_char(s[d - 1]))
    &&& (d + 4 == s.len() || !is_word_char(s[d + 4]))
}

/// The first index starting a year, or `s.len()`.
pub open spec fn spec_find_year(s: Seq<char>, i: int) -> int
    decreases s.len() - i,
{
    if i < 0 || i >= s.len() {
        s.len() as int
    } else if spec_year_at(s, i) {
        i
    } else {
        spec_find_year(s, i + 1)
    }
}

/// The founding year a fragment of prose carries: the first run of exactly
/// four digits set off by word boundaries, or absent.
pub open spec fn spec_founded_year(s: Seq<char>) -> Option<i32> {
    let d = spec_find_year(s, 0);
    if d < s.len() {
        Some(spec_digits_value(s, d, d + 4) as i32)
    } else {
        None
    }
}

/// Parses a founding year: the first four-digit run set off by word
/// boundaries (so a longer number is not mistaken for a year).
pub fn parse_founded_year(s: &str) -> (r: Option<i32>)
    ensures
        r == spec_founded_year(s@),
{
    let v = chars_of(s);
    let n = v.len();
    let mut d: usize = 0;
    while d < n
        invariant
            n == v@.len(),
            v@ == s@,
            0 <= d <= n,
            spec_find_year(s@, 0) == spec_find_year(s@, d as int),
        decreases n - d,
    {
        if year_at(&v, d) {
            let d0: u32 = v[d] as u32 - 48;
            let d1: u32 = v[d + 1] as u32 - 48;
            let d2: u32 = v[d + 2] as u32 - 48;
            let d3: u32 = v[d + 3] as u32 - 48;
            let y: u32 = d0 * 1000 + d1 * 100 + d2 * 10 + d3;
            proof {
                assert(spec_digits_value(s@, d as int, d as int) == 0);
                assert(spec_digits_value(s@, d as int, d + 1) == d0);
                assert(spec_digits_value(s@, d as int, d + 2) == d0 * 10 + d1);
                assert(spec_digits_value(s@, d as int, d + 3) == (d0 * 10 + d1) * 10 + d2);
                assert(spec_digits_value(s@, d as int, d + 4) == ((d0 * 10 + d1) * 10 + d2) * 10
                    + d3);
            }
            return Some(y as i32);
        }
        d = d + 1;
    }
    None
}

/// Whether a year starts at `d`.
fn year_at(v: &Vec<char>, d: usize) -> (r: bool)
    requires
        d < v@.len(),
    ensures
        r == spec_year_at(v@, d as int),
{
    let n = v.len();
    if n - d < 4 {
        return false;
    }
    let digits = is_digit_c(v[d]) && is_digit_c(v[d + 1]) && is_digit_c(v[d + 2]) && is_digit_c(
        v[d + 3],
    );
    if !digits {
        return false;
    }
    if d > 0 && is_word_c(v[d - 1]) {
        return false;
    }
    if d + 4 < n && is_word_c(v[d + 4]) {
        return false;
    }
    true
}

} // verus!
