use vstd::prelude::*;
use vstd::string::*;

verus! {

// A duration string such as "Jan 2020 - Mar 2021 · 1 yr 3 mos" is split
// into a start date, an end date and a plain duration. The recognized
// shape is a dash (hyphen or en dash) whose left side ends in a word, a
// whitespace run and four digits, and whose right side starts with either
// the same word-whitespace-digits shape or the literal `Present`. The
// character classes are the ASCII ones: letters, digits and `_` count as
// word characters.
pub open spec fn is_space_char(c: char) -> bool {
    c == ' ' || c == '\t' || c == '\n' || c == '\r' || c == '\u{000B}' || c == '\u{000C}'
}

pub open spec fn is_digit_char(c: char) -> bool {
    '0' <= c && c <= '9'
}

pub open spec fn is_word_char(c: char) -> bool {
    is_digit_char(c) || ('a' <= c && c <= 'z') || ('A' <= c && c <= 'Z') || c == '_'
}

pub open spec fn is_dash_char(c: char) -> bool {
    c == '-' || c == '\u{2013}'
}

/// The greatest index at or below `j` holding a non-whitespace character,
/// or `-1` when there is none.
pub open spec fn spec_skip_ws_back(s: Seq<char>, j: int) -> int
    decreases j + 1,
{
    if j < 0 || j >= s.len() {
        -1
    } else if is_space_char(s[j]) {
        spec_skip_ws_back(s, j - 1)
    } else {
        j
    }
}

/// The least index at or above `i` holding a non-whitespace character, or
/// `s.len()` when there is none.
pub open spec fn spec_skip_ws_fwd(s: Seq<char>, i: int) -> int
    decreases s.len() - i,
{
    if i < 0 || i >= s.len() {
        s.len() as int
    } else if is_space_char(s[i]) {
        spec_skip_ws_fwd(s, i + 1)
    } else {
        i as int
    }
}

/// The start of the maximal word-character run that ends at `k`.
pub open spec fn spec_word_start(s: Seq<char>, k: int) -> int
    decreases k,
{
    if k >= 1 && k < s.len() && is_word_char(s[k - 1]) {
        spec_word_start(s, k - 1)
    } else {
        k
    }
}

/// The end of the maximal word-character run that starts at `t`.
pub open spec fn spec_word_end(s: Seq<char>, t: int) -> int
    decreases s.len() - t,
{
    if t >= 0 && t + 1 < s.len() && is_word_char(s[t + 1]) {
        spec_word_end(s, t + 1)
    } else {
        t
    }
}

/// The left date of a dash at index `d`: walking back over whitespace there
/// must stand four digits, before them at least one whitespace character,
/// and before that a word-character run. The group spans from the start of
/// that run to just past the digits.
pub open spec fn spec_left_group(s: Seq<char>, d: int) -> Option<(int, int)> {
    let j = spec_skip_ws_back(s, d - 1);
    if j < 4 {
        None
    } else if !(is_digit_char(s[j - 3]) && is_digit_char(s[j - 2]) && is_digit_char(s[j - 1])
        && is_digit_char(s[j])) {
        None
    } else if !is_space_char(s[j - 4]) {
        None
    } else {
        let k = spec_skip_ws_back(s, j - 4);
        if k >= 0 && is_word_char(s[k]) {
            Some((spec_word_start(s, k), j + 1))
        } else {
            None
        }
    }
}

/// Whether the literal `Present` stands at index `t`.
pub open spec fn spec_present_at(s: Seq<char>, t: int) -> bool {
    0 <= t && t + 7 <= s.len() && s.subrange(t, t + 7) == "Present"@
}

/// The right date after a dash, starting the scan at `r`: after optional
/// whitespace either a word run, a whitespace run and four digits, or the
/// literal `Present`.
pub open spec fn spec_right_group(s: Seq<char>, r: int) -> Option<(int, int)> {
    let t = spec_skip_ws_fwd(s, r);
    if t < s.len() && is_word_char(s[t]) && {
        let u = spec_word_end(s, t);
        u + 1 < s.len() && is_space_char(s[u + 1]) && {
            let v = spec_skip_ws_fwd(s, u + 1);
            v + 4 <= s.len() && is_digit_char(s[v]) && is_digit_char(s[v + 1]) && is_digit_char(
                s[v + 2],
            ) && is_digit_char(s[v + 3])
        }
    } {
        let u = spec_word_end(s, t);
        let v = spec_skip_ws_fwd(s, u + 1);
        Some((t, v + 4))
    } else if spec_present_at(s, t) {
        Some((t, t + 7))
    } else {
        None
    }
}

/// Whether index `d` holds a dash with a date on each side.
pub open spec fn spec_dash_ok(s: Seq<char>, d: int) -> bool {
    &&& 0 <= d < s.len()
    &&& is_dash_char(s[d])
    &&& spec_left_group(s, d) is Some
    &&& spec_right_group(s, d + 1) is Some
}

/// The first index at or after `i` holding a dash with a date on each
/// side, or `s.len()`.
pub open spec fn spec_find_dash(s: Seq<char>, i: int) -> int
    decreases s.len() - i,
{
    if i < 0 || i >= s.len() {
        s.len() as int
    } else if spec_dash_ok(s, i) {
        i
    } else {
        spec_find_dash(s, i + 1)
    }
}

/// Leading and trailing whitespace dropped.
pub open spec fn spec_trim(s: Seq<char>) -> Seq<char> {
    let a = spec_skip_ws_fwd(s, 0);
    let b = spec_skip_ws_back(s, s.len() - 1);
    if a <= b {
        s.subrange(a, b + 1)
    } else {
        Seq::empty()
    }
}

/// The plain duration annotation: the piece between the first middle dot
/// and the next one (or the end), trimmed; absent without a middle dot.
pub open spec fn spec_middot_piece(s: Seq<char>) -> Option<Seq<char>> {
    let c1 = crate::strutil::spec_find_char(s, '\u{00B7}', 0);
    if c1 < s.len() {
        let c2 = crate::strutil::spec_find_char(s, '\u{00B7}', c1 + 1);
        Some(spec_trim(s.subrange(c1 + 1, c2)))
    } else {
        None
    }
}

/// What a duration string splits into: at the first dash carrying a date
/// on each side, the left date, the right date (or `Present`), and the
/// middle-dot annotation; a string without such a dash keeps its whole
/// text as the duration.
pub open spec fn spec_parse_duration(s: Seq<char>) -> (
    Option<Seq<char>>,
    Option<Seq<char>>,
    Option<Seq<char>>,
) {
    let d = spec_find_dash(s, 0);
    if d < s.len() {
        let (w, jend) = spec_left_group(s, d)->Some_0;
        let (t, rend) = spec_right_group(s, d + 1)->Some_0;
        (Some(s.subrange(w, jend)), Some(s.subrange(t, rend)), spec_middot_piece(s))
    } else {
        (None, None, Some(s))
    }
}

/// The characters of a string, materialized for random access.
pub fn chars_of(s: &str) -> (v: Vec<char>)
    ensures
        v@ == s@,
{
    let n = s.unicode_len();
    let mut v: Vec<char> = Vec::new();
    let mut i: usize = 0;
    while i < n
        invariant
            n == s@.len(),
            0 <= i <= n,
            v@ =~= s@.subrange(0, i as int),
        decreases n - i,
    {
        v.push(s.get_char(i));
        proof {
            assert(v@ =~= s@.subrange(0, i + 1));
        }
        i = i + 1;
    }
    proof {
        assert(v@ =~= s@);
    }
    v
}

pub fn is_space_c(c: char) -> (r: bool)
    ensures
        r == is_space_char(c),
{
    c == ' ' || c == '\t' || c == '\n' || c == '\r' || c == '\u{000B}' || c == '\u{000C}'
}

pub fn is_digit_c(c: char) -> (r: bool)
    ensures
        r == is_digit_char(c),
{
    '0' <= c && c <= '9'
}

pub fn is_word_c(c: char) -> (r: bool)
    ensures
        r == is_word_char(c),
{
    is_digit_c(c) || ('a' <= c && c <= 'z') || ('A' <= c && c <= 'Z') || c == '_'
}

pub fn is_dash_c(c: char) -> (r: bool)
    ensures
        r == is_dash_char(c),
{
    c == '-' || c == '\u{2013}'
}

/// Walks back over whitespace: returns one past the last non-whitespace
/// index strictly below `e`, i.e. `spec_skip_ws_back(v@, e - 1) + 1`.
fn ws_back(v: &Vec<char>, e: usize) -> (r: usize)
    requires
        e <= v@.len(),
    ensures
        r as int == spec_skip_ws_back(v@, e - 1) + 1,
        r <= e,
{
    let mut e = e;
    let ghost e0 = e as int;
    while e > 0 && is_space_c(v[e - 1])
        invariant
            0 <= e <= v@.len(),
            e <= e0,
            spec_skip_ws_back(v@, e0 - 1) == spec_skip_ws_back(v@, e - 1),
        decreases e,
    {
        e = e - 1;
    }
    e
}

/// Walks forward over whitespace: the first non-whitespace index at or
/// after `i`, or the length.
fn ws_fwd(v: &Vec<char>, i: usize) -> (r: usize)
    requires
        i <= v@.len(),
    ensures
        r as int == spec_skip_ws_fwd(v@, i as int),
        i <= r <= v@.len(),
{
    let n = v.len();
    let ghost i0 = i as int;
    let mut i = i;
    while i < n && is_space_c(v[i])
        invariant
            i0 <= i <= n,
            n == v@.len(),
            spec_skip_ws_fwd(v@, i0) == spec_skip_ws_fwd(v@, i as int),
        decreases n - i,
    {
        i = i + 1;
    }
    i
}

/// The start of the maximal word run ending at `k`; requires a word
/// character at `k`.
fn word_start(v: &Vec<char>, k: usize) -> (r: usize)
    requires
        k < v@.len(),
    ensures
        r as int == spec_word_start(v@, k as int),
        r <= k,
{
    let ghost k0 = k as int;
    let mut k = k;
    while k > 0 && is_word_c(v[k - 1])
        invariant
            0 <= k <= k0 < v@.len(),
            spec_word_start(v@, k0) == spec_word_start(v@, k as int),
        decreases k,
    {
        k = k - 1;
    }
    k
}

/// The end of the maximal word run starting at `t`.
fn word_end(v: &Vec<char>, t: usize) -> (r: usize)
    requires
        t < v@.len(),
    ensures
        r as int == spec_word_end(v@, t as int),
        t <= r < v@.len(),
{
    let n = v.len();
    let ghost t0 = t as int;
    let mut t = t;
    while t + 1 < n && is_word_c(v[t + 1])
        invariant
            t0 <= t < n,
            n == v@.len(),
            spec_word_end(v@, t0) == spec_word_end(v@, t as int),
        decreases n - t,
    {
        t = t + 1;
    }
    t
}

/// The left date group of a dash at `d`, as a start and end index.
fn left_group(v: &Vec<char>, d: usize) -> (r: Option<(usize, usize)>)
    requires
        d < v@.len(),
    ensures
        match r {
            Some((a, b)) => spec_left_group(v@, d as int) == Some((a as int, b as int)) && a <= b
                <= v@.len(),
            None => spec_left_group(v@, d as int) is None,
        },
{
    let e = ws_back(v, d);
    // e == j + 1 where j is the last non-whitespace index before the dash
    if e < 5 {
        return None;
    }
    if !(is_digit_c(v[e - 4]) && is_digit_c(v[e - 3]) && is_digit_c(v[e - 2]) && is_digit_c(
        v[e - 1],
    )) {
        return None;
    }
    if !is_space_c(v[e - 5]) {
        return None;
    }
    let ke = ws_back(v, e - 4);
    // ke == k + 1 where k is the last non-whitespace index before the digits
    if ke == 0 {
        return None;
    }
    if !is_word_c(v[ke - 1]) {
        return None;
    }
    let w = word_start(v, ke - 1);
    Some((w, e))
}

/// The right date group after a dash, as a start and end index.
fn right_group(v: &Vec<char>, r: usize) -> (ret: Option<(usize, usize)>)
    requires
        r <= v@.len(),
    ensures
        match ret {
            Some((a, b)) => spec_right_group(v@, r as int) == Some((a as int, b as int)) && a <= b
                <= v@.len(),
            None => spec_right_group(v@, r as int) is None,
        },
{
    proof {
        reveal_strlit("Present");
    }
    let n = v.len();
    let t = ws_fwd(v, r);
    if t < n && is_word_c(v[t]) {
        let u = word_end(v, t);
        if u + 1 < n && is_space_c(v[u + 1]) {
            let w = ws_fwd(v, u + 1);
            if n - w >= 4 && is_digit_c(v[w]) && is_digit_c(v[w + 1]) && is_digit_c(v[w + 2])
                && is_digit_c(v[w + 3]) {
                return Some((t, w + 4));
            }
        }
    }
    // fall back to the literal `Present`
    if n - t >= 7 && v[t] == 'P' && v[t + 1] == 'r' && v[t + 2] == 'e' && v[t + 3] == 's' && v[t
        + 4] == 'e' && v[t + 5] == 'n' && v[t + 6] == 't' {
        proof {
            assert(v@.subrange(t as int, t + 7) =~= "Present"@);
        }
        Some((t, t + 7))
    } else {
        proof {
            if spec_present_at(v@, t as int) {
                assert(v@.subrange(t as int, t + 7)[0] == 'P');
                assert(v@.subrange(t as int, t + 7)[1] == 'r');
                assert(v@.subrange(t as int, t + 7)[2] == 'e');
                assert(v@.subrange(t as int, t + 7)[3] == 's');
                assert(v@.subrange(t as int, t + 7)[4] == 'e');
                assert(v@.subrange(t as int, t + 7)[5] == 'n');
                assert(v@.subrange(t as int, t + 7)[6] == 't');
            }
        }
        None
    }
}

/// Splits a duration text into start date, end date and plain duration.
///
/// At the first dash that carries a date shape on each side, the left and
/// right groups become the start and end (`Present` standing for an open
/// end), and the piece between the first middle dot and the next becomes
/// the duration; a text without such a dash is kept whole as the duration,
/// with both dates absent.
pub fn parse_duration(s: &str) -> (r: (Option<String>, Option<String>, Option<String>))
    ensures
        r.0.deep_view() == spec_parse_duration(s@).0,
        r.1.deep_view() == spec_parse_duration(s@).1,
        r.2.deep_view() == spec_parse_duration(s@).2,
{
    let v = chars_of(s);
    let n = v.len();
    let d = find_dash(&v);
    if d < n {
        proof {
            lemma_find_dash_ok(v@, 0);
        }
        let (w, jend) = left_group(&v, d).unwrap();
        let (t, rend) = right_group(&v, d + 1).unwrap();
        let from = s.substring_char(w, jend).to_owned();
        let to = s.substring_char(t, rend).to_owned();
        let dur = middot_piece(s, &v);
        (Some(from), Some(to), dur)
    } else {
        (None, None, Some(s.to_owned()))
    }
}

/// A found dash really carries a date on each side.
proof fn lemma_find_dash_ok(s: Seq<char>, i: int)
    requires
        0 <= i <= s.len(),
    ensures
        spec_find_dash(s, i) < s.len() ==> spec_dash_ok(s, spec_find_dash(s, i)),
    decreases s.len() - i,
{
    if i < s.len() && !spec_dash_ok(s, i) {
        lemma_find_dash_ok(s, i + 1);
    }
}

/// The first index holding a dash with a date on each side, or the length.
fn find_dash(v: &Vec<char>) -> (r: usize)
    ensures
        r as int == spec_find_dash(v@, 0),
        r <= v@.len(),
{
    let n = v.len();
    let mut d: usize = 0;
    while d < n
        invariant
            0 <= d <= n,
            n == v@.len(),
            spec_find_dash(v@, 0) == spec_find_dash(v@, d as int),
        decreases n - d,
    {
        if is_dash_c(v[d]) {
            let lg = left_group(v, d);
            if lg.is_some() {
                let rg = right_group(v, d + 1);
                if rg.is_some() {
                    proof {
                        assert(spec_dash_ok(v@, d as int));
                    }
                    return d;
                }
            }
        }
        proof {
            assert(!spec_dash_ok(v@, d as int));
        }
        d = d + 1;
    }
    d
}

/// The middle-dot annotation of a duration text, trimmed.
fn middot_piece(s: &str, v: &Vec<char>) -> (r: Option<String>)
    requires
        v@ == s@,
    ensures
        r.deep_view() == spec_middot_piece(s@),
{
    let n = v.len();
    let c1 = crate::strutil::find_char(s, '\u{00B7}');
    if c1 < n {
        let c2 = find_char_from(v, '\u{00B7}', c1 + 1);
        let piece = s.substring_char(c1 + 1, c2);
        let pv = chars_of(piece);
        let a = ws_fwd(&pv, 0);
        let b = ws_back(&pv, pv.len());
        if a < b {
            proof {
                assert(spec_trim(piece@) == piece@.subrange(a as int, b as int));
            }
            Some(piece.substring_char(a, b).to_owned())
        } else {
            proof {
                assert(spec_trim(piece@) =~= Seq::<char>::empty());
                assert(piece@.subrange(a as int, a as int) =~= Seq::<char>::empty());
            }
            Some(piece.substring_char(a, a).to_owned())
        }
    } else {
        None
    }
}

/// The first occurrence of `c` at or after `i`, or the length.
fn find_char_from(v: &Vec<char>, c: char, i: usize) -> (r: usize)
    requires
        i <= v@.len(),
    ensures
        r as int == crate::strutil::spec_find_char(v@, c, i as int),
        i <= r <= v@.len(),
{
    let n = v.len();
    let ghost i0 = i as int;
    let mut i = i;
    while i < n && !(v[i] == c)
        invariant
            i0 <= i <= n,
            n == v@.len(),
            crate::strutil::spec_find_char(v@, c, i0) == crate::strutil::spec_find_char(
                v@,
                c,
                i as int,
            ),
        decreases n - i,
    {
        i = i + 1;
    }
    i
}


/// A backward whitespace skip never goes forward.
proof fn lemma_skip_ws_back_le(s: Seq<char>, j: int)
    requires
        -1 <= j,
    ensures
        spec_skip_ws_back(s, j) <= j,
    decreases j + 1,
{
    if !(j < 0 || j >= s.len()) && is_space_char(s[j]) {
        lemma_skip_ws_back_le(s, j - 1);
    }
}

/// A backward whitespace skip stops at or after a known non-whitespace
/// index.
proof fn lemma_skip_ws_back_ge(s: Seq<char>, a: int, j: int)
    requires
        0 <= a <= j < s.len(),
        !is_space_char(s[a]),
    ensures
        spec_skip_ws_back(s, j) >= a,
    decreases j,
{
    if is_space_char(s[j]) {
        lemma_skip_ws_back_ge(s, a, j - 1);
    }
}

/// A forward whitespace skip that stops inside the text stops on a
/// non-whitespace character.
proof fn lemma_skip_ws_fwd_nonspace(s: Seq<char>, i: int)
    requires
        0 <= i,
    ensures
        spec_skip_ws_fwd(s, i) < s.len() ==> !is_space_char(s[spec_skip_ws_fwd(s, i)]),
    decreases s.len() - i,
{
    if i < s.len() && is_space_char(s[i]) {
        lemma_skip_ws_fwd_nonspace(s, i + 1);
    }
}

/// Whether a text is blank: nothing is left of it after trimming.
pub fn is_blank(s: &str) -> (r: bool)
    ensures
        r == (spec_trim(s@).len() == 0),
{
    let v = chars_of(s);
    let n = v.len();
    let a = ws_fwd(&v, 0);
    proof {
        if a == n {
            lemma_skip_ws_back_le(s@, n as int - 1);
        } else {
            lemma_skip_ws_fwd_nonspace(s@, 0);
            lemma_skip_ws_back_ge(s@, a as int, n as int - 1);
            lemma_skip_ws_back_le(s@, n as int - 1);
        }
    }
    a == n
}

} // verus!
