use vstd::prelude::*;
use vstd::string::*;

verus! {

/// The first index at or after `from` where `c` occurs in `s`, or `s.len()`
/// when it does not occur there.
pub open spec fn spec_find_char(s: Seq<char>, c: char, from: int) -> int
    decreases s.len() - from,
{
    if from < 0 || from >= s.len() {
        s.len() as int
    } else if s[from] == c {
        from
    } else {
        spec_find_char(s, c, from + 1)
    }
}

/// Finds the first occurrence of `c` in `s`, or returns the length of `s`.
pub fn find_char(s: &str, c: char) -> (r: usize)
    ensures
        r == spec_find_char(s@, c, 0),
        r <= s@.len(),
{
    let n = s.unicode_len();
    let mut i: usize = 0;
    while i < n
        invariant
            n == s@.len(),
            0 <= i <= n,
            spec_find_char(s@, c, 0) == spec_find_char(s@, c, i as int),
        decreases n - i,
    {
        if s.get_char(i) == c {
            return i;
        }
        i = i + 1;
    }
    i
}

/// The canonical form of a URL: everything before the first `?`, so that two
/// targets differing only in query parameters compare equal.
pub open spec fn spec_canonical_url(s: Seq<char>) -> Seq<char> {
    s.subrange(0, spec_find_char(s, '?', 0))
}

/// Strips the query string of a URL, if any, leaving the canonical part that
/// deduplication compares.
pub fn canonical_url(s: &str) -> (r: String)
    ensures
        r@ == spec_canonical_url(s@),
{
    let cut = find_char(s, '?');
    let prefix = s.substring_char(0, cut);
    prefix.to_owned()
}

/// Whether `s` starts with the characters of `prefix`.
pub open spec fn spec_starts_with(s: Seq<char>, prefix: Seq<char>) -> bool {
    s.len() >= prefix.len() && s.subrange(0, prefix.len() as int) == prefix
}

/// Whether the text already names a scheme, i.e. starts with `http`.
pub fn starts_with_http(s: &str) -> (r: bool)
    ensures
        r == spec_starts_with(s@, "http"@),
{
    proof {
        reveal_strlit("http");
    }
    let n = s.unicode_len();
    if n < 4 {
        return false;
    }
    let r = s.get_char(0) == 'h' && s.get_char(1) == 't' && s.get_char(2) == 't' && s.get_char(3)
        == 'p';
    proof {
        if r {
            assert(s@.subrange(0, 4) =~= "http"@);
        } else {
            assert(s@.subrange(0, 4) != "http"@) by {
                if s@.subrange(0, 4) == "http"@ {
                    assert(s@.subrange(0, 4)[0] == 'h');
                    assert(s@.subrange(0, 4)[1] == 't');
                    assert(s@.subrange(0, 4)[2] == 't');
                    assert(s@.subrange(0, 4)[3] == 'p');
                }
            }
        }
    }
    r
}

/// A relative profile or company link made absolute by prefixing the site
/// origin; a link that already names a scheme is kept as it is.
pub open spec fn spec_absolutize(href: Seq<char>) -> Seq<char> {
    if spec_starts_with(href, "http"@) {
        href
    } else {
        "https://linkedin.com"@ + href
    }
}

/// Normalizes a possibly relative `href` to an absolute URL.
pub fn absolutize_url(href: &str) -> (r: String)
    ensures
        r@ == spec_absolutize(href@),
{
    if starts_with_http(href) {
        href.to_owned()
    } else {
        let base = String::from_str("https://linkedin.com");
        base.concat(href)
    }
}

/// Relies on std's String::push: appends one character.
pub assume_specification[ String::push ](s: &mut String, ch: char)
    ensures
        final(s)@ == old(s)@.push(ch),
;

/// The decimal digit character of a value below ten.
pub open spec fn spec_digit_char(d: int) -> char {
    if d == 0 {
        '0'
    } else if d == 1 {
        '1'
    } else if d == 2 {
        '2'
    } else if d == 3 {
        '3'
    } else if d == 4 {
        '4'
    } else if d == 5 {
        '5'
    } else if d == 6 {
        '6'
    } else if d == 7 {
        '7'
    } else if d == 8 {
        '8'
    } else {
        '9'
    }
}

/// The decimal writing of a number: its leading digits followed by its
/// last one.
pub open spec fn spec_decimal(n: int) -> Seq<char>
    decreases n,
{
    if n < 10 {
        seq![spec_digit_char(n)]
    } else {
        spec_decimal(n / 10).push(spec_digit_char(n % 10))
    }
}

fn digit_char(d: usize) -> (r: char)
    requires
        0 <= d < 10,
    ensures
        r == spec_digit_char(d as int),
{
    if d == 0 {
        '0'
    } else if d == 1 {
        '1'
    } else if d == 2 {
        '2'
    } else if d == 3 {
        '3'
    } else if d == 4 {
        '4'
    } else if d == 5 {
        '5'
    } else if d == 6 {
        '6'
    } else if d == 7 {
        '7'
    } else if d == 8 {
        '8'
    } else {
        '9'
    }
}

/// Writes a number in decimal.
pub fn usize_to_string(n: usize) -> (r: String)
    ensures
        r@ == spec_decimal(n as int),
    decreases n,
{
    if n < 10 {
        let mut s = String::new();
        s.push(digit_char(n));
        proof {
            assert(s@ =~= seq![spec_digit_char(n as int)]);
        }
        s
    } else {
        let mut s = usize_to_string(n / 10);
        s.push(digit_char(n % 10));
        s
    }
}

/// The value that a digit-run string denotes, folded left to right.
pub open spec fn spec_decimal_value(s: Seq<char>) -> int
    decreases s.len(),
{
    if s.len() == 0 {
        0
    } else {
        spec_decimal_value(s.drop_last()) * 10 + (s.last() as int - '0' as int)
    }
}

/// Whether every character of `s` is a decimal digit.
pub open spec fn spec_all_digits(s: Seq<char>) -> bool {
    forall|i: int| 0 <= i < s.len() ==> crate::duration::is_digit_char(#[trigger] s[i])
}

/// Reads a number written in decimal: the value of a non-empty all-digit
/// string when it fits in `usize`, and nothing otherwise.
pub fn parse_usize(s: &str) -> (r: Option<usize>)
    ensures
        match r {
            Some(v) => s@.len() > 0 && spec_all_digits(s@) && v == spec_decimal_value(s@)
                && spec_decimal_value(s@) <= usize::MAX,
            None => s@.len() == 0 || !spec_all_digits(s@) || spec_decimal_value(s@) > usize::MAX,
        },
{
    let n = s.unicode_len();
    if n == 0 {
        return None;
    }
    let mut val: usize = 0;
    let mut i: usize = 0;
    while i < n
        invariant
            n == s@.len(),
            0 <= i <= n,
            spec_all_digits(s@.subrange(0, i as int)),
            val == spec_decimal_value(s@.subrange(0, i as int)),
        decreases n - i,
    {
        let c = s.get_char(i);
        if !crate::duration::is_digit_c(c) {
            proof {
                assert(!spec_all_digits(s@));
            }
            return None;
        }
        let d: usize = (c as u32 as usize) - 48;
        if val > (usize::MAX - d) / 10 {
            proof {
                lemma_decimal_value_grows(s@, i + 1, s@.len() as int);
                assert(s@.subrange(0, s@.len() as int) =~= s@);
                assert(s@.subrange(0, i + 1).drop_last() =~= s@.subrange(0, i as int));
                assert(spec_decimal_value(s@.subrange(0, i + 1)) > usize::MAX) by (nonlinear_arith)
                    requires
                        spec_decimal_value(s@.subrange(0, i + 1)) == spec_decimal_value(
                            s@.subrange(0, i as int),
                        ) * 10 + d,
                        spec_decimal_value(s@.subrange(0, i as int)) == val,
                        val > (usize::MAX - d) / 10,
                        0 <= d < 10,
                ;
            }
            return None;
        }
        proof {
            assert(val * 10 + d <= usize::MAX) by (nonlinear_arith)
                requires
                    val <= (usize::MAX - d) / 10,
                    0 <= d < 10,
            ;
            assert(s@.subrange(0, i + 1).drop_last() =~= s@.subrange(0, i as int));
            assert(s@.subrange(0, i + 1).last() == s@[i as int]);
        }
        val = val * 10 + d;
        proof {
            assert(spec_all_digits(s@.subrange(0, i + 1))) by {
                assert(forall|k: int|
                    0 <= k < i + 1 ==> s@.subrange(0, i + 1)[k] == #[trigger] s@[k]);
            }
        }
        i = i + 1;
    }
    proof {
        assert(s@.subrange(0, n as int) =~= s@);
    }
    Some(val)
}

/// A longer digit prefix never denotes a smaller value.
proof fn lemma_decimal_value_grows(s: Seq<char>, i: int, b: int)
    requires
        0 <= i <= b <= s.len(),
    ensures
        spec_all_digits(s.subrange(0, b)) ==> spec_decimal_value(s.subrange(0, b))
            >= spec_decimal_value(s.subrange(0, i)),
    decreases b - i,
{
    if i < b {
        lemma_decimal_value_grows(s, i + 1, b);
        if spec_all_digits(s.subrange(0, b)) {
            assert(s.subrange(0, i + 1).drop_last() =~= s.subrange(0, i));
            lemma_decimal_value_nonneg(s, i);
            assert(spec_decimal_value(s.subrange(0, i)) * 10 >= spec_decimal_value(
                s.subrange(0, i),
            )) by (nonlinear_arith)
                requires
                    spec_decimal_value(s.subrange(0, i)) >= 0,
            ;
            assert(spec_all_digits(s.subrange(0, i + 1))) by {
                assert(forall|k: int|
                    0 <= k < i + 1 ==> s.subrange(0, i + 1)[k] == #[trigger] s.subrange(0, b)[k]);
            }
            assert(s.subrange(0, i + 1).last() == s.subrange(0, b)[i]);
            assert(s.subrange(0, i + 1).last() as int - '0' as int >= 0);
        }
    }
}

/// The value of an all-digit prefix is never negative.
proof fn lemma_decimal_value_nonneg(s: Seq<char>, i: int)
    requires
        0 <= i <= s.len(),
    ensures
        spec_all_digits(s.subrange(0, i)) ==> spec_decimal_value(s.subrange(0, i)) >= 0,
    decreases i,
{
    if i > 0 {
        lemma_decimal_value_nonneg(s, i - 1);
        if spec_all_digits(s.subrange(0, i)) {
            assert(s.subrange(0, i).drop_last() =~= s.subrange(0, i - 1));
            assert(spec_all_digits(s.subrange(0, i - 1))) by {
                assert(forall|k: int|
                    0 <= k < i - 1 ==> s.subrange(0, i - 1)[k] == #[trigger] s.subrange(0, i)[k]);
            }
            assert(spec_decimal_value(s.subrange(0, i - 1)) * 10 >= 0) by (nonlinear_arith)
                requires
                    spec_decimal_value(s.subrange(0, i - 1)) >= 0,
            ;
            assert(s.subrange(0, i).last() as int - '0' as int >= 0);
        }
    }
}

/// Character-by-character equality of two string slices.
pub fn str_eq(a: &str, b: &str) -> (r: bool)
    ensures
        r == (a@ == b@),
{
    let na = a.unicode_len();
    let nb = b.unicode_len();
    if na != nb {
        return false;
    }
    let mut i: usize = 0;
    while i < na
        invariant
            na == a@.len(),
            nb == b@.len(),
            na == nb,
            0 <= i <= na,
            forall|k: int| 0 <= k < i ==> a@[k] == #[trigger] b@[k],
        decreases na - i,
    {
        if a.get_char(i) != b.get_char(i) {
            return false;
        }
        i = i + 1;
    }
    proof {
        assert(a@ =~= b@);
    }
    true
}

/// The views of the strings a vector holds.
pub open spec fn spec_str_views(v: Seq<String>) -> Seq<Seq<char>> {
    v.map_values(|s: String| s@)
}

/// Whether some string in `v` equals `s`.
pub fn vec_contains_str(v: &Vec<String>, s: &str) -> (r: bool)
    ensures
        r == spec_str_views(v@).contains(s@),
{
    let n = v.len();
    let mut i: usize = 0;
    while i < n
        invariant
            n == v@.len(),
            0 <= i <= n,
            forall|k: int| 0 <= k < i ==> #[trigger] v@[k]@ != s@,
        decreases n - i,
    {
        if str_eq(v[i].as_str(), s) {
            proof {
                assert(spec_str_views(v@)[i as int] == s@);
            }
            return true;
        }
        i = i + 1;
    }
    proof {
        if spec_str_views(v@).contains(s@) {
            let k = choose|k: int|
                0 <= k < spec_str_views(v@).len() && spec_str_views(v@)[k] == s@;
            assert(v@[k]@ == s@);
        }
    }
    false
}

/// Whether `needle` occurs as a contiguous run inside `hay`.
pub open spec fn spec_contains_seq(hay: Seq<char>, needle: Seq<char>) -> bool {
    exists|i: int|
        0 <= i <= hay.len() - needle.len() && #[trigger] hay.subrange(i, i + needle.len())
            == needle
}

/// Whether `hay` contains `needle` as a contiguous substring.
pub fn contains_str(hay: &str, needle: &str) -> (r: bool)
    ensures
        r == spec_contains_seq(hay@, needle@),
{
    let hn = hay.unicode_len();
    let nn = needle.unicode_len();
    if nn > hn {
        return false;
    }
    let mut i: usize = 0;
    while i <= hn - nn
        invariant
            hn == hay@.len(),
            nn == needle@.len(),
            nn <= hn,
            0 <= i <= hn - nn + 1,
            forall|k: int|
                0 <= k < i ==> #[trigger] hay@.subrange(k, k + needle@.len()) != needle@,
        decreases hn - nn - i + 1,
    {
        let mut j: usize = 0;
        let mut all_eq = true;
        while j < nn
            invariant
                hn == hay@.len(),
                nn == needle@.len(),
                0 <= i <= hn - nn,
                0 <= j <= nn,
                all_eq <==> (forall|m: int|
                    0 <= m < j ==> hay@[i + m] == #[trigger] needle@[m]),
            decreases nn - j,
        {
            if hay.get_char(i + j) != needle.get_char(j) {
                all_eq = false;
                proof {
                    assert(hay@[i + j] != needle@[j as int]);
                }
                j = nn;
            } else {
                proof {
                    assert(hay@[i + j] == needle@[j as int]);
                }
                j = j + 1;
            }
        }
        if all_eq {
            proof {
                assert(hay@.subrange(i as int, i + needle@.len()) =~= needle@);
            }
            return true;
        }
        proof {
            assert(hay@.subrange(i as int, i + needle@.len()) != needle@) by {
                if hay@.subrange(i as int, i + needle@.len()) == needle@ {
                    assert(forall|m: int|
                        0 <= m < nn ==> hay@.subrange(i as int, i + needle@.len())[m]
                            == needle@[m]);
                }
            }
        }
        i = i + 1;
    }
    false
}


/// Whether `pat` stands at index `i` of `s`.
pub open spec fn spec_match_at(s: Seq<char>, pat: Seq<char>, i: int) -> bool {
    0 <= i && i + pat.len() <= s.len() && s.subrange(i, i + pat.len()) == pat
}

/// `s` with every non-overlapping occurrence of `pat` removed, scanning
/// left to right.
pub open spec fn spec_remove_all(s: Seq<char>, pat: Seq<char>) -> Seq<char>
    decreases s.len(),
{
    if pat.len() == 0 || s.len() < pat.len() {
        s
    } else if s.subrange(0, pat.len() as int) == pat {
        spec_remove_all(s.skip(pat.len() as int), pat)
    } else {
        seq![s[0]] + spec_remove_all(s.drop_first(), pat)
    }
}

/// Whether `pat` stands at index `i` of `v`.
pub(crate) fn match_at(v: &Vec<char>, pat: &Vec<char>, i: usize) -> (r: bool)
    requires
        i <= v@.len(),
    ensures
        r == spec_match_at(v@, pat@, i as int),
{
    let n = v.len();
    let m = pat.len();
    if n - i < m {
        return false;
    }
    let mut j: usize = 0;
    while j < m
        invariant
            n == v@.len(),
            m == pat@.len(),
            0 <= i,
            i + m <= n,
            0 <= j <= m,
            forall|k: int| 0 <= k < j ==> v@[i + k] == #[trigger] pat@[k],
        decreases m - j,
    {
        if v[i + j] != pat[j] {
            return false;
        }
        j = j + 1;
    }
    proof {
        assert(v@.subrange(i as int, i + pat@.len()) =~= pat@);
    }
    true
}

/// Removes every non-overlapping occurrence of `pat` from `s`, scanning
/// left to right.
pub fn remove_all(s: &str, pat: &str) -> (r: String)
    requires
        pat@.len() > 0,
    ensures
        r@ == spec_remove_all(s@, pat@),
{
    let v = crate::duration::chars_of(s);
    let pv = crate::duration::chars_of(pat);
    let n = v.len();
    let m = pv.len();
    let mut out = String::new();
    let mut i: usize = 0;
    proof {
        assert(v@.skip(0) =~= v@);
        assert(out@ + spec_remove_all(v@, pat@) =~= spec_remove_all(v@, pat@));
    }
    while i < n
        invariant
            n == v@.len(),
            m == pat@.len(),
            m > 0,
            v@ == s@,
            pv@ == pat@,
            0 <= i <= n,
            out@ + spec_remove_all(v@.skip(i as int), pat@) == spec_remove_all(v@, pat@),
        decreases n - i,
    {
        let ghost out0 = out@;
        let ghost rest = v@.skip(i as int);
        if match_at(&v, &pv, i) {
            proof {
                assert(rest.subrange(0, m as int) =~= v@.subrange(i as int, i + m));
                assert(rest.skip(m as int) =~= v@.skip(i + m));
            }
            i = i + m;
        } else {
            proof {
                if rest.len() >= m {
                    assert(rest.subrange(0, m as int) =~= v@.subrange(i as int, i + m));
                }
                assert(rest[0] == v@[i as int]);
                assert(rest.drop_first() =~= v@.skip(i + 1));
            }
            out.push(v[i]);
            proof {
                assert(out@ =~= out0.push(v@[i as int]));
                assert(out0.push(rest[0]) =~= out0 + seq![rest[0]]);
                assert(out0 + (seq![rest[0]] + spec_remove_all(rest.drop_first(), pat@)) =~= (
                out0 + seq![rest[0]]) + spec_remove_all(rest.drop_first(), pat@));
            }
            i = i + 1;
        }
    }
    proof {
        assert(v@.skip(n as int) =~= Seq::<char>::empty());
        assert(out@ + Seq::<char>::empty() =~= out@);
    }
    out
}

/// The texts of a list joined with single spaces.
pub open spec fn spec_join_space(ss: Seq<Seq<char>>) -> Seq<char>
    decreases ss.len(),
{
    if ss.len() == 0 {
        Seq::empty()
    } else if ss.len() == 1 {
        ss[0]
    } else {
        ss[0] + seq![' '] + spec_join_space(ss.drop_first())
    }
}

/// Joins a list of texts with single spaces.
pub fn join_space(ss: &Vec<String>) -> (r: String)
    ensures
        r@ == spec_join_space(ss.deep_view()),
{
    let ghost all = ss.deep_view();
    let n = ss.len();
    if n == 0 {
        return String::new();
    }
    proof {
        assert(ss.deep_view()[0] == ss@[0]@);
    }
    let mut out = String::new();
    out.append(ss[0].as_str());
    let mut i: usize = 1;
    proof {
        lemma_join_head(all);
        assert(out@ =~= all[0]);
    }
    while i < n
        invariant
            n == ss@.len(),
            all == ss.deep_view(),
            all.len() == n,
            1 <= i <= n,
            out@ + spec_join_tail(all, i as int) == spec_join_space(all),
        decreases n - i,
    {
        proof {
            assert(ss.deep_view()[i as int] == ss@[i as int]@);
            lemma_join_tail_step(all, i as int);
        }
        out.push(' ');
        out.append(ss[i].as_str());
        i = i + 1;
    }
    proof {
        lemma_join_tail_end(all, n as int);
        assert(out@ + Seq::<char>::empty() =~= out@);
    }
    out
}

/// What is still owed after the first `i` texts are joined: a space, the
/// next text, and so on.
pub open spec fn spec_join_tail(ss: Seq<Seq<char>>, i: int) -> Seq<char>
    decreases ss.len() - i,
{
    if i < 0 || i >= ss.len() {
        Seq::empty()
    } else {
        seq![' '] + ss[i] + spec_join_tail(ss, i + 1)
    }
}

/// One joining step preserves the owed tail.
proof fn lemma_join_tail_step(ss: Seq<Seq<char>>, i: int)
    requires
        1 <= i < ss.len(),
    ensures
        spec_join_tail(ss, i) == seq![' '] + ss[i] + spec_join_tail(ss, i + 1),
{
}

/// Nothing is owed past the end.
proof fn lemma_join_tail_end(ss: Seq<Seq<char>>, n: int)
    requires
        n == ss.len(),
    ensures
        spec_join_tail(ss, n) =~= Seq::<char>::empty(),
{
}

/// The whole join is the head plus the owed tail.
proof fn lemma_join_head(ss: Seq<Seq<char>>)
    requires
        ss.len() >= 1,
    ensures
        spec_join_space(ss) == ss[0] + spec_join_tail(ss, 1),
    decreases ss.len(),
{
    if ss.len() == 1 {
        assert(spec_join_tail(ss, 1) =~= Seq::<char>::empty());
        assert(ss[0] + Seq::<char>::empty() =~= ss[0]);
    } else {
        lemma_join_head(ss.drop_first());
        lemma_join_tail_shift(ss, 1);
        assert(ss.drop_first()[0] == ss[1]);
        assert((ss[0] + seq![' ']) + spec_join_space(ss.drop_first()) =~= ss[0] + (seq![' ']
            + spec_join_space(ss.drop_first())));
    }
}

/// The owed tail of a shifted list.
proof fn lemma_join_tail_shift(ss: Seq<Seq<char>>, i: int)
    requires
        1 <= i <= ss.len(),
    ensures
        spec_join_tail(ss, i) == spec_join_tail(ss.drop_first(), i - 1),
    decreases ss.len() - i,
{
    if i < ss.len() {
        lemma_join_tail_shift(ss, i + 1);
        assert(ss.drop_first()[i - 1] == ss[i]);
    }
}

} // verus!
