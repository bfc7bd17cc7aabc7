use vstd::prelude::*;
use vstd::string::*;
use crate::items::{JobListing, JobListingView};

verus! {

// The sink records each produced entity as one JSON line. The library
// frames and checks those lines itself: the encoder below writes a job
// listing as a JSON object with its six string fields escaped, the
// decoder reads such a line back, and the round-trip law at the bottom
// proves that decoding an encoded record gives the record back.
/// The hexadecimal digit character of a value below sixteen.
pub open spec fn spec_hex_char(d: int) -> char {
    if d == 0 {
        '0'
    } else if d == 1 {
        '1'
    } else if d == 2 {
        '2'
    } else if d == 3 {
        '3'
    } else if d == 4 {
        '4'
    } else if d == 5 {
        '5'
    } else if d == 6 {
        '6'
    } else if d == 7 {
        '7'
    } else if d == 8 {
        '8'
    } else if d == 9 {
        '9'
    } else if d == 10 {
        'a'
    } else if d == 11 {
        'b'
    } else if d == 12 {
        'c'
    } else if d == 13 {
        'd'
    } else if d == 14 {
        'e'
    } else {
        'f'
    }
}

/// The value of a lowercase hexadecimal digit character, or `-1`.
pub open spec fn spec_hex_val(c: char) -> int {
    if c == '0' {
        0
    } else if c == '1' {
        1
    } else if c == '2' {
        2
    } else if c == '3' {
        3
    } else if c == '4' {
        4
    } else if c == '5' {
        5
    } else if c == '6' {
        6
    } else if c == '7' {
        7
    } else if c == '8' {
        8
    } else if c == '9' {
        9
    } else if c == 'a' {
        10
    } else if c == 'b' {
        11
    } else if c == 'c' {
        12
    } else if c == 'd' {
        13
    } else if c == 'e' {
        14
    } else if c == 'f' {
        15
    } else {
        -1
    }
}

/// What one character becomes inside a JSON string: the quote and the
/// backslash get a backslash, a control character becomes a `\u00..`
/// escape, anything else stands as it is.
pub open spec fn spec_escape_char(c: char) -> Seq<char> {
    if c == '"' {
        seq!['\\', '"']
    } else if c == '\\' {
        seq!['\\', '\\']
    } else if (c as u32) < 32 {
        seq!['\\', 'u', '0', '0', spec_hex_char((c as u32) as int / 16), spec_hex_char((c as u32) as int % 16)]
    } else {
        seq![c]
    }
}

/// A whole text escaped for a JSON string.
pub open spec fn spec_escape(s: Seq<char>) -> Seq<char>
    decreases s.len(),
{
    if s.len() == 0 {
        Seq::empty()
    } else {
        spec_escape_char(s[0]) + spec_escape(s.drop_first())
    }
}

/// The text a JSON string body denotes, read escape by escape; a lone or
/// malformed backslash escape denotes nothing.
pub open spec fn spec_unescape(s: Seq<char>) -> Option<Seq<char>>
    decreases s.len(),
{
    if s.len() == 0 {
        Some(Seq::empty())
    } else if s[0] == '\\' {
        if s.len() >= 2 && (s[1] == '"' || s[1] == '\\') {
            match spec_unescape(s.skip(2)) {
                Some(t) => Some(seq![s[1]] + t),
                None => None,
            }
        } else if s.len() >= 6 && s[1] == 'u' && s[2] == '0' && s[3] == '0' && spec_hex_val(s[4])
            >= 0 && spec_hex_val(s[5]) >= 0 {
            match spec_unescape(s.skip(6)) {
                Some(t) => Some(
                    seq![(((spec_hex_val(s[4]) * 16 + spec_hex_val(s[5])) as u32) as char)] + t,
                ),
                None => None,
            }
        } else {
            None
        }
    } else {
        match spec_unescape(s.drop_first()) {
            Some(t) => Some(seq![s[0]] + t),
            None => None,
        }
    }
}

/// A hexadecimal digit reads back to its value.
proof fn lemma_hex_inverse(d: int)
    requires
        0 <= d < 16,
    ensures
        spec_hex_val(spec_hex_char(d)) == d,
        spec_hex_char(d) != '"',
        spec_hex_char(d) != '\\',
{
}

/// Reading back an escaped text gives the text: the string codec loses
/// nothing.
pub proof fn lemma_escape_round_trip(s: Seq<char>)
    ensures
        spec_unescape(spec_escape(s)) == Some(s),
    decreases s.len(),
{
    if s.len() == 0 {
        assert(spec_escape(s) =~= Seq::<char>::empty());
    } else {
        lemma_escape_round_trip(s.drop_first());
        let c = s[0];
        let e = spec_escape_char(c);
        let rest = spec_escape(s.drop_first());
        assert(spec_escape(s) == e + rest);
        if c == '"' || c == '\\' {
            assert((e + rest)[0] == '\\');
            assert((e + rest)[1] == c);
            assert((e + rest).skip(2) =~= rest);
            assert(seq![c] + s.drop_first() =~= s);
        } else if (c as u32) < 32 {
            assert((e + rest)[0] == '\\');
            assert((e + rest)[1] == 'u');
            assert((e + rest)[2] == '0');
            assert((e + rest)[3] == '0');
            assert((e + rest)[4] == spec_hex_char((c as u32) as int / 16));
            assert((e + rest)[5] == spec_hex_char((c as u32) as int % 16));
            assert((e + rest).skip(6) =~= rest);
            lemma_hex_inverse((c as u32) as int / 16);
            lemma_hex_inverse((c as u32) as int % 16);
            assert(spec_hex_val((e + rest)[4]) * 16 + spec_hex_val((e + rest)[5]) == (
            c as u32) as int);
            vstd::utf8::char_u32_cast(c, c as u32);
            assert((((spec_hex_val((e + rest)[4]) * 16 + spec_hex_val((e + rest)[5])) as u32) as char)
                == c);
            assert(seq![c] + s.drop_first() =~= s);
        } else {
            assert((e + rest)[0] == c);
            assert((e + rest).drop_first() =~= rest);
            assert(seq![c] + s.drop_first() =~= s);
        }
    }
}

/// The index of the quote that closes a JSON string scanned from `i`,
/// skipping over backslash escapes.
pub open spec fn spec_close_quote(s: Seq<char>, i: int) -> Option<int>
    decreases s.len() - i,
{
    if i < 0 || i >= s.len() {
        None
    } else if s[i] == '"' {
        Some(i)
    } else if s[i] == '\\' {
        if i + 1 < s.len() {
            spec_close_quote(s, i + 2)
        } else {
            None
        }
    } else {
        spec_close_quote(s, i + 1)
    }
}

/// Escaped text never hides nor invents a closing quote: the scan from
/// the start of an escaped body stops exactly at the quote appended
/// behind it.
pub proof fn lemma_close_quote_of_escaped(s: Seq<char>, i: int, x: Seq<char>)
    requires
        0 <= i,
        i + spec_escape(x).len() < s.len(),
        s.subrange(i, i + spec_escape(x).len()) == spec_escape(x),
        s[i + spec_escape(x).len()] == '"',
    ensures
        spec_close_quote(s, i) == Some(i + spec_escape(x).len()),
    decreases x.len(),
{
    let e = spec_escape(x);
    if x.len() == 0 {
        assert(e.len() == 0);
        assert(s[i] == '"');
    } else {
        let c = x[0];
        let ec = spec_escape_char(c);
        let rest = spec_escape(x.drop_first());
        assert(e == ec + rest);
        assert(forall|k: int| 0 <= k < e.len() ==> s[i + k] == #[trigger] e[k]) by {
            assert(forall|k: int|
                0 <= k < e.len() ==> s.subrange(i, i + e.len())[k] == #[trigger] e[k]);
        }
        let step: int = ec.len() as int;
        assert(s.subrange(i + step, i + e.len()) =~= rest) by {
            assert(forall|k: int|
                0 <= k < rest.len() ==> s.subrange(i + step, i + e.len())[k] == s[i + step + k]
                    && #[trigger] rest[k] == e[step + k]);
        }
        lemma_close_quote_of_escaped(s, i + step, x.drop_first());
        if c == '"' || c == '\\' {
            assert(s[i] == e[0] && s[i + 1] == e[1]);
            assert(e[0] == ec[0] && e[1] == ec[1]);
            assert(s[i] == '\\');
            assert(i + 1 < s.len());
        } else if (c as u32) < 32 {
            assert(s[i] == e[0] && s[i + 1] == e[1] && s[i + 2] == e[2] && s[i + 3] == e[3] && s[i
                + 4] == e[4] && s[i + 5] == e[5]);
            assert(e[0] == ec[0] && e[1] == ec[1] && e[2] == ec[2] && e[3] == ec[3] && e[4]
                == ec[4] && e[5] == ec[5]);
            assert(s[i] == '\\');
            assert(s[i + 1] == 'u');
            assert(s[i + 2] == '0');
            assert(s[i + 3] == '0');
            assert(s[i + 4] == spec_hex_char((c as u32) as int / 16));
            assert(s[i + 5] == spec_hex_char((c as u32) as int % 16));
            lemma_hex_inverse((c as u32) as int / 16);
            lemma_hex_inverse((c as u32) as int % 16);
            assert(spec_close_quote(s, i) == spec_close_quote(s, i + 2));
            assert(spec_close_quote(s, i + 2) == spec_close_quote(s, i + 3));
            assert(spec_close_quote(s, i + 3) == spec_close_quote(s, i + 4));
            assert(spec_close_quote(s, i + 4) == spec_close_quote(s, i + 5));
            assert(spec_close_quote(s, i + 5) == spec_close_quote(s, i + 6));
        } else {
            assert(s[i] == e[0]);
            assert(e[0] == ec[0]);
            assert(s[i] == c);
            assert(c != '"' && c != '\\');
        }
    }
}


/// The opening of one field: quoted key, colon, opening quote.
pub open spec fn spec_key_prefix(key: Seq<char>) -> Seq<char> {
    seq!['"'] + key + seq!['"', ':', '"']
}

/// One field of the object: its opening, the escaped value, the closing
/// quote.
pub open spec fn spec_field(key: Seq<char>, v: Seq<char>) -> Seq<char> {
    spec_key_prefix(key) + spec_escape(v) + seq!['"']
}

/// The whole JSON line of a job listing, fields in a fixed order.
pub open spec fn spec_emit_job_listing(x: JobListingView) -> Seq<char> {
    seq!['{'] + spec_emit_tail(x)
}

pub open spec fn spec_emit_tail(x: JobListingView) -> Seq<char> {
    spec_field("job_title"@, x.job_title) + spec_emit_tail2(x)
}

pub open spec fn spec_emit_tail2(x: JobListingView) -> Seq<char> {
    seq![','] + (spec_field("job_detail_url"@, x.job_detail_url) + spec_emit_tail3(x))
}

pub open spec fn spec_emit_tail3(x: JobListingView) -> Seq<char> {
    seq![','] + (spec_field("job_listed"@, x.job_listed) + spec_emit_tail4(x))
}

pub open spec fn spec_emit_tail4(x: JobListingView) -> Seq<char> {
    seq![','] + (spec_field("company_name"@, x.company_name) + spec_emit_tail5(x))
}

pub open spec fn spec_emit_tail5(x: JobListingView) -> Seq<char> {
    seq![','] + (spec_field("company_link"@, x.company_link) + spec_emit_tail6(x))
}

pub open spec fn spec_emit_tail6(x: JobListingView) -> Seq<char> {
    seq![','] + (spec_field("company_location"@, x.company_location) + seq!['}'])
}

/// Whether the literal `lit` stands at `i`; on success the index just
/// past it.
pub open spec fn spec_expect(s: Seq<char>, i: int, lit: Seq<char>) -> Option<int> {
    if 0 <= i && i + lit.len() <= s.len() && s.subrange(i, i + lit.len()) == lit {
        Some(i + lit.len())
    } else {
        None
    }
}

/// The string body starting at `i`: everything up to the closing quote,
/// read back through the escapes, and the index just past that quote.
pub open spec fn spec_parse_string_at(s: Seq<char>, i: int) -> Option<(Seq<char>, int)> {
    match spec_close_quote(s, i) {
        Some(q) => match spec_unescape(s.subrange(i, q)) {
            Some(v) => Some((v, q + 1)),
            None => None,
        },
        None => None,
    }
}

/// One field read at `i`: its opening literal, then its string body.
pub open spec fn spec_parse_field(s: Seq<char>, i: int, key: Seq<char>) -> Option<
    (Seq<char>, int),
> {
    match spec_expect(s, i, spec_key_prefix(key)) {
        Some(j) => spec_parse_string_at(s, j),
        None => None,
    }
}

/// The job listing a JSON line denotes: the six fields in their fixed
/// order, separated by commas, closed by the brace at the very end.
pub open spec fn spec_parse_job_listing(s: Seq<char>) -> Option<JobListingView> {
    match spec_expect(s, 0, seq!['{']) {
        Some(i1) => match spec_parse_field(s, i1, "job_title"@) {
            Some((v1, i2)) => match spec_expect(s, i2, seq![',']) {
                Some(i3) => match spec_parse_field(s, i3, "job_detail_url"@) {
                    Some((v2, i4)) => match spec_expect(s, i4, seq![',']) {
                        Some(i5) => match spec_parse_field(s, i5, "job_listed"@) {
                            Some((v3, i6)) => match spec_expect(s, i6, seq![',']) {
                                Some(i7) => match spec_parse_field(s, i7, "company_name"@) {
                                    Some((v4, i8)) => match spec_expect(s, i8, seq![',']) {
                                        Some(i9) => match spec_parse_field(
                                            s,
                                            i9,
                                            "company_link"@,
                                        ) {
                                            Some((v5, i10)) => match spec_expect(
                                                s,
                                                i10,
                                                seq![','],
                                            ) {
                                                Some(i11) => match spec_parse_field(
                                                    s,
                                                    i11,
                                                    "company_location"@,
                                                ) {
                                                    Some((v6, i12)) => {
                                                        if i12 + 1 == s.len() && s[i12] == '}' {
                                                            Some(
                                                                JobListingView {
                                                                    job_title: v1,
                                                                    job_detail_url: v2,
                                                                    job_listed: v3,
                                                                    company_name: v4,
                                                                    company_link: v5,
                                                                    company_location: v6,
                                                                },
                                                            )
                                                        } else {
                                                            None
                                                        }
                                                    },
                                                    None => None,
                                                },
                                                None => None,
                                            },
                                            None => None,
                                        },
                                        None => None,
                                    },
                                    None => None,
                                },
                                None => None,
                            },
                            None => None,
                        },
                        None => None,
                    },
                    None => None,
                },
                None => None,
            },
            None => None,
        },
        None => None,
    }
}

/// A part of an equality between a text and a concatenation can be cut
/// out again: the left piece and the right piece each stand at their own
/// range.
proof fn lemma_concat_sub(s: Seq<char>, i: int, a: Seq<char>, b: Seq<char>)
    requires
        0 <= i,
        i + a.len() + b.len() <= s.len(),
        s.subrange(i, i + a.len() + b.len()) == a + b,
    ensures
        s.subrange(i, i + a.len()) =~= a,
        s.subrange(i + a.len(), i + a.len() + b.len()) =~= b,
{
    let ab = a + b;
    assert(forall|k: int| 0 <= k < ab.len() ==> s[i + k] == #[trigger] ab[k]) by {
        assert(forall|k: int|
            0 <= k < ab.len() ==> s.subrange(i, i + ab.len())[k] == #[trigger] ab[k]);
    }
    assert forall|k: int| 0 <= k < a.len() implies s.subrange(i, i + a.len())[k] == a[k] by {
        assert(s[i + k] == ab[k]);
        assert(ab[k] == a[k]);
    }
    assert forall|k: int|
        0 <= k < b.len() implies s.subrange(i + a.len(), i + a.len() + b.len())[k] == b[k] by {
        assert(s[i + a.len() + k] == ab[a.len() + k]);
        assert(ab[a.len() + k] == b[k]);
    }
}

/// A field written at `i` reads back as its value, ending just past it.
proof fn lemma_parse_field_at(s: Seq<char>, i: int, key: Seq<char>, v: Seq<char>)
    requires
        0 <= i,
        i + spec_field(key, v).len() <= s.len(),
        s.subrange(i, i + spec_field(key, v).len()) == spec_field(key, v),
    ensures
        spec_parse_field(s, i, key) == Some((v, i + spec_field(key, v).len())),
{
    let pre = spec_key_prefix(key);
    let e = spec_escape(v);
    assert(spec_field(key, v) =~= pre + (e + seq!['"']));
    lemma_concat_sub(s, i, pre, e + seq!['"']);
    assert(spec_expect(s, i, pre) == Some(i + pre.len()));
    let j = i + pre.len();
    lemma_concat_sub(s, j, e, seq!['"']);
    assert(s[j + e.len()] == '"') by {
        assert(s.subrange(j + e.len(), j + e.len() + 1)[0] == seq!['"'][0]);
    }
    lemma_close_quote_of_escaped(s, j, v);
    lemma_escape_round_trip(v);
    assert(spec_parse_string_at(s, j) == Some((v, j + e.len() + 1)));
}

/// Reading back an encoded job listing gives the record: the JSON line
/// codec loses nothing.
#[verifier::rlimit(100)]
#[verifier::spinoff_prover]
pub proof fn lemma_job_listing_round_trip(x: JobListingView)
    ensures
        spec_parse_job_listing(spec_emit_job_listing(x)) == Some(x),
{
    let s = spec_emit_job_listing(x);
    let f1 = spec_field("job_title"@, x.job_title);
    let f2 = spec_field("job_detail_url"@, x.job_detail_url);
    let f3 = spec_field("job_listed"@, x.job_listed);
    let f4 = spec_field("company_name"@, x.company_name);
    let f5 = spec_field("company_link"@, x.company_link);
    let f6 = spec_field("company_location"@, x.company_location);
    assert(s.subrange(0, s.len() as int) =~= s);
    assert(s =~= seq!['{'] + spec_emit_tail(x));
    lemma_concat_sub(s, 0, seq!['{'], spec_emit_tail(x));
    assert(spec_expect(s, 0, seq!['{']) == Some(1int));
    let i1 = 1int;
    assert(spec_emit_tail(x) == f1 + spec_emit_tail2(x));
    lemma_concat_sub(s, i1, f1, spec_emit_tail2(x));
    lemma_parse_field_at(s, i1, "job_title"@, x.job_title);
    let i2 = i1 + f1.len();
    assert(spec_emit_tail2(x) == seq![','] + (f2 + spec_emit_tail3(x)));
    lemma_concat_sub(s, i2, seq![','], f2 + spec_emit_tail3(x));
    assert(spec_expect(s, i2, seq![',']) == Some(i2 + 1));
    let i3 = i2 + 1;
    lemma_concat_sub(s, i3, f2, spec_emit_tail3(x));
    lemma_parse_field_at(s, i3, "job_detail_url"@, x.job_detail_url);
    let i4 = i3 + f2.len();
    assert(spec_emit_tail3(x) == seq![','] + (f3 + spec_emit_tail4(x)));
    lemma_concat_sub(s, i4, seq![','], f3 + spec_emit_tail4(x));
    assert(spec_expect(s, i4, seq![',']) == Some(i4 + 1));
    let i5 = i4 + 1;
    lemma_concat_sub(s, i5, f3, spec_emit_tail4(x));
    lemma_parse_field_at(s, i5, "job_listed"@, x.job_listed);
    let i6 = i5 + f3.len();
    assert(spec_emit_tail4(x) == seq![','] + (f4 + spec_emit_tail5(x)));
    lemma_concat_sub(s, i6, seq![','], f4 + spec_emit_tail5(x));
    assert(spec_expect(s, i6, seq![',']) == Some(i6 + 1));
    let i7 = i6 + 1;
    lemma_concat_sub(s, i7, f4, spec_emit_tail5(x));
    lemma_parse_field_at(s, i7, "company_name"@, x.company_name);
    let i8 = i7 + f4.len();
    assert(spec_emit_tail5(x) == seq![','] + (f5 + spec_emit_tail6(x)));
    lemma_concat_sub(s, i8, seq![','], f5 + spec_emit_tail6(x));
    assert(spec_expect(s, i8, seq![',']) == Some(i8 + 1));
    let i9 = i8 + 1;
    lemma_concat_sub(s, i9, f5, spec_emit_tail6(x));
    lemma_parse_field_at(s, i9, "company_link"@, x.company_link);
    let i10 = i9 + f5.len();
    assert(spec_emit_tail6(x) == seq![','] + (f6 + seq!['}']));
    lemma_concat_sub(s, i10, seq![','], f6 + seq!['}']);
    assert(spec_expect(s, i10, seq![',']) == Some(i10 + 1));
    let i11 = i10 + 1;
    lemma_concat_sub(s, i11, f6, seq!['}']);
    lemma_parse_field_at(s, i11, "company_location"@, x.company_location);
    let i12 = i11 + f6.len();
    assert(s[i12] == '}') by {
        assert(s.subrange(i12, i12 + 1)[0] == seq!['}'][0]);
    }
    assert(i12 + 1 == s.len());
}


fn hex_char(d: u32) -> (r: char)
    requires
        d < 16,
    ensures
        r == spec_hex_char(d as int),
{
    if d == 0 {
        '0'
    } else if d == 1 {
        '1'
    } else if d == 2 {
        '2'
    } else if d == 3 {
        '3'
    } else if d == 4 {
        '4'
    } else if d == 5 {
        '5'
    } else if d == 6 {
        '6'
    } else if d == 7 {
        '7'
    } else if d == 8 {
        '8'
    } else if d == 9 {
        '9'
    } else if d == 10 {
        'a'
    } else if d == 11 {
        'b'
    } else if d == 12 {
        'c'
    } else if d == 13 {
        'd'
    } else if d == 14 {
        'e'
    } else {
        'f'
    }
}

fn hex_val(c: char) -> (r: i32)
    ensures
        r as int == spec_hex_val(c),
{
    if c == '0' {
        0
    } else if c == '1' {
        1
    } else if c == '2' {
        2
    } else if c == '3' {
        3
    } else if c == '4' {
        4
    } else if c == '5' {
        5
    } else if c == '6' {
        6
    } else if c == '7' {
        7
    } else if c == '8' {
        8
    } else if c == '9' {
        9
    } else if c == 'a' {
        10
    } else if c == 'b' {
        11
    } else if c == 'c' {
        12
    } else if c == 'd' {
        13
    } else if c == 'e' {
        14
    } else if c == 'f' {
        15
    } else {
        -1
    }
}

/// Escapes a text for a JSON string.
pub fn escape(s: &str) -> (r: String)
    ensures
        r@ == spec_escape(s@),
{
    let v = crate::duration::chars_of(s);
    let n = v.len();
    let mut out = String::new();
    let mut i: usize = 0;
    proof {
        assert(v@.skip(0) =~= v@);
        assert(out@ + spec_escape(v@) =~= spec_escape(v@));
    }
    while i < n
        invariant
            n == v@.len(),
            v@ == s@,
            0 <= i <= n,
            out@ + spec_escape(v@.skip(i as int)) == spec_escape(v@),
        decreases n - i,
    {
        let ghost out0 = out@;
        let ghost rest = v@.skip(i as int);
        proof {
            assert(rest[0] == v@[i as int]);
            assert(rest.drop_first() =~= v@.skip(i + 1));
        }
        let c = v[i];
        if c == '"' {
            out.push('\\');
            out.push('"');
        } else if c == '\\' {
            out.push('\\');
            out.push('\\');
        } else if (c as u32) < 32 {
            out.push('\\');
            out.push('u');
            out.push('0');
            out.push('0');
            out.push(hex_char((c as u32) / 16));
            out.push(hex_char((c as u32) % 16));
        } else {
            out.push(c);
        }
        proof {
            assert(out@ =~= out0 + spec_escape_char(v@[i as int]));
            assert(out0 + (spec_escape_char(rest[0]) + spec_escape(rest.drop_first())) =~= (out0
                + spec_escape_char(rest[0])) + spec_escape(rest.drop_first()));
        }
        i = i + 1;
    }
    proof {
        assert(v@.skip(n as int) =~= Seq::<char>::empty());
        assert(spec_escape(v@.skip(n as int)) =~= Seq::<char>::empty());
        assert(out@ + Seq::<char>::empty() =~= out@);
    }
    out
}

/// Appends one field to the line being built.
fn push_field(out: &mut String, key: &str, val: &str)
    ensures
        final(out)@ == old(out)@ + spec_field(key@, val@),
{
    let ghost start = out@;
    out.push('"');
    out.append(key);
    out.push('"');
    out.push(':');
    out.push('"');
    out.append(escape(val).as_str());
    out.push('"');
    proof {
        assert(out@ =~= start + spec_field(key@, val@));
    }
}

/// Writes a job listing as one JSON line.
pub fn emit_job_listing(x: &JobListing) -> (r: String)
    ensures
        r@ == spec_emit_job_listing(x.deep_view()),
{
    let mut out = String::new();
    out.push('{');
    push_field(&mut out, "job_title", x.job_title.as_str());
    out.push(',');
    push_field(&mut out, "job_detail_url", x.job_detail_url.as_str());
    out.push(',');
    push_field(&mut out, "job_listed", x.job_listed.as_str());
    out.push(',');
    push_field(&mut out, "company_name", x.company_name.as_str());
    out.push(',');
    push_field(&mut out, "company_link", x.company_link.as_str());
    out.push(',');
    push_field(&mut out, "company_location", x.company_location.as_str());
    out.push('}');
    proof {
        assert(out@ =~= spec_emit_job_listing(x.deep_view()));
    }
    out
}

/// The characters of one field opening.
fn key_prefix_chars(key: &str) -> (v: Vec<char>)
    ensures
        v@ == spec_key_prefix(key@),
{
    let kv = crate::duration::chars_of(key);
    let m = kv.len();
    let mut v: Vec<char> = Vec::new();
    v.push('"');
    let mut i: usize = 0;
    while i < m
        invariant
            m == kv@.len(),
            kv@ == key@,
            0 <= i <= m,
            v@ =~= seq!['"'] + key@.subrange(0, i as int),
        decreases m - i,
    {
        v.push(kv[i]);
        proof {
            assert(v@ =~= seq!['"'] + key@.subrange(0, i + 1));
        }
        i = i + 1;
    }
    v.push('"');
    v.push(':');
    v.push('"');
    proof {
        assert(key@.subrange(0, m as int) =~= key@);
        assert(v@ =~= spec_key_prefix(key@));
    }
    v
}

/// Checks a literal at `i` and steps past it.
fn expect(v: &Vec<char>, i: usize, lit: &Vec<char>) -> (r: Option<usize>)
    requires
        i <= v@.len(),
    ensures
        match r {
            Some(j) => spec_expect(v@, i as int, lit@) == Some(j as int),
            None => spec_expect(v@, i as int, lit@) is None,
        },
{
    if crate::strutil::match_at(v, lit, i) {
        proof {
            assert(i + lit@.len() <= v@.len());
            assert(v@.len() == v.len());
        }
        Some(i + lit.len())
    } else {
        None
    }
}

/// Finds the closing quote of the string starting at `i`.
fn close_quote(v: &Vec<char>, i: usize) -> (r: Option<usize>)
    requires
        i <= v@.len(),
    ensures
        match r {
            Some(q) => spec_close_quote(v@, i as int) == Some(q as int) && i <= q < v@.len(),
            None => spec_close_quote(v@, i as int) is None,
        },
    decreases v@.len() - i,
{
    let n = v.len();
    if i >= n {
        None
    } else if v[i] == '"' {
        Some(i)
    } else if v[i] == '\\' {
        if i + 1 < n {
            close_quote(v, i + 2)
        } else {
            None
        }
    } else {
        close_quote(v, i + 1)
    }
}

/// Reads the text that `v[i..end]` denotes through the escapes.
fn unescape_range(v: &Vec<char>, i: usize, end: usize) -> (r: Option<String>)
    requires
        i <= end <= v@.len(),
    ensures
        r.deep_view() == spec_unescape(v@.subrange(i as int, end as int)),
    decreases end - i,
{
    let ghost sub = v@.subrange(i as int, end as int);
    if i == end {
        proof {
            assert(sub =~= Seq::<char>::empty());
        }
        return Some(String::new());
    }
    proof {
        assert(sub[0] == v@[i as int]);
    }
    if v[i] == '\\' {
        if end - i >= 2 && (v[i + 1] == '"' || v[i + 1] == '\\') {
            proof {
                assert(sub[1] == v@[i + 1]);
                assert(sub.skip(2) =~= v@.subrange(i + 2, end as int));
            }
            match unescape_range(v, i + 2, end) {
                Some(t) => {
                    let mut out = String::new();
                    out.push(v[i + 1]);
                    out.append(t.as_str());
                    proof {
                        assert(out@ =~= seq![v@[i + 1]] + t@);
                    }
                    Some(out)
                },
                None => None,
            }
        } else if end - i >= 6 && v[i + 1] == 'u' && v[i + 2] == '0' && v[i + 3] == '0' && hex_val(
            v[i + 4],
        ) >= 0 && hex_val(v[i + 5]) >= 0 {
            proof {
                assert(sub[1] == v@[i + 1]);
                assert(sub[2] == v@[i + 2]);
                assert(sub[3] == v@[i + 3]);
                assert(sub[4] == v@[i + 4]);
                assert(sub[5] == v@[i + 5]);
                assert(sub.skip(6) =~= v@.subrange(i + 6, end as int));
            }
            let h1 = hex_val(v[i + 4]);
            let h2 = hex_val(v[i + 5]);
            let code: u32 = (h1 as u32) * 16 + (h2 as u32);
            let c = (code as u8) as char;
            proof {
                assert(c == ((code as u32) as char));
            }
            match unescape_range(v, i + 6, end) {
                Some(t) => {
                    let mut out = String::new();
                    out.push(c);
                    out.append(t.as_str());
                    proof {
                        assert(out@ =~= seq![c] + t@);
                    }
                    Some(out)
                },
                None => None,
            }
        } else {
            None
        }
    } else {
        proof {
            assert(sub.drop_first() =~= v@.subrange(i + 1, end as int));
        }
        match unescape_range(v, i + 1, end) {
            Some(t) => {
                let mut out = String::new();
                out.push(v[i]);
                out.append(t.as_str());
                proof {
                    assert(out@ =~= seq![v@[i as int]] + t@);
                }
                Some(out)
            },
            None => None,
        }
    }
}

/// Reads the string body starting at `i`.
fn parse_string_at(v: &Vec<char>, i: usize) -> (r: Option<(String, usize)>)
    requires
        i <= v@.len(),
    ensures
        match r {
            Some(p) => spec_parse_string_at(v@, i as int) matches Some(q) && q.0 == p.0@ && q.1
                == p.1 as int && p.1 <= v@.len(),
            None => spec_parse_string_at(v@, i as int) is None,
        },
{
    match close_quote(v, i) {
        Some(q) => {
            proof {
                assert(q < v@.len());
                assert(v@.len() == v.len());
            }
            match unescape_range(v, i, q) {
                Some(t) => Some((t, q + 1)),
                None => None,
            }
        },
        None => None,
    }
}

/// Reads one field at `i`.
fn parse_field_at(v: &Vec<char>, i: usize, key: &str) -> (r: Option<(String, usize)>)
    requires
        i <= v@.len(),
    ensures
        match r {
            Some(p) => spec_parse_field(v@, i as int, key@) matches Some(q) && q.0 == p.0@ && q.1
                == p.1 as int && p.1 <= v@.len(),
            None => spec_parse_field(v@, i as int, key@) is None,
        },
{
    let pre = key_prefix_chars(key);
    match expect(v, i, &pre) {
        Some(j) => parse_string_at(v, j),
        None => None,
    }
}

/// Reads a job listing back off one JSON line; a line that does not carry
/// exactly the six fields in their fixed order denotes nothing.
pub fn parse_job_listing(line: &str) -> (r: Option<JobListing>)
    ensures
        match r {
            Some(x) => spec_parse_job_listing(line@) == Some(x.deep_view()),
            None => spec_parse_job_listing(line@) is None,
        },
{
    let v = crate::duration::chars_of(line);
    let mut brace: Vec<char> = Vec::new();
    brace.push('{');
    proof {
        assert(brace@ =~= seq!['{']);
    }
    let mut comma: Vec<char> = Vec::new();
    comma.push(',');
    proof {
        assert(comma@ =~= seq![',']);
    }
    let i1 = match expect(&v, 0, &brace) {
        Some(j) => j,
        None => {
            return None;
        },
    };
    let (v1, i2) = match parse_field_at(&v, i1, "job_title") {
        Some(p) => p,
        None => {
            return None;
        },
    };
    let i3 = match expect(&v, i2, &comma) {
        Some(j) => j,
        None => {
            return None;
        },
    };
    let (v2, i4) = match parse_field_at(&v, i3, "job_detail_url") {
        Some(p) => p,
        None => {
            return None;
        },
    };
    let i5 = match expect(&v, i4, &comma) {
        Some(j) => j,
        None => {
            return None;
        },
    };
    let (v3, i6) = match parse_field_at(&v, i5, "job_listed") {
        Some(p) => p,
        None => {
            return None;
        },
    };
    let i7 = match expect(&v, i6, &comma) {
        Some(j) => j,
        None => {
            return None;
        },
    };
    let (v4, i8) = match parse_field_at(&v, i7, "company_name") {
        Some(p) => p,
        None => {
            return None;
        },
    };
    let i9 = match expect(&v, i8, &comma) {
        Some(j) => j,
        None => {
            return None;
        },
    };
    let (v5, i10) = match parse_field_at(&v, i9, "company_link") {
        Some(p) => p,
        None => {
            return None;
        },
    };
    let i11 = match expect(&v, i10, &comma) {
        Some(j) => j,
        None => {
            return None;
        },
    };
    let (v6, i12) = match parse_field_at(&v, i11, "company_location") {
        Some(p) => p,
        None => {
            return None;
        },
    };
    proof {
        assert(i12 <= v@.len());
        assert(v@.len() == v.len());
    }
    if i12 < v.len() && i12 + 1 == v.len() && v[i12] == '}' {
        Some(
            JobListing {
                job_title: v1,
                job_detail_url: v2,
                job_listed: v3,
                company_name: v4,
                company_link: v5,
                company_location: v6,
            },
        )
    } else {
        None
    }
}

} // verus!
