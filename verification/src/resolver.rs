use vstd::prelude::*;
use crate::dom::{
    sel_ok, texts_of, first_attr_of, fragments_of, selector_ok, match_texts, first_match_attr,
    match_fragments,
};
use crate::errors::ScrapeError;

verus! {

/// Whether one candidate pattern works for text extraction on a document:
/// it is well formed and matches at least one node there.
pub open spec fn spec_works(h: Seq<char>, p: Seq<char>) -> bool {
    sel_ok(p) && texts_of(h, p).len() > 0
}

/// Whether one candidate pattern works for fragment extraction: it is well
/// formed and yields at least one fragment there.
pub open spec fn spec_works_frag(h: Seq<char>, p: Seq<char>) -> bool {
    sel_ok(p) && fragments_of(h, p).len() > 0
}

/// The first index at or after `i` of a candidate that works for text
/// extraction, if any.
pub open spec fn spec_resolve_from(h: Seq<char>, cs: Seq<Seq<char>>, i: int) -> Option<int>
    decreases cs.len() - i,
{
    if i < 0 || i >= cs.len() {
        None
    } else if spec_works(h, cs[i]) {
        Some(i)
    } else {
        spec_resolve_from(h, cs, i + 1)
    }
}

/// The first candidate in priority order that works for text extraction.
pub open spec fn spec_resolve(h: Seq<char>, cs: Seq<Seq<char>>) -> Option<int> {
    spec_resolve_from(h, cs, 0)
}

/// The first candidate in priority order that works for fragment
/// extraction, if any.
pub open spec fn spec_resolve_frag_from(h: Seq<char>, cs: Seq<Seq<char>>, i: int) -> Option<int>
    decreases cs.len() - i,
{
    if i < 0 || i >= cs.len() {
        None
    } else if spec_works_frag(h, cs[i]) {
        Some(i)
    } else {
        spec_resolve_frag_from(h, cs, i + 1)
    }
}

pub open spec fn spec_resolve_frag(h: Seq<char>, cs: Seq<Seq<char>>) -> Option<int> {
    spec_resolve_frag_from(h, cs, 0)
}

/// What resolution means: the chosen candidate works, every candidate of
/// higher priority does not, and when resolution fails no candidate works.
pub proof fn lemma_resolution_is_first_working(h: Seq<char>, cs: Seq<Seq<char>>, i: int)
    requires
        0 <= i <= cs.len(),
    ensures
        match spec_resolve_from(h, cs, i) {
            Some(w) => {
                &&& i <= w < cs.len()
                &&& spec_works(h, cs[w])
                &&& forall|j: int| i <= j < w ==> !spec_works(h, cs[j])
            },
            None => forall|j: int| i <= j < cs.len() ==> !spec_works(h, cs[j]),
        },
    decreases cs.len() - i,
{
    if i < cs.len() && !spec_works(h, cs[i]) {
        lemma_resolution_is_first_working(h, cs, i + 1);
    }
}

/// The fragment-side counterpart of `lemma_resolution_is_first_working`.
pub proof fn lemma_frag_resolution_is_first_working(h: Seq<char>, cs: Seq<Seq<char>>, i: int)
    requires
        0 <= i <= cs.len(),
    ensures
        match spec_resolve_frag_from(h, cs, i) {
            Some(w) => {
                &&& i <= w < cs.len()
                &&& spec_works_frag(h, cs[w])
                &&& forall|j: int| i <= j < w ==> !spec_works_frag(h, cs[j])
            },
            None => forall|j: int| i <= j < cs.len() ==> !spec_works_frag(h, cs[j]),
        },
    decreases cs.len() - i,
{
    if i < cs.len() && !spec_works_frag(h, cs[i]) {
        lemma_frag_resolution_is_first_working(h, cs, i + 1);
    }
}

/// Resolves an ordered candidate list against a document: the result is
/// the first candidate that is well formed and matches at least one node,
/// and `SelectorExhausted` exactly when there is none.
pub fn resolve(html: &str, candidates: &Vec<String>) -> (r: Result<usize, ScrapeError>)
    ensures
        match r {
            Ok(i) => i < candidates@.len() && spec_resolve(html@, candidates.deep_view())
                == Some(i as int),
            Err(e) => e == ScrapeError::SelectorExhausted && spec_resolve(
                html@,
                candidates.deep_view(),
            ) is None,
        },
{
    let ghost cs = candidates.deep_view();
    let n = candidates.len();
    let mut i: usize = 0;
    while i < n
        invariant
            n == candidates@.len(),
            cs == candidates.deep_view(),
            cs.len() == n,
            0 <= i <= n,
            spec_resolve_from(html@, cs, 0) == spec_resolve_from(html@, cs, i as int),
        decreases n - i,
    {
        proof {
            assert(cs[i as int] == candidates@[i as int]@);
        }
        if selector_ok(candidates[i].as_str()) {
            let ts = match_texts(html, candidates[i].as_str());
            if ts.len() > 0 {
                proof {
                    assert(ts.deep_view().len() == ts@.len());
                    assert(spec_works(html@, cs[i as int]));
                }
                return Ok(i);
            }
            proof {
                assert(ts.deep_view().len() == ts@.len());
                assert(!spec_works(html@, cs[i as int]));
            }
        }
        i = i + 1;
    }
    Err(ScrapeError::SelectorExhausted)
}

/// Resolves an ordered candidate list for fragment extraction: the first
/// candidate that is well formed and yields at least one fragment.
pub fn resolve_frag(html: &str, candidates: &Vec<String>) -> (r: Result<usize, ScrapeError>)
    ensures
        match r {
            Ok(i) => i < candidates@.len() && spec_resolve_frag(html@, candidates.deep_view())
                == Some(i as int),
            Err(e) => e == ScrapeError::SelectorExhausted && spec_resolve_frag(
                html@,
                candidates.deep_view(),
            ) is None,
        },
{
    let ghost cs = candidates.deep_view();
    let n = candidates.len();
    let mut i: usize = 0;
    while i < n
        invariant
            n == candidates@.len(),
            cs == candidates.deep_view(),
            cs.len() == n,
            0 <= i <= n,
            spec_resolve_frag_from(html@, cs, 0) == spec_resolve_frag_from(html@, cs, i as int),
        decreases n - i,
    {
        proof {
            assert(cs[i as int] == candidates@[i as int]@);
        }
        if selector_ok(candidates[i].as_str()) {
            let fs = match_fragments(html, candidates[i].as_str());
            if fs.len() > 0 {
                proof {
                    assert(fs.deep_view().len() == fs@.len());
                    assert(spec_works_frag(html@, cs[i as int]));
                }
                return Ok(i);
            }
            proof {
                assert(fs.deep_view().len() == fs@.len());
                assert(!spec_works_frag(html@, cs[i as int]));
            }
        }
        i = i + 1;
    }
    Err(ScrapeError::SelectorExhausted)
}

/// Validates a whole pattern table at startup: `SelectorInvalid` exactly
/// when some pattern in it is malformed.
pub fn validate_patterns(candidates: &Vec<String>) -> (r: Result<(), ScrapeError>)
    ensures
        match r {
            Ok(()) => forall|j: int|
                0 <= j < candidates@.len() ==> sel_ok(#[trigger] candidates.deep_view()[j]),
            Err(e) => e == ScrapeError::SelectorInvalid && exists|j: int|
                0 <= j < candidates@.len() && !sel_ok(#[trigger] candidates.deep_view()[j]),
        },
{
    let n = candidates.len();
    let mut i: usize = 0;
    while i < n
        invariant
            n == candidates@.len(),
            0 <= i <= n,
            forall|j: int| 0 <= j < i ==> sel_ok(#[trigger] candidates.deep_view()[j]),
        decreases n - i,
    {
        proof {
            assert(candidates.deep_view()[i as int] == candidates@[i as int]@);
        }
        if !selector_ok(candidates[i].as_str()) {
            return Err(ScrapeError::SelectorInvalid);
        }
        i = i + 1;
    }
    Ok(())
}

/// The text that a candidate list extracts from a document: the first
/// matching node's normalized text under the first working pattern, with an
/// empty text treated as an absent field.
pub open spec fn spec_extract_text(h: Seq<char>, cs: Seq<Seq<char>>) -> Option<Seq<char>> {
    match spec_resolve(h, cs) {
        Some(i) => {
            let t = texts_of(h, cs[i])[0];
            if t.len() > 0 {
                Some(t)
            } else {
                None
            }
        },
        None => None,
    }
}

/// Extracts the first matching node's normalized text; empty results and
/// exhausted candidate lists both mean the field is absent.
pub fn extract_text(html: &str, candidates: &Vec<String>) -> (r: Option<String>)
    ensures
        r.deep_view() == spec_extract_text(html@, candidates.deep_view()),
{
    match resolve(html, candidates) {
        Ok(i) => {
            proof {
                lemma_resolution_is_first_working(html@, candidates.deep_view(), 0);
                assert(candidates.deep_view()[i as int] == candidates@[i as int]@);
            }
            let ts = match_texts(html, candidates[i].as_str());
            proof {
                assert(ts.deep_view().len() == ts@.len());
            }
            let t = &ts[0];
            if t.unicode_len() > 0 {
                proof {
                    assert(ts.deep_view()[0] == ts@[0]@);
                }
                Some(t.clone())
            } else {
                proof {
                    assert(ts.deep_view()[0] == ts@[0]@);
                }
                None
            }
        },
        Err(_) => None,
    }
}

/// The `n`-th normalized text under the first working pattern, kept even
/// when empty; absent when resolution fails or the index is out of range.
pub open spec fn spec_nth_text(h: Seq<char>, cs: Seq<Seq<char>>, n: int) -> Option<Seq<char>> {
    match spec_resolve(h, cs) {
        Some(i) => {
            if 0 <= n < texts_of(h, cs[i]).len() {
                Some(texts_of(h, cs[i])[n])
            } else {
                None
            }
        },
        None => None,
    }
}

/// Extracts the `n`-th matching node's normalized text without treating an
/// empty text as absent.
pub fn nth_text(html: &str, candidates: &Vec<String>, n: usize) -> (r: Option<String>)
    ensures
        r.deep_view() == spec_nth_text(html@, candidates.deep_view(), n as int),
{
    match resolve(html, candidates) {
        Ok(i) => {
            proof {
                lemma_resolution_is_first_working(html@, candidates.deep_view(), 0);
                assert(candidates.deep_view()[i as int] == candidates@[i as int]@);
            }
            let ts = match_texts(html, candidates[i].as_str());
            proof {
                assert(ts.deep_view().len() == ts@.len());
            }
            if n < ts.len() {
                proof {
                    assert(ts.deep_view()[n as int] == ts@[n as int]@);
                }
                Some(ts[n].clone())
            } else {
                None
            }
        },
        Err(_) => None,
    }
}

/// The last normalized text under the first working pattern.
pub open spec fn spec_last_text(h: Seq<char>, cs: Seq<Seq<char>>) -> Option<Seq<char>> {
    match spec_resolve(h, cs) {
        Some(i) => Some(texts_of(h, cs[i]).last()),
        None => None,
    }
}

/// Extracts the last matching node's normalized text.
pub fn last_text(html: &str, candidates: &Vec<String>) -> (r: Option<String>)
    ensures
        r.deep_view() == spec_last_text(html@, candidates.deep_view()),
{
    match resolve(html, candidates) {
        Ok(i) => {
            proof {
                lemma_resolution_is_first_working(html@, candidates.deep_view(), 0);
                assert(candidates.deep_view()[i as int] == candidates@[i as int]@);
            }
            let ts = match_texts(html, candidates[i].as_str());
            proof {
                assert(ts.deep_view().len() == ts@.len());
            }
            let k = ts.len() - 1;
            proof {
                assert(ts.deep_view()[k as int] == ts@[k as int]@);
            }
            Some(ts[k].clone())
        },
        Err(_) => None,
    }
}

/// Every normalized text under the first working pattern with the empty
/// entries dropped, in order.
pub open spec fn spec_drop_empty(ts: Seq<Seq<char>>) -> Seq<Seq<char>>
    decreases ts.len(),
{
    if ts.len() == 0 {
        Seq::empty()
    } else {
        let rest = spec_drop_empty(ts.drop_first());
        if ts[0].len() > 0 {
            seq![ts[0]] + rest
        } else {
            rest
        }
    }
}

pub open spec fn spec_extract_all_text(h: Seq<char>, cs: Seq<Seq<char>>) -> Seq<Seq<char>> {
    match spec_resolve(h, cs) {
        Some(i) => spec_drop_empty(texts_of(h, cs[i])),
        None => Seq::empty(),
    }
}

/// Extracts the normalized texts of every node under the first working
/// pattern, dropping empty entries; an exhausted candidate list yields the
/// empty sequence.
pub fn extract_all_text(html: &str, candidates: &Vec<String>) -> (r: Vec<String>)
    ensures
        r.deep_view() == spec_extract_all_text(html@, candidates.deep_view()),
{
    match resolve(html, candidates) {
        Ok(i) => {
            proof {
                lemma_resolution_is_first_working(html@, candidates.deep_view(), 0);
                assert(candidates.deep_view()[i as int] == candidates@[i as int]@);
            }
            let ts = match_texts(html, candidates[i].as_str());
            drop_empty(ts)
        },
        Err(_) => Vec::new(),
    }
}

/// Drops the empty strings of a list, keeping order.
fn drop_empty(ts: Vec<String>) -> (r: Vec<String>)
    ensures
        r.deep_view() == spec_drop_empty(ts.deep_view()),
{
    let ghost all = ts.deep_view();
    let n = ts.len();
    let mut out: Vec<String> = Vec::new();
    let mut i: usize = 0;
    proof {
        assert(all.subrange(0, n as int) =~= all);
        assert(out.deep_view() =~= Seq::<Seq<char>>::empty());
        assert(Seq::<Seq<char>>::empty() + spec_drop_empty(all) =~= spec_drop_empty(all));
    }
    while i < n
        invariant
            n == ts@.len(),
            all == ts.deep_view(),
            all.len() == n,
            0 <= i <= n,
            out.deep_view() + spec_drop_empty(all.subrange(i as int, n as int)) == spec_drop_empty(
                all,
            ),
        decreases n - i,
    {
        let ghost out0 = out.deep_view();
        let ghost rest = all.subrange(i as int, n as int);
        proof {
            assert(rest[0] == all[i as int]);
            assert(rest.drop_first() =~= all.subrange(i + 1, n as int));
            assert(ts.deep_view()[i as int] == ts@[i as int]@);
        }
        if ts[i].as_str().unicode_len() > 0 {
            out.push(ts[i].clone());
            proof {
                assert(out.deep_view() =~= out0 + seq![all[i as int]]);
                assert(out0 + (seq![rest[0]] + spec_drop_empty(rest.drop_first())) =~= (out0
                    + seq![rest[0]]) + spec_drop_empty(rest.drop_first()));
            }
        }
        i = i + 1;
    }
    proof {
        assert(all.subrange(n as int, n as int) =~= Seq::<Seq<char>>::empty());
        assert(out.deep_view() + Seq::<Seq<char>>::empty() =~= out.deep_view());
    }
    out
}

/// The attribute value that a candidate list extracts: attribute `name` of
/// the first node matched by the first working pattern.
pub open spec fn spec_extract_attribute(h: Seq<char>, cs: Seq<Seq<char>>, name: Seq<char>) -> Option<
    Seq<char>,
> {
    match spec_resolve(h, cs) {
        Some(i) => first_attr_of(h, cs[i], name),
        None => None,
    }
}

/// Extracts a named attribute of the first node under the first working
/// pattern; absent when no pattern works or the node lacks the attribute.
pub fn extract_attribute(html: &str, candidates: &Vec<String>, name: &str) -> (r: Option<String>)
    ensures
        r.deep_view() == spec_extract_attribute(html@, candidates.deep_view(), name@),
{
    match resolve(html, candidates) {
        Ok(i) => {
            proof {
                lemma_resolution_is_first_working(html@, candidates.deep_view(), 0);
                assert(candidates.deep_view()[i as int] == candidates@[i as int]@);
            }
            first_match_attr(html, candidates[i].as_str(), name)
        },
        Err(_) => None,
    }
}

/// The fragments that a candidate list extracts: the serialized HTML of
/// every node under the first working pattern.
pub open spec fn spec_extract_fragments(h: Seq<char>, cs: Seq<Seq<char>>) -> Seq<Seq<char>> {
    match spec_resolve_frag(h, cs) {
        Some(i) => fragments_of(h, cs[i]),
        None => Seq::empty(),
    }
}

/// Extracts the fragments of every node under the first working pattern;
/// an exhausted candidate list yields no fragments.
pub fn extract_fragments(html: &str, candidates: &Vec<String>) -> (r: Vec<String>)
    ensures
        r.deep_view() == spec_extract_fragments(html@, candidates.deep_view()),
{
    match resolve_frag(html, candidates) {
        Ok(i) => {
            proof {
                lemma_frag_resolution_is_first_working(html@, candidates.deep_view(), 0);
                assert(candidates.deep_view()[i as int] == candidates@[i as int]@);
            }
            match_fragments(html, candidates[i].as_str())
        },
        Err(_) => Vec::new(),
    }
}


/// Every normalized text under the first working pattern, empty entries
/// kept; the empty sequence when no pattern works.
pub open spec fn spec_all_texts_raw(h: Seq<char>, cs: Seq<Seq<char>>) -> Seq<Seq<char>> {
    match spec_resolve(h, cs) {
        Some(i) => texts_of(h, cs[i]),
        None => Seq::empty(),
    }
}

/// Extracts the normalized texts of every node under the first working
/// pattern, keeping empty entries.
pub fn all_texts_raw(html: &str, candidates: &Vec<String>) -> (r: Vec<String>)
    ensures
        r.deep_view() == spec_all_texts_raw(html@, candidates.deep_view()),
{
    match resolve(html, candidates) {
        Ok(i) => {
            proof {
                lemma_resolution_is_first_working(html@, candidates.deep_view(), 0);
                assert(candidates.deep_view()[i as int] == candidates@[i as int]@);
            }
            match_texts(html, candidates[i].as_str())
        },
        Err(_) => Vec::new(),
    }
}

} // verus!
