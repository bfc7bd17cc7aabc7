use vstd::prelude::*;
use vstd::string::*;

verus! {

/// One crawl unit: an immutable URL plus a small key-value annotation map
/// used to correlate a later response back to crawl context (for example a
/// pagination offset or a source index).
///
/// The annotations are held as an association list; a later entry for the
/// same key shadows an earlier one, which `spec_meta_map` reflects by
/// folding the list into a `Map` front to back.
#[derive(Clone, Debug)]
pub struct Request {
    pub url: String,
    pub meta: Vec<(String, String)>,
}

/// The map that an association list of annotations denotes: entries are
/// inserted front to back, so the latest entry for a key wins.
pub open spec fn spec_meta_map(s: Seq<(String, String)>) -> Map<Seq<char>, Seq<char>>
    decreases s.len(),
{
    if s.len() == 0 {
        Map::empty()
    } else {
        spec_meta_map(s.drop_last()).insert(s.last().0@, s.last().1@)
    }
}

/// The last index at or below `i` whose entry carries key `k`, or `-1`.
pub open spec fn spec_meta_rfind(s: Seq<(String, String)>, k: Seq<char>, i: int) -> int
    decreases i + 1,
{
    if i < 0 || i >= s.len() {
        -1
    } else if s[i].0@ == k {
        i
    } else {
        spec_meta_rfind(s, k, i - 1)
    }
}

/// A backward scan that stays below the last index of `s` sees the same
/// entries in `s` and in `s.drop_last()`.
proof fn lemma_rfind_drop_last(s: Seq<(String, String)>, k: Seq<char>, i: int)
    requires
        i <= s.len() - 2,
    ensures
        spec_meta_rfind(s, k, i) == spec_meta_rfind(s.drop_last(), k, i),
    decreases i + 1,
{
    if i >= 0 {
        assert(s.drop_last()[i] == s[i]);
        if s[i].0@ != k {
            lemma_rfind_drop_last(s, k, i - 1);
        }
    }
}

/// Relates the folded map to a backward scan of the association list: a key
/// is present exactly when some entry carries it, and its value is the value
/// of the last such entry.
pub proof fn lemma_meta_map_lookup(s: Seq<(String, String)>, k: Seq<char>)
    ensures
        spec_meta_map(s).contains_key(k) <==> spec_meta_rfind(s, k, s.len() - 1) >= 0,
        spec_meta_map(s).contains_key(k) ==> {
            let i = spec_meta_rfind(s, k, s.len() - 1);
            &&& 0 <= i < s.len()
            &&& spec_meta_map(s)[k] == s[i].1@
        },
    decreases s.len(),
{
    if s.len() > 0 {
        lemma_meta_map_lookup(s.drop_last(), k);
        if s.last().0@ != k {
            lemma_rfind_drop_last(s, k, s.len() - 2);
            assert(spec_meta_rfind(s, k, s.len() - 1) == spec_meta_rfind(s, k, s.len() - 2));
        }
    }
}

impl Request {
    /// A fresh request for `url` with no annotations.
    pub fn new(url: String) -> (r: Request)
        ensures
            r.url == url,
            r.meta@ =~= Seq::<(String, String)>::empty(),
            spec_meta_map(r.meta@) =~= Map::<Seq<char>, Seq<char>>::empty(),
    {
        Request { url, meta: Vec::new() }
    }

    /// The request with one more annotation; an existing entry for the same
    /// key is shadowed.
    pub fn with_meta(self, key: String, value: String) -> (r: Request)
        ensures
            r.url == self.url,
            spec_meta_map(r.meta@) =~= spec_meta_map(self.meta@).insert(key@, value@),
    {
        let mut meta = self.meta;
        proof {
            assert(meta@.push((key, value)).drop_last() =~= meta@);
        }
        meta.push((key, value));
        Request { url: self.url, meta }
    }

    /// Looks an annotation up by key, cloning its value.
    pub fn meta_get(&self, key: &str) -> (r: Option<String>)
        ensures
            match r {
                Some(v) => spec_meta_map(self.meta@).contains_key(key@) && v@ == spec_meta_map(
                    self.meta@,
                )[key@],
                None => !spec_meta_map(self.meta@).contains_key(key@),
            },
    {
        proof {
            lemma_meta_map_lookup(self.meta@, key@);
        }
        let n = self.meta.len();
        let mut i: usize = n;
        while i > 0
            invariant
                n == self.meta@.len(),
                0 <= i <= n,
                spec_meta_rfind(self.meta@, key@, n - 1) == spec_meta_rfind(
                    self.meta@,
                    key@,
                    i - 1,
                ),
            decreases i,
        {
            i = i - 1;
            if crate::strutil::str_eq(self.meta[i].0.as_str(), key) {
                proof {
                    lemma_meta_map_lookup(self.meta@, key@);
                    assert(spec_meta_rfind(self.meta@, key@, i as int) == i);
                    assert(spec_meta_rfind(self.meta@, key@, n as int - 1) == i);
                }
                return Some(self.meta[i].1.clone());
            }
        }
        None
    }
}

} // verus!
