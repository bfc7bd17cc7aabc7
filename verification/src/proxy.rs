use vstd::prelude::*;
use crate::strutil::spec_str_views;
use crate::duration::{spec_trim, is_blank};

verus! {

/// The proxy list with the blank entries dropped, in order.
pub open spec fn spec_keep_nonblank(ss: Seq<Seq<char>>) -> Seq<Seq<char>>
    decreases ss.len(),
{
    if ss.len() == 0 {
        Seq::empty()
    } else {
        let rest = spec_keep_nonblank(ss.drop_first());
        if spec_trim(ss[0]).len() > 0 {
            seq![ss[0]] + rest
        } else {
            rest
        }
    }
}

/// An element-for-element copy of a list of strings.
pub fn copy_strings(v: &Vec<String>) -> (r: Vec<String>)
    ensures
        r@ =~= v@,
{
    let n = v.len();
    let mut out: Vec<String> = Vec::new();
    let mut i: usize = 0;
    while i < n
        invariant
            n == v@.len(),
            0 <= i <= n,
            out@ =~= v@.subrange(0, i as int),
        decreases n - i,
    {
        out.push(v[i].clone());
        proof {
            assert(out@ =~= v@.subrange(0, i + 1));
        }
        i = i + 1;
    }
    out
}

/// The round-robin proxy pool: an ordered list of proxy endpoints fixed at
/// construction (blank entries dropped) and a rotation cursor that only
/// advances. The cursor counts hand-outs; the endpoint at `cursor % len`
/// is the next to be handed out.
pub struct ProxyRotator {
    pub proxies: Vec<String>,
    pub cursor: usize,
}

impl ProxyRotator {
    /// A pool over the given endpoints, blank entries dropped, with the
    /// rotation at its start.
    pub fn new(proxies: Vec<String>) -> (r: ProxyRotator)
        ensures
            spec_str_views(r.proxies@) == spec_keep_nonblank(spec_str_views(proxies@)),
            r.cursor == 0,
    {
        let ghost all = spec_str_views(proxies@);
        let n = proxies.len();
        let mut kept: Vec<String> = Vec::new();
        let mut i: usize = 0;
        proof {
            assert(all.subrange(0, n as int) =~= all);
            assert(spec_str_views(kept@) =~= Seq::<Seq<char>>::empty());
            assert(Seq::<Seq<char>>::empty() + spec_keep_nonblank(all) =~= spec_keep_nonblank(
                all,
            ));
        }
        while i < n
            invariant
                n == proxies@.len(),
                all == spec_str_views(proxies@),
                all.len() == n,
                0 <= i <= n,
                spec_str_views(kept@) + spec_keep_nonblank(all.subrange(i as int, n as int))
                    == spec_keep_nonblank(all),
            decreases n - i,
        {
            let ghost kept0 = spec_str_views(kept@);
            let ghost rest = all.subrange(i as int, n as int);
            proof {
                assert(rest[0] == all[i as int]);
                assert(rest.drop_first() =~= all.subrange(i + 1, n as int));
                assert(all[i as int] == proxies@[i as int]@);
            }
            if !is_blank(proxies[i].as_str()) {
                kept.push(proxies[i].clone());
                proof {
                    assert(spec_str_views(kept@) =~= kept0 + seq![all[i as int]]);
                    assert(kept0 + (seq![rest[0]] + spec_keep_nonblank(rest.drop_first())) =~= (
                    kept0 + seq![rest[0]]) + spec_keep_nonblank(rest.drop_first()));
                }
            }
            i = i + 1;
        }
        proof {
            assert(all.subrange(n as int, n as int) =~= Seq::<Seq<char>>::empty());
            assert(spec_str_views(kept@) + Seq::<Seq<char>>::empty() =~= spec_str_views(kept@));
        }
        ProxyRotator { proxies: kept, cursor: 0 }
    }

    /// Hands out the next endpoint and advances the cursor (wrapping at
    /// the machine limit, as a shared counter would); an empty pool hands
    /// out nothing and stays put.
    pub fn get_next_proxy(&mut self) -> (r: Option<String>)
        ensures
            old(self).proxies@.len() == 0 ==> r is None && *final(self) == *old(self),
            old(self).proxies@.len() > 0 ==> {
                &&& r matches Some(p) && p@ == old(self).proxies@[(old(self).cursor as int) % (
                old(self).proxies@.len() as int)]@
                &&& final(self).proxies == old(self).proxies
                &&& final(self).cursor == if old(self).cursor == usize::MAX {
                    0usize
                } else {
                    (old(self).cursor + 1) as usize
                }
            },
    {
        if self.proxies.len() == 0 {
            return None;
        }
        let idx = self.cursor % self.proxies.len();
        let p = self.proxies[idx].clone();
        if self.cursor == usize::MAX {
            self.cursor = 0;
        } else {
            self.cursor = self.cursor + 1;
        }
        Some(p)
    }

    /// The endpoint the cursor points at now, without advancing.
    pub fn get_current_proxy(&self) -> (r: Option<String>)
        ensures
            self.proxies@.len() == 0 ==> r is None,
            self.proxies@.len() > 0 ==> (r matches Some(p) && p@ == self.proxies@[(
            self.cursor as int) % (self.proxies@.len() as int)]@),
    {
        if self.proxies.len() == 0 {
            return None;
        }
        let idx = self.cursor % self.proxies.len();
        Some(self.proxies[idx].clone())
    }

    /// Whether the pool holds any endpoint.
    pub fn has_proxies(&self) -> (r: bool)
        ensures
            r == (self.proxies@.len() > 0),
    {
        self.proxies.len() > 0
    }

    /// How many endpoints the pool holds.
    pub fn proxy_count(&self) -> (r: usize)
        ensures
            r == self.proxies@.len(),
    {
        self.proxies.len()
    }

    /// A copy of the whole endpoint list, in rotation order.
    pub fn get_all_proxies(&self) -> (r: Vec<String>)
        ensures
            r@ =~= self.proxies@,
    {
        copy_strings(&self.proxies)
    }

    /// Puts the rotation back at the start of the list.
    pub fn reset_rotation(&mut self)
        ensures
            final(self).proxies == old(self).proxies,
            final(self).cursor == 0,
    {
        self.cursor = 0;
    }
}

} // verus!
