use vstd::prelude::*;
use crate::strutil::{spec_canonical_url, spec_str_views, canonical_url, vec_contains_str};
use crate::target::Request;

verus! {

/// The bookkeeping of one crawl run: the queue of pending targets, the
/// number of dispatched targets still in flight, the canonical URLs of
/// every target ever enqueued (for deduplication), and the concurrency
/// bound.
///
/// The driving loop dispatches targets while `can_dispatch` holds, and
/// reports each completion or failure back; `wf` is preserved by every
/// operation, so at no point do more targets sit in flight than the bound
/// allows.
pub struct CrawlState {
    pub queue: Vec<Request>,
    pub in_flight: usize,
    pub seen: Vec<String>,
    pub concurrency_limit: usize,
}

/// One deduplicated enqueue: a target whose canonical URL was already seen
/// in this run is dropped, any other is appended and its canonical URL
/// recorded.
pub open spec fn spec_enqueue(q: Seq<Request>, seen: Seq<Seq<char>>, r: Request) -> (
    Seq<Request>,
    Seq<Seq<char>>,
) {
    let c = spec_canonical_url(r.url@);
    if seen.contains(c) {
        (q, seen)
    } else {
        (q.push(r), seen.push(c))
    }
}

/// Deduplicated enqueue of a whole batch, front to back.
pub open spec fn spec_enqueue_all(q: Seq<Request>, seen: Seq<Seq<char>>, rs: Seq<Request>) -> (
    Seq<Request>,
    Seq<Seq<char>>,
)
    decreases rs.len(),
{
    if rs.len() == 0 {
        (q, seen)
    } else {
        let (q1, s1) = spec_enqueue(q, seen, rs[0]);
        spec_enqueue_all(q1, s1, rs.drop_first())
    }
}

impl CrawlState {
    /// The invariant of the scheduler: in-flight work never exceeds the
    /// concurrency bound, and the bound itself is positive.
    pub open spec fn wf(self) -> bool {
        &&& self.in_flight <= self.concurrency_limit
        &&& self.concurrency_limit >= 1
    }

    /// A fresh crawl over the seed targets, deduplicated like any other
    /// batch, with nothing in flight yet.
    pub fn new(seeds: Vec<Request>, concurrency_limit: usize) -> (s: CrawlState)
        requires
            concurrency_limit >= 1,
        ensures
            s.wf(),
            s.in_flight == 0,
            s.concurrency_limit == concurrency_limit,
            (s.queue@, spec_str_views(s.seen@)) == spec_enqueue_all(
                Seq::<Request>::empty(),
                Seq::<Seq<char>>::empty(),
                seeds@,
            ),
    {
        let mut s = CrawlState {
            queue: Vec::new(),
            in_flight: 0,
            seen: Vec::new(),
            concurrency_limit,
        };
        proof {
            assert(s.queue@ =~= Seq::<Request>::empty());
            assert(spec_str_views(s.seen@) =~= Seq::<Seq<char>>::empty());
        }
        s.enqueue_batch(seeds);
        s
    }

    /// Whether another target may be dispatched now: work is queued and a
    /// concurrency permit is free.
    pub fn can_dispatch(&self) -> (r: bool)
        ensures
            r == (self.queue@.len() > 0 && self.in_flight < self.concurrency_limit),
    {
        self.queue.len() > 0 && self.in_flight < self.concurrency_limit
    }

    /// Whether the crawl is over: nothing queued and nothing in flight.
    pub fn is_done(&self) -> (r: bool)
        ensures
            r == (self.queue@.len() == 0 && self.in_flight == 0),
    {
        self.queue.len() == 0 && self.in_flight == 0
    }

    /// Takes the most recently queued target and marks it in flight.
    /// Requires a free permit, so the concurrency bound is never exceeded.
    pub fn dispatch(&mut self) -> (r: Request)
        requires
            old(self).wf(),
            old(self).queue@.len() > 0,
            old(self).in_flight < old(self).concurrency_limit,
        ensures
            final(self).wf(),
            r == old(self).queue@.last(),
            final(self).queue@ == old(self).queue@.drop_last(),
            final(self).in_flight == old(self).in_flight + 1,
            final(self).seen == old(self).seen,
            final(self).concurrency_limit == old(self).concurrency_limit,
    {
        let r = self.queue.pop().unwrap();
        self.in_flight = self.in_flight + 1;
        r
    }

    /// Folds one completed target back in: its permit is released and its
    /// follow-up targets are enqueued with deduplication.
    pub fn complete(&mut self, follow_ups: Vec<Request>)
        requires
            old(self).wf(),
            old(self).in_flight >= 1,
        ensures
            final(self).wf(),
            final(self).in_flight == old(self).in_flight - 1,
            final(self).concurrency_limit == old(self).concurrency_limit,
            (final(self).queue@, spec_str_views(final(self).seen@)) == spec_enqueue_all(
                old(self).queue@,
                spec_str_views(old(self).seen@),
                follow_ups@,
            ),
    {
        self.in_flight = self.in_flight - 1;
        self.enqueue_batch(follow_ups);
    }

    /// Drops one failed target: its permit is released and nothing is
    /// enqueued, so a failure never blocks the rest of the crawl.
    pub fn fail(&mut self)
        requires
            old(self).wf(),
            old(self).in_flight >= 1,
        ensures
            final(self).wf(),
            final(self).in_flight == old(self).in_flight - 1,
            final(self).queue == old(self).queue,
            final(self).seen == old(self).seen,
            final(self).concurrency_limit == old(self).concurrency_limit,
    {
        self.in_flight = self.in_flight - 1;
    }

    /// Enqueues a batch of targets, dropping any whose canonical URL was
    /// already seen in this run.
    fn enqueue_batch(&mut self, rs: Vec<Request>)
        ensures
            final(self).in_flight == old(self).in_flight,
            final(self).concurrency_limit == old(self).concurrency_limit,
            (final(self).queue@, spec_str_views(final(self).seen@)) == spec_enqueue_all(
                old(self).queue@,
                spec_str_views(old(self).seen@),
                rs@,
            ),
    {
        let ghost q_init = self.queue@;
        let ghost s_init = spec_str_views(self.seen@);
        let ghost fl_init = self.in_flight;
        let ghost cl_init = self.concurrency_limit;
        let ghost rs_all = rs@;
        let mut rs = rs;
        while rs.len() > 0
            invariant
                self.in_flight == fl_init,
                self.concurrency_limit == cl_init,
                spec_enqueue_all(q_init, s_init, rs_all) == spec_enqueue_all(
                    self.queue@,
                    spec_str_views(self.seen@),
                    rs@,
                ),
            decreases rs@.len(),
        {
            let ghost q0 = self.queue@;
            let ghost s0 = spec_str_views(self.seen@);
            let ghost rs0 = rs@;
            let r = rs.remove(0);
            let c = canonical_url(r.url.as_str());
            let ghost cv = spec_canonical_url(r.url@);
            if !vec_contains_str(&self.seen, c.as_str()) {
                self.queue.push(r);
                self.seen.push(c);
                proof {
                    assert(spec_str_views(self.seen@) =~= s0.push(cv));
                }
            }
            proof {
                assert(rs0[0] == rs0.first());
                assert(rs0.drop_first() =~= rs@);
                assert((self.queue@, spec_str_views(self.seen@)) == spec_enqueue(
                    q0,
                    s0,
                    rs0[0],
                ));
            }
        }
        proof {
            assert(rs@.len() == 0);
        }
    }
}

/// Under the scheduler invariant, in-flight work never exceeds the
/// concurrency bound: `dispatch` demands a free permit, and every operation
/// preserves the invariant.
pub proof fn lemma_concurrency_bounded(s: CrawlState)
    requires
        s.wf(),
    ensures
        s.in_flight <= s.concurrency_limit,
{
}

/// Two follow-up targets that differ only in their query strings share one
/// canonical URL, so a batch holding both enqueues only the first.
pub proof fn lemma_same_canonical_enqueued_once(
    q: Seq<Request>,
    seen: Seq<Seq<char>>,
    a: Request,
    b: Request,
)
    requires
        spec_canonical_url(a.url@) == spec_canonical_url(b.url@),
        !seen.contains(spec_canonical_url(a.url@)),
    ensures
        spec_enqueue_all(q, seen, seq![a, b]) == (
            q.push(a),
            seen.push(spec_canonical_url(a.url@)),
        ),
{
    let c = spec_canonical_url(a.url@);
    let rs = seq![a, b];
    let q1 = q.push(a);
    let s1 = seen.push(c);
    assert(rs[0] == a);
    assert(spec_enqueue(q, seen, a) == (q1, s1));
    assert(s1.contains(spec_canonical_url(b.url@))) by {
        assert(s1[seen.len() as int] == c);
    }
    assert(spec_enqueue(q1, s1, b) == (q1, s1));
    assert(rs.drop_first() =~= seq![b]);
    assert(seq![b][0] == b);
    assert(seq![b].drop_first() =~= Seq::<Request>::empty());
    assert(spec_enqueue_all(q1, s1, Seq::<Request>::empty()) == (q1, s1));
    assert(spec_enqueue_all(q1, s1, seq![b]) == (q1, s1));
    assert(spec_enqueue_all(q, seen, rs) == spec_enqueue_all(q1, s1, rs.drop_first()));
}

} // verus!
