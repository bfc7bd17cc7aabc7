use vstd::prelude::*;
use crate::errors::ScrapeError;

verus! {

/// What one fetch attempt observed: either an HTTP response (status code and
/// body length) or a transport-level failure (network error or timeout).
#[derive(Clone, Copy, Debug, PartialEq, Eq, Structural)]
pub enum FetchEvent {
    Response { status: u16, body_len: usize },
    TransportError,
}

/// The retry policy of the resilient fetcher: how many retries follow the
/// first attempt, the base backoff delay, and the minimum body length below
/// which a success status is treated as a suspected block page.
#[derive(Clone, Copy, Debug, PartialEq, Eq, Structural)]
pub struct RetryPolicy {
    pub max_retries: u32,
    pub base_delay_ms: u64,
    pub min_content_len: usize,
}

impl RetryPolicy {
    /// Every backoff delay is `base_delay_ms * attempt` with
    /// `attempt <= max_retries`, so the first bound keeps all of them in
    /// `u64`; the second keeps the attempt counter itself in `u32`.
    pub open spec fn wf(self) -> bool {
        &&& self.base_delay_ms * ((self.max_retries + 1) as int) <= u64::MAX
        &&& self.max_retries < u32::MAX
    }

    /// Runtime check of the bounds that `wf` states.
    pub fn check(&self) -> (r: bool)
        ensures
            r == self.wf(),
    {
        if self.max_retries == u32::MAX {
            return false;
        }
        match self.base_delay_ms.checked_mul((self.max_retries as u64) + 1) {
            Some(_) => true,
            None => false,
        }
    }
}

/// Classification of one observed event under a policy:
/// a success status with a long enough body succeeds; a success status with a
/// short body is a suspected block page and fails permanently; 429 is
/// rate-limited; 5xx is a server failure; any other status is a permanent
/// client failure; transport trouble is retryable.
pub open spec fn spec_classify(min_content_len: int, ev: FetchEvent) -> Result<(), ScrapeError> {
    match ev {
        FetchEvent::Response { status, body_len } => {
            if 200 <= status < 300 {
                if body_len >= min_content_len {
                    Ok(())
                } else {
                    Err(ScrapeError::ContentTooShort(body_len))
                }
            } else if status == 429 {
                Err(ScrapeError::RateLimited)
            } else if 500 <= status < 600 {
                Err(ScrapeError::ServerFailure(status))
            } else {
                Err(ScrapeError::ClientFailure(status))
            }
        },
        FetchEvent::TransportError => Err(ScrapeError::TransportFailure),
    }
}

/// Classifies one observed event. A response shorter than
/// `min_content_len` is `ContentTooShort` even when its status looked
/// successful.
pub fn classify(min_content_len: usize, ev: &FetchEvent) -> (r: Result<(), ScrapeError>)
    ensures
        r == spec_classify(min_content_len as int, *ev),
{
    match ev {
        FetchEvent::Response { status, body_len } => {
            if 200 <= *status && *status < 300 {
                if *body_len >= min_content_len {
                    Ok(())
                } else {
                    Err(ScrapeError::ContentTooShort(*body_len))
                }
            } else if *status == 429 {
                Err(ScrapeError::RateLimited)
            } else if 500 <= *status && *status < 600 {
                Err(ScrapeError::ServerFailure(*status))
            } else {
                Err(ScrapeError::ClientFailure(*status))
            }
        },
        FetchEvent::TransportError => Err(ScrapeError::TransportFailure),
    }
}

/// What the fetcher does after one attempt: deliver the body, sleep and
/// retry (rotating the proxy first when asked to), or give up with the last
/// classified error.
#[derive(Clone, Copy, Debug, PartialEq, Eq, Structural)]
pub enum FetchStep {
    Proceed,
    RetryAfter { delay_ms: u64, rotate_proxy: bool },
    GiveUp(ScrapeError),
}

/// The decision owed after attempt number `attempt` (1-based) observed `ev`.
pub open spec fn spec_decide(policy: RetryPolicy, attempt: u32, ev: FetchEvent) -> FetchStep {
    match spec_classify(policy.min_content_len as int, ev) {
        Ok(()) => FetchStep::Proceed,
        Err(e) => {
            if e.spec_is_retryable() && attempt <= policy.max_retries {
                FetchStep::RetryAfter {
                    delay_ms: (policy.base_delay_ms * (attempt as int)) as u64,
                    rotate_proxy: e.spec_wants_proxy_rotation(),
                }
            } else {
                FetchStep::GiveUp(e)
            }
        },
    }
}

/// Decides what follows attempt number `attempt` (1-based): success stops,
/// a retryable error within the budget waits `base_delay_ms * attempt`
/// (linear backoff) and retries, anything else gives up with the
/// classified error.
pub fn decide(policy: &RetryPolicy, attempt: u32, ev: &FetchEvent) -> (r: FetchStep)
    requires
        policy.wf(),
        1 <= attempt,
    ensures
        r == spec_decide(*policy, attempt, *ev),
{
    match classify(policy.min_content_len, ev) {
        Ok(()) => FetchStep::Proceed,
        Err(e) => {
            if e.is_retryable() && attempt <= policy.max_retries {
                proof {
                    lemma_delay_in_range(*policy, attempt);
                }
                FetchStep::RetryAfter {
                    delay_ms: policy.base_delay_ms * (attempt as u64),
                    rotate_proxy: e.wants_proxy_rotation(),
                }
            } else {
                FetchStep::GiveUp(e)
            }
        },
    }
}

/// Under a well-formed policy, every backoff delay fits in `u64`.
proof fn lemma_delay_in_range(policy: RetryPolicy, attempt: u32)
    requires
        policy.wf(),
        1 <= attempt <= policy.max_retries,
    ensures
        0 <= policy.base_delay_ms * (attempt as int) <= u64::MAX,
{
    assert(policy.base_delay_ms * (attempt as int) <= policy.base_delay_ms * ((
    policy.max_retries + 1) as int)) by (nonlinear_arith)
        requires
            1 <= attempt <= policy.max_retries,
            policy.base_delay_ms >= 0,
    ;
    assert(policy.base_delay_ms * (attempt as int) >= 0) by (nonlinear_arith)
        requires
            policy.base_delay_ms >= 0,
            attempt >= 1,
    ;
}

/// The record of one simulated fetch: how many attempts ran, the backoff
/// delay slept before each retry, and the final outcome. `Ok(i)` means the
/// event at index `i` was the successful attempt.
pub struct FetchLog {
    pub attempts: usize,
    pub delays: Vec<u64>,
    pub outcome: Result<usize, ScrapeError>,
}

/// Runs the retry state machine against a scripted sequence of events,
/// where `events[i]` is what attempt `i + 1` would observe. The script must
/// be long enough to cover the whole retry budget.
///
/// The contract pins the whole run: every attempt before the last observed a
/// retryable error within the budget; the delays grow linearly (hence are
/// non-decreasing); the run stops at the first success or permanent error,
/// or when the budget is exhausted, whichever is first; and a script of
/// retryable errors alone uses exactly `max_retries + 1` attempts and ends
/// with the last classified error.
pub fn simulate_fetch(policy: &RetryPolicy, events: &Vec<FetchEvent>) -> (log: FetchLog)
    requires
        policy.wf(),
        events@.len() > policy.max_retries,
    ensures
        1 <= log.attempts <= policy.max_retries + 1,
        log.attempts <= events@.len(),
        log.delays@.len() == log.attempts - 1,
        forall|j: int|
            0 <= j < log.delays@.len() ==> log.delays@[j] == policy.base_delay_ms * (j + 1),
        forall|j: int, k: int|
            0 <= j <= k < log.delays@.len() ==> log.delays@[j] <= log.delays@[k],
        forall|j: int|
            0 <= j < log.attempts - 1 ==> {
                &&& spec_classify(policy.min_content_len as int, events@[j]) is Err
                &&& spec_classify(policy.min_content_len as int, events@[j])
                    ->Err_0.spec_is_retryable()
            },
        match log.outcome {
            Ok(i) => {
                &&& i == log.attempts - 1
                &&& spec_classify(policy.min_content_len as int, events@[i as int]) is Ok
            },
            Err(e) => {
                &&& spec_classify(policy.min_content_len as int, events@[log.attempts - 1]) == Err::<
                (), ScrapeError>(e)
                &&& (!e.spec_is_retryable() || log.attempts == policy.max_retries + 1)
            },
        },
        (forall|j: int|
            0 <= j <= policy.max_retries ==> {
                &&& #[trigger] spec_classify(policy.min_content_len as int, events@[j]) is Err
                &&& spec_classify(policy.min_content_len as int, events@[j])
                    ->Err_0.spec_is_retryable()
            }) ==> {
            &&& log.attempts == policy.max_retries + 1
            &&& log.outcome == Err::<usize, ScrapeError>(
                spec_classify(policy.min_content_len as int, events@[policy.max_retries as int])
                    ->Err_0,
            )
        },
{
    let mut delays: Vec<u64> = Vec::new();
    let mut attempt: u32 = 1;
    loop
        invariant
            policy.wf(),
            events@.len() > policy.max_retries,
            1 <= attempt <= policy.max_retries + 1,
            attempt <= events@.len() + 1,
            delays@.len() == attempt - 1,
            forall|j: int|
                0 <= j < delays@.len() ==> delays@[j] == policy.base_delay_ms * (j + 1),
            forall|j: int|
                0 <= j < attempt - 1 ==> {
                    &&& spec_classify(policy.min_content_len as int, events@[j]) is Err
                    &&& spec_classify(policy.min_content_len as int, events@[j])
                        ->Err_0.spec_is_retryable()
                },
        decreases policy.max_retries + 1 - attempt,
    {
        let idx: usize = (attempt - 1) as usize;
        let ev = &events[idx];
        match decide(policy, attempt, ev) {
            FetchStep::Proceed => {
                proof {
                    lemma_delays_non_decreasing(*policy, delays@);
                }
                return FetchLog { attempts: idx + 1, delays, outcome: Ok(idx) };
            },
            FetchStep::RetryAfter { delay_ms, rotate_proxy: _ } => {
                proof {
                    assert(spec_decide(*policy, attempt, *ev) is RetryAfter);
                    assert(attempt <= policy.max_retries);
                    lemma_delay_in_range(*policy, attempt);
                    assert(delay_ms == policy.base_delay_ms * (attempt as int));
                }
                delays.push(delay_ms);
                attempt = attempt + 1;
            },
            FetchStep::GiveUp(e) => {
                proof {
                    lemma_delays_non_decreasing(*policy, delays@);
                }
                return FetchLog { attempts: idx + 1, delays, outcome: Err(e) };
            },
        }
    }
}

/// Linear backoff never decreases: `base * (j + 1) <= base * (k + 1)` for
/// `j <= k`.
pub proof fn lemma_delays_non_decreasing(policy: RetryPolicy, delays: Seq<u64>)
    requires
        forall|j: int| 0 <= j < delays.len() ==> delays[j] == policy.base_delay_ms * (j + 1),
    ensures
        forall|j: int, k: int| 0 <= j <= k < delays.len() ==> delays[j] <= delays[k],
{
    assert forall|j: int, k: int| 0 <= j <= k < delays.len() implies delays[j] <= delays[k] by {
        assert(policy.base_delay_ms * (j + 1) <= policy.base_delay_ms * (k + 1))
            by (nonlinear_arith)
            requires
                0 <= j <= k,
                policy.base_delay_ms >= 0,
        ;
    }
}

} // verus!
