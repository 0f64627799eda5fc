//! The request loop's state: a bounded counter of completed iterations. The
//! caller performs the GET request, hands back what it observed, and is told
//! how long to wait; no outcome ever ends the loop early — only the counter
//! reaching the configured maximum does.

use vstd::prelude::*;

verus! {

/// How many GET requests the client attempts in one run.
pub const MAX_REQUESTS: u64 = 10000;

/// Seconds to wait after every iteration, the last one included.
pub const WAIT_SECONDS: u64 = 10;

/// What one iteration observed, with the console text it carries.
pub enum IterationOutcome {
    /// The call completed and the body decoded as text: the body.
    Success(String),
    /// The call completed but the body did not decode: the error text.
    DecodeError(String),
    /// The call itself failed (network, TLS, timeout): the error text.
    RequestError(String),
}

/// The request loop's state: how many iterations have fully completed, out of
/// a fixed maximum.
pub struct RequestLoop {
    pub counter: u64,
    pub max_requests: u64,
}

/// The state a run starts in.
pub open spec fn initial_state(max_requests: u64) -> RequestLoop {
    RequestLoop { counter: 0, max_requests }
}

/// The state after one more iteration: the counter advances by one, whatever
/// the outcome was.
pub open spec fn step(s: RequestLoop, outcome: IterationOutcome) -> RequestLoop {
    RequestLoop { counter: (s.counter + 1) as u64, max_requests: s.max_requests }
}

/// The state after the first `k` iterations of a run that observed `outcomes`.
pub open spec fn state_after(
    max_requests: u64,
    outcomes: Seq<IterationOutcome>,
    k: nat,
) -> RequestLoop
    decreases k,
{
    if k == 0 {
        initial_state(max_requests)
    } else {
        step(state_after(max_requests, outcomes, (k - 1) as nat), outcomes[k - 1])
    }
}

impl RequestLoop {
    /// The counter never runs past the maximum.
    pub open spec fn wf(&self) -> bool {
        self.counter <= self.max_requests
    }

    /// Another request is still owed.
    pub open spec fn continues(&self) -> bool {
        self.counter < self.max_requests
    }

    /// All iterations have run: the terminal state.
    pub open spec fn complete(&self) -> bool {
        self.counter == self.max_requests
    }

    pub fn new(max_requests: u64) -> (s: Self)
        ensures
            s == initial_state(max_requests),
            s.wf(),
    {
        RequestLoop { counter: 0, max_requests }
    }

    pub fn should_request(&self) -> (b: bool)
        ensures
            b == self.continues(),
    {
        self.counter < self.max_requests
    }

    pub fn is_complete(&self) -> (b: bool)
        ensures
            b == self.complete(),
    {
        self.counter == self.max_requests
    }

    pub fn requests_attempted(&self) -> (n: u64)
        ensures
            n == self.counter,
    {
        self.counter
    }

    /// Records one full iteration: the counter advances whatever the outcome
    /// was, and the caller is told to wait the fixed interval — after every
    /// iteration, the last one included.
    pub fn record_iteration(&mut self, outcome: &IterationOutcome) -> (wait_seconds: u64)
        requires
            old(self).continues(),
        ensures
            *final(self) == step(*old(self), *outcome),
            final(self).counter == old(self).counter + 1,
            final(self).max_requests == old(self).max_requests,
            old(self).wf() ==> final(self).wf(),
            wait_seconds == WAIT_SECONDS,
    {
        self.counter = self.counter + 1;
        WAIT_SECONDS
    }
}

/// Law: exactly `max_requests` requests are attempted. After `k` completed
/// iterations the counter reads `k`; the loop continues exactly while
/// `k < max_requests` and is complete exactly at `k == max_requests` — all of
/// it regardless of the individual outcomes.
pub proof fn lemma_exactly_max_requests(max_requests: u64, outcomes: Seq<IterationOutcome>, k: nat)
    requires
        k <= max_requests,
    ensures
        state_after(max_requests, outcomes, k).counter == k,
        state_after(max_requests, outcomes, k).max_requests == max_requests,
        state_after(max_requests, outcomes, k).wf(),
        state_after(max_requests, outcomes, k).continues() <==> k < max_requests,
        state_after(max_requests, outcomes, k).complete() <==> k == max_requests,
    decreases k,
{
    if k > 0 {
        lemma_exactly_max_requests(max_requests, outcomes, (k - 1) as nat);
    }
}

/// Law: a failed request is never fatal. The state after an iteration does not
/// depend on its outcome, so a failure advances the loop exactly as a success
/// does, and the next iteration still occurs whenever requests remain.
pub proof fn lemma_failure_not_fatal(
    s: RequestLoop,
    failure: IterationOutcome,
    other: IterationOutcome,
)
    requires
        s.continues(),
    ensures
        step(s, failure) == step(s, other),
        step(s, failure).counter == s.counter + 1,
        step(s, failure).continues() <==> s.counter + 1 < s.max_requests,
        s.wf() ==> step(s, failure).wf(),
{
}

} // verus!
