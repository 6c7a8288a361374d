//! The bounded-wait primitive: poll a fallible state query until a predicate
//! holds, a timeout elapses, or the query fails.
//!
//! Only the decision logic lives here.  The caller performs each query
//! itself, reports the outcome of one poll as a [`PollOutcome`], and obeys
//! the decision: stop successfully, stop on timeout, propagate the query
//! failure, or sleep one interval and poll again — emitting one unit of
//! progress output if asked to.  A wait without a timeout never returns
//! [`WaitDecision::TimedOut`], which is how the reconciliation loop waits,
//! unbounded, for the target to stop; the interactive stop command uses the
//! same primitive with a finite timeout and visible progress.

use vstd::prelude::*;

verus! {

/// Progress of one wait: its fixed poll interval, its optional timeout, and
/// how much waiting time has elapsed so far.
#[derive(Clone, Copy, PartialEq, Eq, Debug)]
pub struct WaitState {
    pub interval_millis: u64,
    pub timeout_millis: Option<u64>,
    pub elapsed_millis: u64,
}

/// What one poll of the state query observed.
#[derive(Clone, Copy, PartialEq, Eq, Structural, Debug)]
pub enum PollOutcome {
    /// The query succeeded and the predicate holds.
    Satisfied,
    /// The query succeeded but the predicate does not hold yet.
    Unsatisfied,
    /// The query itself failed; the failure is propagated at once, no
    /// retries are made for it.
    QueryFailed,
}

/// The decision after one poll.
#[derive(Clone, Copy, PartialEq, Eq, Structural, Debug)]
pub enum WaitDecision {
    /// The predicate holds: the wait succeeded.
    Done,
    /// The timeout elapsed before the predicate held.  Not an error: the
    /// caller decides what a timeout means.
    TimedOut,
    /// The state query failed; the caller propagates the failure.
    Failed,
    /// Keep waiting: sleep one interval and poll again.  `emit_progress`
    /// says whether to emit one unit of progress output first; it stays
    /// false until at least one interval has elapsed, so a wait that is
    /// satisfied near-instantly stays silent.
    Again { emit_progress: bool },
}

/// Whether the timeout, if there is one, has elapsed.
pub open spec fn spec_wait_expired(w: WaitState) -> bool {
    match w.timeout_millis {
        Some(t) => w.elapsed_millis >= t,
        None => false,
    }
}

/// The wait state one interval later (saturating, so the elapsed count never
/// wraps back below a finite timeout).
pub open spec fn spec_wait_advanced(w: WaitState) -> WaitState {
    WaitState {
        interval_millis: w.interval_millis,
        timeout_millis: w.timeout_millis,
        elapsed_millis: if w.elapsed_millis + w.interval_millis <= u64::MAX {
            (w.elapsed_millis + w.interval_millis) as u64
        } else {
            u64::MAX
        },
    }
}

/// The whole decision for one poll: success wins first, then a query failure
/// propagates, then an elapsed timeout reports itself, and otherwise the
/// wait continues one interval further.
pub open spec fn spec_wait_step(w: WaitState, poll: PollOutcome) -> (WaitState, WaitDecision) {
    match poll {
        PollOutcome::Satisfied => (w, WaitDecision::Done),
        PollOutcome::QueryFailed => (w, WaitDecision::Failed),
        PollOutcome::Unsatisfied => if spec_wait_expired(w) {
            (w, WaitDecision::TimedOut)
        } else {
            (spec_wait_advanced(w), WaitDecision::Again { emit_progress: w.elapsed_millis > 0 })
        },
    }
}

impl WaitState {
    /// A fresh wait that polls every `interval_millis` and gives up after
    /// `timeout_millis`, or never when no timeout is given.
    pub fn begin(interval_millis: u64, timeout_millis: Option<u64>) -> (w: WaitState)
        ensures
            w.interval_millis == interval_millis,
            w.timeout_millis == timeout_millis,
            w.elapsed_millis == 0,
    {
        WaitState { interval_millis, timeout_millis, elapsed_millis: 0 }
    }

    /// Advances the wait by one poll interval.
    pub fn advanced(self) -> (w: WaitState)
        ensures
            w == spec_wait_advanced(self),
    {
        let elapsed_millis = if self.elapsed_millis <= u64::MAX - self.interval_millis {
            self.elapsed_millis + self.interval_millis
        } else {
            u64::MAX
        };
        WaitState {
            interval_millis: self.interval_millis,
            timeout_millis: self.timeout_millis,
            elapsed_millis,
        }
    }
}

/// Decides what to do after one poll of the state query.
pub fn wait_step(w: WaitState, poll: PollOutcome) -> (r: (WaitState, WaitDecision))
    ensures
        r == spec_wait_step(w, poll),
{
    match poll {
        PollOutcome::Satisfied => (w, WaitDecision::Done),
        PollOutcome::QueryFailed => (w, WaitDecision::Failed),
        PollOutcome::Unsatisfied => {
            let expired = match w.timeout_millis {
                Some(t) => w.elapsed_millis >= t,
                None => false,
            };
            if expired {
                (w, WaitDecision::TimedOut)
            } else {
                let emit_progress = w.elapsed_millis > 0;
                (w.advanced(), WaitDecision::Again { emit_progress })
            }
        },
    }
}

/// Law: a wait's very first unsatisfied poll emits no progress output.
pub proof fn lemma_first_poll_silent(w: WaitState)
    requires
        w.elapsed_millis == 0,
        !spec_wait_expired(w),
    ensures
        spec_wait_step(w, PollOutcome::Unsatisfied).1 == (WaitDecision::Again {
            emit_progress: false,
        }),
{
}

/// Law: a wait without a timeout never times out — an unsatisfied poll
/// always continues the wait.
pub proof fn lemma_unbounded_wait_never_times_out(w: WaitState)
    requires
        w.timeout_millis is None,
    ensures
        spec_wait_step(w, PollOutcome::Unsatisfied).1 matches WaitDecision::Again { .. },
        spec_wait_step(w, PollOutcome::Unsatisfied).0.timeout_millis is None,
{
}

} // verus!
