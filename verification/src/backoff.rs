//! Retrying under backoff.
//!
//! An operation that reports the engine as busy is tried again after a
//! delay, for as long as the schedule yields delays. Any other outcome is
//! final at once. The waiting itself is the caller's: the types here decide
//! whether to wait, for how long and on which timer action, or to give up.

use crate::error::{Error, ErrorKind, Result};
use ::backoff::backoff::Backoff;
use std::time::Duration;
use vstd::prelude::*;

verus! {

/// The clock of the `backoff` crate that reads the system time.
#[verifier::external_type_specification]
#[verifier::external_body]
pub struct ExSystemClock(::backoff::SystemClock);

/// The exponential policy of the `backoff` crate.
#[verifier::external_type_specification]
#[verifier::external_body]
#[verifier::reject_recursive_types(C)]
pub struct ExExponentialBackoff<C>(::backoff::exponential::ExponentialBackoff<C>);

/// `ExponentialBackoff::default` of the `backoff` crate: a policy with the
/// crate's default intervals, started at the present time. Nothing is
/// claimed of it.
#[verifier::external_body]
fn default_policy() -> ::backoff::ExponentialBackoff {
    ::backoff::ExponentialBackoff::default()
}

/// `Backoff::next_backoff` of the `backoff` crate on its exponential policy.
/// What it yields depends on the time elapsed and on a random number, so
/// nothing is claimed of it. It is called on policies made by
/// `default_policy` only, whose intervals never exceed a minute and a half.
#[verifier::external_body]
fn next_delay(policy: &mut ::backoff::ExponentialBackoff) -> Option<Duration> {
    policy.next_backoff()
}

/// The delays between the tries of one operation: the exponential policy
/// with its default settings. A schedule is made for one operation and never
/// rewound.
pub struct Schedule {
    policy: ::backoff::ExponentialBackoff,
}

impl Schedule {
    /// A fresh schedule, started now.
    pub fn new() -> Schedule {
        Schedule { policy: default_policy() }
    }

    /// The next delay, or `None` once the schedule is exhausted.
    pub fn next_backoff(&mut self) -> Option<Duration> {
        next_delay(&mut self.policy)
    }
}

/// What to do with the timer before suspending.
#[derive(Clone, Copy, Debug)]
pub enum Wait {
    /// No timer exists yet: create one for this duration.
    Start(Duration),
    /// Set the existing timer to this duration.
    Restart(Duration),
}

/// Whether an outcome is the transient condition that is retried.
pub open spec fn is_busy<T>(outcome: Result<T>) -> bool {
    outcome matches Err(e) && e.kind is Busy
}

/// The error that is reported when the schedule is exhausted.
pub open spec fn busy_error() -> Error {
    Error { kind: ErrorKind::Busy, source: None }
}

/// The timer action for a delay: the first wait creates the timer, the
/// later ones set it again.
pub open spec fn wait_for(armed: bool, delay: Duration) -> Wait {
    if armed {
        Wait::Restart(delay)
    } else {
        Wait::Start(delay)
    }
}

/// The state of the busy-backoff of one operation: whether its timer
/// exists, and the schedule that its delays come from.
pub struct BackoffState {
    armed: bool,
    backoff: Schedule,
}

impl View for BackoffState {
    type V = bool;

    /// Whether a timer has been created.
    closed spec fn view(&self) -> bool {
        self.armed
    }
}

impl BackoffState {
    /// The state of an operation that has not waited yet, with the
    /// schedule that its delays are to come from.
    pub fn new(backoff: Schedule) -> (state: BackoffState)
        ensures
            !state@,
            state.schedule() == backoff,
    {
        BackoffState { armed: false, backoff }
    }

    /// The next delay of the schedule, or `None` once it is exhausted.
    pub fn next_backoff(&mut self) -> (next: Option<Duration>)
        ensures
            final(self)@ == old(self)@,
    {
        self.backoff.next_backoff()
    }

    /// Decides on one answer of the schedule. With no delay left the
    /// operation fails as busy and the state stays as it was. With a delay,
    /// the timer is to be created or set again for it.
    pub fn decide(&mut self, next: Option<Duration>) -> (r: Result<Wait>)
        ensures
            next is None ==> r == Err::<Wait, Error>(busy_error()) && final(self)@ == old(self)@,
            next matches Some(delay) ==> r == Ok::<Wait, Error>(wait_for(old(self)@, delay))
                && final(self)@,
            final(self).schedule() == old(self).schedule(),
    {
        match next {
            Some(delay) => {
                let wait = if self.armed {
                    Wait::Restart(delay)
                } else {
                    Wait::Start(delay)
                };
                self.armed = true;
                Ok(wait)
            },
            None => Err(ErrorKind::Busy.err()),
        }
    }

    /// Asks the schedule for its next delay and decides on it: a wait, or
    /// the busy error when the schedule is exhausted.
    pub fn poll(&mut self) -> (r: Result<Wait>)
        ensures
            r matches Err(e) ==> e == busy_error() && final(self)@ == old(self)@,
            r matches Ok(wait) ==> final(self)@ && exists|delay: Duration|
                wait == wait_for(old(self)@, delay),
    {
        let next = self.next_backoff();
        self.decide(next)
    }

    /// The schedule that the delays of this operation come from.
    pub closed spec fn schedule(&self) -> Schedule {
        self.backoff
    }
}

/// What a retried operation comes to after one attempt.
pub enum Retry<T> {
    /// The operation is over, with this result.
    Ready(Result<T>),
    /// Suspend on the timer, then try the operation again.
    Wait(Wait),
}

/// The decision after an attempt: anything but busy is final; busy is final
/// when no delay is left, and is waited out otherwise.
pub open spec fn decide<T>(armed: bool, outcome: Result<T>, next: Option<Duration>) -> Retry<T> {
    if is_busy(outcome) && next is Some {
        Retry::Wait(wait_for(armed, next->0))
    } else {
        Retry::Ready(outcome)
    }
}

/// The retry state of one operation in flight.
pub struct BackoffFuture {
    armed: bool,
}

impl View for BackoffFuture {
    type V = bool;

    /// Whether a timer has been created.
    closed spec fn view(&self) -> bool {
        self.armed
    }
}

impl BackoffFuture {
    pub fn new() -> (future: BackoffFuture)
        ensures
            !future@,
    {
        BackoffFuture { armed: false }
    }

    /// Whether the outcome of an attempt asks for another one.
    pub fn is_retryable<T>(outcome: &Result<T>) -> (b: bool)
        ensures
            b == is_busy(*outcome),
    {
        match outcome {
            Err(e) => e.kind().is_busy(),
            Ok(_) => false,
        }
    }

    /// Decides on the outcome of an attempt, given what the schedule yields
    /// next. The schedule's answer counts only when the outcome is busy.
    pub fn settle<T>(&mut self, outcome: Result<T>, next: Option<Duration>) -> (r: Retry<T>)
        ensures
            r == decide(old(self)@, outcome, next),
            final(self)@ == (old(self)@ || r is Wait),
    {
        if !Self::is_retryable(&outcome) {
            return Retry::Ready(outcome);
        }
        match next {
            Some(delay) => {
                let wait = if self.armed {
                    Wait::Restart(delay)
                } else {
                    Wait::Start(delay)
                };
                self.armed = true;
                Retry::Wait(wait)
            },
            None => Retry::Ready(outcome),
        }
    }

    /// Decides on the outcome of an attempt. The schedule is asked for a
    /// delay only when the outcome is busy; every other outcome is final and
    /// leaves the schedule untouched.
    pub fn poll<T>(&mut self, outcome: Result<T>, schedule: &mut Schedule) -> (r: Retry<T>)
        ensures
            !is_busy(outcome) ==> r == Retry::Ready(outcome) && *final(schedule) == *old(schedule)
                && final(self)@ == old(self)@,
            is_busy(outcome) ==> exists|next: Option<Duration>|
                r == decide(old(self)@, outcome, next),
            final(self)@ == (old(self)@ || r is Wait),
    {
        if Self::is_retryable(&outcome) {
            let next = schedule.next_backoff();
            self.settle(outcome, next)
        } else {
            Retry::Ready(outcome)
        }
    }
}

/// The run of a retried operation whose attempts end as `outcomes[0]`,
/// `outcomes[1]` and so on, under a schedule that yields `delays` and then
/// nothing: how many attempts are made, and the final result if these
/// outcomes lead to one.
pub open spec fn run<T>(armed: bool, outcomes: Seq<Result<T>>, delays: Seq<Duration>) -> (
    nat,
    Option<Result<T>>,
)
    decreases outcomes.len(),
{
    if outcomes.len() == 0 {
        (0, None)
    } else {
        let next = if delays.len() > 0 {
            Some(delays[0])
        } else {
            None
        };
        match decide(armed, outcomes[0], next) {
            Retry::Ready(result) => (1, Some(result)),
            Retry::Wait(_) => {
                let rest = run(true, outcomes.drop_first(), delays.drop_first());
                (rest.0 + 1, rest.1)
            },
        }
    }
}

/// Exhaustion: an operation that is always busy, under a schedule of N
/// delays, is retried exactly N times, so tried N + 1 times in all, and then
/// ends with the busy outcome of its last attempt. There is no attempt
/// after that one.
pub proof fn lemma_backoff_exhaustion<T>(
    armed: bool,
    outcomes: Seq<Result<T>>,
    delays: Seq<Duration>,
)
    requires
        forall|i: int| 0 <= i < outcomes.len() ==> is_busy(#[trigger] outcomes[i]),
        outcomes.len() > delays.len(),
    ensures
        run(armed, outcomes, delays) == (
            delays.len() + 1,
            Some(outcomes[delays.len() as int]),
        ),
        is_busy(outcomes[delays.len() as int]),
    decreases outcomes.len(),
{
    if delays.len() > 0 {
        let rest = outcomes.drop_first();
        assert forall|i: int| 0 <= i < rest.len() implies is_busy(#[trigger] rest[i]) by {
            assert(rest[i] == outcomes[i + 1]);
        }
        lemma_backoff_exhaustion(true, rest, delays.drop_first());
    }
}

/// The first outcome that is not busy is final, provided the schedule
/// lasted until then: it is handed on as it is, whether a success or an
/// error of another kind, and nothing is tried after it.
pub proof fn lemma_backoff_first_final<T>(
    armed: bool,
    outcomes: Seq<Result<T>>,
    delays: Seq<Duration>,
    k: int,
)
    requires
        0 <= k < outcomes.len(),
        k <= delays.len(),
        !is_busy(outcomes[k]),
        forall|i: int| 0 <= i < k ==> is_busy(#[trigger] outcomes[i]),
    ensures
        run(armed, outcomes, delays) == ((k + 1) as nat, Some(outcomes[k])),
    decreases k,
{
    if k > 0 {
        let rest = outcomes.drop_first();
        assert(is_busy(outcomes[0]));
        assert forall|i: int| 0 <= i < k - 1 implies is_busy(#[trigger] rest[i]) by {
            assert(rest[i] == outcomes[i + 1]);
        }
        lemma_backoff_first_final(true, rest, delays.drop_first(), k - 1);
    }
}

} // verus!
