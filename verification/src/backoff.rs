//! Retry with exponential backoff: what is retried, what one attempt can
//! come to, and how a call moves from attempt to attempt until it settles.
use vstd::prelude::*;
use crate::errors::FirebaseError;

verus! {

/// Seconds after which a retried request is given up by default.
pub const FIRESTORE_REQUEST_RETRY_MAX_ELAPSED_TIME: u64 = 30;

/// What one attempt of an operation came to.
#[derive(Debug, PartialEq, Eq)]
pub enum Attempt<T> {
    /// The operation is done, with this value.
    Success(T),
    /// The operation failed, and trying again may help.
    Transient(FirebaseError),
    /// The operation failed, and trying again cannot help.
    Permanent(FirebaseError),
}

/// The HTTP statuses on which a request is worth sending again: request
/// timeout, conflict, too many requests, and every server error.
pub open spec fn spec_retryable_http_status(status: u16) -> bool {
    status == 408 || status == 409 || status == 429 || (500 <= status < 600)
}

/// Whether a response with this HTTP status should be retried with backoff.
#[verifier::when_used_as_spec(spec_retryable_http_status)]
pub fn retryable_http_status(status: u16) -> (retry: bool)
    ensures
        retry == spec_retryable_http_status(status),
{
    status == 408 || status == 409 || status == 429 || (status >= 500 && status < 600)
}

/// What the caller sees of the attempt that ended a call: the value of a
/// success, and the error of a failure of either sort.
pub open spec fn spec_settle<T>(last: Attempt<T>) -> Result<T, FirebaseError> {
    match last {
        Attempt::Success(value) => Ok(value),
        Attempt::Transient(error) => Err(error),
        Attempt::Permanent(error) => Err(error),
    }
}

/// Turns the attempt that ended a call into the result of the call. A
/// transient failure that outlasted the time allowed and a permanent one
/// look the same from here on: both are the error they carry.
pub fn settle<T>(last: Attempt<T>) -> (result: Result<T, FirebaseError>)
    ensures
        result == spec_settle(last),
{
    match last {
        Attempt::Success(value) => Ok(value),
        Attempt::Transient(error) => Err(error),
        Attempt::Permanent(error) => Err(error),
    }
}

/// Calls `backoff::retry` with the default `backoff::ExponentialBackoff`,
/// its `max_elapsed_time` set to the given number of seconds.
///
/// `backoff::retry` calls the operation, sleeps and calls it again for as
/// long as it fails transiently and the schedule names a next interval. It
/// returns what the last call of the operation returned, and that is all the
/// contract claims: how many calls there were depends on the clock and on
/// the random part of each interval.
#[verifier::external_body]
fn retry_until_settled<T, F: FnMut() -> Attempt<T>>(mut f: F, max_elapsed_time: u64) -> (last:
    Attempt<T>)
    requires
        call_requires(f, ()),
    ensures
        call_ensures(f, (), last),
{
    let mut schedule = backoff::ExponentialBackoff::default();
    schedule.max_elapsed_time = Some(std::time::Duration::from_secs(max_elapsed_time));
    let settled = backoff::retry(
        schedule,
        || match f() {
            Attempt::Success(value) => Ok(value),
            Attempt::Transient(error) => Err(backoff::Error::Transient(error)),
            Attempt::Permanent(error) => Err(backoff::Error::Permanent(error)),
        },
    );
    match settled {
        Ok(value) => Attempt::Success(value),
        Err(backoff::Error::Transient(error)) => Attempt::Transient(error),
        Err(backoff::Error::Permanent(error)) => Attempt::Permanent(error),
    }
}

/// Runs an operation with exponential backoff, on the calling thread.
///
/// The operation is called until it succeeds, fails permanently, or fails
/// transiently after more than `max_elapsed_time` seconds have passed since
/// the first call. Between two calls the thread sleeps. The result is that
/// of the last call: its value, or its error.
pub fn exp_backoff<T, F: FnMut() -> Attempt<T>>(f: F, max_elapsed_time: u64) -> (result: Result<
    T,
    FirebaseError,
>)
    requires
        call_requires(f, ()),
    ensures
        exists|last: Attempt<T>| call_ensures(f, (), last) && result == spec_settle(last),
{
    let last = retry_until_settled(f, max_elapsed_time);
    settle(last)
}

/// An operation that can come to one outcome only gives that outcome as the
/// result of the whole call: if every attempt fails permanently with one and
/// the same error, the call fails with that error.
pub proof fn lemma_exp_backoff_single_outcome<T, F: FnMut() -> Attempt<T>>(
    f: F,
    only: Attempt<T>,
    result: Result<T, FirebaseError>,
)
    requires
        forall|outcome: Attempt<T>| call_ensures(f, (), outcome) ==> outcome == only,
        exists|last: Attempt<T>| call_ensures(f, (), last) && result == spec_settle(last),
    ensures
        result == spec_settle(only),
{
}

/// Where a call stands: being put together, waiting for the answer to an
/// attempt, or settled for good.
#[derive(Debug, PartialEq, Eq)]
pub enum CallState<T> {
    /// The request is being put together; nothing was sent yet.
    Building,
    /// The attempt with this number, counted from one, is under way.
    InFlight { attempt: u64 },
    /// The call is done, with this value.
    Success(T),
    /// The call is over, with this error.
    Failed(FirebaseError),
}

impl<T> CallState<T> {
    /// The call is settled: no attempt follows.
    pub open spec fn spec_is_settled(&self) -> bool {
        self is Success || self is Failed
    }

    /// Whether the call is settled.
    #[verifier::when_used_as_spec(spec_is_settled)]
    pub fn is_settled(&self) -> (settled: bool)
        ensures
            settled == self.spec_is_settled(),
    {
        match self {
            CallState::Success(_) => true,
            CallState::Failed(_) => true,
            _ => false,
        }
    }

    /// The state after the first attempt was started.
    pub open spec fn spec_launch(self) -> CallState<T> {
        match self {
            CallState::Building => CallState::InFlight { attempt: 1 },
            other => other,
        }
    }

    /// Starts the first attempt of a call that is being put together. Any
    /// other state stays as it is.
    pub fn launch(self) -> (next: CallState<T>)
        ensures
            next == self.spec_launch(),
    {
        match self {
            CallState::Building => CallState::InFlight { attempt: 1 },
            other => other,
        }
    }

    /// The state after an attempt came to `outcome`, and the pause to keep
    /// before the next attempt, if there is to be one.
    ///
    /// `pause` is what the backoff schedule answered when asked for the next
    /// interval: nothing, once the time allowed has run out. A success
    /// settles the call, and so does a permanent failure. A transient
    /// failure leads to the next attempt after the pause, or settles the
    /// call with its error where the schedule named no pause. Outside an
    /// attempt nothing changes. The number of the attempt stops growing at
    /// the largest number there is.
    pub open spec fn spec_advance<P>(self, outcome: Attempt<T>, pause: Option<P>) -> (
        CallState<T>,
        Option<P>,
    ) {
        match self {
            CallState::InFlight { attempt } => match outcome {
                Attempt::Success(value) => (CallState::Success(value), None),
                Attempt::Permanent(error) => (CallState::Failed(error), None),
                Attempt::Transient(error) => match pause {
                    Some(interval) => (
                        CallState::InFlight {
                            attempt: if attempt < u64::MAX {
                                (attempt + 1) as u64
                            } else {
                                attempt
                            },
                        },
                        Some(interval),
                    ),
                    None => (CallState::Failed(error), None),
                },
            },
            other => (other, None),
        }
    }

    /// Moves the call on by the outcome of the attempt that is under way.
    /// The second part of the result is the pause to keep before the next
    /// attempt; it is absent where no attempt follows.
    pub fn advance<P>(self, outcome: Attempt<T>, pause: Option<P>) -> (next: (
        CallState<T>,
        Option<P>,
    ))
        ensures
            next == self.spec_advance(outcome, pause),
    {
        match self {
            CallState::InFlight { attempt } => match outcome {
                Attempt::Success(value) => (CallState::Success(value), None),
                Attempt::Permanent(error) => (CallState::Failed(error), None),
                Attempt::Transient(error) => match pause {
                    Some(interval) => (
                        CallState::InFlight {
                            attempt: if attempt < u64::MAX {
                                attempt + 1
                            } else {
                                attempt
                            },
                        },
                        Some(interval),
                    ),
                    None => (CallState::Failed(error), None),
                },
            },
            other => (other, None),
        }
    }

    /// The result of a settled call.
    pub open spec fn spec_into_result(self) -> Option<Result<T, FirebaseError>> {
        match self {
            CallState::Success(value) => Some(Ok(value)),
            CallState::Failed(error) => Some(Err(error)),
            _ => None,
        }
    }

    /// The result of the call, once it is settled.
    pub fn into_result(self) -> (result: Option<Result<T, FirebaseError>>)
        ensures
            result == self.spec_into_result(),
    {
        match self {
            CallState::Success(value) => Some(Ok(value)),
            CallState::Failed(error) => Some(Err(error)),
            _ => None,
        }
    }
}

/// The state of a call whose attempt with the given number is under way.
pub open spec fn in_flight<T>(attempt: u64) -> CallState<T> {
    CallState::InFlight { attempt }
}

/// The state that a call is in after a run of attempts: the `i`th attempt
/// came to `outcomes[i]`, and the schedule then answered `pauses[i]`.
pub open spec fn spec_run<T, P>(
    state: CallState<T>,
    outcomes: Seq<Attempt<T>>,
    pauses: Seq<Option<P>>,
) -> CallState<T>
    decreases outcomes.len(),
{
    if outcomes.len() == 0 || pauses.len() == 0 {
        state
    } else {
        spec_run(
            state.spec_advance(outcomes[0], pauses[0]).0,
            outcomes.drop_first(),
            pauses.drop_first(),
        )
    }
}

/// A settled call stays as it is, whatever is reported to it: after a
/// success or a failure that ended the call, no attempt counts any more.
pub proof fn lemma_settled_is_final<T, P>(
    state: CallState<T>,
    outcomes: Seq<Attempt<T>>,
    pauses: Seq<Option<P>>,
)
    requires
        state.spec_is_settled(),
    ensures
        spec_run(state, outcomes, pauses) == state,
    decreases outcomes.len(),
{
    if outcomes.len() > 0 && pauses.len() > 0 {
        lemma_settled_is_final(
            state.spec_advance(outcomes[0], pauses[0]).0,
            outcomes.drop_first(),
            pauses.drop_first(),
        );
    }
}

/// A call whose first attempt fails permanently is over after that one
/// attempt, with the error of that attempt: no pause is asked for, and
/// nothing that is reported afterwards changes the state.
pub proof fn lemma_permanent_ends_at_once<T, P>(
    error: FirebaseError,
    outcomes: Seq<Attempt<T>>,
    pauses: Seq<Option<P>>,
)
    requires
        outcomes.len() > 0,
        pauses.len() > 0,
        outcomes[0] == Attempt::<T>::Permanent(error),
    ensures
        in_flight::<T>(1).spec_advance(outcomes[0], pauses[0]) == (
            CallState::<T>::Failed(error),
            None::<P>,
        ),
        spec_run(in_flight::<T>(1), outcomes, pauses) == CallState::<
            T,
        >::Failed(error),
{
    lemma_settled_is_final(
        CallState::<T>::Failed(error),
        outcomes.drop_first(),
        pauses.drop_first(),
    );
}

/// While every attempt fails transiently and the schedule names a pause,
/// the call goes from attempt to attempt, one for each failure.
pub proof fn lemma_transient_keeps_going<T, P>(
    first: u64,
    outcomes: Seq<Attempt<T>>,
    pauses: Seq<Option<P>>,
)
    requires
        outcomes.len() == pauses.len(),
        first + outcomes.len() <= u64::MAX,
        forall|i: int| 0 <= i < outcomes.len() ==> (#[trigger] outcomes[i]) is Transient,
        forall|i: int| 0 <= i < pauses.len() ==> (#[trigger] pauses[i]) is Some,
    ensures
        spec_run(in_flight::<T>(first), outcomes, pauses) == in_flight::<T>((first + outcomes.len()) as u64),
    decreases outcomes.len(),
{
    if outcomes.len() > 0 {
        assert(outcomes[0] is Transient);
        assert(pauses[0] is Some);
        let rest = outcomes.drop_first();
        let rest_pauses = pauses.drop_first();
        assert forall|i: int| 0 <= i < rest.len() implies (#[trigger] rest[i]) is Transient by {
            assert(rest[i] == outcomes[i + 1]);
        }
        assert forall|i: int| 0 <= i < rest_pauses.len() implies (#[trigger] rest_pauses[i])
            is Some by {
            assert(rest_pauses[i] == pauses[i + 1]);
        }
        lemma_transient_keeps_going((first + 1) as u64, rest, rest_pauses);
    }
}

/// A call whose every attempt fails transiently ends as soon as the schedule
/// names no further pause, and not before: if that happens after attempt
/// `last + 1`, the call is over with the error of that attempt, and exactly
/// `last + 1` attempts were made.
pub proof fn lemma_transient_ends_with_schedule<T, P>(
    outcomes: Seq<Attempt<T>>,
    pauses: Seq<Option<P>>,
    last: int,
)
    requires
        outcomes.len() == pauses.len(),
        0 <= last < outcomes.len() < u64::MAX,
        forall|i: int| 0 <= i < outcomes.len() ==> (#[trigger] outcomes[i]) is Transient,
        forall|i: int| 0 <= i < last ==> (#[trigger] pauses[i]) is Some,
        pauses[last] is None,
    ensures
        spec_run(
            in_flight::<T>(1),
            outcomes.subrange(0, last),
            pauses.subrange(0, last),
        ) == in_flight::<T>((last + 1) as u64),
        spec_run(in_flight::<T>(1), outcomes, pauses) == CallState::<
            T,
        >::Failed(outcomes[last]->Transient_0),
{
    lemma_transient_keeps_going(1, outcomes.subrange(0, last), pauses.subrange(0, last));
    lemma_run_split(in_flight::<T>(1), outcomes, pauses, last);
    let tail = outcomes.subrange(last, outcomes.len() as int);
    let tail_pauses = pauses.subrange(last, pauses.len() as int);
    assert(tail[0] == outcomes[last]);
    assert(tail_pauses[0] == pauses[last]);
    assert(outcomes[last] is Transient);
    lemma_settled_is_final(
        CallState::<T>::Failed(outcomes[last]->Transient_0),
        tail.drop_first(),
        tail_pauses.drop_first(),
    );
}

/// When an attempt settles a call, the result of the call is what
/// [`settle`] makes of the outcome of that attempt: a call that is moved on
/// step by step ends as one that is retried by [`exp_backoff`] does.
pub proof fn lemma_settled_result_is_that_of_the_last_attempt<T, P>(
    attempt: u64,
    outcome: Attempt<T>,
    pause: Option<P>,
)
    ensures
        in_flight::<T>(attempt).spec_advance(outcome, pause).0.spec_is_settled() <==> !(outcome
            is Transient && pause is Some),
        in_flight::<T>(attempt).spec_advance(outcome, pause).0.spec_is_settled() ==> in_flight::<
            T,
        >(attempt).spec_advance(outcome, pause).0.spec_into_result() == Some(spec_settle(outcome)),
{
}

/// A call that is still under way after a run of attempts has seen nothing
/// but transient failures, each followed by a pause.
pub proof fn lemma_unsettled_run_only_paused<T, P>(
    first: u64,
    outcomes: Seq<Attempt<T>>,
    pauses: Seq<Option<P>>,
)
    requires
        outcomes.len() == pauses.len(),
        !spec_run(in_flight::<T>(first), outcomes, pauses).spec_is_settled(),
    ensures
        forall|i: int| 0 <= i < outcomes.len() ==> (#[trigger] outcomes[i]) is Transient,
        forall|i: int| 0 <= i < pauses.len() ==> (#[trigger] pauses[i]) is Some,
    decreases outcomes.len(),
{
    if outcomes.len() > 0 {
        let state = in_flight::<T>(first);
        let next = state.spec_advance(outcomes[0], pauses[0]).0;
        let rest = outcomes.drop_first();
        let rest_pauses = pauses.drop_first();
        if next.spec_is_settled() {
            lemma_settled_is_final(next, rest, rest_pauses);
        } else {
            lemma_unsettled_run_only_paused(next->attempt, rest, rest_pauses);
            assert forall|i: int| 0 <= i < outcomes.len() implies (#[trigger] outcomes[i])
                is Transient by {
                if i > 0 {
                    assert(outcomes[i] == rest[i - 1]);
                }
            }
            assert forall|i: int| 0 <= i < pauses.len() implies (#[trigger] pauses[i]) is Some by {
                if i > 0 {
                    assert(pauses[i] == rest_pauses[i - 1]);
                }
            }
        }
    }
}

/// With a schedule that names a pause exactly as long as no more than
/// `budget` has passed, no attempt starts later than the budget and the
/// pause before it.
///
/// `finished[i]` is the time that has passed when attempt `i + 1` ends, and
/// the attempt after it starts when the pause `pauses[i]` is over. If the
/// call is still under way after the first `made` attempts, the next
/// attempt starts within the budget and one pause.
pub proof fn lemma_attempts_start_within_budget_and_pause<T>(
    outcomes: Seq<Attempt<T>>,
    pauses: Seq<Option<nat>>,
    finished: Seq<int>,
    budget: int,
    made: int,
)
    requires
        outcomes.len() == pauses.len() == finished.len(),
        0 < made <= outcomes.len(),
        forall|i: int|
            0 <= i < pauses.len() ==> ((#[trigger] pauses[i]) is Some <==> finished[i] <= budget),
        !spec_run(
            in_flight::<T>(1),
            outcomes.subrange(0, made),
            pauses.subrange(0, made),
        ).spec_is_settled(),
    ensures
        pauses[made - 1] is Some,
        finished[made - 1] + pauses[made - 1]->0 <= budget + pauses[made - 1]->0,
{
    let head_pauses = pauses.subrange(0, made);
    lemma_unsettled_run_only_paused(1, outcomes.subrange(0, made), head_pauses);
    assert(head_pauses[made - 1] == pauses[made - 1]);
}

/// A run can be cut in two: the second part goes on from where the first
/// part ended.
pub proof fn lemma_run_split<T, P>(
    state: CallState<T>,
    outcomes: Seq<Attempt<T>>,
    pauses: Seq<Option<P>>,
    at: int,
)
    requires
        outcomes.len() == pauses.len(),
        0 <= at <= outcomes.len(),
    ensures
        spec_run(state, outcomes, pauses) == spec_run(
            spec_run(state, outcomes.subrange(0, at), pauses.subrange(0, at)),
            outcomes.subrange(at, outcomes.len() as int),
            pauses.subrange(at, pauses.len() as int),
        ),
    decreases at,
{
    if at == 0 {
        assert(outcomes.subrange(0, outcomes.len() as int) =~= outcomes);
        assert(pauses.subrange(0, pauses.len() as int) =~= pauses);
    } else {
        let next = state.spec_advance(outcomes[0], pauses[0]).0;
        lemma_run_split(next, outcomes.drop_first(), pauses.drop_first(), at - 1);
        assert(outcomes.subrange(0, at).drop_first() =~= outcomes.drop_first().subrange(
            0,
            at - 1,
        ));
        assert(pauses.subrange(0, at).drop_first() =~= pauses.drop_first().subrange(0, at - 1));
        assert(outcomes.drop_first().subrange(at - 1, outcomes.len() - 1) =~= outcomes.subrange(
            at,
            outcomes.len() as int,
        ));
        assert(pauses.drop_first().subrange(at - 1, pauses.len() - 1) =~= pauses.subrange(
            at,
            pauses.len() as int,
        ));
    }
}

} // verus!
