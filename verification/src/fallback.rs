//! The one-step fallback policy around a monthly fetch.
//!
//! A fetch attempt for the current month may find that no data row has been
//! published yet. In that one case — and in no other — the orchestrator tries
//! once more, against the previous calendar month. The decision between
//! outcomes is pure and lives here; performing a fetch does not.

use vstd::prelude::*;
use crate::FeedError;
use crate::month::{YearMonth, prev_month_spec, previous_month};

verus! {

/// What to do after the first fetch attempt: stop with a result, or make
/// exactly one more attempt against the given month.
#[derive(Debug, PartialEq)]
pub enum Plan<T> {
    Done(Result<T, FeedError>),
    Retry(YearMonth),
}

/// The fallback decision after the first attempt, for the month containing
/// `now`: success and every failure but `NoEntries` are final; `NoEntries`
/// asks for one retry against the previous month, unless stepping back a
/// month is itself undefined, in which case `NoEntries` stands.
pub open spec fn decide_spec<T>(now: YearMonth, first: Result<T, FeedError>) -> Plan<T> {
    match first {
        Ok(rec) => Plan::Done(Ok(rec)),
        Err(FeedError::NoEntries) => match prev_month_spec(now) {
            Some(prev) => Plan::Retry(prev),
            None => Plan::Done(Err(FeedError::NoEntries)),
        },
        Err(e) => Plan::Done(Err(e)),
    }
}

/// How many fetch attempts the policy makes in total for a first outcome.
pub open spec fn attempt_count<T>(now: YearMonth, first: Result<T, FeedError>) -> int {
    match decide_spec(now, first) {
        Plan::Done(_) => 1,
        Plan::Retry(_) => 2,
    }
}

/// The policy's overall result, given the first outcome and — consulted only
/// when a retry was asked for — the second.
pub open spec fn fallback_result<T>(
    now: YearMonth,
    first: Result<T, FeedError>,
    second: Result<T, FeedError>,
) -> Result<T, FeedError> {
    match decide_spec(now, first) {
        Plan::Done(r) => r,
        Plan::Retry(_) => second,
    }
}

/// Decides what follows the first fetch attempt.
pub fn decide_after_first<T>(now: YearMonth, first: Result<T, FeedError>) -> (p: Plan<T>)
    requires
        now.wf(),
    ensures
        p == decide_spec(now, first),
        p matches Plan::Retry(prev) ==> prev.wf(),
{
    match first {
        Ok(rec) => Plan::Done(Ok(rec)),
        Err(FeedError::NoEntries) => match previous_month(now) {
            Some(prev) => Plan::Retry(prev),
            None => Plan::Done(Err(FeedError::NoEntries)),
        },
        Err(e) => Plan::Done(Err(e)),
    }
}

/// Concludes the policy after a retry: the second outcome, whatever it was,
/// is the overall result.
pub fn finish_after_retry<T>(now: YearMonth, second: Result<T, FeedError>) -> (r: Result<
    T,
    FeedError,
>)
    ensures
        r == second,
        decide_spec::<T>(now, Err(FeedError::NoEntries)) matches Plan::Retry(_) ==> r
            == fallback_result::<T>(now, Err(FeedError::NoEntries), second),
{
    second
}

/// Law: when the current month has no entries and the previous month's fetch
/// succeeds, the overall result is the previous month's record, and exactly
/// two fetch attempts are made.
pub proof fn lemma_no_entries_falls_back<T>(now: YearMonth, prev: YearMonth, rec: T)
    requires
        now.wf(),
        prev_month_spec(now) == Some(prev),
    ensures
        decide_spec::<T>(now, Err(FeedError::NoEntries)) == Plan::<T>::Retry(prev),
        fallback_result(now, Err(FeedError::NoEntries), Ok(rec)) == Ok::<T, FeedError>(rec),
        attempt_count::<T>(now, Err(FeedError::NoEntries)) == 2,
{
}

/// Law: a network failure on the first attempt is final — it is returned as
/// is, after exactly one fetch attempt, whatever a second attempt would have
/// yielded.
pub proof fn lemma_network_error_is_final<T>(now: YearMonth, second: Result<T, FeedError>)
    requires
        now.wf(),
    ensures
        decide_spec::<T>(now, Err(FeedError::Network)) == Plan::<T>::Done(
            Err(FeedError::Network),
        ),
        fallback_result(now, Err(FeedError::Network), second) == Err::<T, FeedError>(
            FeedError::Network,
        ),
        attempt_count::<T>(now, Err(FeedError::Network)) == 1,
{
}

/// The status code served for an orchestrator outcome: success maps to 200,
/// every failure to one generic server error with no detail of its kind.
pub fn response_status<T>(outcome: &Result<T, FeedError>) -> (s: u16)
    ensures
        s == (if outcome is Ok {
            200int
        } else {
            500int
        }),
{
    match outcome {
        Ok(_) => 200,
        Err(_) => 500,
    }
}

} // verus!
