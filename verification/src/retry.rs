//! Bounded retry with exponential backoff for one download item, and the
//! resolution of a whole item from the results its attempts produced.

use vstd::prelude::*;
use vstd::pervasive::unreached;

verus! {

/// Retries after the first attempt of one item.
pub const RETRY_COUNT: usize = 3;

/// Attempts an item may consume: one initial try plus the retries.
pub const MAX_ATTEMPTS: usize = 4;

pub open spec fn pow2(n: nat) -> nat
    decreases n,
{
    if n == 0 {
        1
    } else {
        2 * pow2((n - 1) as nat)
    }
}

/// Seconds waited before attempt `attempt` (counted from zero): nothing
/// before the first attempt, `2^attempt` before each retry.
pub open spec fn backoff_secs_spec(attempt: nat) -> nat {
    if attempt == 0 {
        0
    } else {
        pow2(attempt)
    }
}

/// The backoff delay before the given attempt.
pub fn backoff_secs(attempt: usize) -> (r: u64)
    requires
        attempt < MAX_ATTEMPTS,
    ensures
        r == backoff_secs_spec(attempt as nat),
{
    proof {
        assert(pow2(0) == 1);
        assert(pow2(1) == 2);
        assert(pow2(2) == 4);
        assert(pow2(3) == 8);
    }
    match attempt {
        0 => 0,
        1 => 2,
        2 => 4,
        _ => 8,
    }
}

/// What one attempt of one item came to, as the transfer reported it: a
/// failure carries the error message, whether from the transport or from
/// the throughput guard.
pub enum AttemptEvent {
    Success,
    Failure(String),
}

/// The terminal outcome of one item.
pub enum ItemOutcome {
    /// The item was downloaded; the counter moved once.
    Completed,
    /// The cancellation flag was observed before an attempt was made.
    Stopped,
    /// Every attempt failed; carries the last error message.
    Exhausted(String),
}

/// The decision taken before attempt `attempt` of one item.
pub enum RetryDecision {
    /// The cancellation flag is set: fail the item now, attempt nothing.
    Stop,
    /// The attempt budget is spent: fail the item with its last error.
    GiveUp,
    /// Make the attempt, after waiting out the backoff delay.
    Proceed { delay_secs: u64 },
}

/// Decides what happens before attempt number `attempt` (counted from
/// zero) of one item: cancellation wins over everything, an exhausted
/// budget ends the item, and otherwise the attempt proceeds after its
/// backoff delay.
pub fn next_attempt(attempt: usize, cancelled: bool) -> (r: RetryDecision)
    ensures
        cancelled ==> r is Stop,
        !cancelled && attempt >= MAX_ATTEMPTS ==> r is GiveUp,
        !cancelled && attempt < MAX_ATTEMPTS ==> (r matches RetryDecision::Proceed { delay_secs }
            && delay_secs == backoff_secs_spec(attempt as nat)),
{
    if cancelled {
        RetryDecision::Stop
    } else if attempt >= MAX_ATTEMPTS {
        RetryDecision::GiveUp
    } else {
        RetryDecision::Proceed { delay_secs: backoff_secs(attempt) }
    }
}

/// Some attempt among the first `n` succeeded.
pub open spec fn successful_within(events: Seq<AttemptEvent>, n: int) -> bool {
    exists|i: int| 0 <= i < n && events[i] is Success
}

/// Resolves one item from the results its attempts would produce, under
/// the cancellation flag as observed before the item started: stopped
/// items attempt nothing, a success inside the budget completes the item,
/// and otherwise the item is exhausted with the last attempt's message.
pub fn resolve_item(events: &Vec<AttemptEvent>, cancelled: bool) -> (r: ItemOutcome)
    requires
        events@.len() >= MAX_ATTEMPTS,
    ensures
        r is Stopped <==> cancelled,
        !cancelled ==> ((r is Completed) <==> successful_within(events@, MAX_ATTEMPTS as int)),
        !cancelled && !successful_within(events@, MAX_ATTEMPTS as int) ==> (r matches
            ItemOutcome::Exhausted(m) && m@ == events@[MAX_ATTEMPTS - 1]->Failure_0@),
{
    if cancelled {
        return ItemOutcome::Stopped;
    }
    let mut attempt: usize = 0;
    while attempt < MAX_ATTEMPTS
        invariant
            !cancelled,
            attempt <= MAX_ATTEMPTS,
            events@.len() >= MAX_ATTEMPTS,
            forall|j: int| 0 <= j < attempt ==> events@[j] is Failure,
        decreases MAX_ATTEMPTS - attempt,
    {
        match &events[attempt] {
            AttemptEvent::Success => {
                return ItemOutcome::Completed;
            },
            AttemptEvent::Failure(_) => {},
        }
        attempt += 1;
    }
    match &events[MAX_ATTEMPTS - 1] {
        AttemptEvent::Failure(m) => ItemOutcome::Exhausted(m.clone()),
        AttemptEvent::Success => unreached(),
    }
}

} // verus!
