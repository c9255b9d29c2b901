use vstd::prelude::*;

use crate::counts::Counts;
use crate::state::State;

verus! {

/// Decides, from the tallies after a failure while closed, whether the breaker opens.
pub trait TripRule {
    fn ready_to_trip(&self, counts: &Counts) -> bool;
}

/// Decides whether the raw outcome of a guarded call counts as a success.
///
/// The breaker itself only ever receives the boolean; callers classify with this rule.
pub trait SuccessRule {
    fn is_successful(&self, outcome: &Result<(), String>) -> bool;
}

/// Told of every change of state, with the breaker's name, the old and the new state.
///
/// It is called synchronously, once the new state is in place, from within the
/// breaker operation that made the change; it must not call back into that breaker.
pub trait StateListener {
    fn on_state_change(&self, name: &str, from: State, to: State);
}

/// The number of consecutive failures at which the default rule trips.
pub const DEFAULT_TRIP_FAILURES: u64 = 10;

/// The default trip rule: ten or more consecutive failures.
pub fn default_ready_to_trip(counts: &Counts) -> (r: bool)
    ensures
        r == (counts.consecutive_failures >= DEFAULT_TRIP_FAILURES),
{
    counts.consecutive_failures >= DEFAULT_TRIP_FAILURES
}

/// The default success rule: exactly the `Ok` outcomes succeed.
pub fn default_is_successful(outcome: &Result<(), String>) -> (r: bool)
    ensures
        r == outcome.is_ok(),
{
    match outcome {
        Ok(()) => true,
        Err(_) => false,
    }
}

/// The rule of [`default_ready_to_trip`].
#[derive(Clone, Copy, Debug)]
pub struct ConsecutiveFailures;

impl TripRule for ConsecutiveFailures {
    fn ready_to_trip(&self, counts: &Counts) -> bool {
        default_ready_to_trip(counts)
    }
}

/// The rule of [`default_is_successful`].
#[derive(Clone, Copy, Debug)]
pub struct OkIsSuccess;

impl SuccessRule for OkIsSuccess {
    fn is_successful(&self, outcome: &Result<(), String>) -> bool {
        default_is_successful(outcome)
    }
}

/// A listener that ignores every change of state.
#[derive(Clone, Copy, Debug)]
pub struct NoListener;

impl StateListener for NoListener {
    fn on_state_change(&self, _name: &str, _from: State, _to: State) {
    }
}

} // verus!
