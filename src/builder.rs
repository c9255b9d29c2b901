use vstd::prelude::*;

use crate::breaker::{CircuitBreaker, Core, Options, Timing};
use crate::rules::{ConsecutiveFailures, NoListener, OkIsSuccess, StateListener, SuccessRule, TripRule};
use crate::state::State;

verus! {

broadcast use vstd::string::to_string_from_display_ensures_for_str;

/// The window length of a new builder, in milliseconds.
pub const DEFAULT_INTERVAL: u64 = 1000;

/// The open-state cooldown of a new builder, in milliseconds.
pub const DEFAULT_TIMEOUT: u64 = 60000;

/// Gathers a breaker's configuration; `build` makes the breaker.
pub struct CircuitBreakerBuilder<R, S, L> {
    opt: Options<R, S, L>,
}

impl CircuitBreakerBuilder<ConsecutiveFailures, OkIsSuccess, NoListener> {
    /// A builder with the default name, timings, threshold one and the default rules.
    pub fn new() -> (r: Self)
        ensures
            r.spec_name() == "default_circuit_breaker"@,
            r.timing() == (Timing { interval: DEFAULT_INTERVAL, timeout: DEFAULT_TIMEOUT, threshold: 1 }),
            r.spec_trip() == ConsecutiveFailures,
            r.spec_success() == OkIsSuccess,
            r.spec_listener() == NoListener,
    {
        CircuitBreakerBuilder {
            opt: Options {
                name: "default_circuit_breaker".to_string(),
                timing: Timing { interval: DEFAULT_INTERVAL, timeout: DEFAULT_TIMEOUT, threshold: 1 },
                trip: ConsecutiveFailures,
                success: OkIsSuccess,
                listener: NoListener,
            },
        }
    }
}

impl<R, S, L> CircuitBreakerBuilder<R, S, L> {
    pub closed spec fn timing(&self) -> Timing {
        self.opt.timing
    }

    pub closed spec fn spec_name(&self) -> Seq<char> {
        self.opt.name@
    }

    pub closed spec fn spec_trip(&self) -> R {
        self.opt.trip
    }

    pub closed spec fn spec_success(&self) -> S {
        self.opt.success
    }

    pub closed spec fn spec_listener(&self) -> L {
        self.opt.listener
    }

    /// `other` holds the same rules and listener as `self`.
    pub open spec fn same_rules(&self, other: &Self) -> bool {
        &&& other.spec_trip() == self.spec_trip()
        &&& other.spec_success() == self.spec_success()
        &&& other.spec_listener() == self.spec_listener()
    }

    pub fn name(self, name: &str) -> (r: Self)
        ensures
            r.spec_name() == name@,
            r.timing() == self.timing(),
            self.same_rules(&r),
    {
        let mut opt = self.opt;
        opt.name = name.to_string();
        CircuitBreakerBuilder { opt }
    }

    /// Sets the window length while closed, in milliseconds; zero turns rollover off.
    pub fn interval(self, interval: u64) -> (r: Self)
        ensures
            r.spec_name() == self.spec_name(),
            r.timing() == (Timing { interval, ..self.timing() }),
            self.same_rules(&r),
    {
        let mut opt = self.opt;
        opt.timing.interval = interval;
        CircuitBreakerBuilder { opt }
    }

    /// Sets the cooldown while open, in milliseconds.
    pub fn timeout(self, timeout: u64) -> (r: Self)
        ensures
            r.spec_name() == self.spec_name(),
            r.timing() == (Timing { timeout, ..self.timing() }),
            self.same_rules(&r),
    {
        let mut opt = self.opt;
        opt.timing.timeout = timeout;
        CircuitBreakerBuilder { opt }
    }

    /// Sets how many probes half-open admits, and how many successes in a row close it.
    pub fn threshold(self, threshold: u64) -> (r: Self)
        ensures
            r.spec_name() == self.spec_name(),
            r.timing() == (Timing { threshold, ..self.timing() }),
            self.same_rules(&r),
    {
        let mut opt = self.opt;
        opt.timing.threshold = threshold;
        CircuitBreakerBuilder { opt }
    }

    pub fn ready_to_trip<R2: TripRule>(self, rule: R2) -> (r: CircuitBreakerBuilder<R2, S, L>)
        ensures
            r.spec_trip() == rule,
            r.spec_success() == self.spec_success(),
            r.spec_listener() == self.spec_listener(),
            r.spec_name() == self.spec_name(),
            r.timing() == self.timing(),
    {
        let Options { name, timing, trip, success, listener } = self.opt;
        CircuitBreakerBuilder { opt: Options { name, timing, trip: rule, success, listener } }
    }

    pub fn on_state_change<L2: StateListener>(self, listener: L2) -> (r: CircuitBreakerBuilder<R, S, L2>)
        ensures
            r.spec_listener() == listener,
            r.spec_trip() == self.spec_trip(),
            r.spec_success() == self.spec_success(),
            r.spec_name() == self.spec_name(),
            r.timing() == self.timing(),
    {
        let Options { name, timing, trip, success, listener: _ } = self.opt;
        CircuitBreakerBuilder { opt: Options { name, timing, trip, success, listener } }
    }

    pub fn is_successful<S2: SuccessRule>(self, rule: S2) -> (r: CircuitBreakerBuilder<R, S2, L>)
        ensures
            r.spec_success() == rule,
            r.spec_trip() == self.spec_trip(),
            r.spec_listener() == self.spec_listener(),
            r.spec_name() == self.spec_name(),
            r.timing() == self.timing(),
    {
        let Options { name, timing, trip, success: _, listener } = self.opt;
        CircuitBreakerBuilder { opt: Options { name, timing, trip, success: rule, listener } }
    }
}

impl<R: TripRule, S: SuccessRule, L: StateListener> CircuitBreakerBuilder<R, S, L> {
    /// A breaker with this configuration: closed, in generation zero, nothing counted.
    pub fn build(self) -> (r: CircuitBreaker<R, S, L>)
        ensures
            r@ == Core::initial(),
            r.timing() == self.timing(),
            r.spec_name() == self.spec_name(),
            r.spec_trip() == self.spec_trip(),
            r.spec_success() == self.spec_success(),
            r.spec_listener() == self.spec_listener(),
            r.transitions() == Seq::<(State, State)>::empty(),
            r.wf(),
    {
        CircuitBreaker::from_options(self.opt)
    }
}

} // verus!
