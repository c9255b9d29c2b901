use vstd::prelude::*;

use crate::counts::Counts;
use crate::rules::{StateListener, SuccessRule, TripRule};
use crate::state::{Rejected, State};

verus! {

/// The generation after `g`; the counter wraps round to zero after `u64::MAX`.
pub open spec fn next_generation(g: u64) -> u64 {
    if g == u64::MAX {
        0
    } else {
        (g + 1) as u64
    }
}

/// `a + b`, held at `u64::MAX` where the sum would not fit.
pub open spec fn capped_sum(a: u64, b: u64) -> u64 {
    if a + b > u64::MAX {
        u64::MAX
    } else {
        (a + b) as u64
    }
}

/// The transitions a breaker may make.
pub open spec fn is_edge(from: State, to: State) -> bool {
    ||| (from == State::Close && to == State::Open)
    ||| (from == State::Open && to == State::HalfOpen)
    ||| (from == State::HalfOpen && to == State::Close)
    ||| (from == State::HalfOpen && to == State::Open)
}

/// `log` is a chain of transitions, each along an edge, leading from `from` to `to`.
pub open spec fn is_walk(log: Seq<(State, State)>, from: State, to: State) -> bool
    decreases log.len(),
{
    if log.len() == 0 {
        from == to
    } else {
        log[0].0 == from && is_edge(log[0].0, log[0].1) && is_walk(log.drop_first(), log[0].1, to)
    }
}

/// A walk followed by one more edge is a walk.
pub proof fn lemma_walk_push(log: Seq<(State, State)>, from: State, mid: State, to: State)
    requires
        is_walk(log, from, mid),
        is_edge(mid, to),
    ensures
        is_walk(log.push((mid, to)), from, to),
    decreases log.len(),
{
    if log.len() == 0 {
        assert(log.push((mid, to)).drop_first() =~= Seq::<(State, State)>::empty());
        reveal_with_fuel(is_walk, 2);
    } else {
        lemma_walk_push(log.drop_first(), log[0].1, mid, to);
        assert(log.push((mid, to)).drop_first() =~= log.drop_first().push((mid, to)));
        assert(log.push((mid, to))[0] == log[0]);
    }
}

/// The timings and the threshold that a breaker was built with. Times are in milliseconds.
///
/// `interval` is the length of a statistics window while closed (zero: the window never
/// rolls over on its own); `timeout` is the cooldown while open; `threshold` is both the
/// number of probes admitted while half-open and the run of successes that closes it.
#[derive(Clone, Copy, Debug, PartialEq, Eq, Structural)]
pub struct Timing {
    pub interval: u64,
    pub timeout: u64,
    pub threshold: u64,
}

/// Everything a breaker's decisions depend on besides its configuration.
///
/// `expiry` is measured, like every time here, in milliseconds since the breaker was built.
#[derive(Clone, Copy, Debug, PartialEq, Eq, Structural)]
pub struct Core {
    pub state: State,
    pub counts: Counts,
    pub generation: u64,
    pub expiry: u64,
}

impl Core {
    /// A breaker as built: closed, generation zero, nothing counted, no expiry.
    pub open spec fn initial() -> Core {
        Core { state: State::Close, counts: Counts::zeroed(), generation: 0, expiry: 0 }
    }

    /// The end of a new generation that starts at `now` in the current state.
    pub open spec fn next_expiry(self, t: Timing, now: u64) -> u64 {
        match self.state {
            State::Close => if t.interval == 0 {
                now
            } else {
                capped_sum(now, t.interval)
            },
            State::Open => capped_sum(self.expiry, t.timeout),
            State::HalfOpen => 0,
        }
    }

    /// A new generation: the counter moves on, the tallies are cleared, the expiry reset.
    pub open spec fn renewed(self, t: Timing, now: u64) -> Core {
        Core {
            state: self.state,
            counts: Counts::zeroed(),
            generation: next_generation(self.generation),
            expiry: self.next_expiry(t, now),
        }
    }

    /// The breaker after moving to state `s`; nothing changes where it is already there.
    pub open spec fn entered(self, s: State, t: Timing, now: u64) -> Core {
        if self.state == s {
            self
        } else {
            Core { state: s, ..self }.renewed(t, now)
        }
    }

    /// The breaker after the changes that time alone brings about by `now`.
    pub open spec fn refreshed(self, t: Timing, now: u64) -> Core {
        match self.state {
            State::Close => if self.expiry != 0 && self.expiry < now {
                self.renewed(t, now)
            } else {
                self
            },
            State::Open => if self.expiry < now {
                self.renewed(t, now).entered(State::HalfOpen, t, now)
            } else {
                self
            },
            State::HalfOpen => self,
        }
    }

    /// Whether an attempt is admitted, once time has been taken into account.
    pub open spec fn admits(self, t: Timing) -> bool {
        match self.state {
            State::Close => true,
            State::Open => false,
            State::HalfOpen => self.counts.total_requests < t.threshold,
        }
    }

    /// The reason given for an attempt that is not admitted.
    pub open spec fn rejection(self) -> Rejected {
        if self.state == State::Open {
            Rejected::BreakerOpen
        } else {
            Rejected::TooManyRequests
        }
    }

    /// The breaker after admitting an attempt.
    pub open spec fn admitted(self) -> Core {
        Core { counts: self.counts.requested(), ..self }
    }

    /// The breaker after a success of the current generation is recorded at `now`.
    pub open spec fn after_success(self, t: Timing, now: u64) -> Core {
        let c = Core { counts: self.counts.succeeded(), ..self };
        match self.state {
            State::Close => if c.expiry < now {
                c.renewed(t, now)
            } else {
                c
            },
            State::Open => c,
            State::HalfOpen => if c.counts.consecutive_success >= t.threshold {
                c.entered(State::Close, t, now)
            } else {
                c
            },
        }
    }

    /// The breaker after a failure of the current generation is recorded at `now`, where
    /// `tripped` is the trip rule's verdict on the tallies that include it.
    pub open spec fn after_failure(self, t: Timing, now: u64, tripped: bool) -> Core {
        let c = Core { counts: self.counts.failed(), ..self };
        match self.state {
            State::Close => if tripped {
                c.entered(State::Open, t, now)
            } else {
                c
            },
            State::Open => c,
            State::HalfOpen => c.entered(State::Open, t, now),
        }
    }

    /// The breaker after the outcome of an attempt admitted in generation `g` is
    /// reported at `now`; a report from another generation changes no tallies.
    pub open spec fn reported(self, t: Timing, g: u64, success: bool, now: u64, tripped: bool) -> Core {
        let r = self.refreshed(t, now);
        if g != r.generation {
            r
        } else if success {
            r.after_success(t, now)
        } else {
            r.after_failure(t, now, tripped)
        }
    }

    /// Whether the trip rule is asked at all for this report: only for a current
    /// failure while closed.
    pub open spec fn consults_rule(self, t: Timing, g: u64, success: bool, now: u64) -> bool {
        let r = self.refreshed(t, now);
        g == r.generation && !success && r.state == State::Close
    }

    /// The change of state made in moving to `s`: none where the breaker is already there.
    pub open spec fn steps_to(self, s: State) -> Seq<(State, State)> {
        if self.state == s {
            Seq::empty()
        } else {
            seq![(self.state, s)]
        }
    }

    /// The changes of state that time alone brings about by `now`: only the end of a
    /// cooldown, which moves the breaker from open to half-open.
    pub open spec fn refresh_steps(self, now: u64) -> Seq<(State, State)> {
        if self.state == State::Open && self.expiry < now {
            seq![(State::Open, State::HalfOpen)]
        } else {
            Seq::empty()
        }
    }

    /// The changes of state made by recording a success: only a half-open breaker whose
    /// run of successes reaches `threshold` closes.
    pub open spec fn success_steps(self, t: Timing) -> Seq<(State, State)> {
        if self.state == State::HalfOpen && self.counts.succeeded().consecutive_success >= t.threshold {
            seq![(State::HalfOpen, State::Close)]
        } else {
            Seq::empty()
        }
    }

    /// The changes of state made by recording a failure, given the trip rule's verdict.
    pub open spec fn failure_steps(self, tripped: bool) -> Seq<(State, State)> {
        match self.state {
            State::Close => if tripped {
                seq![(State::Close, State::Open)]
            } else {
                Seq::empty()
            },
            State::Open => Seq::empty(),
            State::HalfOpen => seq![(State::HalfOpen, State::Open)],
        }
    }

    /// The changes of state made by a report, in order: those that time brings about,
    /// then, for a report of the current generation, the one its outcome makes.
    pub open spec fn report_steps(self, t: Timing, g: u64, success: bool, now: u64, tripped: bool) -> Seq<
        (State, State),
    > {
        let r = self.refreshed(t, now);
        self.refresh_steps(now) + if g != r.generation {
            Seq::empty()
        } else if success {
            r.success_steps(t)
        } else {
            r.failure_steps(tripped)
        }
    }
}

/// Leave to report the outcome of one admitted attempt. Reporting twice through copies
/// of one permit records the outcome twice.
#[derive(Clone, Copy, Debug)]
pub struct Permit {
    generation: u64,
}

impl View for Permit {
    type V = u64;

    /// The generation in which the attempt was admitted.
    closed spec fn view(&self) -> u64 {
        self.generation
    }
}

impl Permit {
    pub fn generation(&self) -> (r: u64)
        ensures
            r == self@,
    {
        self.generation
    }
}

/// The fixed configuration of a breaker.
pub struct Options<R, S, L> {
    pub(crate) name: String,
    pub(crate) timing: Timing,
    pub(crate) trip: R,
    pub(crate) success: S,
    pub(crate) listener: L,
}

/// A circuit breaker. Each operation takes `now`, the milliseconds elapsed since the
/// breaker was built; callers that share a breaker hold it behind a lock.
pub struct CircuitBreaker<R, S, L> {
    opt: Options<R, S, L>,
    core: Core,
    log: Ghost<Seq<(State, State)>>,
    names: Ghost<Seq<Seq<char>>>,
}

impl<R, S, L> View for CircuitBreaker<R, S, L> {
    type V = Core;

    closed spec fn view(&self) -> Core {
        self.core
    }
}


impl<R: TripRule, S: SuccessRule, L: StateListener> CircuitBreaker<R, S, L> {
    pub closed spec fn timing(&self) -> Timing {
        self.opt.timing
    }

    pub closed spec fn spec_name(&self) -> Seq<char> {
        self.opt.name@
    }

    /// The trip rule the breaker consults.
    pub closed spec fn spec_trip(&self) -> R {
        self.opt.trip
    }

    /// The success rule the breaker classifies outcomes with.
    pub closed spec fn spec_success(&self) -> S {
        self.opt.success
    }

    /// The listener the breaker tells of its changes of state.
    pub closed spec fn spec_listener(&self) -> L {
        self.opt.listener
    }

    /// The changes of state reported to the listener so far, in order: one entry for
    /// each call of the listener.
    pub closed spec fn transitions(&self) -> Seq<(State, State)> {
        self.log@
    }

    /// The name handed to the listener on each of its calls so far, in order.
    pub closed spec fn heard_names(&self) -> Seq<Seq<char>> {
        self.names@
    }

    /// The listener has heard of a chain of legal transitions from the initial state to
    /// the current one, each time with the breaker's name.
    pub open spec fn wf(&self) -> bool {
        &&& is_walk(self.transitions(), State::Close, self@.state)
        &&& self.heard_names().len() == self.transitions().len()
        &&& forall|i: int| 0 <= i < self.heard_names().len() ==> #[trigger] self.heard_names()[i] == self.spec_name()
    }

    /// `other` has the configuration of `self`: name, timings, rules and listener.
    pub open spec fn keeps_config(&self, other: &Self) -> bool {
        &&& other.timing() == self.timing()
        &&& other.spec_name() == self.spec_name()
        &&& other.spec_trip() == self.spec_trip()
        &&& other.spec_success() == self.spec_success()
        &&& other.spec_listener() == self.spec_listener()
    }

    pub(crate) fn from_options(opt: Options<R, S, L>) -> (r: Self)
        ensures
            r@ == Core::initial(),
            r.timing() == opt.timing,
            r.spec_name() == opt.name@,
            r.spec_trip() == opt.trip,
            r.spec_success() == opt.success,
            r.spec_listener() == opt.listener,
            r.transitions() == Seq::<(State, State)>::empty(),
            r.wf(),
    {
        CircuitBreaker {
            opt,
            core: Core {
                state: State::Close,
                counts: Counts::new(),
                generation: 0,
                expiry: 0,
            },
            log: Ghost(Seq::empty()),
            names: Ghost(Seq::empty()),
        }
    }

    fn new_generation(&mut self, now: u64) -> (r: u64)
        ensures
            final(self)@ == old(self)@.renewed(old(self).timing(), now),
            r == final(self)@.generation,
            final(self).opt == old(self).opt,
            final(self).log == old(self).log,
            final(self).names == old(self).names,
    {
        self.core.generation = if self.core.generation == u64::MAX {
            0
        } else {
            self.core.generation + 1
        };
        self.core.counts.clear();
        match self.core.state {
            State::Close => {
                if self.opt.timing.interval == 0 {
                    self.core.expiry = now;
                } else {
                    self.core.expiry = now.saturating_add(self.opt.timing.interval);
                }
            },
            State::Open => {
                self.core.expiry = self.core.expiry.saturating_add(self.opt.timing.timeout);
            },
            State::HalfOpen => {
                self.core.expiry = 0;
            },
        }
        self.core.generation
    }

    fn set_state(&mut self, new_state: State, now: u64)
        requires
            old(self).wf(),
            old(self)@.state != new_state ==> is_edge(old(self)@.state, new_state),
        ensures
            final(self)@ == old(self)@.entered(new_state, old(self).timing(), now),
            final(self).opt == old(self).opt,
            final(self).transitions() == old(self).transitions() + old(self)@.steps_to(new_state),
            final(self).heard_names() == if old(self)@.state == new_state {
                old(self).heard_names()
            } else {
                old(self).heard_names().push(old(self).spec_name())
            },
            final(self).wf(),
    {
        if self.core.state == new_state {
            assert(self.log@ + Seq::<(State, State)>::empty() =~= self.log@);
            return;
        }
        let old_state = self.core.state;
        self.core.state = new_state;
        self.new_generation(now);
        proof {
            lemma_walk_push(self.log@, State::Close, old_state, new_state);
            assert(self.log@ + seq![(old_state, new_state)] =~= self.log@.push((old_state, new_state)));
        }
        self.log = Ghost(self.log@.push((old_state, new_state)));
        let name = self.opt.name.as_str();
        self.names = Ghost(self.names@.push(name@));
        self.opt.listener.on_state_change(name, old_state, new_state);
    }

    fn update_state(&mut self, now: u64)
        requires
            old(self).wf(),
        ensures
            final(self)@ == old(self)@.refreshed(old(self).timing(), now),
            final(self).transitions() == old(self).transitions() + old(self)@.refresh_steps(now),
            final(self).opt == old(self).opt,
            final(self).wf(),
    {
        assert(self.log@ + Seq::<(State, State)>::empty() =~= self.log@);
        match self.core.state {
            State::Close => {
                if self.core.expiry != 0 && self.core.expiry < now {
                    self.new_generation(now);
                }
            },
            State::Open => {
                if self.core.expiry < now {
                    self.new_generation(now);
                    self.set_state(State::HalfOpen, now);
                }
            },
            State::HalfOpen => {},
        }
    }

    fn before_execute(&mut self, now: u64) -> (r: Result<u64, Rejected>)
        requires
            old(self).wf(),
        ensures
            ({
                let c = old(self)@.refreshed(old(self).timing(), now);
                if c.admits(old(self).timing()) {
                    r == Ok::<u64, Rejected>(c.generation) && final(self)@ == c.admitted()
                } else {
                    r == Err::<u64, Rejected>(c.rejection()) && final(self)@ == c
                }
            }),
            final(self).transitions() == old(self).transitions() + old(self)@.refresh_steps(now),
            final(self).opt == old(self).opt,
            final(self).wf(),
    {
        self.update_state(now);
        match self.core.state {
            State::Open => {
                return Err(Rejected::BreakerOpen);
            },
            State::HalfOpen => {
                if self.core.counts.total_requests >= self.opt.timing.threshold {
                    return Err(Rejected::TooManyRequests);
                }
            },
            State::Close => {},
        }
        self.core.counts.on_request();
        Ok(self.core.generation)
    }

    /// Asks leave for one attempt at `now`. While open and before the cooldown ends the
    /// answer is `BreakerOpen`; while half-open once `threshold` probes have been
    /// admitted it is `TooManyRequests`; otherwise the attempt is counted and a permit
    /// for the current generation is handed out. The listener hears only of the end of
    /// a cooldown, if `now` brings it.
    pub fn is_allow(&mut self, now: u64) -> (r: Result<Permit, Rejected>)
        requires
            old(self).wf(),
        ensures
            ({
                let c = old(self)@.refreshed(old(self).timing(), now);
                if c.admits(old(self).timing()) {
                    r.is_ok() && r.unwrap()@ == c.generation && final(self)@ == c.admitted()
                } else {
                    r == Err::<Permit, Rejected>(c.rejection()) && final(self)@ == c
                }
            }),
            final(self).transitions() == old(self).transitions() + old(self)@.refresh_steps(now),
            old(self).keeps_config(&*final(self)),
            final(self).wf(),
    {
        match self.before_execute(now) {
            Ok(generation) => Ok(Permit { generation }),
            Err(e) => Err(e),
        }
    }

    fn on_success(&mut self, now: u64)
        requires
            old(self).wf(),
        ensures
            final(self)@ == old(self)@.after_success(old(self).timing(), now),
            final(self).transitions() == old(self).transitions() + old(self)@.success_steps(
                old(self).timing(),
            ),
            final(self).opt == old(self).opt,
            final(self).wf(),
    {
        assert(self.log@ + Seq::<(State, State)>::empty() =~= self.log@);
        self.core.counts.on_success();
        match self.core.state {
            State::Close => {
                if self.core.expiry < now {
                    self.new_generation(now);
                }
            },
            State::Open => {},
            State::HalfOpen => {
                if self.core.counts.consecutive_success >= self.opt.timing.threshold {
                    self.set_state(State::Close, now);
                }
            },
        }
    }

    /// Records a failure of the current generation at `now`, given the trip rule's
    /// verdict `tripped` on the tallies that include it (the verdict matters only while
    /// closed).
    pub fn record_failure(&mut self, now: u64, tripped: bool)
        requires
            old(self).wf(),
        ensures
            final(self)@ == old(self)@.after_failure(old(self).timing(), now, tripped),
            final(self).transitions() == old(self).transitions() + old(self)@.failure_steps(tripped),
            old(self).keeps_config(&*final(self)),
            final(self).wf(),
    {
        assert(self.log@ + Seq::<(State, State)>::empty() =~= self.log@);
        self.core.counts.on_failure();
        match self.core.state {
            State::Close => {
                if tripped {
                    self.set_state(State::Open, now);
                }
            },
            State::Open => {},
            State::HalfOpen => {
                self.set_state(State::Open, now);
            },
        }
    }

    fn on_failure(&mut self, now: u64)
        requires
            old(self).wf(),
        ensures
            ({
                let t = old(self).timing();
                ||| (final(self)@ == old(self)@.after_failure(t, now, false) && final(self).transitions()
                    == old(self).transitions() + old(self)@.failure_steps(false))
                ||| (old(self)@.state == State::Close && final(self)@ == old(self)@.after_failure(
                    t,
                    now,
                    true,
                ) && final(self).transitions() == old(self).transitions() + old(self)@.failure_steps(
                    true,
                ))
            }),
            old(self).keeps_config(&*final(self)),
            final(self).wf(),
    {
        let tripped = if self.core.state == State::Close {
            let mut after = self.core.counts;
            after.on_failure();
            self.opt.trip.ready_to_trip(&after)
        } else {
            false
        };
        self.record_failure(now, tripped);
    }

    fn after_execute(&mut self, before_generation: u64, success: bool, now: u64)
        requires
            old(self).wf(),
        ensures
            ({
                let t = old(self).timing();
                let o = old(self)@;
                ||| (final(self)@ == o.reported(t, before_generation, success, now, false)
                    && final(self).transitions() == old(self).transitions() + o.report_steps(
                    t,
                    before_generation,
                    success,
                    now,
                    false,
                ))
                ||| (o.consults_rule(t, before_generation, success, now) && final(self)@ == o.reported(
                    t,
                    before_generation,
                    success,
                    now,
                    true,
                ) && final(self).transitions() == old(self).transitions() + o.report_steps(
                    t,
                    before_generation,
                    success,
                    now,
                    true,
                ))
            }),
            old(self).keeps_config(&*final(self)),
            final(self).wf(),
    {
        self.update_state(now);
        let ghost mid = self.log@;
        let ghost rs = old(self)@.refresh_steps(now);
        if before_generation != self.core.generation {
            assert(old(self).log@ + (rs + Seq::<(State, State)>::empty()) =~= mid);
            return;
        }
        if success {
            self.on_success(now);
        } else {
            self.on_failure(now);
        }
        assert forall|x: Seq<(State, State)>| mid + x =~= old(self).log@ + (rs + x) by {}
    }

    /// Reports at `now` whether the attempt behind `permit` succeeded. A permit from an
    /// earlier generation changes nothing beyond what time alone brings about. The
    /// listener hears of exactly the changes in `report_steps`.
    pub fn report(&mut self, permit: Permit, success: bool, now: u64)
        requires
            old(self).wf(),
        ensures
            ({
                let t = old(self).timing();
                let o = old(self)@;
                ||| (final(self)@ == o.reported(t, permit@, success, now, false) && final(self).transitions()
                    == old(self).transitions() + o.report_steps(t, permit@, success, now, false))
                ||| (o.consults_rule(t, permit@, success, now) && final(self)@ == o.reported(
                    t,
                    permit@,
                    success,
                    now,
                    true,
                ) && final(self).transitions() == old(self).transitions() + o.report_steps(
                    t,
                    permit@,
                    success,
                    now,
                    true,
                ))
            }),
            old(self).keeps_config(&*final(self)),
            final(self).wf(),
    {
        self.after_execute(permit.generation, success, now);
    }

    /// The breaker's state at `now`, after the changes that time alone brings about.
    pub fn state(&mut self, now: u64) -> (r: State)
        requires
            old(self).wf(),
        ensures
            final(self)@ == old(self)@.refreshed(old(self).timing(), now),
            r == final(self)@.state,
            final(self).transitions() == old(self).transitions() + old(self)@.refresh_steps(now),
            old(self).keeps_config(&*final(self)),
            final(self).wf(),
    {
        self.update_state(now);
        self.core.state
    }

    /// The state as last recorded, without taking the time into account.
    pub fn current_state(&self) -> (r: State)
        ensures
            r == self@.state,
    {
        self.core.state
    }

    /// A copy of the current tallies.
    pub fn counts(&self) -> (r: Counts)
        ensures
            r == self@.counts,
    {
        self.core.counts
    }

    /// The current generation.
    pub fn generation(&self) -> (r: u64)
        ensures
            r == self@.generation,
    {
        self.core.generation
    }

    /// The end of the current generation, in milliseconds since the breaker was built.
    pub fn expiry(&self) -> (r: u64)
        ensures
            r == self@.expiry,
    {
        self.core.expiry
    }

    pub fn name(&self) -> (r: &str)
        ensures
            r@ == self.spec_name(),
    {
        self.opt.name.as_str()
    }

    pub fn timings(&self) -> (r: Timing)
        ensures
            r == self.timing(),
    {
        self.opt.timing
    }

    /// Classifies a raw outcome with the breaker's success rule.
    pub fn is_successful(&self, outcome: &Result<(), String>) -> bool {
        self.opt.success.is_successful(outcome)
    }
}

} // verus!
