use vstd::prelude::*;

use crate::breaker::{capped_sum, is_edge, is_walk, CircuitBreaker, Core, Timing};
use crate::rules::{StateListener, SuccessRule, TripRule};
use crate::counts::Counts;
use crate::state::{Rejected, State};

verus! {

/// A request followed by its outcome keeps the tallies balanced: from balanced tallies
/// whose request count has room for one more, `on_request` then `on_success` or
/// `on_failure` leaves `total_requests == total_success + total_failures`.
pub proof fn lemma_request_then_outcome_balanced(c: Counts, success: bool)
    requires
        c.balanced(),
        c.total_requests < u64::MAX,
    ensures
        (if success {
            c.requested().succeeded()
        } else {
            c.requested().failed()
        }).balanced(),
{
}

/// While closed, time never changes the state and neither does admitting an attempt;
/// a report opens the breaker exactly when it is a failure of the current generation and
/// the trip rule's verdict on the tallies that include it is to trip. Otherwise the
/// breaker stays closed.
pub proof fn lemma_closed_opens_only_on_trip(
    c: Core,
    t: Timing,
    g: u64,
    success: bool,
    now: u64,
    tripped: bool,
)
    requires
        c.state == State::Close,
    ensures
        c.refreshed(t, now).state == State::Close,
        c.refreshed(t, now).admitted().state == State::Close,
        c.reported(t, g, success, now, tripped).state == State::Open <==> (c.consults_rule(
            t,
            g,
            success,
            now,
        ) && tripped),
        c.reported(t, g, success, now, tripped).state != State::Open ==> c.reported(
            t,
            g,
            success,
            now,
            tripped,
        ).state == State::Close,
{
}

/// While open, every attempt up to and including the moment `expiry` is rejected as
/// `BreakerOpen` and leaves the breaker as it was; after that moment the breaker is
/// half-open, with a fresh generation and nothing counted.
pub proof fn lemma_open_rejects_until_cooldown(c: Core, t: Timing, now: u64)
    requires
        c.state == State::Open,
    ensures
        now <= c.expiry ==> c.refreshed(t, now) == c && !c.admits(t) && c.rejection()
            == Rejected::BreakerOpen,
        now > c.expiry ==> c.refreshed(t, now).state == State::HalfOpen && c.refreshed(
            t,
            now,
        ).counts == Counts::zeroed(),
{
}

/// While closed, the end of a window starts a new generation without a change of state:
/// the generation moves on by one, the tallies are cleared, the next window ends
/// `interval` after `now` (or at `now` itself where `interval` is zero), and the listener
/// hears nothing. Before the end of the window, or with no window set, nothing changes.
pub proof fn lemma_window_rolls_without_transition(c: Core, t: Timing, now: u64)
    requires
        c.state == State::Close,
    ensures
        c.refresh_steps(now) == Seq::<(State, State)>::empty(),
        c.refreshed(t, now).state == State::Close,
        (c.expiry == 0 || now <= c.expiry) ==> c.refreshed(t, now) == c,
        c.expiry != 0 && c.expiry < now && c.generation < u64::MAX ==> {
            let r = c.refreshed(t, now);
            &&& r.generation == c.generation + 1
            &&& r.counts == Counts::zeroed()
            &&& r.expiry == if t.interval == 0 {
                now
            } else {
                capped_sum(now, t.interval)
            }
        },
{
}

/// At the end of a cooldown the breaker starts two generations, one in the open state
/// and one on entering the half-open state, clears its tallies, holds no expiry, and the
/// listener hears of the one move from open to half-open. The first attempt after that
/// is admitted, with a threshold of one or more, and counted as the only request.
pub proof fn lemma_cooldown_end(c: Core, t: Timing, now: u64)
    requires
        c.state == State::Open,
        c.expiry < now,
    ensures
        c.refreshed(t, now).state == State::HalfOpen,
        c.refreshed(t, now).counts == Counts::zeroed(),
        c.refreshed(t, now).expiry == 0,
        c.refresh_steps(now) == seq![(State::Open, State::HalfOpen)],
        c.generation < u64::MAX - 1 ==> c.refreshed(t, now).generation == c.generation + 2,
        t.threshold >= 1 ==> c.refreshed(t, now).admits(t) && c.refreshed(t, now).admitted().counts
            == Counts::zeroed().requested(),
        c.refreshed(t, now).admitted().counts.total_requests == 1,
{
}

/// Moving to the state the breaker is already in changes nothing and tells the listener
/// nothing.
pub proof fn lemma_same_state_is_no_transition(c: Core, t: Timing, now: u64)
    ensures
        c.entered(c.state, t, now) == c,
        c.steps_to(c.state) == Seq::<(State, State)>::empty(),
{
}

/// Entering the open state from another one schedules the end of the cooldown at the
/// previous expiry plus `timeout`, whatever the time of the transition.
pub proof fn lemma_cooldown_anchored_to_expiry(c: Core, t: Timing, now: u64)
    requires
        c.state != State::Open,
    ensures
        c.entered(State::Open, t, now).state == State::Open,
        c.entered(State::Open, t, now).expiry == capped_sum(c.expiry, t.timeout),
{
}

/// While half-open, time changes nothing; an attempt is admitted exactly while fewer
/// than `threshold` have been, and otherwise rejected as `TooManyRequests`. A failure of
/// the current generation reopens the breaker with the cooldown anchored to the previous
/// expiry; a success closes it exactly when the run of successes reaches `threshold`.
pub proof fn lemma_half_open_probes(c: Core, t: Timing, g: u64, now: u64, tripped: bool)
    requires
        c.state == State::HalfOpen,
    ensures
        c.refreshed(t, now) == c,
        c.admits(t) <==> c.counts.total_requests < t.threshold,
        !c.admits(t) ==> c.rejection() == Rejected::TooManyRequests,
        c.admits(t) ==> c.admitted().counts.total_requests == c.counts.total_requests + 1,
        g == c.generation ==> c.reported(t, g, false, now, tripped).state == State::Open,
        g == c.generation ==> c.reported(t, g, false, now, tripped).expiry == capped_sum(
            c.expiry,
            t.timeout,
        ),
        g == c.generation ==> (c.reported(t, g, true, now, tripped).state == State::Close
            <==> c.counts.succeeded().consecutive_success >= t.threshold),
        g == c.generation ==> (c.reported(t, g, true, now, tripped).state == State::HalfOpen
            <==> c.counts.succeeded().consecutive_success < t.threshold),
{
}

/// The breaker after `n` attempts in a row, none of them reported yet, with the number
/// of them that were admitted.
pub open spec fn after_attempts(c: Core, t: Timing, now: u64, n: nat) -> (Core, nat)
    decreases n,
{
    if n == 0 {
        (c, 0)
    } else {
        let (d, k) = after_attempts(c, t, now, (n - 1) as nat);
        let e = d.refreshed(t, now);
        if e.admits(t) {
            (e.admitted(), k + 1)
        } else {
            (e, k)
        }
    }
}

/// However many attempts come in while half-open, at most `threshold` probes are
/// admitted in all, counting those admitted before.
pub proof fn lemma_half_open_admits_at_most_threshold(c: Core, t: Timing, now: u64, n: nat)
    requires
        c.state == State::HalfOpen,
        c.counts.total_requests <= t.threshold,
    ensures
        after_attempts(c, t, now, n).0.state == State::HalfOpen,
        c.counts.total_requests + after_attempts(c, t, now, n).1 <= t.threshold,
        after_attempts(c, t, now, n).0.counts.total_requests == c.counts.total_requests
            + after_attempts(c, t, now, n).1,
    decreases n,
{
    if n > 0 {
        lemma_half_open_admits_at_most_threshold(c, t, now, (n - 1) as nat);
    }
}

/// A report from a generation other than the current one, once time has been taken into
/// account, changes no tallies and makes no transition: the breaker is left as time
/// alone leaves it.
pub proof fn lemma_stale_report_ignored(
    c: Core,
    t: Timing,
    g: u64,
    success: bool,
    now: u64,
    tripped: bool,
)
    requires
        g != c.refreshed(t, now).generation,
    ensures
        c.reported(t, g, success, now, tripped) == c.refreshed(t, now),
{
}

/// Time alone changes the state only at the end of a cooldown, by one move from open to
/// half-open, and the listener hears of exactly that move.
pub proof fn lemma_refresh_steps(c: Core, t: Timing, now: u64)
    ensures
        is_walk(c.refresh_steps(now), c.state, c.refreshed(t, now).state),
        c.refresh_steps(now).len() <= 1,
        c.refresh_steps(now).len() == 1 <==> c.refreshed(t, now).state != c.state,
{
    reveal_with_fuel(is_walk, 2);
}

/// A report makes its changes of state one edge at a time, from the state before it to
/// the state after it, and makes at most two: the end of a cooldown, then the one its
/// outcome brings. A report of another generation makes only the first; a success while
/// closed makes none.
pub proof fn lemma_report_steps(c: Core, t: Timing, g: u64, success: bool, now: u64, tripped: bool)
    ensures
        is_walk(c.report_steps(t, g, success, now, tripped), c.state, c.reported(t, g, success, now, tripped).state),
        c.report_steps(t, g, success, now, tripped).len() <= 2,
        g != c.refreshed(t, now).generation ==> c.report_steps(t, g, success, now, tripped) == c.refresh_steps(now),
        c.state == State::Close && success ==> c.report_steps(t, g, success, now, tripped).len() == 0,
{
    reveal_with_fuel(is_walk, 3);
    let steps = c.report_steps(t, g, success, now, tripped);
    if g != c.refreshed(t, now).generation {
        assert(c.refresh_steps(now) + Seq::<(State, State)>::empty() =~= c.refresh_steps(now));
    }
    if steps.len() > 0 {
        assert(steps.drop_first().len() == steps.len() - 1);
        if steps.len() > 1 {
            assert(steps.drop_first().drop_first().len() == 0);
        }
    }
}

/// A walk, spelled out: every entry is a change along an edge (never from a state to
/// itself), each one starts where the one before ended, the first starts at `from` and
/// the last ends at `to`.
pub proof fn lemma_walk_steps(log: Seq<(State, State)>, from: State, to: State)
    requires
        is_walk(log, from, to),
    ensures
        forall|i: int| 0 <= i < log.len() ==> is_edge(#[trigger] log[i].0, log[i].1) && log[i].0 != log[i].1,
        forall|i: int| 0 <= i < log.len() - 1 ==> (#[trigger] log[i]).1 == log[i + 1].0,
        log.len() > 0 ==> log[0].0 == from && log.last().1 == to,
        log.len() == 0 ==> from == to,
    decreases log.len(),
{
    if log.len() > 0 {
        let rest = log.drop_first();
        lemma_walk_steps(rest, log[0].1, to);
        assert forall|i: int| 0 <= i < log.len() implies is_edge(#[trigger] log[i].0, log[i].1) && log[i].0 != log[i].1 by {
            if i > 0 {
                assert(log[i] == rest[i - 1]);
            }
        }
        assert forall|i: int| 0 <= i < log.len() - 1 implies (#[trigger] log[i]).1 == log[i + 1].0 by {
            assert(log[i + 1] == rest[i]);
            if i > 0 {
                assert(log[i] == rest[i - 1]);
            }
        }
        if log.len() > 1 {
            assert(log.last() == rest.last());
        }
    }
}

/// The calls a breaker's listener has received so far, in order, form a chain of legal
/// transitions, each made with the breaker's name: every call names two different
/// states joined by an edge, each call starts where the one before ended, the first
/// starts at the initial state and the last ends at the current one. With no call at all
/// the breaker is still in its initial state.
pub proof fn lemma_listener_hears_each_transition<R: TripRule, S: SuccessRule, L: StateListener>(
    b: &CircuitBreaker<R, S, L>,
)
    requires
        b.wf(),
    ensures
        forall|i: int|
            0 <= i < b.transitions().len() ==> is_edge(#[trigger] b.transitions()[i].0, b.transitions()[i].1)
                && b.transitions()[i].0 != b.transitions()[i].1,
        forall|i: int|
            0 <= i < b.transitions().len() - 1 ==> (#[trigger] b.transitions()[i]).1 == b.transitions()[i
                + 1].0,
        b.transitions().len() > 0 ==> b.transitions()[0].0 == State::Close && b.transitions().last().1
            == b@.state,
        b.transitions().len() == 0 ==> b@.state == State::Close,
        b.heard_names().len() == b.transitions().len(),
        forall|i: int| 0 <= i < b.heard_names().len() ==> #[trigger] b.heard_names()[i] == b.spec_name(),
{
    lemma_walk_steps(b.transitions(), State::Close, b@.state);
}

} // verus!
