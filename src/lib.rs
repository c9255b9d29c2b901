//! A circuit breaker: a three-state guard (closed, open, half-open) that admits or
//! rejects attempts at a fallible operation from the outcomes it has been told of.
//!
//! Time is handed in by the caller as milliseconds elapsed since the breaker was built,
//! so every decision here is a function of its inputs. The state machine itself is
//! modelled by the spec functions on [`Core`]; the properties it has are proved in
//! [`laws`].

mod breaker;
mod builder;
mod counts;
pub mod laws;
mod rules;
mod state;

pub use breaker::{CircuitBreaker, Core, Permit, Timing};
pub use builder::{CircuitBreakerBuilder, DEFAULT_INTERVAL, DEFAULT_TIMEOUT};
pub use counts::Counts;
pub use rules::{
    default_is_successful, default_ready_to_trip, ConsecutiveFailures, NoListener, OkIsSuccess,
    StateListener, SuccessRule, TripRule, DEFAULT_TRIP_FAILURES,
};
pub use state::{Rejected, State};
