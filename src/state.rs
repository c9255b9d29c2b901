use vstd::prelude::*;

verus! {

/// The three states of a breaker.
#[derive(Clone, Copy, Debug, PartialEq, Eq, Structural)]
pub enum State {
    Close,
    Open,
    HalfOpen,
}

impl State {
    /// The state's name as shown in logs.
    pub open spec fn spec_label(self) -> Seq<char> {
        match self {
            State::Close => "Close"@,
            State::Open => "Open"@,
            State::HalfOpen => "HalfOpen"@,
        }
    }

    pub fn label(&self) -> (r: &'static str)
        ensures
            r@ == self.spec_label(),
    {
        match self {
            State::Close => "Close",
            State::Open => "Open",
            State::HalfOpen => "HalfOpen",
        }
    }
}

/// Why a breaker refused an attempt.
#[derive(Clone, Copy, Debug, PartialEq, Eq, Structural)]
pub enum Rejected {
    /// The breaker is open and its cooldown has not elapsed.
    BreakerOpen,
    /// The breaker is half-open and has admitted as many probes as it allows.
    TooManyRequests,
}

impl Rejected {
    pub open spec fn spec_message(self) -> Seq<char> {
        match self {
            Rejected::BreakerOpen => "breaker open"@,
            Rejected::TooManyRequests => "too many requests"@,
        }
    }

    pub fn message(&self) -> (r: &'static str)
        ensures
            r@ == self.spec_message(),
    {
        match self {
            Rejected::BreakerOpen => "breaker open",
            Rejected::TooManyRequests => "too many requests",
        }
    }
}

} // verus!
