//! Measures how long a labelled piece of work takes.

use vstd::prelude::*;

use std::time::{Duration, Instant};

verus! {

#[verifier::external_type_specification]
#[verifier::external_body]
pub struct ExInstant(Instant);

/// Relies on `std::time::Instant::now`: the current instant; nothing is
/// known of its value.
#[verifier::external_body]
fn instant_now() -> Instant {
    Instant::now()
}

/// Relies on `std::time::Instant::elapsed`: the time since `start`.
#[verifier::external_body]
fn instant_elapsed(start: &Instant) -> Duration {
    start.elapsed()
}

/// A labelled stopwatch, started when it is made.
pub struct Timer<'a> {
    label: &'a str,
    start: Instant,
}

impl<'a> Timer<'a> {
    pub closed spec fn spec_label(&self) -> &'a str {
        self.label
    }

    pub fn new(label: &'a str) -> (r: Self)
        ensures
            r.spec_label() == label,
    {
        Timer { label, start: instant_now() }
    }

    pub fn label(&self) -> (r: &'a str)
        ensures
            r == self.spec_label(),
    {
        self.label
    }

    /// The time since the timer was made.
    pub fn elapsed(&self) -> Duration {
        instant_elapsed(&self.start)
    }
}

} // verus!
