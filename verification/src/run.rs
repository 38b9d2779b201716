//! A run with the time it took.

use crate::pipeline::{Pipeline, Supply};
use vstd::prelude::*;

verus! {

#[verifier::external_type_specification]
#[verifier::external_body]
pub struct ExNaiveDateTime(chrono::NaiveDateTime);

/// `chrono::Local::now`, as the moment in UTC that it stands for: the time
/// on the machine's clock.
#[verifier::external_body]
fn now() -> (moment: chrono::NaiveDateTime) {
    chrono::Local::now().naive_utc()
}

/// `chrono::NaiveDateTime::signed_duration_since`, in whole seconds: the
/// time from `start` to `end`.
#[verifier::external_body]
fn seconds_between(start: &chrono::NaiveDateTime, end: &chrono::NaiveDateTime) -> (seconds: i64) {
    end.signed_duration_since(*start).num_seconds()
}

/// A run and its clock: when it began and, once it is done, how long it took.
pub struct Run {
    started: chrono::NaiveDateTime,
    state: Pipeline,
    elapsed: Option<i64>,
    min_chars: usize,
}

impl Run {
    /// The stage that the run is at.
    pub closed spec fn pipeline(self) -> Pipeline {
        self.state
    }

    /// The whole seconds that the run took, once it is done.
    pub closed spec fn seconds(self) -> Option<i64> {
        self.elapsed
    }

    /// The length that a line's text must exceed to be in the output.
    pub closed spec fn threshold(self) -> usize {
        self.min_chars
    }

    #[verifier::type_invariant]
    spec fn timed_when_done(self) -> bool {
        (self.elapsed is Some <==> self.state is Done) && self.state.consistent()
    }

    /// Begins a run: nothing has been done and the clock is started.
    /// `min_chars` is the length that a line's text must exceed to be in the
    /// output.
    pub fn begin(min_chars: usize) -> (run: Run)
        ensures
            run.pipeline() is Start,
            run.seconds() is None,
            run.threshold() == min_chars,
    {
        Run { started: now(), state: Pipeline::Start, elapsed: None, min_chars }
    }

    /// The stage that the run is at. Its counts agree with what it holds.
    pub fn state(&self) -> (state: &Pipeline)
        ensures
            *state == self.pipeline(),
            state.consistent(),
    {
        proof {
            use_type_invariant(self);
        }
        &self.state
    }

    /// The whole seconds from the beginning of the run to the moment it was
    /// done; `None` for a run that is not done.
    pub fn elapsed_seconds(&self) -> (seconds: Option<i64>)
        ensures
            seconds == self.seconds(),
            seconds is Some <==> self.pipeline() is Done,
    {
        proof {
            use_type_invariant(self);
        }
        self.elapsed
    }

    /// Takes the run one stage further, as [`Pipeline::advance`] does, and
    /// stops the clock when the run is done.
    pub fn step(self, supply: Supply) -> (next: Run)
        ensures
            self.pipeline().steps_to(supply, self.threshold() as nat, next.pipeline()),
            self.pipeline().is_over() ==> next.pipeline() == self.pipeline() && next.seconds()
                == self.seconds(),
            !self.pipeline().is_over() ==> next.pipeline() is Failed || next.pipeline().rank()
                == self.pipeline().rank() + 1,
            next.threshold() == self.threshold(),
    {
        proof {
            use_type_invariant(&self);
        }
        let Run { started, state, elapsed, min_chars } = self;
        let state = state.advance(supply, min_chars);
        let elapsed = match elapsed {
            Some(seconds) => Some(seconds),
            None => match &state {
                Pipeline::Done { .. } => {
                    let end = now();
                    Some(seconds_between(&started, &end))
                },
                _ => None,
            },
        };
        Run { started, state, elapsed, min_chars }
    }
}

} // verus!
