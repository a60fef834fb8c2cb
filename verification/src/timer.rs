//! A one-shot countdown timer counted in nanoseconds.
use vstd::prelude::*;

verus! {

/// What a [`OnceTimer`] holds: its length, the time ticked into it so far,
/// and whether a tick has seen it run out.
pub struct TimerState {
    pub duration: nat,
    pub elapsed: nat,
    pub finished: bool,
}

/// A timer that runs once: ticking adds time until the elapsed time reaches
/// the duration, at which point the timer is finished and stays so.
#[derive(Clone, Copy)]
pub struct OnceTimer {
    duration: u64,
    elapsed: u64,
    finished: bool,
}

/// The state of a fresh timer of the given length.
pub open spec fn fresh_timer(duration: nat) -> TimerState {
    TimerState { duration, elapsed: 0, finished: false }
}

/// The state after ticking `dt` nanoseconds into a timer in state `s`: a
/// finished timer is left alone; otherwise the elapsed time grows by `dt`,
/// clamped to the duration, and the timer is finished once it gets there.
pub open spec fn ticked(s: TimerState, dt: nat) -> TimerState {
    if s.finished {
        s
    } else if s.elapsed + dt >= s.duration {
        TimerState { duration: s.duration, elapsed: s.duration, finished: true }
    } else {
        TimerState { duration: s.duration, elapsed: s.elapsed + dt, finished: false }
    }
}

impl TimerState {
    /// The elapsed time never passes the duration, and a finished timer has
    /// run its whole length.
    pub open spec fn wf(self) -> bool {
        &&& self.elapsed <= self.duration
        &&& self.finished ==> self.elapsed == self.duration
    }
}

impl View for OnceTimer {
    type V = TimerState;

    closed spec fn view(&self) -> TimerState {
        TimerState {
            duration: self.duration as nat,
            elapsed: self.elapsed as nat,
            finished: self.finished,
        }
    }
}

impl OnceTimer {
    pub open spec fn wf(&self) -> bool {
        self@.wf()
    }

    /// Every timer is well formed.
    #[verifier::type_invariant]
    spec fn inv(self) -> bool {
        self@.wf()
    }

    /// A timer of `duration_ns` nanoseconds that has not started running.
    pub fn new(duration_ns: u64) -> (t: OnceTimer)
        ensures
            t@ == fresh_timer(duration_ns as nat),
            t.wf(),
    {
        OnceTimer { duration: duration_ns, elapsed: 0, finished: false }
    }

    /// Advances the timer by `dt_ns` nanoseconds.
    pub fn tick(&mut self, dt_ns: u64)
        ensures
            final(self)@ == ticked(old(self)@, dt_ns as nat),
            final(self).wf(),
    {
        proof {
            use_type_invariant(&*self);
        }
        if self.finished {
            return;
        }
        if dt_ns >= self.duration - self.elapsed {
            *self = OnceTimer { duration: self.duration, elapsed: self.duration, finished: true };
        } else {
            *self = OnceTimer {
                duration: self.duration,
                elapsed: self.elapsed + dt_ns,
                finished: false,
            };
        }
    }

    /// Whether a tick has run the timer out.
    pub fn is_finished(&self) -> (b: bool)
        ensures
            b == self@.finished,
            self.wf(),
    {
        proof {
            use_type_invariant(self);
        }
        self.finished
    }

    /// The timer's length in nanoseconds.
    pub fn duration_ns(&self) -> (d: u64)
        ensures
            d == self@.duration,
    {
        self.duration
    }

    /// The time ticked into the timer so far, in nanoseconds.
    pub fn elapsed_ns(&self) -> (e: u64)
        ensures
            e == self@.elapsed,
    {
        self.elapsed
    }
}

/// Ticking by `a` and then by `b` is ticking by `a + b` at once.
pub proof fn lemma_ticked_compose(s: TimerState, a: nat, b: nat)
    requires
        s.wf(),
    ensures
        ticked(ticked(s, a), b) == ticked(s, a + b),
{
}

/// Once a timer is finished, no further tick changes it; and ticking a
/// running timer by at least its remaining time finishes it.
pub proof fn lemma_ticked_finishes(s: TimerState, dt: nat)
    requires
        s.wf(),
    ensures
        ticked(s, dt).wf(),
        s.finished ==> ticked(s, dt) == s,
        s.elapsed + dt >= s.duration ==> ticked(s, dt).finished,
        ticked(s, dt).finished ==> ticked(ticked(s, dt), dt) == ticked(s, dt),
{
}

} // verus!
