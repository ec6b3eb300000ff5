//! The fixed time step: real time comes in as it passes and is handed on to
//! the simulation in steps of one constant size.

use vstd::prelude::*;

verus! {

/// The time-keeping state as the contracts see it, all in milliseconds.
pub struct TimestepView {
    /// The size of one simulation step.
    pub step: nat,
    /// The simulation time: the sum of the steps taken so far.
    pub t: nat,
    /// The real time at the last sample.
    pub current_time: nat,
    /// The real time that has passed and has not been simulated yet.
    pub accumulator: nat,
}

/// The time-keeping state of the game loop.
#[derive(Debug)]
pub struct Timestep {
    step: u128,
    t: u128,
    current_time: u128,
    accumulator: u128,
}

impl TimestepView {
    /// The state at time 0, before any sample.
    pub open spec fn started(step: nat) -> TimestepView {
        TimestepView { step, t: 0, current_time: 0, accumulator: 0 }
    }

    /// A step has a size, and the time simulated together with the time still
    /// held back is the real time.
    pub open spec fn wf(self) -> bool {
        &&& self.step > 0
        &&& self.t + self.accumulator == self.current_time
        &&& self.current_time <= u128::MAX
    }

    /// The state after the clock was read at `now`: the time since the last
    /// sample is added to what is held back.
    pub open spec fn sampled(self, now: nat) -> TimestepView {
        TimestepView {
            current_time: now,
            accumulator: (self.accumulator + (now - self.current_time)) as nat,
            ..self
        }
    }

    /// The number of whole steps that are held back.
    pub open spec fn pending(self) -> nat {
        self.accumulator / self.step
    }

    /// The state after one step was handed on.
    pub open spec fn stepped(self) -> TimestepView {
        TimestepView {
            t: self.t + self.step,
            accumulator: (self.accumulator - self.step) as nat,
            ..self
        }
    }

    /// The state after all whole steps were handed on: less than one step is
    /// still held back.
    pub open spec fn drained(self) -> TimestepView {
        TimestepView {
            t: self.t + self.pending() * self.step,
            accumulator: self.accumulator % self.step,
            ..self
        }
    }
}

/// Handing on one step while one is held back leaves one step less pending,
/// and the drained state is the same.
pub proof fn lemma_step_then_drain(c: TimestepView)
    requires
        c.wf(),
        c.accumulator >= c.step,
    ensures
        c.stepped().wf(),
        c.pending() >= 1,
        c.stepped().pending() == c.pending() - 1,
        c.stepped().drained() == c.drained(),
{
    let a = c.accumulator as int;
    let s = c.step as int;
    assert((a - s) / s == a / s - 1 && (a - s) % s == a % s && a / s >= 1) by (nonlinear_arith)
        requires
            s > 0,
            a >= s,
    ;
    assert((a / s - 1) * s == (a / s) * s - s) by (nonlinear_arith);
}

/// With less than one step held back nothing is pending, and draining changes
/// nothing.
pub proof fn lemma_nothing_pending(c: TimestepView)
    requires
        c.wf(),
        c.accumulator < c.step,
    ensures
        c.pending() == 0,
        c.drained() == c,
{
    let a = c.accumulator as int;
    let s = c.step as int;
    assert(a / s == 0 && a % s == a) by (nonlinear_arith)
        requires
            0 <= a < s,
    ;
    assert(0 * s == 0);
}

/// Draining keeps the state well formed and leaves less than one step held
/// back; no real time is lost.
pub proof fn lemma_drained(c: TimestepView)
    requires
        c.wf(),
    ensures
        c.drained().wf(),
        c.drained().accumulator < c.step,
        c.drained().t + c.drained().accumulator == c.current_time,
{
    let a = c.accumulator as int;
    let s = c.step as int;
    assert((a / s) * s + a % s == a && 0 <= a % s < s) by (nonlinear_arith)
        requires
            s > 0,
            a >= 0,
    ;
}

/// Reading the clock at `a` and then at `b` leaves the clock as reading it at
/// `b` alone does, and as many steps are handed on in all.
pub proof fn lemma_clock_twice(c: TimestepView, a: nat, b: nat)
    requires
        c.wf(),
        c.current_time <= a <= b,
    ensures
        c.sampled(a).drained().sampled(b).drained() == c.sampled(b).drained(),
        c.sampled(a).pending() + c.sampled(a).drained().sampled(b).pending() == c.sampled(
            b,
        ).pending(),
        c.sampled(a).drained().t == c.t + c.sampled(a).pending() * c.step,
{
    let s = c.step as int;
    let held = c.accumulator + (a - c.current_time);
    let more = b - a;
    assert((held % s + more) / s + held / s == (held + more) / s && (held % s + more) % s == (held
        + more) % s) by (nonlinear_arith)
        requires
            s > 0,
            held >= 0,
            more >= 0,
    ;
    assert((held / s + (held % s + more) / s) * s == (held / s) * s + ((held % s + more) / s) * s)
        by (nonlinear_arith);
}

impl View for Timestep {
    type V = TimestepView;

    closed spec fn view(&self) -> TimestepView {
        TimestepView {
            step: self.step as nat,
            t: self.t as nat,
            current_time: self.current_time as nat,
            accumulator: self.accumulator as nat,
        }
    }
}

impl Timestep {
    /// Every time-keeping state is well formed.
    #[verifier::type_invariant]
    pub open spec fn inv(&self) -> bool {
        self@.wf()
    }

    /// The state at time 0 for steps of `step` milliseconds. There is none for
    /// steps of size 0.
    pub fn new(step: u128) -> (r: Option<Timestep>)
        ensures
            r.is_some() == (step > 0),
            r matches Some(c) ==> c@ == TimestepView::started(step as nat) && c@.wf(),
    {
        if step == 0 {
            None
        } else {
            Some(Timestep { step, t: 0, current_time: 0, accumulator: 0 })
        }
    }

    /// The size of one step.
    pub fn step(&self) -> (r: u128)
        ensures
            r == self@.step,
            r > 0,
    {
        proof {
            use_type_invariant(self);
        }
        self.step
    }

    /// The simulation time.
    pub fn t(&self) -> (r: u128)
        ensures
            r == self@.t,
    {
        self.t
    }

    /// The real time at the last sample.
    pub fn current_time(&self) -> (r: u128)
        ensures
            r == self@.current_time,
    {
        self.current_time
    }

    /// The real time that is held back.
    pub fn accumulator(&self) -> (r: u128)
        ensures
            r == self@.accumulator,
    {
        self.accumulator
    }

    /// Takes in the real time that has passed up to `now`. The clock does not
    /// run backwards.
    pub fn sample(&mut self, now: u128)
        requires
            now >= old(self)@.current_time,
        ensures
            final(self)@ == old(self)@.sampled(now as nat),
            final(self)@.wf(),
    {
        proof {
            use_type_invariant(&*self);
        }
        let frame_time: u128 = now - self.current_time;
        *self = Timestep {
            step: self.step,
            t: self.t,
            current_time: now,
            accumulator: self.accumulator + frame_time,
        };
    }

    /// Hands on one step if a whole step is held back: the result is the time
    /// at which the step begins. Else nothing changes.
    pub fn take_step(&mut self) -> (r: Option<u128>)
        ensures
            match r {
                Some(begin) => {
                    &&& old(self)@.accumulator >= old(self)@.step
                    &&& begin == old(self)@.t
                    &&& final(self)@ == old(self)@.stepped()
                },
                None => {
                    &&& old(self)@.accumulator < old(self)@.step
                    &&& final(self)@ == old(self)@
                },
            },
            final(self)@.wf(),
    {
        proof {
            use_type_invariant(&*self);
        }
        if self.accumulator >= self.step {
            let begin: u128 = self.t;
            *self = Timestep {
                step: self.step,
                t: self.t + self.step,
                current_time: self.current_time,
                accumulator: self.accumulator - self.step,
            };
            Some(begin)
        } else {
            None
        }
    }
}

} // verus!
