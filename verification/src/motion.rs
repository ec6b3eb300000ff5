//! Laws of motion: how the character's position after many time steps depends
//! on the steps.

use crate::animation::frame_at;
use crate::character::{CharacterView, Movement};
use crate::fixed::lemma_displaced_split;
use vstd::prelude::*;

verus! {

/// The whole time that `steps` take. A step is the time at which it begins and
/// its duration.
pub open spec fn total_time(steps: Seq<(nat, nat)>) -> nat
    decreases steps.len(),
{
    if steps.len() == 0 {
        0
    } else {
        total_time(steps.drop_last()) + steps.last().1
    }
}

/// The character after it was advanced by each of `steps` in turn.
pub open spec fn integrate_all(c: CharacterView, steps: Seq<(nat, nat)>) -> CharacterView
    decreases steps.len(),
{
    if steps.len() == 0 {
        c
    } else {
        integrate_all(c, steps.drop_last()).integrate(steps.last().0, steps.last().1)
    }
}

/// `k` steps of `dt` milliseconds each, the first of which begins at `t`.
pub open spec fn even_steps(t: nat, dt: nat, k: nat) -> Seq<(nat, nat)> {
    Seq::new(k, |i: int| ((t + i * dt) as nat, dt))
}

/// Advancing the character in steps leaves it where one step of the whole
/// time does, whatever the steps are; nothing but the position and the frame
/// changes, and the frame is that of the last step.
pub proof fn lemma_integrate_additive(c: CharacterView, steps: Seq<(nat, nat)>)
    requires
        c.wf(),
    ensures
        integrate_all(c, steps).wf(),
        integrate_all(c, steps).x == c.x_after(total_time(steps)),
        integrate_all(c, steps).y == c.y_after(total_time(steps)),
        integrate_all(c, steps) == (CharacterView {
            x: integrate_all(c, steps).x,
            y: integrate_all(c, steps).y,
            curr_frame: integrate_all(c, steps).curr_frame,
            ..c
        }),
        steps.len() > 0 ==> integrate_all(c, steps).curr_frame == frame_at(
            steps.last().0,
            c.sheet.num_frames as nat,
        ),
    decreases steps.len(),
{
    if steps.len() == 0 {
        assert(c.velocity_x * 0 == 0 && c.velocity_y * 0 == 0) by (nonlinear_arith);
    } else {
        let before = steps.drop_last();
        lemma_integrate_additive(c, before);
        lemma_displaced_split(c.x, c.velocity_x, total_time(before), steps.last().1);
        lemma_displaced_split(c.y, c.velocity_y, total_time(before), steps.last().1);
    }
}

/// In the continuous variant the net displacement at a constant velocity is
/// the velocity times the sum of the steps' durations, as long as the
/// character stays inside the range of positions.
pub proof fn lemma_net_displacement(c: CharacterView, steps: Seq<(nat, nat)>)
    requires
        c.wf(),
        c.movement == Movement::Continuous,
        i64::MIN <= c.x + c.velocity_x * total_time(steps) <= i64::MAX,
        i64::MIN <= c.y + c.velocity_y * total_time(steps) <= i64::MAX,
    ensures
        integrate_all(c, steps).x - c.x == c.velocity_x * total_time(steps),
        integrate_all(c, steps).y - c.y == c.velocity_y * total_time(steps),
{
    lemma_integrate_additive(c, steps);
}

/// How a span of time is split into steps makes no difference to where the
/// character ends.
pub proof fn lemma_split_independent(
    c: CharacterView,
    first: Seq<(nat, nat)>,
    second: Seq<(nat, nat)>,
)
    requires
        c.wf(),
        total_time(first) == total_time(second),
    ensures
        integrate_all(c, first).x == integrate_all(c, second).x,
        integrate_all(c, first).y == integrate_all(c, second).y,
{
    lemma_integrate_additive(c, first);
    lemma_integrate_additive(c, second);
}

/// One more step after `k` even steps gives the state after `k + 1` of them.
pub proof fn lemma_after_steps_next(c: CharacterView, t: nat, dt: nat, k: nat)
    requires
        c.wf(),
    ensures
        c.after_steps(t, dt, k).integrate(t + k * dt, dt) == c.after_steps(t, dt, k + 1),
        c.after_steps(t, dt, k).wf(),
{
    assert((k + 1) * dt == k * dt + dt) by (nonlinear_arith);
    assert(k * dt >= 0) by (nonlinear_arith);
    if k == 0 {
        assert(0 * dt == 0);
        assert(1 * dt == dt);
    } else {
        lemma_displaced_split(c.x, c.velocity_x, k * dt, dt);
        lemma_displaced_split(c.y, c.velocity_y, k * dt, dt);
    }
}

/// The state after `k` even steps is the state after `k` calls of
/// `integrate`, one for each step.
pub proof fn lemma_after_steps_is_integrate_all(c: CharacterView, t: nat, dt: nat, k: nat)
    requires
        c.wf(),
    ensures
        c.after_steps(t, dt, k) == integrate_all(c, even_steps(t, dt, k)),
        total_time(even_steps(t, dt, k)) == k * dt,
    decreases k,
{
    let steps = even_steps(t, dt, k);
    if k == 0 {
        assert(0 * dt == 0);
    } else {
        let j = (k - 1) as nat;
        lemma_after_steps_is_integrate_all(c, t, dt, j);
        assert(steps.drop_last() =~= even_steps(t, dt, j));
        assert(steps.last() == ((t + j * dt) as nat, dt));
        assert(j * dt >= 0) by (nonlinear_arith);
        assert(k * dt == j * dt + dt) by (nonlinear_arith)
            requires
                k == j + 1,
        ;
        lemma_after_steps_next(c, t, dt, j);
    }
}

/// Time steps keep a well-formed character well formed.
pub proof fn lemma_steps_keep_wf(c: CharacterView, t: nat, dt: nat, k: nat)
    requires
        c.wf(),
    ensures
        c.after_steps(t, dt, k).wf(),
{
}

/// `k` steps and then `j` more, begun where the first left off, are `k + j`
/// steps.
pub proof fn lemma_steps_add(c: CharacterView, t: nat, dt: nat, k: nat, j: nat)
    requires
        c.wf(),
    ensures
        c.after_steps(t, dt, k).after_steps(t + k * dt, dt, j) == c.after_steps(t, dt, k + j),
{
    assert((k + j) * dt == k * dt + j * dt) by (nonlinear_arith);
    assert(k * dt >= 0 && j * dt >= 0) by (nonlinear_arith);
    if k > 0 && j > 0 {
        lemma_displaced_split(c.x, c.velocity_x, k * dt, j * dt);
        lemma_displaced_split(c.y, c.velocity_y, k * dt, j * dt);
        assert(t + k * dt + (j - 1) * dt == t + (k + j - 1) * dt) by (nonlinear_arith);
    }
}

} // verus!
