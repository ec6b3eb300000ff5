//! Which cell of an animation strip is shown at a given time.

use vstd::prelude::*;

verus! {

/// How long one animation frame is shown, in milliseconds.
pub const FRAME_DURATION: u128 = 100;

/// The frame shown at time `t` of an animation of `num_frames` frames: the
/// frames follow each other every `FRAME_DURATION` milliseconds and start over
/// after the last.
pub open spec fn frame_at(t: nat, num_frames: nat) -> nat {
    (t / (FRAME_DURATION as nat)) % num_frames
}

/// The frame shown at time `t` of an animation of `num_frames` frames.
pub fn frame_index(t: u128, num_frames: u32) -> (r: u32)
    requires
        num_frames > 0,
    ensures
        r == frame_at(t as nat, num_frames as nat),
        r < num_frames,
{
    ((t / FRAME_DURATION) % (num_frames as u128)) as u32
}

/// The frame index is below the number of frames.
pub proof fn lemma_frame_in_range(t: nat, num_frames: nat)
    requires
        num_frames > 0,
    ensures
        frame_at(t, num_frames) < num_frames,
{
}

/// The first frame is shown from time 0 until `FRAME_DURATION`.
pub proof fn lemma_frame_starts_at_zero(t: nat, num_frames: nat)
    requires
        num_frames > 0,
        t < FRAME_DURATION,
    ensures
        frame_at(t, num_frames) == 0,
{
    let n = num_frames as int;
    assert(0int % n == 0) by (nonlinear_arith)
        requires
            n > 0,
    ;
}

/// The animation repeats every `num_frames * FRAME_DURATION` milliseconds; so
/// it is back at frame 0 at that time.
pub proof fn lemma_frame_wraps(t: nat, num_frames: nat)
    requires
        num_frames > 0,
    ensures
        frame_at(t + num_frames * (FRAME_DURATION as nat), num_frames) == frame_at(t, num_frames),
        frame_at(num_frames * (FRAME_DURATION as nat), num_frames) == 0,
{
    let d = FRAME_DURATION as int;
    let n = num_frames as int;
    let q = t as int / d;
    assert((t + n * d) / d == q + n) by (nonlinear_arith)
        requires
            d == 100,
            q == t as int / d,
            n >= 0,
    ;
    assert((q + n) % n == q % n) by (nonlinear_arith)
        requires
            n > 0,
            q >= 0,
    ;
    assert((n * d) / d == n) by (nonlinear_arith)
        requires
            d == 100,
    ;
    assert(n % n == 0) by (nonlinear_arith)
        requires
            n > 0,
    ;
}

} // verus!
