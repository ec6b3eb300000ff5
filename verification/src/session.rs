//! Laws of a whole session: what many turns of the game loop do to the game.

use crate::character::CharacterView;
use crate::control::{last_turn, lemma_last_turn_push};
use crate::game::GameView;
use crate::input::InputEvent;
use crate::motion::{lemma_steps_add, lemma_steps_keep_wf};
use crate::timestep::{lemma_clock_twice, lemma_drained};
use vstd::prelude::*;

verus! {

/// One turn of the loop as the game sees it: the event that was waiting, if
/// any, and the time on the clock.
pub type Turn = (Option<InputEvent>, nat);

/// The game after each of `session`'s turns was taken in order.
pub open spec fn after_turns(g: GameView, session: Seq<Turn>) -> GameView
    decreases session.len(),
{
    if session.len() == 0 {
        g
    } else {
        after_turns(g, session.drop_last()).tick(session.last().0, session.last().1)
    }
}

/// The events of a session, in order.
pub open spec fn events_of(session: Seq<Turn>) -> Seq<InputEvent>
    decreases session.len(),
{
    if session.len() == 0 {
        Seq::empty()
    } else {
        match session.last().0 {
            Some(e) => events_of(session.drop_last()).push(e),
            None => events_of(session.drop_last()),
        }
    }
}

/// Whether the clock never runs backwards in a session that starts at time
/// `start`, and every time is one that the clock can show.
pub open spec fn clock_runs_forward(start: nat, session: Seq<Turn>) -> bool {
    &&& forall|i: int| 0 <= i < session.len() ==> start <= (#[trigger] session[i]).1 <= u128::MAX
    &&& forall|i: int, j: int|
        0 <= i <= j < session.len() ==> (#[trigger] session[i]).1 <= (#[trigger] session[j]).1
}

/// Reading the clock moves the character and changes its frame, and nothing
/// else of it: not the way it looks, its velocity, its skin or the keys held.
pub proof fn lemma_advance_keeps_the_rest(g: GameView, now: nat)
    ensures
        g.advanced(now).character == (CharacterView {
            x: g.advanced(now).character.x,
            y: g.advanced(now).character.y,
            curr_frame: g.advanced(now).character.curr_frame,
            ..g.character
        }),
{
}

/// Through any session, in either variant, the character looks the way of the
/// most recent press of Left or Right, and the way it looked at first if there
/// was none: time does not turn it.
pub proof fn lemma_session_facing(g: GameView, session: Seq<Turn>)
    ensures
        after_turns(g, session).character.facing == (match last_turn(events_of(session)) {
            Some(facing) => facing,
            None => g.character.facing,
        }),
    decreases session.len(),
{
    if session.len() > 0 {
        let before = session.drop_last();
        lemma_session_facing(g, before);
        let earlier = after_turns(g, before);
        match session.last().0 {
            Some(e) => {
                lemma_last_turn_push(events_of(before), e);
                if !e.quits() {
                    lemma_advance_keeps_the_rest(earlier.after_event(e), session.last().1);
                }
            },
            None => {
                lemma_advance_keeps_the_rest(earlier, session.last().1);
            },
        }
    }
}

/// A turn keeps the game well formed and leaves less than one step of time
/// held back.
pub proof fn lemma_tick_keeps_wf(g: GameView, event: Option<InputEvent>, now: nat)
    requires
        g.wf(),
        g.clock.current_time <= now <= u128::MAX,
    ensures
        g.advanced(now).wf(),
        g.advanced(now).clock.accumulator < g.clock.step,
        g.advanced(now).clock.current_time == now,
        g.tick(event, now).wf(),
{
    let sampled = g.clock.sampled(now);
    lemma_drained(sampled);
    lemma_steps_keep_wf(g.character, sampled.t, sampled.step, sampled.pending());
    match event {
        Some(e) => {
            if !e.quits() {
                let handled = g.after_event(e);
                lemma_steps_keep_wf(handled.character, sampled.t, sampled.step, sampled.pending());
            }
        },
        None => {},
    }
}

/// The game does not depend on how often the clock is read: reading it at `a`
/// and then at `b` leaves the game as reading it at `b` alone does.
pub proof fn lemma_advance_twice(g: GameView, a: nat, b: nat)
    requires
        g.wf(),
        g.clock.current_time <= a <= b,
    ensures
        g.advanced(a).advanced(b) == g.advanced(b),
{
    let first = g.clock.sampled(a);
    let second = first.drained().sampled(b);
    lemma_clock_twice(g.clock, a, b);
    lemma_steps_add(g.character, first.t, first.step, first.pending(), second.pending());
}

/// Through a session in which the clock never runs backwards the game stays
/// well formed and its clock is never ahead of the time of the last turn: every
/// turn of the session can be taken.
pub proof fn lemma_session_keeps_wf(g: GameView, session: Seq<Turn>)
    requires
        g.wf(),
        clock_runs_forward(g.clock.current_time, session),
    ensures
        after_turns(g, session).wf(),
        session.len() == 0 ==> after_turns(g, session) == g,
        session.len() > 0 ==> after_turns(g, session).clock.current_time <= session.last().1,
    decreases session.len(),
{
    if session.len() > 0 {
        let before = session.drop_last();
        let last = session.len() - 1;
        assert forall|i: int| 0 <= i < before.len() implies g.clock.current_time <= (
        #[trigger] before[i]).1 <= u128::MAX by {
            assert(before[i] == session[i]);
        }
        assert forall|i: int, j: int| 0 <= i <= j < before.len() implies (#[trigger] before[i]).1
            <= (#[trigger] before[j]).1 by {
            assert(before[i] == session[i]);
            assert(before[j] == session[j]);
        }
        lemma_session_keeps_wf(g, before);
        let earlier = after_turns(g, before);
        assert(earlier.clock.current_time <= session[last].1) by {
            if before.len() > 0 {
                assert(before.last() == session[last - 1]);
                assert(session[last - 1].1 <= session[last].1);
            }
        }
        lemma_tick_keeps_wf(earlier, session.last().0, session.last().1);
    }
}

} // verus!
