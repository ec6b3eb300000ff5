//! Laws of control: what a whole sequence of input events does to the
//! character.

use crate::character::{CharacterView, Facing, Movement, VELOCITY};
use crate::input::{Direction, InputEvent, Key};
use vstd::prelude::*;

verus! {

/// The character after each of `events` was handled in turn.
pub open spec fn after_events(c: CharacterView, events: Seq<InputEvent>) -> CharacterView
    decreases events.len(),
{
    if events.len() == 0 {
        c
    } else {
        after_events(c, events.drop_last()).after_event(events.last())
    }
}

/// Whether the event turns the character: Left or Right goes down.
pub open spec fn turns(e: InputEvent) -> bool {
    e == InputEvent::KeyDown(Key::Left) || e == InputEvent::KeyDown(Key::Right)
}

/// The way in which the event leaves the character looking, if it turns it.
pub open spec fn turn_of(e: InputEvent) -> Option<Facing> {
    match e {
        InputEvent::KeyDown(Key::Left) => Some(Facing::Left),
        InputEvent::KeyDown(Key::Right) => Some(Facing::Right),
        _ => None,
    }
}

/// The turn of the most recent of `events` that turns the character, if any
/// does.
pub open spec fn last_turn(events: Seq<InputEvent>) -> Option<Facing>
    decreases events.len(),
{
    if events.len() == 0 {
        None
    } else if turns(events.last()) {
        turn_of(events.last())
    } else {
        last_turn(events.drop_last())
    }
}

/// Whether the arrow key of direction `d` is down after `events`, given
/// whether it was down before them: what the most recent event of that key
/// says, if there is one.
pub open spec fn key_down_after(events: Seq<InputEvent>, d: Direction, before: bool) -> bool
    decreases events.len(),
{
    if events.len() == 0 {
        before
    } else {
        match events.last() {
            InputEvent::KeyDown(key) if key.arrow() == Some(d) => true,
            InputEvent::KeyUp(key) if key.arrow() == Some(d) => false,
            _ => key_down_after(events.drop_last(), d, before),
        }
    }
}

/// `last_turn` is the turn of the event at `i` if that event turns the
/// character and no later one does.
pub proof fn lemma_last_turn_at(events: Seq<InputEvent>, i: int)
    requires
        0 <= i < events.len(),
        turns(events[i]),
        forall|j: int| i < j < events.len() ==> !turns(#[trigger] events[j]),
    ensures
        last_turn(events) == turn_of(events[i]),
        last_turn(events).is_some(),
    decreases events.len(),
{
    if i < events.len() - 1 {
        assert(!turns(events[events.len() - 1]));
        lemma_last_turn_at(events.drop_last(), i);
    }
}

/// `last_turn` is `None` exactly if no event turns the character.
pub proof fn lemma_last_turn_none(events: Seq<InputEvent>)
    ensures
        last_turn(events).is_none() <==> (forall|j: int|
            0 <= j < events.len() ==> !turns(#[trigger] events[j])),
    decreases events.len(),
{
    if events.len() > 0 {
        let before = events.drop_last();
        lemma_last_turn_none(before);
        if turns(events.last()) {
            assert(turns(events[events.len() - 1]));
        } else if last_turn(before).is_none() {
            assert forall|j: int| 0 <= j < events.len() implies !turns(#[trigger] events[j]) by {
                if j < before.len() {
                    assert(events[j] == before[j]);
                }
            }
        } else {
            let j = choose|j: int| 0 <= j < before.len() && turns(#[trigger] before[j]);
            assert(turns(events[j]));
        }
    }
}

/// The most recent turn of a sequence that ends in `e` is that of `e`, if it
/// turns the character, and else that of the events before it.
pub proof fn lemma_last_turn_push(events: Seq<InputEvent>, e: InputEvent)
    ensures
        last_turn(events.push(e)) == (if turns(e) {
            turn_of(e)
        } else {
            last_turn(events)
        }),
{
    assert(events.push(e).drop_last() =~= events);
}

/// Events do not change the variant of the character, and they keep a
/// well-formed character well formed.
pub proof fn lemma_events_keep_wf(c: CharacterView, events: Seq<InputEvent>)
    ensures
        after_events(c, events).movement == c.movement,
        c.wf() ==> after_events(c, events).wf(),
    decreases events.len(),
{
    if events.len() > 0 {
        lemma_events_keep_wf(c, events.drop_last());
    }
}

/// Only time changes the frame, and only time moves a character of the
/// continuous variant: events leave them as they are.
pub proof fn lemma_events_do_not_move(c: CharacterView, events: Seq<InputEvent>)
    ensures
        after_events(c, events).curr_frame == c.curr_frame,
        c.movement == Movement::Continuous ==> after_events(c, events).x == c.x && after_events(
            c,
            events,
        ).y == c.y,
    decreases events.len(),
{
    if events.len() > 0 {
        lemma_events_keep_wf(c, events.drop_last());
        lemma_events_do_not_move(c, events.drop_last());
    }
}

/// After any sequence of events, in either variant, the character looks the
/// way of the most recent press of Left or Right, and the way it looked at
/// first if there was none.
pub proof fn lemma_facing_follows_last_turn(c: CharacterView, events: Seq<InputEvent>)
    ensures
        after_events(c, events).facing == (match last_turn(events) {
            Some(facing) => facing,
            None => c.facing,
        }),
    decreases events.len(),
{
    if events.len() > 0 {
        lemma_facing_follows_last_turn(c, events.drop_last());
    }
}

/// The character looks right exactly if the most recent press of Left or
/// Right was of Right, or there was none and it looked right at first.
pub proof fn lemma_facing_right(c: CharacterView, events: Seq<InputEvent>)
    ensures
        after_events(c, events).facing == Facing::Right <==> (last_turn(events) == Some(
            Facing::Right,
        ) || (last_turn(events).is_none() && c.facing == Facing::Right)),
{
    lemma_facing_follows_last_turn(c, events);
}

/// A character of the discrete variant keeps track of the arrow keys that are
/// down.
pub proof fn lemma_discrete_tracks_keys(c: CharacterView, events: Seq<InputEvent>, d: Direction)
    requires
        c.movement == Movement::Discrete,
    ensures
        after_events(c, events).held.holds(d) == key_down_after(events, d, c.held.holds(d)),
    decreases events.len(),
{
    if events.len() > 0 {
        lemma_events_keep_wf(c, events.drop_last());
        lemma_discrete_tracks_keys(c, events.drop_last(), d);
    }
}

/// A character of the discrete variant moves exactly while an arrow key is
/// down.
pub proof fn lemma_discrete_moving(c: CharacterView, events: Seq<InputEvent>)
    requires
        c.movement == Movement::Discrete,
    ensures
        after_events(c, events).is_moving() <==> (exists|d: Direction| #[trigger]
            key_down_after(events, d, c.held.holds(d))),
{
    let after = after_events(c, events);
    lemma_events_keep_wf(c, events);
    lemma_discrete_tracks_keys(c, events, Direction::Left);
    lemma_discrete_tracks_keys(c, events, Direction::Right);
    lemma_discrete_tracks_keys(c, events, Direction::Up);
    lemma_discrete_tracks_keys(c, events, Direction::Down);
    if after.is_moving() {
        if after.held.left {
            assert(key_down_after(events, Direction::Left, c.held.holds(Direction::Left)));
        } else if after.held.right {
            assert(key_down_after(events, Direction::Right, c.held.holds(Direction::Right)));
        } else if after.held.up {
            assert(key_down_after(events, Direction::Up, c.held.holds(Direction::Up)));
        } else {
            assert(key_down_after(events, Direction::Down, c.held.holds(Direction::Down)));
        }
    }
}

/// A character of the continuous variant moves exactly while it has a
/// velocity, and events never give it a velocity other than zero or the one
/// speed in either direction along each axis.
pub proof fn lemma_continuous_moving(c: CharacterView, events: Seq<InputEvent>)
    requires
        c.movement == Movement::Continuous,
    ensures
        after_events(c, events).is_moving() <==> (after_events(c, events).velocity_x != 0
            || after_events(c, events).velocity_y != 0),
        after_events(c, events).velocity_x == c.velocity_x || after_events(c, events).velocity_x
            == 0 || after_events(c, events).velocity_x == VELOCITY || after_events(
            c,
            events,
        ).velocity_x == -VELOCITY,
        after_events(c, events).velocity_y == c.velocity_y || after_events(c, events).velocity_y
            == 0 || after_events(c, events).velocity_y == VELOCITY || after_events(
            c,
            events,
        ).velocity_y == -VELOCITY,
    decreases events.len(),
{
    lemma_events_keep_wf(c, events);
    if events.len() > 0 {
        lemma_events_keep_wf(c, events.drop_last());
        lemma_continuous_moving(c, events.drop_last());
    }
}

} // verus!
