//! Keyboard input, reduced to what the demo reacts to.

use vstd::prelude::*;

verus! {

/// One of the four arrow keys.
#[derive(Clone, Copy, Debug, PartialEq, Eq, Structural)]
pub enum Direction {
    Left,
    Right,
    Up,
    Down,
}

/// A key of the keyboard. Every key without a meaning here is `Other`.
#[derive(Clone, Copy, Debug, PartialEq, Eq, Structural)]
pub enum Key {
    Escape,
    Left,
    Right,
    Up,
    Down,
    Num1,
    Num2,
    Num3,
    Num4,
    Num5,
    Num6,
    Num7,
    Num8,
    Other,
}

/// An input event as the game loop sees it.
#[derive(Clone, Copy, Debug, PartialEq, Eq, Structural)]
pub enum InputEvent {
    /// The window was closed.
    Quit,
    KeyDown(Key),
    KeyUp(Key),
}

impl Direction {
    /// Whether this is `Left` or `Right`.
    pub open spec fn horizontal(self) -> bool {
        self == Direction::Left || self == Direction::Right
    }

    /// Whether this direction is towards smaller coordinates: `Left` and `Up`
    /// are.
    pub open spec fn negative(self) -> bool {
        self == Direction::Left || self == Direction::Up
    }

    /// Whether this is `Left` or `Right`.
    pub fn is_horizontal(&self) -> (r: bool)
        ensures
            r == self.horizontal(),
    {
        match self {
            Direction::Left | Direction::Right => true,
            Direction::Up | Direction::Down => false,
        }
    }

    /// Whether this direction is towards smaller coordinates.
    pub fn is_negative(&self) -> (r: bool)
        ensures
            r == self.negative(),
    {
        match self {
            Direction::Left | Direction::Up => true,
            Direction::Right | Direction::Down => false,
        }
    }
}

impl Key {
    /// The direction of an arrow key.
    pub open spec fn arrow(self) -> Option<Direction> {
        match self {
            Key::Left => Some(Direction::Left),
            Key::Right => Some(Direction::Right),
            Key::Up => Some(Direction::Up),
            Key::Down => Some(Direction::Down),
            _ => None,
        }
    }

    /// The direction of an arrow key, `None` for any other key.
    pub fn direction(&self) -> (r: Option<Direction>)
        ensures
            r == self.arrow(),
    {
        match self {
            Key::Left => Some(Direction::Left),
            Key::Right => Some(Direction::Right),
            Key::Up => Some(Direction::Up),
            Key::Down => Some(Direction::Down),
            _ => None,
        }
    }
}

impl InputEvent {
    /// Whether the event ends the game: the window was closed or Escape went
    /// down.
    pub open spec fn quits(self) -> bool {
        self == InputEvent::Quit || self == InputEvent::KeyDown(Key::Escape)
    }

    /// Whether the event ends the game.
    pub fn is_quit(&self) -> (r: bool)
        ensures
            r == self.quits(),
    {
        match self {
            InputEvent::Quit => true,
            InputEvent::KeyDown(Key::Escape) => true,
            _ => false,
        }
    }
}

} // verus!
