//! The state and the rules of a small sprite-animation demo: a character that
//! walks under keyboard control, advanced in fixed time steps and drawn from a
//! sprite sheet.
//!
//! All coordinates are fixed-point numbers (see [`fixed`]), all times are in
//! milliseconds. Each type with hidden state has a view, a plain value on
//! which the contracts are stated; the laws that hold of whole sequences of
//! steps, of events and of turns of the game loop are proved in [`motion`],
//! [`control`] and [`session`].

pub mod animation;
pub mod character;
pub mod control;
pub mod fixed;
pub mod game;
pub mod geometry;
pub mod input;
pub mod motion;
pub mod session;
pub mod skin;
pub mod timestep;
