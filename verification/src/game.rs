//! The game: the character and the clock, and what one turn of the game loop
//! decides.

use crate::character::{Character, CharacterView, Movement, SpriteSheet};
use crate::geometry::Blit;
use crate::input::InputEvent;
use crate::motion::lemma_after_steps_next;
use crate::skin::Skin;
use crate::timestep::{lemma_nothing_pending, lemma_step_then_drain, Timestep, TimestepView};
use vstd::prelude::*;

verus! {

/// The size of one simulation step, in milliseconds.
pub const DELTA_TIME: u128 = 1;

/// The pixel column at which the character starts.
pub const START_X: i32 = 64;

/// The pixel row at which the character starts.
pub const START_Y: i32 = 112;

/// The width at which the character is drawn, in pixels.
pub const RENDER_WIDTH: u32 = 64;

/// The height at which the character is drawn, in pixels.
pub const RENDER_HEIGHT: u32 = 112;

/// What is drawn in one frame: the name of the skin as a text label, and the
/// character's sprite.
#[derive(Clone, Copy, Debug, PartialEq, Eq, Structural)]
pub struct Scene {
    pub label: Skin,
    pub sprite: Blit,
}

/// What the game loop does at the end of a turn.
#[derive(Clone, Copy, Debug, PartialEq, Eq, Structural)]
pub enum Action {
    /// Leave the loop.
    Quit,
    /// Clear the canvas, draw the scene and present it.
    Render(Scene),
}

/// The game as the contracts see it.
pub struct GameView {
    pub character: CharacterView,
    pub clock: TimestepView,
}

/// The state of the game.
#[derive(Debug)]
pub struct Game {
    character: Character,
    clock: Timestep,
}

impl GameView {
    /// The game at its start: the first skin stands at the start position and
    /// looks right, and no time has passed.
    pub open spec fn initial(movement: Movement) -> GameView {
        GameView {
            character: CharacterView::initial(
                movement,
                SpriteSheet::tileset_layout(),
                Skin::ElfF,
                START_X as int,
                START_Y as int,
                RENDER_WIDTH,
                RENDER_HEIGHT,
            ),
            clock: TimestepView::started(DELTA_TIME as nat),
        }
    }

    /// The character and the clock are well formed.
    pub open spec fn wf(self) -> bool {
        self.character.wf() && self.clock.wf()
    }

    /// The game after the input event `e`.
    pub open spec fn after_event(self, e: InputEvent) -> GameView {
        GameView { character: self.character.after_event(e), clock: self.clock }
    }

    /// The game after the clock was read at `now`: the character has taken
    /// every whole step that the time up to `now` holds, and less than one
    /// step is held back.
    pub open spec fn advanced(self, now: nat) -> GameView {
        let sampled = self.clock.sampled(now);
        GameView {
            character: self.character.after_steps(sampled.t, sampled.step, sampled.pending()),
            clock: sampled.drained(),
        }
    }

    /// The game after one turn of the loop: an event that quits changes
    /// nothing; otherwise the event, if there is one, is handled and then the
    /// time up to `now` is simulated.
    pub open spec fn tick(self, event: Option<InputEvent>, now: nat) -> GameView {
        match event {
            Some(e) => if e.quits() {
                self
            } else {
                self.after_event(e).advanced(now)
            },
            None => self.advanced(now),
        }
    }

    /// What is drawn of the game.
    pub open spec fn scene(self) -> Scene {
        Scene { label: self.character.skin, sprite: self.character.blit() }
    }
}

impl View for Game {
    type V = GameView;

    closed spec fn view(&self) -> GameView {
        GameView { character: self.character@, clock: self.clock@ }
    }
}

impl Game {
    /// The game at its start.
    pub fn new(movement: Movement) -> (r: Game)
        ensures
            r@ == GameView::initial(movement),
            r@.wf(),
    {
        let character = Character::new(
            movement,
            SpriteSheet::tileset(),
            Skin::ElfF,
            START_X,
            START_Y,
            RENDER_WIDTH,
            RENDER_HEIGHT,
        );
        let clock = Timestep::new(DELTA_TIME);
        Game { character: character.unwrap(), clock: clock.unwrap() }
    }

    /// The character.
    pub fn character(&self) -> (r: &Character)
        ensures
            r@ == self@.character,
            r@.wf(),
    {
        proof {
            use_type_invariant(&self.character);
        }
        &self.character
    }

    /// The clock.
    pub fn clock(&self) -> (r: &Timestep)
        ensures
            r@ == self@.clock,
            r@.wf(),
    {
        proof {
            use_type_invariant(&self.clock);
        }
        &self.clock
    }

    /// Handles one input event. The result says whether the event ends the
    /// game.
    pub fn handle_event(&mut self, e: InputEvent) -> (quit: bool)
        ensures
            quit == e.quits(),
            final(self)@ == old(self)@.after_event(e),
            final(self)@.wf(),
    {
        proof {
            use_type_invariant(&self.clock);
        }
        self.character.handle_event(e);
        e.is_quit()
    }

    /// Reads the clock at `now` and lets the character take every whole step
    /// that is then held back. The result is the number of steps taken. The
    /// clock does not run backwards.
    pub fn advance(&mut self, now: u128) -> (steps: u128)
        requires
            now >= old(self)@.clock.current_time,
        ensures
            final(self)@ == old(self)@.advanced(now as nat),
            steps == old(self)@.clock.sampled(now as nat).pending(),
            final(self)@.wf(),
    {
        proof {
            use_type_invariant(&self.character);
        }
        let ghost before = self@;
        self.clock.sample(now);
        let ghost sampled = self.clock@;
        let step: u128 = self.clock.step();
        let mut steps: u128 = 0;
        loop
            invariant
                before.character.wf(),
                sampled.wf(),
                step == sampled.step,
                self.clock@.wf(),
                self.clock@.step == sampled.step,
                self.clock@.t == sampled.t + steps * step,
                steps + self.clock@.pending() == sampled.pending(),
                self.clock@.drained() == sampled.drained(),
                self.character@ == before.character.after_steps(
                    sampled.t,
                    sampled.step,
                    steps as nat,
                ),
                self.character@.wf(),
            ensures
                steps == sampled.pending(),
                self.clock@ == sampled.drained(),
            decreases self.clock@.accumulator,
        {
            let ghost clock = self.clock@;
            match self.clock.take_step() {
                Some(begin) => {
                    proof {
                        lemma_step_then_drain(clock);
                        lemma_after_steps_next(
                            before.character,
                            sampled.t,
                            sampled.step,
                            steps as nat,
                        );
                        assert((steps + 1) * step == steps * step + step) by (nonlinear_arith);
                    }
                    self.character.integrate(begin, step);
                    steps = steps + 1;
                },
                None => {
                    proof {
                        lemma_nothing_pending(clock);
                    }
                    break ;
                },
            }
        }
        steps
    }

    /// What is drawn of the game.
    pub fn scene(&self) -> (r: Scene)
        ensures
            r == self@.scene(),
    {
        Scene { label: self.character.skin(), sprite: self.character.sprite_blit() }
    }

    /// One turn of the game loop, given the event that was waiting, if any,
    /// and the time on the clock. The clock does not run backwards.
    pub fn tick(&mut self, event: Option<InputEvent>, now: u128) -> (r: Action)
        requires
            now >= old(self)@.clock.current_time,
        ensures
            final(self)@ == old(self)@.tick(event, now as nat),
            final(self)@.wf(),
            r == (if event matches Some(e) && e.quits() {
                Action::Quit
            } else {
                Action::Render(final(self)@.scene())
            }),
    {
        proof {
            use_type_invariant(&self.character);
            use_type_invariant(&self.clock);
        }
        match event {
            Some(e) => {
                if self.handle_event(e) {
                    return Action::Quit;
                }
            },
            None => {},
        }
        self.advance(now);
        Action::Render(self.scene())
    }
}

} // verus!
