//! The character: where it is, how it moves, which way it looks and which
//! cell of the sprite sheet shows it.

use crate::animation::{frame_at, frame_index};
use crate::fixed::{
    clamp_position, displace, displaced, nudge, pixel_of, pixel_position, round_to_pixel,
    subpixels_of,
};
use crate::geometry::{Blit, Rect};
use crate::input::{Direction, InputEvent};
use crate::skin::Skin;
use vstd::prelude::*;

verus! {

/// The speed that an arrow key gives the character in the continuous variant,
/// in sub-pixels per millisecond.
pub const VELOCITY: i64 = 300;

/// How far one press of an arrow key moves the character in the discrete
/// variant, in sub-pixels: four pixels.
pub const STRIDE: i64 = 4000;

/// Which way the character looks. The sprite is drawn mirrored when it looks
/// left.
#[derive(Clone, Copy, Debug, PartialEq, Eq, Structural)]
pub enum Facing {
    Left,
    Right,
}

/// How the arrow keys move the character.
#[derive(Clone, Copy, Debug, PartialEq, Eq, Structural)]
pub enum Movement {
    /// A key that goes down sets a velocity, and time moves the character.
    Continuous,
    /// Each press of a key moves the character by one stride at once.
    Discrete,
}

/// Which arrow keys are down. Only a character of the discrete variant keeps
/// track of them.
#[derive(Clone, Copy, Debug, PartialEq, Eq, Structural)]
pub struct KeysHeld {
    pub left: bool,
    pub right: bool,
    pub up: bool,
    pub down: bool,
}

/// Where the animation strips of a character lie in a row of the sprite sheet.
#[derive(Clone, Copy, Debug, PartialEq, Eq, Structural)]
pub struct SpriteSheet {
    /// Width of one cell.
    pub sprite_width: u32,
    /// Height of one cell.
    pub sprite_height: u32,
    /// Left edge of the first cell of the strip shown while standing.
    pub idle_sprite_offset: i32,
    /// Left edge of the first cell of the strip shown while moving.
    pub moving_sprite_offset: i32,
    /// Number of cells in each strip.
    pub num_frames: u32,
}

/// The character as the contracts see it: positions in sub-pixels, velocities
/// in sub-pixels per millisecond.
pub struct CharacterView {
    pub movement: Movement,
    pub x: int,
    pub y: int,
    pub velocity_x: int,
    pub velocity_y: int,
    pub facing: Facing,
    pub curr_frame: nat,
    pub held: KeysHeld,
    /// Size at which the sprite is drawn.
    pub width: u32,
    pub height: u32,
    pub sheet: SpriteSheet,
    pub skin: Skin,
}

/// The character.
#[derive(Debug)]
pub struct Character {
    movement: Movement,
    x: i64,
    y: i64,
    velocity_x: i64,
    velocity_y: i64,
    facing: Facing,
    curr_frame: u32,
    held: KeysHeld,
    width: u32,
    height: u32,
    sheet: SpriteSheet,
    skin: Skin,
}

impl KeysHeld {
    /// No key is down.
    pub open spec fn none() -> KeysHeld {
        KeysHeld { left: false, right: false, up: false, down: false }
    }

    /// Whether any arrow key is down.
    pub open spec fn any(self) -> bool {
        self.left || self.right || self.up || self.down
    }

    /// Whether the key of direction `d` is down.
    pub open spec fn holds(self, d: Direction) -> bool {
        match d {
            Direction::Left => self.left,
            Direction::Right => self.right,
            Direction::Up => self.up,
            Direction::Down => self.down,
        }
    }

    /// These keys, but the one of direction `d` down if `down` and up if not.
    pub open spec fn with(self, d: Direction, down: bool) -> KeysHeld {
        match d {
            Direction::Left => KeysHeld { left: down, ..self },
            Direction::Right => KeysHeld { right: down, ..self },
            Direction::Up => KeysHeld { up: down, ..self },
            Direction::Down => KeysHeld { down: down, ..self },
        }
    }

    /// Whether any arrow key is down.
    pub fn is_any(&self) -> (r: bool)
        ensures
            r == self.any(),
    {
        self.left || self.right || self.up || self.down
    }

    /// Whether the key of direction `d` is down.
    pub fn is_held(&self, d: Direction) -> (r: bool)
        ensures
            r == self.holds(d),
    {
        match d {
            Direction::Left => self.left,
            Direction::Right => self.right,
            Direction::Up => self.up,
            Direction::Down => self.down,
        }
    }

    /// These keys, but the one of direction `d` down if `down` and up if not.
    pub fn updated(self, d: Direction, down: bool) -> (r: KeysHeld)
        ensures
            r == self.with(d, down),
    {
        match d {
            Direction::Left => KeysHeld { left: down, ..self },
            Direction::Right => KeysHeld { right: down, ..self },
            Direction::Up => KeysHeld { up: down, ..self },
            Direction::Down => KeysHeld { down: down, ..self },
        }
    }
}

impl SpriteSheet {
    /// The strips have a frame, and the left edge of every cell of both strips
    /// is a coordinate that fits in `i32`.
    pub open spec fn wf(self) -> bool {
        &&& self.num_frames > 0
        &&& self.idle_sprite_offset + self.sprite_width * (self.num_frames - 1) <= i32::MAX
        &&& self.moving_sprite_offset + self.sprite_width * (self.num_frames - 1) <= i32::MAX
    }

    /// The layout of the demo's tileset: cells of 16 by 28 pixels, four frames
    /// to a strip, the idle strip at 128 and the moving strip at 192.
    pub open spec fn tileset_layout() -> SpriteSheet {
        SpriteSheet {
            sprite_width: 16,
            sprite_height: 28,
            idle_sprite_offset: 128,
            moving_sprite_offset: 192,
            num_frames: 4,
        }
    }

    /// The layout of the demo's tileset.
    pub fn tileset() -> (r: SpriteSheet)
        ensures
            r == SpriteSheet::tileset_layout(),
            r.wf(),
    {
        SpriteSheet {
            sprite_width: 16,
            sprite_height: 28,
            idle_sprite_offset: 128,
            moving_sprite_offset: 192,
            num_frames: 4,
        }
    }

    /// Whether a character can be drawn from this layout.
    pub fn is_valid(&self) -> (r: bool)
        ensures
            r == self.wf(),
    {
        if self.num_frames == 0 {
            return false;
        }
        let last: u64 = (self.num_frames - 1) as u64;
        let cell: u64 = self.sprite_width as u64;
        assert(cell * last <= 0xffff_ffff * 0xffff_ffff) by (nonlinear_arith)
            requires
                cell <= 0xffff_ffff,
                last <= 0xffff_ffff,
        ;
        let span: u64 = cell * last;
        let idle_room: u64 = (i32::MAX as i64 - self.idle_sprite_offset as i64) as u64;
        let moving_room: u64 = (i32::MAX as i64 - self.moving_sprite_offset as i64) as u64;
        span <= idle_room && span <= moving_room
    }
}

impl CharacterView {
    /// A character that has just been made: it stands at the pixel
    /// (`x_px`, `y_px`), looks right and shows the first frame.
    pub open spec fn initial(
        movement: Movement,
        sheet: SpriteSheet,
        skin: Skin,
        x_px: int,
        y_px: int,
        width: u32,
        height: u32,
    ) -> CharacterView {
        CharacterView {
            movement,
            x: subpixels_of(x_px),
            y: subpixels_of(y_px),
            velocity_x: 0,
            velocity_y: 0,
            facing: Facing::Right,
            curr_frame: 0,
            held: KeysHeld::none(),
            width,
            height,
            sheet,
            skin,
        }
    }

    /// What holds of every character: the coordinates are in the range of
    /// positions, the sheet layout is usable and the frame is one of the
    /// strip.
    pub open spec fn wf(self) -> bool {
        &&& i64::MIN <= self.x <= i64::MAX
        &&& i64::MIN <= self.y <= i64::MAX
        &&& i64::MIN <= self.velocity_x <= i64::MAX
        &&& i64::MIN <= self.velocity_y <= i64::MAX
        &&& self.sheet.wf()
        &&& self.curr_frame < self.sheet.num_frames
    }

    /// In the continuous variant the character moves while it has a velocity,
    /// in the discrete variant while an arrow key is held.
    pub open spec fn is_moving(self) -> bool {
        match self.movement {
            Movement::Continuous => self.velocity_x != 0 || self.velocity_y != 0,
            Movement::Discrete => self.held.any(),
        }
    }

    /// The horizontal position after `dt` milliseconds have passed: in the
    /// continuous variant the character has moved by velocity times `dt`, in
    /// the discrete variant time does not move it.
    pub open spec fn x_after(self, dt: nat) -> int {
        match self.movement {
            Movement::Continuous => displaced(self.x, self.velocity_x, dt),
            Movement::Discrete => self.x,
        }
    }

    /// The vertical position after `dt` milliseconds have passed.
    pub open spec fn y_after(self, dt: nat) -> int {
        match self.movement {
            Movement::Continuous => displaced(self.y, self.velocity_y, dt),
            Movement::Discrete => self.y,
        }
    }

    /// The character after a time step of `dt` milliseconds that begins at
    /// time `t`: at the position after `dt`, and showing the frame of `t`.
    pub open spec fn integrate(self, t: nat, dt: nat) -> CharacterView {
        CharacterView {
            x: self.x_after(dt),
            y: self.y_after(dt),
            curr_frame: frame_at(t, self.sheet.num_frames as nat),
            ..self
        }
    }

    /// The character after the arrow key of direction `d` went down.
    pub open spec fn press(self, d: Direction) -> CharacterView {
        match self.movement {
            Movement::Continuous => match d {
                Direction::Left => CharacterView {
                    velocity_x: -VELOCITY,
                    facing: Facing::Left,
                    ..self
                },
                Direction::Right => CharacterView {
                    velocity_x: VELOCITY as int,
                    facing: Facing::Right,
                    ..self
                },
                Direction::Up => CharacterView { velocity_y: -VELOCITY, ..self },
                Direction::Down => CharacterView { velocity_y: VELOCITY as int, ..self },
            },
            Movement::Discrete => match d {
                Direction::Left => CharacterView {
                    x: clamp_position(self.x - STRIDE),
                    facing: Facing::Left,
                    held: self.held.with(d, true),
                    ..self
                },
                Direction::Right => CharacterView {
                    x: clamp_position(self.x + STRIDE),
                    facing: Facing::Right,
                    held: self.held.with(d, true),
                    ..self
                },
                Direction::Up => CharacterView {
                    y: clamp_position(self.y - STRIDE),
                    held: self.held.with(d, true),
                    ..self
                },
                Direction::Down => CharacterView {
                    y: clamp_position(self.y + STRIDE),
                    held: self.held.with(d, true),
                    ..self
                },
            },
        }
    }

    /// The character after the arrow key of direction `d` went up.
    pub open spec fn release(self, d: Direction) -> CharacterView {
        match self.movement {
            Movement::Continuous => if d.horizontal() {
                CharacterView { velocity_x: 0, ..self }
            } else {
                CharacterView { velocity_y: 0, ..self }
            },
            Movement::Discrete => CharacterView { held: self.held.with(d, false), ..self },
        }
    }

    /// The character after the input event `e`: an arrow key that goes down
    /// or up moves or stops it, a number key that goes down changes its skin,
    /// and nothing else changes anything.
    pub open spec fn after_event(self, e: InputEvent) -> CharacterView {
        match e {
            InputEvent::Quit => self,
            InputEvent::KeyDown(key) => match key.arrow() {
                Some(d) => self.press(d),
                None => match Skin::selected_by(key) {
                    Some(skin) => CharacterView { skin, ..self },
                    None => self,
                },
            },
            InputEvent::KeyUp(key) => match key.arrow() {
                Some(d) => self.release(d),
                None => self,
            },
        }
    }

    /// The character after `k` time steps of `dt` milliseconds each, the first
    /// of which begins at time `t`: at the position after the whole time, and
    /// showing the frame of the time at which the last step began.
    pub open spec fn after_steps(self, t: nat, dt: nat, k: nat) -> CharacterView {
        if k == 0 {
            self
        } else {
            CharacterView {
                x: self.x_after(k * dt),
                y: self.y_after(k * dt),
                curr_frame: frame_at((t + (k - 1) * dt) as nat, self.sheet.num_frames as nat),
                ..self
            }
        }
    }

    /// The pixel column at which the character is drawn.
    pub open spec fn pos_x(self) -> int {
        pixel_of(self.x)
    }

    /// The pixel row at which the character is drawn.
    pub open spec fn pos_y(self) -> int {
        pixel_of(self.y)
    }

    /// The left edge of the strip in use: the moving strip while the character
    /// moves, the idle strip while it stands.
    pub open spec fn sprite_offset(self) -> int {
        if self.is_moving() {
            self.sheet.moving_sprite_offset as int
        } else {
            self.sheet.idle_sprite_offset as int
        }
    }

    /// The left edge of the cell that shows the character.
    pub open spec fn src_x(self) -> int {
        self.sprite_offset() + self.sheet.sprite_width * self.curr_frame
    }

    /// The draw command that shows the character: the current cell of the
    /// strip in use, in the row of the skin, drawn at the rounded position and
    /// mirrored iff the character looks left.
    pub open spec fn blit(self) -> Blit {
        Blit {
            src: Rect {
                x: self.src_x() as i32,
                y: self.skin.row() as i32,
                width: self.sheet.sprite_width,
                height: self.sheet.sprite_height,
            },
            dst: Rect {
                x: self.pos_x() as i32,
                y: self.pos_y() as i32,
                width: self.width,
                height: self.height,
            },
            flip_horizontal: self.facing == Facing::Left,
        }
    }
}

/// The cells of a usable sheet have left edges in the range of `i32`.
pub proof fn lemma_src_x_fits(c: CharacterView)
    requires
        c.wf(),
    ensures
        i32::MIN <= c.src_x() <= i32::MAX,
        0 <= c.sheet.sprite_width * c.curr_frame <= c.sheet.sprite_width * (c.sheet.num_frames
            - 1),
{
    let w = c.sheet.sprite_width as int;
    let f = c.curr_frame as int;
    let last = c.sheet.num_frames as int - 1;
    assert(0 <= w * f <= w * last) by (nonlinear_arith)
        requires
            0 <= w,
            0 <= f <= last,
    ;
}

/// The coordinates of the draw command are the numbers that the model gives,
/// unchanged by the conversion to `i32`.
pub proof fn lemma_blit_coordinates(c: CharacterView)
    requires
        c.wf(),
    ensures
        c.blit().src.x == c.src_x(),
        c.blit().src.y == c.skin.row(),
        c.blit().dst.x == pixel_of(c.x),
        c.blit().dst.y == pixel_of(c.y),
{
    lemma_src_x_fits(c);
}

impl View for Character {
    type V = CharacterView;

    closed spec fn view(&self) -> CharacterView {
        CharacterView {
            movement: self.movement,
            x: self.x as int,
            y: self.y as int,
            velocity_x: self.velocity_x as int,
            velocity_y: self.velocity_y as int,
            facing: self.facing,
            curr_frame: self.curr_frame as nat,
            held: self.held,
            width: self.width,
            height: self.height,
            sheet: self.sheet,
            skin: self.skin,
        }
    }
}

impl Character {
    /// Every character is well formed.
    #[verifier::type_invariant]
    pub open spec fn inv(&self) -> bool {
        self@.wf()
    }

    /// A character of the variant `movement`, drawn from `sheet` in the row
    /// of `skin` at the size `width` by `height`, standing at the pixel
    /// (`x_px`, `y_px`). There is none for a sheet layout that is not usable.
    pub fn new(
        movement: Movement,
        sheet: SpriteSheet,
        skin: Skin,
        x_px: i32,
        y_px: i32,
        width: u32,
        height: u32,
    ) -> (r: Option<Character>)
        ensures
            r.is_some() == sheet.wf(),
            r matches Some(c) ==> c@ == CharacterView::initial(
                movement,
                sheet,
                skin,
                x_px as int,
                y_px as int,
                width,
                height,
            ) && c@.wf(),
    {
        if !sheet.is_valid() {
            return None;
        }
        Some(
            Character {
                movement,
                x: pixel_position(x_px),
                y: pixel_position(y_px),
                velocity_x: 0,
                velocity_y: 0,
                facing: Facing::Right,
                curr_frame: 0,
                held: KeysHeld { left: false, right: false, up: false, down: false },
                width,
                height,
                sheet,
                skin,
            },
        )
    }

    /// The pixel column at which the character is drawn: its position rounded
    /// to the nearest pixel.
    pub fn pos_x(&self) -> (r: i32)
        ensures
            r == self@.pos_x(),
    {
        round_to_pixel(self.x)
    }

    /// The pixel row at which the character is drawn.
    pub fn pos_y(&self) -> (r: i32)
        ensures
            r == self@.pos_y(),
    {
        round_to_pixel(self.y)
    }

    /// Whether the character moves: in the continuous variant, whether it has
    /// a velocity; in the discrete variant, whether an arrow key is held.
    pub fn is_moving(&self) -> (r: bool)
        ensures
            r == self@.is_moving(),
            self@.movement == Movement::Continuous ==> (!r <==> self@.velocity_x == 0
                && self@.velocity_y == 0),
            self@.movement == Movement::Discrete ==> (!r <==> !self@.held.any()),
    {
        match self.movement {
            Movement::Continuous => self.velocity_x != 0 || self.velocity_y != 0,
            Movement::Discrete => self.held.is_any(),
        }
    }

    /// Advances the character by a time step of `dt` milliseconds that begins
    /// at time `t`.
    pub fn integrate(&mut self, t: u128, dt: u128)
        ensures
            final(self)@ == old(self)@.integrate(t as nat, dt as nat),
            final(self)@.wf(),
    {
        proof {
            use_type_invariant(&*self);
        }
        match self.movement {
            Movement::Continuous => {
                self.x = displace(self.x, self.velocity_x, dt);
                self.y = displace(self.y, self.velocity_y, dt);
            },
            Movement::Discrete => {},
        }
        self.curr_frame = frame_index(t, self.sheet.num_frames);
    }

    /// Handles an arrow key that went down.
    pub fn press(&mut self, d: Direction)
        ensures
            final(self)@ == old(self)@.press(d),
            final(self)@.wf(),
    {
        proof {
            use_type_invariant(&*self);
        }
        match self.movement {
            Movement::Continuous => {
                let speed: i64 = if d.is_negative() {
                    -VELOCITY
                } else {
                    VELOCITY
                };
                if d.is_horizontal() {
                    self.velocity_x = speed;
                } else {
                    self.velocity_y = speed;
                }
            },
            Movement::Discrete => {
                let delta: i64 = if d.is_negative() {
                    -STRIDE
                } else {
                    STRIDE
                };
                if d.is_horizontal() {
                    self.x = nudge(self.x, delta);
                } else {
                    self.y = nudge(self.y, delta);
                }
                self.held = self.held.updated(d, true);
            },
        }
        match d {
            Direction::Left => {
                self.facing = Facing::Left;
            },
            Direction::Right => {
                self.facing = Facing::Right;
            },
            _ => {},
        }
    }

    /// Handles an arrow key that went up.
    pub fn release(&mut self, d: Direction)
        ensures
            final(self)@ == old(self)@.release(d),
            final(self)@.wf(),
    {
        proof {
            use_type_invariant(&*self);
        }
        match self.movement {
            Movement::Continuous => {
                if d.is_horizontal() {
                    self.velocity_x = 0;
                } else {
                    self.velocity_y = 0;
                }
            },
            Movement::Discrete => {
                self.held = self.held.updated(d, false);
            },
        }
    }

    /// Handles one input event.
    pub fn handle_event(&mut self, e: InputEvent)
        ensures
            final(self)@ == old(self)@.after_event(e),
            final(self)@.wf(),
    {
        proof {
            use_type_invariant(&*self);
        }
        match e {
            InputEvent::Quit => {},
            InputEvent::KeyDown(key) => {
                match key.direction() {
                    Some(d) => {
                        self.press(d);
                    },
                    None => {
                        match Skin::for_key(key) {
                            Some(skin) => {
                                self.skin = skin;
                            },
                            None => {},
                        }
                    },
                }
            },
            InputEvent::KeyUp(key) => {
                match key.direction() {
                    Some(d) => {
                        self.release(d);
                    },
                    None => {},
                }
            },
        }
    }

    /// The draw command that shows the character.
    pub fn sprite_blit(&self) -> (r: Blit)
        ensures
            r == self@.blit(),
            r.src.x == self@.src_x(),
            r.src.y == self@.skin.row(),
            r.dst.x == pixel_of(self@.x),
            r.dst.y == pixel_of(self@.y),
            r.flip_horizontal == (self@.facing == Facing::Left),
    {
        proof {
            use_type_invariant(self);
            lemma_src_x_fits(self@);
        }
        let offset: i32 = if self.is_moving() {
            self.sheet.moving_sprite_offset
        } else {
            self.sheet.idle_sprite_offset
        };
        let along: i64 = (self.sheet.sprite_width as i64) * (self.curr_frame as i64);
        let src = Rect {
            x: (offset as i64 + along) as i32,
            y: self.skin.row_y(),
            width: self.sheet.sprite_width,
            height: self.sheet.sprite_height,
        };
        let dst = Rect {
            x: self.pos_x(),
            y: self.pos_y(),
            width: self.width,
            height: self.height,
        };
        Blit { src, dst, flip_horizontal: self.facing == Facing::Left }
    }

    /// Gives the character a velocity, in sub-pixels per millisecond. Only in
    /// the continuous variant does a velocity move it.
    pub fn set_velocity(&mut self, velocity_x: i64, velocity_y: i64)
        ensures
            final(self)@ == (CharacterView {
                velocity_x: velocity_x as int,
                velocity_y: velocity_y as int,
                ..old(self)@
            }),
            final(self)@.wf(),
    {
        proof {
            use_type_invariant(&*self);
        }
        self.velocity_x = velocity_x;
        self.velocity_y = velocity_y;
    }

    /// Changes the skin.
    pub fn set_skin(&mut self, skin: Skin)
        ensures
            final(self)@ == (CharacterView { skin, ..old(self)@ }),
            final(self)@.wf(),
    {
        proof {
            use_type_invariant(&*self);
        }
        self.skin = skin;
    }

    /// How the arrow keys move the character.
    pub fn movement(&self) -> (r: Movement)
        ensures
            r == self@.movement,
    {
        self.movement
    }

    /// The horizontal position, in sub-pixels.
    pub fn x(&self) -> (r: i64)
        ensures
            r == self@.x,
    {
        self.x
    }

    /// The vertical position, in sub-pixels.
    pub fn y(&self) -> (r: i64)
        ensures
            r == self@.y,
    {
        self.y
    }

    /// The horizontal velocity, in sub-pixels per millisecond.
    pub fn velocity_x(&self) -> (r: i64)
        ensures
            r == self@.velocity_x,
    {
        self.velocity_x
    }

    /// The vertical velocity, in sub-pixels per millisecond.
    pub fn velocity_y(&self) -> (r: i64)
        ensures
            r == self@.velocity_y,
    {
        self.velocity_y
    }

    /// Which way the character looks.
    pub fn facing(&self) -> (r: Facing)
        ensures
            r == self@.facing,
    {
        self.facing
    }

    /// The frame of the strip that is shown.
    pub fn curr_frame(&self) -> (r: u32)
        ensures
            r == self@.curr_frame,
            r < self@.sheet.num_frames,
    {
        proof {
            use_type_invariant(self);
        }
        self.curr_frame
    }

    /// The arrow keys that are held.
    pub fn held(&self) -> (r: KeysHeld)
        ensures
            r == self@.held,
    {
        self.held
    }

    /// The skin.
    pub fn skin(&self) -> (r: Skin)
        ensures
            r == self@.skin,
    {
        self.skin
    }

    /// The vertical offset of the skin's row in the sprite sheet.
    pub fn sprite_y(&self) -> (r: i32)
        ensures
            r == self@.skin.row(),
    {
        self.skin.row_y()
    }

    /// The layout of the strips in the sprite sheet.
    pub fn sheet(&self) -> (r: SpriteSheet)
        ensures
            r == self@.sheet,
            r.wf(),
    {
        proof {
            use_type_invariant(self);
        }
        self.sheet
    }

    /// The width at which the sprite is drawn.
    pub fn width(&self) -> (r: u32)
        ensures
            r == self@.width,
    {
        self.width
    }

    /// The height at which the sprite is drawn.
    pub fn height(&self) -> (r: u32)
        ensures
            r == self@.height,
    {
        self.height
    }
}

} // verus!
