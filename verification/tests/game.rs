use sprite_anim::character::{Facing, Movement};
use sprite_anim::game::{
    Action, Game, Scene, DELTA_TIME, RENDER_HEIGHT, RENDER_WIDTH, START_X, START_Y,
};
use sprite_anim::geometry::{label_rect, Blit, Rect, LABEL_X, LABEL_Y};
use sprite_anim::input::{Direction, InputEvent, Key};
use sprite_anim::skin::Skin;
use sprite_anim::timestep::Timestep;

fn scene_of(action: Action) -> Scene {
    match action {
        Action::Render(scene) => scene,
        Action::Quit => panic!("the game quit"),
    }
}

#[test]
fn game_starts_idle_at_the_start_position() {
    assert_eq!((START_X, START_Y), (64, 112));
    assert_eq!((RENDER_WIDTH, RENDER_HEIGHT), (64, 112));
    assert_eq!(DELTA_TIME, 1);
    for movement in [Movement::Continuous, Movement::Discrete] {
        let game = Game::new(movement);
        assert_eq!(game.character().movement(), movement);
        assert_eq!(game.character().pos_x(), 64);
        assert_eq!(game.character().pos_y(), 112);
        assert_eq!(game.character().facing(), Facing::Right);
        assert!(!game.character().is_moving());
        assert_eq!(game.character().skin().name(), "Elf (F)");
        assert_eq!(game.clock().step(), 1);
        assert_eq!(game.clock().t(), 0);
        assert_eq!(game.clock().current_time(), 0);
        assert_eq!(game.clock().accumulator(), 0);
        assert_eq!(
            game.scene(),
            Scene {
                label: Skin::ElfF,
                sprite: Blit {
                    src: Rect { x: 128, y: 4, width: 16, height: 28 },
                    dst: Rect { x: 64, y: 112, width: 64, height: 112 },
                    flip_horizontal: false,
                },
            }
        );
    }
}

#[test]
fn discrete_press_right_for_one_step() {
    let mut game = Game::new(Movement::Discrete);
    let scene = scene_of(game.tick(Some(InputEvent::KeyDown(Key::Right)), 1));
    assert_eq!(game.clock().t(), 1);
    assert_eq!((game.character().pos_x(), game.character().pos_y()), (68, 112));
    assert_eq!(game.character().facing(), Facing::Right);
    assert!(game.character().is_moving());
    assert_eq!(scene.sprite.src.x, game.character().sheet().moving_sprite_offset);
    assert_eq!(scene.sprite.src.x, 192);
    assert_eq!(scene.sprite.dst, Rect { x: 68, y: 112, width: 64, height: 112 });
    assert!(!scene.sprite.flip_horizontal);
}

#[test]
fn key_three_selects_the_female_knight() {
    for movement in [Movement::Continuous, Movement::Discrete] {
        let mut still = Game::new(movement);
        let scene = scene_of(still.tick(Some(InputEvent::KeyDown(Key::Num3)), 0));
        assert_eq!(still.character().sprite_y(), 68);
        assert_eq!(still.character().skin().name(), "Knight (F)");
        assert_eq!(scene.label.name(), "Knight (F)");
        assert_eq!(scene.sprite.src.y, 68);

        let mut walking = Game::new(movement);
        walking.tick(Some(InputEvent::KeyDown(Key::Left)), 0);
        walking.tick(Some(InputEvent::KeyDown(Key::Down)), 40);
        let x = walking.character().x();
        let y = walking.character().y();
        let velocity_x = walking.character().velocity_x();
        let velocity_y = walking.character().velocity_y();
        let quit = walking.handle_event(InputEvent::KeyDown(Key::Num3));
        assert!(!quit);
        assert_eq!(walking.character().sprite_y(), 68);
        assert_eq!(walking.character().skin().name(), "Knight (F)");
        assert_eq!(walking.character().x(), x);
        assert_eq!(walking.character().y(), y);
        assert_eq!(walking.character().velocity_x(), velocity_x);
        assert_eq!(walking.character().velocity_y(), velocity_y);
        assert_eq!(walking.character().facing(), Facing::Left);
    }
}

#[test]
fn continuous_ten_milliseconds_are_ten_steps() {
    let mut game = Game::new(Movement::Continuous);
    assert!(!game.handle_event(InputEvent::KeyDown(Key::Right)));
    assert_eq!(game.character().velocity_x(), 300);
    assert_eq!(game.character().velocity_y(), 0);
    let x = game.character().x();
    let steps = game.advance(10);
    assert_eq!(steps, 10);
    assert_eq!(game.character().x() - x, 3_000);
    assert_eq!(game.character().pos_x(), 67);
    assert_eq!(game.character().pos_y(), 112);
    assert_eq!(game.clock().t(), 10);
    assert_eq!(game.clock().accumulator(), 0);
}

#[test]
fn no_step_is_taken_when_no_time_has_passed() {
    let mut game = Game::new(Movement::Continuous);
    game.tick(Some(InputEvent::KeyDown(Key::Left)), 150);
    let before = game.scene();
    assert_eq!(before.sprite.dst.x, 64 - 45);
    assert_eq!(before.sprite.src.x, 192 + 16);
    assert_eq!(game.advance(150), 0);
    assert_eq!(game.scene(), before);
    let action = game.tick(None, 150);
    assert_eq!(action, Action::Render(before));
    assert_eq!(game.clock().t(), 150);
}

#[test]
fn a_stall_is_caught_up_in_one_turn() {
    let mut game = Game::new(Movement::Continuous);
    game.tick(Some(InputEvent::KeyDown(Key::Down)), 0);
    let steps = game.advance(100_000);
    assert_eq!(steps, 100_000);
    assert_eq!(game.character().y(), 112_000 + 300 * 100_000);
    assert_eq!(game.character().pos_y(), 112 + 30_000);
    assert_eq!(game.character().curr_frame(), ((99_999 / 100) % 4) as u32);
    assert_eq!(game.clock().t(), 100_000);
    assert_eq!(game.clock().current_time(), 100_000);
}

#[test]
fn tick_handles_the_event_before_the_time() {
    let mut game = Game::new(Movement::Continuous);
    let scene = scene_of(game.tick(Some(InputEvent::KeyDown(Key::Left)), 20));
    assert_eq!(scene.sprite.dst.x, 64 - 6);
    assert!(scene.sprite.flip_horizontal);
    assert_eq!(scene.sprite.src.x, 192);
    let scene = scene_of(game.tick(Some(InputEvent::KeyUp(Key::Left)), 120));
    assert_eq!(scene.sprite.dst.x, 64 - 6);
    assert!(scene.sprite.flip_horizontal);
    assert_eq!(scene.sprite.src.x, 128 + 16);
    assert_eq!(game.character().curr_frame(), 1);
}

#[test]
fn quit_and_escape_end_the_game_and_change_nothing() {
    for event in [InputEvent::Quit, InputEvent::KeyDown(Key::Escape)] {
        let mut game = Game::new(Movement::Continuous);
        game.tick(Some(InputEvent::KeyDown(Key::Right)), 7);
        let before = game.scene();
        assert_eq!(game.tick(Some(event), 1_000), Action::Quit);
        assert_eq!(game.scene(), before);
        assert_eq!(game.clock().t(), 7);
        assert_eq!(game.clock().current_time(), 7);
        assert_eq!(game.character().velocity_x(), 300);
        assert!(event.is_quit());
        assert!(game.handle_event(event));
    }
}

#[test]
fn other_events_do_not_end_the_game() {
    let events = [
        InputEvent::KeyUp(Key::Escape),
        InputEvent::KeyDown(Key::Other),
        InputEvent::KeyUp(Key::Other),
        InputEvent::KeyDown(Key::Left),
        InputEvent::KeyDown(Key::Num1),
    ];
    let mut game = Game::new(Movement::Discrete);
    for event in events {
        assert!(!event.is_quit());
        assert!(!game.handle_event(event));
    }
}

#[test]
fn releasing_a_number_key_leaves_the_skin() {
    let mut game = Game::new(Movement::Continuous);
    game.handle_event(InputEvent::KeyDown(Key::Num5));
    assert_eq!(game.character().skin(), Skin::WizardF);
    game.handle_event(InputEvent::KeyUp(Key::Num5));
    assert_eq!(game.character().skin(), Skin::WizardF);
    game.handle_event(InputEvent::KeyUp(Key::Num2));
    assert_eq!(game.character().skin(), Skin::WizardF);
    assert_eq!(game.scene().label, Skin::WizardF);
    assert_eq!(game.scene().sprite.src.y, 132);
}

#[test]
fn every_number_key_selects_its_skin() {
    let table = [
        (Key::Num1, Skin::ElfF, 4, "Elf (F)"),
        (Key::Num2, Skin::ElfM, 36, "Elf (M)"),
        (Key::Num3, Skin::KnightF, 68, "Knight (F)"),
        (Key::Num4, Skin::KnightM, 100, "Knight (M)"),
        (Key::Num5, Skin::WizardF, 132, "Wizard (F)"),
        (Key::Num6, Skin::WizardM, 164, "Wizard (M)"),
        (Key::Num7, Skin::LizardF, 196, "Lizard (F)"),
        (Key::Num8, Skin::LizardM, 228, "Lizard (M)"),
    ];
    for (key, skin, row, name) in table {
        assert_eq!(Skin::for_key(key), Some(skin));
        assert_eq!(skin.row_y(), row);
        assert_eq!(skin.name(), name);
        let mut game = Game::new(Movement::Continuous);
        game.handle_event(InputEvent::KeyDown(key));
        assert_eq!(game.character().sprite_y(), row);
        assert_eq!(game.character().skin().name(), name);
    }
    for key in [Key::Escape, Key::Left, Key::Right, Key::Up, Key::Down, Key::Other] {
        assert_eq!(Skin::for_key(key), None);
    }
}

#[test]
fn arrow_keys_have_directions() {
    assert_eq!(Key::Left.direction(), Some(Direction::Left));
    assert_eq!(Key::Right.direction(), Some(Direction::Right));
    assert_eq!(Key::Up.direction(), Some(Direction::Up));
    assert_eq!(Key::Down.direction(), Some(Direction::Down));
    for key in [Key::Escape, Key::Num1, Key::Num8, Key::Other] {
        assert_eq!(key.direction(), None);
    }
    assert!(Direction::Left.is_horizontal());
    assert!(Direction::Right.is_horizontal());
    assert!(!Direction::Up.is_horizontal());
    assert!(!Direction::Down.is_horizontal());
    assert!(Direction::Left.is_negative());
    assert!(Direction::Up.is_negative());
    assert!(!Direction::Right.is_negative());
    assert!(!Direction::Down.is_negative());
}

#[test]
fn label_goes_to_the_upper_left() {
    assert_eq!((LABEL_X, LABEL_Y), (16, 0));
    assert_eq!(label_rect(120, 64), Rect { x: 16, y: 0, width: 120, height: 64 });
    assert_eq!(label_rect(0, u32::MAX), Rect { x: 16, y: 0, width: 0, height: u32::MAX });
}

#[test]
fn timestep_of_size_zero_does_not_exist() {
    assert!(Timestep::new(0).is_none());
    assert!(Timestep::new(1).is_some());
    assert!(Timestep::new(u128::MAX).is_some());
}

#[test]
fn timestep_hands_on_whole_steps_only() {
    let mut clock = Timestep::new(3).unwrap();
    assert_eq!(clock.step(), 3);
    assert_eq!(clock.take_step(), None);
    clock.sample(2);
    assert_eq!(clock.accumulator(), 2);
    assert_eq!(clock.take_step(), None);
    clock.sample(10);
    assert_eq!(clock.current_time(), 10);
    assert_eq!(clock.accumulator(), 10);
    assert_eq!(clock.take_step(), Some(0));
    assert_eq!(clock.take_step(), Some(3));
    assert_eq!(clock.take_step(), Some(6));
    assert_eq!(clock.take_step(), None);
    assert_eq!(clock.t(), 9);
    assert_eq!(clock.accumulator(), 1);
    assert_eq!(clock.current_time(), 10);
    clock.sample(10);
    assert_eq!(clock.take_step(), None);
    clock.sample(11);
    assert_eq!(clock.take_step(), None);
    clock.sample(12);
    assert_eq!(clock.take_step(), Some(9));
    assert_eq!(clock.t(), 12);
    assert_eq!(clock.accumulator(), 0);
}

#[test]
fn timestep_takes_the_largest_times() {
    let mut clock = Timestep::new(u128::MAX).unwrap();
    clock.sample(u128::MAX - 1);
    assert_eq!(clock.take_step(), None);
    clock.sample(u128::MAX);
    assert_eq!(clock.take_step(), Some(0));
    assert_eq!(clock.t(), u128::MAX);
    assert_eq!(clock.accumulator(), 0);
    assert_eq!(clock.take_step(), None);
}

fn drain(clock: &mut Timestep) -> u128 {
    let mut steps = 0;
    while clock.take_step().is_some() {
        steps += 1;
    }
    steps
}

#[test]
fn timestep_does_not_depend_on_how_often_it_is_sampled() {
    let mut often = Timestep::new(7).unwrap();
    let mut steps = 0;
    for now in [0, 1, 6, 7, 8, 20, 20, 21, 100] {
        often.sample(now);
        steps += drain(&mut often);
    }
    let mut once = Timestep::new(7).unwrap();
    once.sample(100);
    assert_eq!(drain(&mut once), 14);
    assert_eq!(steps, 14);
    assert_eq!(often.t(), 98);
    assert_eq!(once.t(), 98);
    assert_eq!(often.accumulator(), 2);
    assert_eq!(once.accumulator(), 2);
    assert_eq!(often.current_time(), once.current_time());
}

#[test]
fn game_does_not_depend_on_how_often_the_clock_is_read() {
    for movement in [Movement::Continuous, Movement::Discrete] {
        let mut often = Game::new(movement);
        often.handle_event(InputEvent::KeyDown(Key::Left));
        often.handle_event(InputEvent::KeyDown(Key::Up));
        let mut steps = 0;
        for now in [0, 3, 3, 99, 100, 101, 250, 777] {
            steps += often.advance(now);
        }
        let mut once = Game::new(movement);
        once.handle_event(InputEvent::KeyDown(Key::Left));
        once.handle_event(InputEvent::KeyDown(Key::Up));
        assert_eq!(once.advance(777), 777);
        assert_eq!(steps, 777);
        assert_eq!(often.scene(), once.scene());
        assert_eq!(often.character().x(), once.character().x());
        assert_eq!(often.character().y(), once.character().y());
        assert_eq!(often.character().curr_frame(), 3);
        assert_eq!(often.clock().t(), once.clock().t());
        assert_eq!(often.clock().accumulator(), once.clock().accumulator());
    }
    let mut walked = Game::new(Movement::Continuous);
    walked.handle_event(InputEvent::KeyDown(Key::Left));
    walked.handle_event(InputEvent::KeyDown(Key::Up));
    walked.advance(777);
    assert_eq!(walked.character().x(), 64_000 - 300 * 777);
    assert_eq!(walked.character().y(), 112_000 - 300 * 777);
    let mut stepped = Game::new(Movement::Discrete);
    stepped.handle_event(InputEvent::KeyDown(Key::Left));
    stepped.handle_event(InputEvent::KeyDown(Key::Up));
    stepped.advance(777);
    assert_eq!(stepped.character().x(), 60_000);
    assert_eq!(stepped.character().y(), 108_000);
}

#[test]
fn a_session_of_turns() {
    let mut game = Game::new(Movement::Continuous);
    let turns = [
        (None, 0, 64, 112, false, 128),
        (Some(InputEvent::KeyDown(Key::Right)), 10, 67, 112, false, 192),
        (None, 110, 97, 112, false, 192 + 16),
        (Some(InputEvent::KeyDown(Key::Up)), 210, 127, 82, false, 192 + 2 * 16),
        (Some(InputEvent::KeyUp(Key::Right)), 310, 127, 52, false, 192 + 3 * 16),
        (Some(InputEvent::KeyDown(Key::Left)), 410, 97, 22, true, 192),
        (Some(InputEvent::KeyUp(Key::Up)), 420, 94, 22, true, 192),
        (Some(InputEvent::KeyUp(Key::Left)), 520, 94, 22, true, 128 + 16),
        (Some(InputEvent::KeyDown(Key::Other)), 520, 94, 22, true, 128 + 16),
    ];
    for (event, now, x, y, flip, src_x) in turns {
        let scene = scene_of(game.tick(event, now));
        assert_eq!(scene.sprite.dst, Rect { x, y, width: 64, height: 112 });
        assert_eq!(scene.sprite.flip_horizontal, flip);
        assert_eq!(scene.sprite.src.x, src_x);
        assert_eq!(game.clock().current_time(), now);
        assert_eq!(game.clock().t(), now);
    }
    assert_eq!(game.tick(Some(InputEvent::Quit), 600), Action::Quit);
    assert_eq!(game.clock().current_time(), 520);
}
