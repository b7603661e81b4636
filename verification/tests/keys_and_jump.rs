use rollball::control::{
    apply_controls, arrow_keys_apply_force, Applied, TargetAngVel, Vect, Velocity,
};
use rollball::keyboard::{action_of, exit_on_esc, Action, Controls, Key, Keyboard};
use rollball::units::{JUMP_SPEED, UNITS_PER_ONE};

const FRAME: u64 = 16_666_667;

fn falling() -> Velocity {
    Velocity { linvel: Vect { x: 42 * UNITS_PER_ONE, y: -100 * UNITS_PER_ONE }, angvel: 7 }
}

#[test]
fn jump_speed_is_three_hundred_and_sixty() {
    assert_eq!(JUMP_SPEED, 360 * UNITS_PER_ONE);
}

#[test]
fn a_fresh_press_of_any_jump_key_jumps() {
    for key in [Key::Space, Key::Up, Key::W] {
        let mut vel = falling();
        let mut target = TargetAngVel(None);
        let keyboard = Keyboard { pressed: vec![key], just_pressed: vec![key] };
        let applied = arrow_keys_apply_force(&keyboard, &mut vel, &mut target, FRAME);
        assert_eq!(vel.linvel, Vect { x: 42 * UNITS_PER_ONE, y: JUMP_SPEED });
        assert_eq!(vel.angvel, 7);
        assert_eq!(target, TargetAngVel(None));
        assert_eq!(applied, Applied { angvel: false, linvel: true });
    }
}

#[test]
fn a_held_jump_key_jumps_once() {
    let mut vel = falling();
    let mut target = TargetAngVel(None);
    let pressed_now = Keyboard { pressed: vec![Key::Space], just_pressed: vec![Key::Space] };
    arrow_keys_apply_force(&pressed_now, &mut vel, &mut target, FRAME);
    assert_eq!(vel.linvel.y, JUMP_SPEED);

    let still_held = Keyboard { pressed: vec![Key::Space], just_pressed: vec![] };
    for _ in 0..5 {
        vel.linvel.y -= 16 * UNITS_PER_ONE;
        let before = vel;
        let applied = arrow_keys_apply_force(&still_held, &mut vel, &mut target, FRAME);
        assert_eq!(vel, before);
        assert!(!applied.linvel);
    }
}

#[test]
fn a_second_jump_key_jumps_again_in_mid_air() {
    let mut vel = falling();
    let mut target = TargetAngVel(None);
    let keyboard = Keyboard { pressed: vec![Key::Space, Key::W], just_pressed: vec![Key::W] };
    let applied = arrow_keys_apply_force(&keyboard, &mut vel, &mut target, FRAME);
    assert!(applied.linvel);
    assert_eq!(vel.linvel, Vect { x: 42 * UNITS_PER_ONE, y: JUMP_SPEED });
}

#[test]
fn steering_keys_do_not_jump_and_jump_keys_do_not_steer() {
    let mut vel = falling();
    let mut target = TargetAngVel(None);
    let keyboard = Keyboard {
        pressed: vec![Key::Up, Key::Left],
        just_pressed: vec![Key::Left, Key::Right, Key::A, Key::D, Key::Escape],
    };
    let applied = arrow_keys_apply_force(&keyboard, &mut vel, &mut target, 1_000_000_000);
    assert_eq!(applied, Applied { angvel: true, linvel: false });
    assert_eq!(vel.linvel, falling().linvel);
    assert_eq!(vel.angvel, 8 * UNITS_PER_ONE + 7);
}

#[test]
fn jump_and_steer_in_one_frame() {
    let mut vel = falling();
    let mut target = TargetAngVel(Some(UNITS_PER_ONE));
    let controls = Controls { steer_left: false, steer_right: true, jump: true };
    let applied = apply_controls(controls, &mut vel, &mut target, 500_000_000);
    assert_eq!(applied, Applied { angvel: true, linvel: true });
    assert_eq!(vel.linvel, Vect { x: 42 * UNITS_PER_ONE, y: JUMP_SPEED });
    assert_eq!(vel.angvel, -3 * UNITS_PER_ONE);
    assert_eq!(target, TargetAngVel(Some(-3 * UNITS_PER_ONE)));
}

#[test]
fn every_key_has_its_binding() {
    assert_eq!(action_of(Key::Left), Action::SteerLeft);
    assert_eq!(action_of(Key::A), Action::SteerLeft);
    assert_eq!(action_of(Key::Right), Action::SteerRight);
    assert_eq!(action_of(Key::D), Action::SteerRight);
    assert_eq!(action_of(Key::Space), Action::Jump);
    assert_eq!(action_of(Key::Up), Action::Jump);
    assert_eq!(action_of(Key::W), Action::Jump);
    assert_eq!(action_of(Key::Escape), Action::Exit);
}

#[test]
fn held_and_struck_keys_are_read_apart() {
    let keyboard = Keyboard {
        pressed: vec![Key::W, Key::D, Key::Escape],
        just_pressed: vec![Key::A],
    };
    assert!(keyboard.any_pressed(Action::Jump));
    assert!(keyboard.any_pressed(Action::SteerRight));
    assert!(keyboard.any_pressed(Action::Exit));
    assert!(!keyboard.any_pressed(Action::SteerLeft));
    assert!(keyboard.any_just_pressed(Action::SteerLeft));
    assert!(!keyboard.any_just_pressed(Action::Jump));
    assert!(!keyboard.any_just_pressed(Action::SteerRight));
    assert!(!keyboard.any_just_pressed(Action::Exit));
    assert_eq!(
        keyboard.controls(),
        Controls { steer_left: false, steer_right: true, jump: false }
    );
}

#[test]
fn an_idle_keyboard_gives_no_controls() {
    let keyboard = Keyboard { pressed: vec![], just_pressed: vec![] };
    assert_eq!(
        keyboard.controls(),
        Controls { steer_left: false, steer_right: false, jump: false }
    );
    assert!(!exit_on_esc(&keyboard));
}

#[test]
fn the_last_key_of_a_long_list_is_found() {
    let keyboard = Keyboard {
        pressed: vec![Key::Space, Key::Up, Key::W, Key::Escape, Key::D, Key::Right, Key::A],
        just_pressed: vec![Key::Left, Key::A, Key::D, Key::Escape, Key::Space],
    };
    assert_eq!(
        keyboard.controls(),
        Controls { steer_left: true, steer_right: true, jump: true }
    );
}

#[test]
fn escape_asks_to_leave_only_when_freshly_pressed() {
    let struck = Keyboard { pressed: vec![Key::Escape], just_pressed: vec![Key::Left, Key::Escape] };
    assert!(exit_on_esc(&struck));
    let held = Keyboard { pressed: vec![Key::Escape], just_pressed: vec![] };
    assert!(!exit_on_esc(&held));
    let others = Keyboard {
        pressed: vec![],
        just_pressed: vec![Key::Left, Key::Right, Key::Up, Key::A, Key::D, Key::W, Key::Space],
    };
    assert!(!exit_on_esc(&others));
}
