use nbodies::common::{Direction, Orientation, ANGLE_STEPS_PER_TURN};
use nbodies::control::{Action, Config, Frame, ScaleChange, Simulator, State, Status};
use nbodies::keys::{
    BUTTON_UNKNOWN, KEY_DECREASE_CURRENT_INDEX, KEY_DECREASE_DISTANCE, KEY_DECREASE_OVERSAMPLING,
    KEY_DECREASE_TIME, KEY_DIRECTION_DOWN, KEY_DIRECTION_LEFT, KEY_DIRECTION_RIGHT,
    KEY_DIRECTION_UP, KEY_INCREASE_CURRENT_INDEX, KEY_INCREASE_DISTANCE,
    KEY_INCREASE_OVERSAMPLING, KEY_INCREASE_TIME, KEY_NEXT_FRAME_STATE, KEY_NEXT_METHOD_STATE,
    KEY_RESET, KEY_ROTATION_DOWN, KEY_ROTATION_LEFT, KEY_ROTATION_RIGHT, KEY_ROTATION_UP,
    KEY_TOGGLE_PAUSE, KEY_TOGGLE_TRAJECTORY, KEY_TOGGLE_TRANSLATE, KEY_UNKNOWN, MOUSE_MOVE_ADD,
    MOUSE_MOVE_REMOVE, MOUSE_WAIT_DROP_CANCEL, MOUSE_WAIT_DROP_DO,
};

#[test]
fn opposite_directions() {
    assert!(Direction::Left.opposite(&Direction::Right));
    assert!(Direction::Right.opposite(&Direction::Left));
    assert!(Direction::Up.opposite(&Direction::Down));
    assert!(!Direction::Up.opposite(&Direction::Left));
    assert!(!Direction::Left.opposite(&Direction::Left));
    assert!(Direction::Hold.opposite(&Direction::Hold));
}

#[test]
fn direction_values() {
    assert_eq!(Direction::Left.value(), -1);
    assert_eq!(Direction::Right.value(), 1);
    assert_eq!(Direction::Up.value(), -2);
    assert_eq!(Direction::Down.value(), 2);
    assert_eq!(Direction::Hold.value(), 0);
}

#[test]
fn direction_of_keys() {
    assert_eq!(Direction::from(&KEY_DIRECTION_LEFT), Direction::Left);
    assert_eq!(Direction::from(&KEY_DIRECTION_RIGHT), Direction::Right);
    assert_eq!(Direction::from(&KEY_DIRECTION_UP), Direction::Up);
    assert_eq!(Direction::from(&KEY_DIRECTION_DOWN), Direction::Down);
    assert_eq!(Direction::from(&KEY_RESET), Direction::Hold);
    assert_eq!(Direction::from(&KEY_UNKNOWN), Direction::Hold);
}

#[test]
fn direction_vectors() {
    assert_eq!(Direction::Left.as_vector(), (-1, 0, 0));
    assert_eq!(Direction::Right.as_vector(), (1, 0, 0));
    assert_eq!(Direction::Up.as_vector(), (0, 1, 0));
    assert_eq!(Direction::Down.as_vector(), (0, -1, 0));
    assert_eq!(Direction::Hold.as_vector(), (0, 0, 0));
}

#[test]
fn orientation_increments() {
    let mut o = Orientation::zeros();
    assert_eq!(o.rotation(), (0, 0, 0));
    o.increment_x().increment_x();
    o.increment_y();
    o.decrement_z();
    assert_eq!(o.rotation(), (2, 1, ANGLE_STEPS_PER_TURN - 1));
    o.decrement_x();
    o.decrement_y();
    o.increment_z();
    assert_eq!(o.rotation(), (1, 0, 0));
}

#[test]
fn orientation_full_turn() {
    let mut o = Orientation::zeros();
    o.increment_y();
    for _ in 0..ANGLE_STEPS_PER_TURN {
        o.increment_x();
        o.decrement_y();
        o.increment_z();
    }
    assert_eq!(o.rotation(), (0, 1, 0));
}

#[test]
fn edition_adds_a_body() {
    let mut s = State::Move;
    s.next(&KEY_UNKNOWN, &MOUSE_MOVE_ADD);
    assert_eq!(s, State::Add);
    s.next(&KEY_UNKNOWN, &BUTTON_UNKNOWN);
    assert_eq!(s, State::WaitDrop);
    s.next(&KEY_UNKNOWN, &BUTTON_UNKNOWN);
    assert_eq!(s, State::WaitDrop);
    s.next(&KEY_UNKNOWN, &MOUSE_WAIT_DROP_DO);
    assert_eq!(s, State::WaitSpeed);
    s.next(&KEY_UNKNOWN, &MOUSE_WAIT_DROP_CANCEL);
    assert_eq!(s, State::WaitDrop);
    s.next(&KEY_UNKNOWN, &MOUSE_WAIT_DROP_DO);
    s.next(&KEY_UNKNOWN, &MOUSE_WAIT_DROP_DO);
    assert_eq!(s, State::Move);
}

#[test]
fn edition_cancels_a_drop() {
    let mut s = State::WaitDrop;
    s.next(&KEY_UNKNOWN, &MOUSE_WAIT_DROP_CANCEL);
    assert_eq!(s, State::CancelDrop);
    s.next(&KEY_UNKNOWN, &BUTTON_UNKNOWN);
    assert_eq!(s, State::Move);
}

#[test]
fn edition_translates_and_removes() {
    let mut s = State::Move;
    s.next(&KEY_TOGGLE_TRANSLATE, &BUTTON_UNKNOWN);
    assert_eq!(s, State::Translate);
    s.next(&KEY_DIRECTION_UP, &MOUSE_MOVE_ADD);
    assert_eq!(s, State::Translate);
    s.next(&KEY_TOGGLE_TRANSLATE, &BUTTON_UNKNOWN);
    assert_eq!(s, State::Move);
    s.next(&KEY_TOGGLE_TRANSLATE, &MOUSE_MOVE_REMOVE);
    assert_eq!(s, State::Remove);
    s.next(&KEY_UNKNOWN, &BUTTON_UNKNOWN);
    assert_eq!(s, State::Move);
}

#[test]
fn reset_key_resets_every_state() {
    for start in [
        State::Move,
        State::Translate,
        State::Add,
        State::Remove,
        State::WaitDrop,
        State::WaitSpeed,
        State::CancelDrop,
        State::Reset,
    ] {
        let mut s = start;
        s.next(&KEY_RESET, &MOUSE_WAIT_DROP_DO);
        assert_eq!(s, State::Reset);
    }
    let mut s = State::Reset;
    s.next(&KEY_UNKNOWN, &BUTTON_UNKNOWN);
    assert_eq!(s, State::Move);
}

#[test]
fn frames_cycle() {
    let mut f = Frame::Zero;
    f.next();
    assert_eq!(f, Frame::Current);
    f.next();
    assert_eq!(f, Frame::Barycenter);
    f.next();
    assert_eq!(f, Frame::Zero);
}

#[test]
fn config_defaults() {
    let c = Config::default();
    assert_eq!(c.path, None);
    assert_eq!(c.oversampling, 1024);
    assert!(c.trajectory);
    assert!(c.pause);
    assert_eq!(c.orientation.rotation(), (0, 0, 0));
    let c = Config::new(Some(String::from("system.json")), 8);
    assert_eq!(c.path, Some(String::from("system.json")));
    assert_eq!(c.oversampling, 8);
}

#[test]
fn config_toggles() {
    let mut c = Config::default();
    assert_eq!(c.update(&KEY_TOGGLE_TRAJECTORY), ScaleChange::Keep);
    assert!(!c.trajectory);
    c.update(&KEY_TOGGLE_TRAJECTORY);
    assert!(c.trajectory);
    c.update(&KEY_TOGGLE_PAUSE);
    assert!(!c.pause);
    c.update(&KEY_TOGGLE_PAUSE);
    assert!(c.pause);
}

#[test]
fn config_oversampling() {
    let mut c = Config::new(None, 3);
    c.update(&KEY_INCREASE_OVERSAMPLING);
    assert_eq!(c.oversampling, 6);
    c.update(&KEY_DECREASE_OVERSAMPLING);
    c.update(&KEY_DECREASE_OVERSAMPLING);
    assert_eq!(c.oversampling, 1);
    c.update(&KEY_DECREASE_OVERSAMPLING);
    assert_eq!(c.oversampling, 1);
    let mut c = Config::new(None, 0x8000_0001);
    c.update(&KEY_INCREASE_OVERSAMPLING);
    assert_eq!(c.oversampling, 2);
    let mut c = Config::new(None, 0);
    c.update(&KEY_DECREASE_OVERSAMPLING);
    assert_eq!(c.oversampling, 1);
}

#[test]
fn config_rotation_and_scales() {
    let mut c = Config::default();
    c.update(&KEY_ROTATION_DOWN);
    c.update(&KEY_ROTATION_DOWN);
    c.update(&KEY_ROTATION_LEFT);
    assert_eq!(c.orientation.rotation(), (2, 0, 1));
    c.update(&KEY_ROTATION_UP);
    c.update(&KEY_ROTATION_RIGHT);
    c.update(&KEY_ROTATION_RIGHT);
    assert_eq!(c.orientation.rotation(), (1, 0, 95));
    assert_eq!(c.update(&KEY_INCREASE_DISTANCE), ScaleChange::IncreaseDistance);
    assert_eq!(c.update(&KEY_DECREASE_DISTANCE), ScaleChange::DecreaseDistance);
    assert_eq!(c.update(&KEY_INCREASE_TIME), ScaleChange::IncreaseTime);
    assert_eq!(c.update(&KEY_DECREASE_TIME), ScaleChange::DecreaseTime);
    assert_eq!(c.update(&KEY_RESET), ScaleChange::Keep);
    assert_eq!(c.oversampling, 1024);
}

#[test]
fn status_starts_reset() {
    let s = Status::new();
    assert_eq!(s.state, State::Reset);
    assert_eq!(s.direction, Direction::Hold);
    assert!(s.reset_circles && s.update_transform);
    assert!(!s.update_current && !s.increase_current && !s.next_frame && !s.next_method);
    assert!(!s.is_waiting_to_add());
}

#[test]
fn status_keys() {
    let mut s = Status::new();
    s.clear();
    assert_eq!(s.state, State::Move);
    assert!(!s.reset_circles && !s.update_transform);

    s.update(&Some(KEY_DIRECTION_LEFT), &None);
    assert_eq!(s.direction, Direction::Left);
    assert!(!s.reset_circles);

    s.update(&Some(KEY_ROTATION_UP), &None);
    assert_eq!(s.direction, Direction::Left);
    assert!(s.reset_circles && s.update_transform);

    s.update(&Some(KEY_INCREASE_CURRENT_INDEX), &None);
    assert!(s.update_current && s.increase_current);
    s.update(&Some(KEY_DECREASE_CURRENT_INDEX), &None);
    assert!(s.update_current && !s.increase_current);

    s.update(&Some(KEY_NEXT_FRAME_STATE), &None);
    assert!(s.next_frame);
    assert!(!s.next_method);
    s.update(&Some(KEY_NEXT_METHOD_STATE), &None);
    assert!(s.next_method);

    s.update(&Some(KEY_TOGGLE_PAUSE), &None);
    assert_eq!(s.direction, Direction::Hold);

    s.update(&None, &Some(MOUSE_MOVE_ADD));
    assert_eq!(s.state, State::Add);
    s.clear();
    assert_eq!(s.state, State::WaitDrop);
    assert!(s.is_waiting_to_add());
    assert!(!s.update_current && !s.next_frame && !s.next_method);
    assert!(!s.increase_current);
}

#[test]
fn status_key_and_button() {
    let mut s = Status::new();
    s.clear();
    s.update(&Some(KEY_DIRECTION_UP), &Some(MOUSE_MOVE_REMOVE));
    assert_eq!(s.direction, Direction::Up);
    assert_eq!(s.state, State::Remove);
    s.update(&None, &None);
    assert_eq!(s.direction, Direction::Hold);
    assert_eq!(s.state, State::Move);
}

#[test]
fn selection_moves() {
    let mut sim = Simulator::new();
    assert_eq!(sim.current_index(), 0);
    assert_eq!(sim.update(&Some(KEY_INCREASE_CURRENT_INDEX), false, 3), Action::Nothing);
    assert_eq!(sim.current_index(), 1);
    sim.update(&Some(KEY_INCREASE_CURRENT_INDEX), false, 3);
    sim.update(&Some(KEY_INCREASE_CURRENT_INDEX), false, 3);
    assert_eq!(sim.current_index(), 2);
    sim.update(&Some(KEY_DECREASE_CURRENT_INDEX), false, 3);
    assert_eq!(sim.current_index(), 1);
    sim.update(&Some(KEY_INCREASE_CURRENT_INDEX), true, 3);
    assert_eq!(sim.current_index(), 1);
    sim.update(&Some(KEY_DECREASE_CURRENT_INDEX), false, 3);
    sim.update(&Some(KEY_DECREASE_CURRENT_INDEX), false, 3);
    assert_eq!(sim.current_index(), 0);
}

#[test]
fn selection_frames_and_methods() {
    let mut sim = Simulator::new();
    assert_eq!(sim.update(&Some(KEY_NEXT_METHOD_STATE), false, 2), Action::NextMethod);
    assert_eq!(sim.update(&Some(KEY_NEXT_FRAME_STATE), false, 2), Action::ResetOrigin);
    assert_eq!(sim.frame, Frame::Current);
    assert_eq!(sim.update(&Some(KEY_INCREASE_CURRENT_INDEX), false, 2), Action::ResetOrigin);
    assert_eq!(sim.current, 1);
    assert_eq!(sim.update(&Some(KEY_TOGGLE_PAUSE), false, 2), Action::Nothing);
    assert_eq!(sim.update(&None, false, 2), Action::Nothing);
    assert_eq!(sim.current, 1);
}

#[test]
fn selection_removals() {
    let mut sim = Simulator::new();
    sim.current = 2;
    assert_eq!(sim.pop(3), 1);
    assert_eq!(sim.current, 1);
    assert_eq!(sim.pop(3), 0);
    assert_eq!(sim.current, 1);
    sim.frame = Frame::Current;
    assert_eq!(sim.remove(1, 2), 2);
    assert_eq!(sim.current, 0);
    sim.current = 2;
    assert_eq!(sim.remove(0, 3), 0);
    assert_eq!(sim.current, 2);
    sim.current = 0;
    assert_eq!(sim.pop(1), 2);
    assert_eq!(sim.current, 0);
}

#[test]
fn right_click_adds_a_body() {
    let right: u32 = 2;
    let left: u32 = 1;
    let mut s = State::Move;
    s.next(&KEY_UNKNOWN, &right);
    assert_eq!(s, State::Add);
    s.next(&KEY_UNKNOWN, &BUTTON_UNKNOWN);
    assert_eq!(s, State::WaitDrop);
    s.next(&KEY_UNKNOWN, &right);
    assert_eq!(s, State::WaitSpeed);
    s.next(&KEY_UNKNOWN, &right);
    assert_eq!(s, State::Move);
    s.next(&KEY_UNKNOWN, &left);
    assert_eq!(s, State::Remove);
}

#[test]
fn semicolon_halves_time() {
    let semicolon: u32 = 0x3B;
    let comma: u32 = 0x2C;
    let mut c = Config::default();
    assert_eq!(c.update(&semicolon), ScaleChange::DecreaseTime);
    assert_eq!(c.update(&comma), ScaleChange::IncreaseTime);
    assert_eq!(c.update(&0x69), ScaleChange::IncreaseDistance);
    assert_eq!(c.update(&0x75), ScaleChange::DecreaseDistance);
}
