//! State machines of the application: the edition state driven by the keyboard
//! and the mouse, the reference frame, the configuration toggled by keys, the
//! status flags of a frame of the event loop and the selection of the current
//! body of the simulation.

use vstd::prelude::*;

use crate::common::{direction_of_key, step_down, step_up, Direction, Orientation, HOLD};
use crate::keys::{
    ButtonCode, KeyCode, BUTTON_UNKNOWN, KEY_DECREASE_CURRENT_INDEX, KEY_DECREASE_DISTANCE,
    KEY_DECREASE_OVERSAMPLING, KEY_DECREASE_TIME, KEY_INCREASE_CURRENT_INDEX,
    KEY_INCREASE_DISTANCE, KEY_INCREASE_OVERSAMPLING, KEY_INCREASE_TIME, KEY_NEXT_FRAME_STATE,
    KEY_NEXT_METHOD_STATE, KEY_RESET, KEY_ROTATION_DOWN, KEY_ROTATION_LEFT, KEY_ROTATION_RIGHT,
    KEY_ROTATION_UP, KEY_TOGGLE_PAUSE, KEY_TOGGLE_TRAJECTORY, KEY_TOGGLE_TRANSLATE, KEY_UNKNOWN,
    MOUSE_MOVE_ADD, MOUSE_MOVE_REMOVE, MOUSE_WAIT_DROP_CANCEL, MOUSE_WAIT_DROP_DO,
};

verus! {

/// Edition state of the simulation.
#[derive(Copy, Clone, Debug, PartialEq, Eq, Structural)]
pub enum State {
    Move,
    Translate,
    Add,
    Remove,
    WaitDrop,
    WaitSpeed,
    CancelDrop,
    Reset,
}

/// Transition of the edition state on a key and a mouse button.
pub open spec fn next_state(s: State, key: KeyCode, button: ButtonCode) -> State {
    if key == KEY_RESET {
        State::Reset
    } else {
        match s {
            State::Reset => State::Move,
            State::Add => State::WaitDrop,
            State::Remove => State::Move,
            State::CancelDrop => State::Move,
            State::Move => if button == MOUSE_MOVE_ADD {
                State::Add
            } else if button == MOUSE_MOVE_REMOVE {
                State::Remove
            } else if key == KEY_TOGGLE_TRANSLATE {
                State::Translate
            } else {
                State::Move
            },
            State::Translate => if key == KEY_TOGGLE_TRANSLATE {
                State::Move
            } else {
                State::Translate
            },
            State::WaitDrop => if button == MOUSE_WAIT_DROP_DO {
                State::WaitSpeed
            } else if button == MOUSE_WAIT_DROP_CANCEL {
                State::CancelDrop
            } else {
                State::WaitDrop
            },
            State::WaitSpeed => if button == MOUSE_WAIT_DROP_DO {
                State::Move
            } else if button == MOUSE_WAIT_DROP_CANCEL {
                State::WaitDrop
            } else {
                State::WaitSpeed
            },
        }
    }
}

impl State {
    /// Moves to the next state given the pressed key and mouse button.
    pub fn next(&mut self, key: &KeyCode, button: &ButtonCode)
        ensures
            *final(self) == next_state(*old(self), *key, *button),
    {
        if *key == KEY_RESET {
            *self = State::Reset;
            return;
        }
        *self = match *self {
            State::Reset => State::Move,
            State::Add => State::WaitDrop,
            State::Remove => State::Move,
            State::CancelDrop => State::Move,
            State::Move => if *button == MOUSE_MOVE_ADD {
                State::Add
            } else if *button == MOUSE_MOVE_REMOVE {
                State::Remove
            } else if *key == KEY_TOGGLE_TRANSLATE {
                State::Translate
            } else {
                *self
            },
            State::Translate => if *key == KEY_TOGGLE_TRANSLATE {
                State::Move
            } else {
                *self
            },
            State::WaitDrop => if *button == MOUSE_WAIT_DROP_DO {
                State::WaitSpeed
            } else if *button == MOUSE_WAIT_DROP_CANCEL {
                State::CancelDrop
            } else {
                *self
            },
            State::WaitSpeed => if *button == MOUSE_WAIT_DROP_DO {
                State::Move
            } else if *button == MOUSE_WAIT_DROP_CANCEL {
                State::WaitDrop
            } else {
                *self
            },
        };
    }
}

/// Reference frame in which the simulation is shown.
#[derive(Copy, Clone, Debug, PartialEq, Eq, Structural)]
pub enum Frame {
    Zero,
    Current,
    Barycenter,
}

/// The frame that follows `f` in the cycle zero, current body, barycenter.
pub open spec fn next_frame(f: Frame) -> Frame {
    match f {
        Frame::Zero => Frame::Current,
        Frame::Current => Frame::Barycenter,
        Frame::Barycenter => Frame::Zero,
    }
}

impl Frame {
    /// Moves to the next frame of the cycle.
    pub fn next(&mut self)
        ensures
            *final(self) == next_frame(*old(self)),
    {
        *self = match *self {
            Frame::Zero => Frame::Current,
            Frame::Current => Frame::Barycenter,
            Frame::Barycenter => Frame::Zero,
        }
    }
}

} // verus!

verus! {

/// Default number of integration steps per frame.
pub const DEFAULT_OVERSAMPLING: u32 = 1024;

/// Change of the time or distance scale asked by a key. The scales are real
/// numbers that the caller holds: each change doubles or halves one of them.
#[derive(Copy, Clone, Debug, PartialEq, Eq, Structural)]
pub enum ScaleChange {
    Keep,
    IncreaseDistance,
    DecreaseDistance,
    IncreaseTime,
    DecreaseTime,
}

/// The scale change that a key asks for.
pub open spec fn scale_change_of(key: KeyCode) -> ScaleChange {
    if key == KEY_INCREASE_DISTANCE {
        ScaleChange::IncreaseDistance
    } else if key == KEY_DECREASE_DISTANCE {
        ScaleChange::DecreaseDistance
    } else if key == KEY_INCREASE_TIME {
        ScaleChange::IncreaseTime
    } else if key == KEY_DECREASE_TIME {
        ScaleChange::DecreaseTime
    } else {
        ScaleChange::Keep
    }
}

/// Oversampling after doubling: the bits of a `u32` shifted left by one.
pub open spec fn doubled_oversampling(o: u32) -> int {
    (2 * o) % 0x1_0000_0000
}

/// Oversampling after halving, never below one.
pub open spec fn halved_oversampling(o: u32) -> int {
    if o / 2 >= 1 {
        (o / 2) as int
    } else {
        1
    }
}

/// Settings of the simulation that keys toggle.
#[derive(Debug)]
pub struct Config {
    /// File of the orbital system to load, if any.
    pub path: Option<String>,
    /// Number of integration steps per frame.
    pub oversampling: u32,
    /// Orientation of the camera.
    pub orientation: Orientation,
    /// Whether trajectories are drawn.
    pub trajectory: bool,
    /// Whether the simulation is paused.
    pub pause: bool,
}

impl Config {
    /// A configuration with the camera unrotated, trajectories shown and the
    /// simulation paused.
    pub fn new(path: Option<String>, oversampling: u32) -> (c: Config)
        ensures
            c.path == path,
            c.oversampling == oversampling,
            c.orientation@ == (0int, 0int, 0int),
            c.trajectory,
            c.pause,
    {
        Config {
            path,
            oversampling,
            orientation: Orientation::zeros(),
            trajectory: true,
            pause: true,
        }
    }

    /// The configuration with no file and the default oversampling.
    pub fn default() -> (c: Config)
        ensures
            c.path.is_none(),
            c.oversampling == DEFAULT_OVERSAMPLING,
            c.orientation@ == (0int, 0int, 0int),
            c.trajectory,
            c.pause,
    {
        Config::new(None, DEFAULT_OVERSAMPLING)
    }

    /// Applies a key: toggles, oversampling and camera rotation change here;
    /// the scale change that the key asks for is returned to the caller.
    pub fn update(&mut self, key: &KeyCode) -> (change: ScaleChange)
        ensures
            change == scale_change_of(*key),
            final(self).path == old(self).path,
            final(self).trajectory == (if *key == KEY_TOGGLE_TRAJECTORY {
                !old(self).trajectory
            } else {
                old(self).trajectory
            }),
            final(self).pause == (if *key == KEY_TOGGLE_PAUSE {
                !old(self).pause
            } else {
                old(self).pause
            }),
            final(self).oversampling == (if *key == KEY_INCREASE_OVERSAMPLING {
                doubled_oversampling(old(self).oversampling)
            } else if *key == KEY_DECREASE_OVERSAMPLING {
                halved_oversampling(old(self).oversampling)
            } else {
                old(self).oversampling as int
            }),
            final(self).orientation@ == (if *key == KEY_ROTATION_DOWN {
                (step_up(old(self).orientation@.0), old(self).orientation@.1, old(self).orientation@.2)
            } else if *key == KEY_ROTATION_UP {
                (step_down(old(self).orientation@.0), old(self).orientation@.1, old(self).orientation@.2)
            } else if *key == KEY_ROTATION_LEFT {
                (old(self).orientation@.0, old(self).orientation@.1, step_up(old(self).orientation@.2))
            } else if *key == KEY_ROTATION_RIGHT {
                (old(self).orientation@.0, old(self).orientation@.1, step_down(old(self).orientation@.2))
            } else {
                old(self).orientation@
            }),
    {
        if *key == KEY_TOGGLE_TRAJECTORY {
            self.trajectory = !self.trajectory;
        } else if *key == KEY_TOGGLE_PAUSE {
            self.pause = !self.pause;
        } else if *key == KEY_INCREASE_OVERSAMPLING {
            self.increase_oversampling();
        } else if *key == KEY_DECREASE_OVERSAMPLING {
            self.decrease_oversampling();
        } else if *key == KEY_ROTATION_DOWN {
            self.orientation.increment_x();
        } else if *key == KEY_ROTATION_UP {
            self.orientation.decrement_x();
        } else if *key == KEY_ROTATION_LEFT {
            self.orientation.increment_z();
        } else if *key == KEY_ROTATION_RIGHT {
            self.orientation.decrement_z();
        } else if *key == KEY_INCREASE_DISTANCE {
            return ScaleChange::IncreaseDistance;
        } else if *key == KEY_DECREASE_DISTANCE {
            return ScaleChange::DecreaseDistance;
        } else if *key == KEY_INCREASE_TIME {
            return ScaleChange::IncreaseTime;
        } else if *key == KEY_DECREASE_TIME {
            return ScaleChange::DecreaseTime;
        }
        ScaleChange::Keep
    }

    fn increase_oversampling(&mut self)
        ensures
            final(self).oversampling == doubled_oversampling(old(self).oversampling),
            final(self).path == old(self).path,
            final(self).orientation == old(self).orientation,
            final(self).trajectory == old(self).trajectory,
            final(self).pause == old(self).pause,
    {
        let o = self.oversampling;
        let doubled = o << 1u32;
        assert(doubled == (2 * o) % 0x1_0000_0000) by (bit_vector)
            requires
                doubled == o << 1u32,
        ;
        self.oversampling = if doubled < u32::MAX {
            doubled
        } else {
            u32::MAX
        };
    }

    fn decrease_oversampling(&mut self)
        ensures
            final(self).oversampling == halved_oversampling(old(self).oversampling),
            final(self).path == old(self).path,
            final(self).orientation == old(self).orientation,
            final(self).trajectory == old(self).trajectory,
            final(self).pause == old(self).pause,
    {
        let o = self.oversampling;
        let halved = o >> 1u32;
        assert(halved == o / 2) by (bit_vector)
            requires
                halved == o >> 1u32,
        ;
        self.oversampling = if halved > u32::MIN + 1 {
            halved
        } else {
            u32::MIN + 1
        };
    }
}

} // verus!

verus! {

/// Keys after which the circles are redrawn from their trajectories and the
/// view transform is recomputed.
pub open spec fn refreshes_view(key: KeyCode) -> bool {
    ||| key == KEY_ROTATION_DOWN
    ||| key == KEY_ROTATION_UP
    ||| key == KEY_ROTATION_LEFT
    ||| key == KEY_ROTATION_RIGHT
    ||| key == KEY_INCREASE_CURRENT_INDEX
    ||| key == KEY_DECREASE_CURRENT_INDEX
    ||| key == KEY_NEXT_FRAME_STATE
    ||| key == KEY_INCREASE_DISTANCE
    ||| key == KEY_DECREASE_DISTANCE
}

/// Keys that the status handles itself; any other key sets the direction.
pub open spec fn status_key(key: KeyCode) -> bool {
    refreshes_view(key) || key == KEY_NEXT_METHOD_STATE
}

/// Key code of an optional key, the unknown key standing for none.
pub open spec fn key_or_unknown(key: Option<KeyCode>) -> KeyCode {
    match key {
        Some(k) => k,
        None => KEY_UNKNOWN,
    }
}

/// Button code of an optional button, the unknown button standing for none.
pub open spec fn button_or_unknown(button: Option<ButtonCode>) -> ButtonCode {
    match button {
        Some(b) => b,
        None => BUTTON_UNKNOWN,
    }
}

/// What the last inputs ask the application to do in the current frame.
#[derive(Clone, Debug)]
pub struct Status {
    pub direction: Direction,
    pub reset_circles: bool,
    pub update_transform: bool,
    pub update_current: bool,
    pub increase_current: bool,
    pub next_frame: bool,
    pub next_method: bool,
    pub state: State,
}

impl Status {
    /// The status at start: the view is to be computed, the state is `Reset`.
    pub fn new() -> (s: Status)
        ensures
            s.direction == Direction::Hold,
            s.reset_circles,
            s.update_transform,
            !s.update_current,
            !s.increase_current,
            !s.next_frame,
            !s.next_method,
            s.state == State::Reset,
    {
        Status {
            direction: Direction::Hold,
            reset_circles: true,
            update_transform: true,
            update_current: false,
            increase_current: false,
            next_frame: false,
            next_method: false,
            state: State::Reset,
        }
    }

    /// Whether a body is being added: its position or speed is awaited.
    pub fn is_waiting_to_add(&self) -> (b: bool)
        ensures
            b == (self.state == State::WaitSpeed || self.state == State::WaitDrop),
    {
        self.state == State::WaitSpeed || self.state == State::WaitDrop
    }

    /// Records a key press, a mouse click, or both.
    pub fn update(&mut self, key: &Option<KeyCode>, button: &Option<ButtonCode>)
        ensures
            final(self).state == next_state(
                old(self).state,
                key_or_unknown(*key),
                button_or_unknown(*button),
            ),
            final(self).direction == (match *key {
                None => Direction::Hold,
                Some(k) => if status_key(k) {
                    old(self).direction
                } else {
                    direction_of_key(k)
                },
            }),
            final(self).reset_circles == (old(self).reset_circles || (*key matches Some(k)
                && refreshes_view(k))),
            final(self).update_transform == (old(self).update_transform || (*key matches Some(k)
                && refreshes_view(k))),
            final(self).update_current == (old(self).update_current || *key == Some(
                KEY_INCREASE_CURRENT_INDEX,
            ) || *key == Some(KEY_DECREASE_CURRENT_INDEX)),
            final(self).increase_current == (if *key == Some(KEY_INCREASE_CURRENT_INDEX) {
                true
            } else if *key == Some(KEY_DECREASE_CURRENT_INDEX) {
                false
            } else {
                old(self).increase_current
            }),
            final(self).next_frame == (old(self).next_frame || *key == Some(
                KEY_NEXT_FRAME_STATE,
            )),
            final(self).next_method == (old(self).next_method || *key == Some(
                KEY_NEXT_METHOD_STATE,
            )),
    {
        match key {
            None => {
                self.direction = HOLD;
                match button {
                    None => self.state.next(&KEY_UNKNOWN, &BUTTON_UNKNOWN),
                    Some(button) => self.state.next(&KEY_UNKNOWN, button),
                };
            },
            Some(key) => {
                if *key == KEY_ROTATION_DOWN {
                    self.reset_circles = true;
                    self.update_transform = true;
                } else if *key == KEY_ROTATION_UP {
                    self.reset_circles = true;
                    self.update_transform = true;
                } else if *key == KEY_ROTATION_LEFT {
                    self.reset_circles = true;
                    self.update_transform = true;
                } else if *key == KEY_ROTATION_RIGHT {
                    self.reset_circles = true;
                    self.update_transform = true;
                } else if *key == KEY_INCREASE_CURRENT_INDEX {
                    self.increase_current = true;
                    self.update_current = true;
                    self.reset_circles = true;
                    self.update_transform = true;
                } else if *key == KEY_DECREASE_CURRENT_INDEX {
                    self.increase_current = false;
                    self.update_current = true;
                    self.reset_circles = true;
                    self.update_transform = true;
                } else if *key == KEY_NEXT_FRAME_STATE {
                    self.next_frame = true;
                    self.reset_circles = true;
                    self.update_transform = true;
                } else if *key == KEY_NEXT_METHOD_STATE {
                    self.next_method = true;
                } else if *key == KEY_INCREASE_DISTANCE || *key == KEY_DECREASE_DISTANCE {
                    self.reset_circles = true;
                    self.update_transform = true;
                } else {
                    self.direction = Direction::from(key);
                }
                match button {
                    None => self.state.next(key, &BUTTON_UNKNOWN),
                    Some(button) => self.state.next(key, button),
                };
            },
        };
    }

    /// Ends a frame: the state machine steps with no input, the direction is
    /// released and the one-frame requests are dropped.
    pub fn clear(&mut self)
        ensures
            final(self).state == next_state(old(self).state, KEY_UNKNOWN, BUTTON_UNKNOWN),
            final(self).direction == Direction::Hold,
            !final(self).reset_circles,
            !final(self).update_transform,
            !final(self).update_current,
            final(self).increase_current == old(self).increase_current,
            !final(self).next_frame,
            !final(self).next_method,
    {
        self.state.next(&KEY_UNKNOWN, &BUTTON_UNKNOWN);
        self.direction = Direction::from(&KEY_UNKNOWN);
        self.reset_circles = false;
        self.update_transform = false;
        self.update_current = false;
        self.next_frame = false;
        self.next_method = false;
    }
}

} // verus!

verus! {

/// What the caller has to do after the selection of the simulation changed.
#[derive(Copy, Clone, Debug, PartialEq, Eq, Structural)]
pub enum Action {
    /// Nothing.
    Nothing,
    /// Move the solver to its next integration method.
    NextMethod,
    /// Recompute the origin of the frame and express the bodies relative to it.
    ResetOrigin,
}

/// How many bodies at the end of the list the selection cannot reach: the
/// last one is skipped while it is being added.
pub open spec fn reserved(bypass_last: bool) -> int {
    if bypass_last {
        2
    } else {
        1
    }
}

/// Index of the selected body after moving the selection forward.
pub open spec fn incremented(current: usize, len: usize, bypass_last: bool) -> usize {
    if current < len - reserved(bypass_last) {
        (current + 1) as usize
    } else {
        current
    }
}

/// Index of the selected body after moving the selection backward.
pub open spec fn decremented(current: usize) -> usize {
    if current > 0 {
        (current - 1) as usize
    } else {
        current
    }
}

/// Action that follows a move of the selection: the origin follows the
/// selected body when the frame is the current body's.
pub open spec fn selection_action(frame: Frame) -> Action {
    if frame == Frame::Current {
        Action::ResetOrigin
    } else {
        Action::Nothing
    }
}

/// Number of origin resets that removing the body at `i` out of `len` bodies
/// asks for: when the selected body is the last one and is removed, the
/// selection moves back and the origin is reset, once more if the frame
/// follows the selected body.
pub open spec fn removal_resets(current: usize, frame: Frame, i: int, len: int) -> int {
    if current == len - 1 && i == current {
        if frame == Frame::Current {
            2
        } else {
            1
        }
    } else {
        0
    }
}

/// Selection of the simulation: the index of the current body among the
/// bodies of the cluster, and the frame in which the cluster is shown. The
/// bodies, their origin and the solver are the caller's.
#[derive(Clone, Debug)]
pub struct Simulator {
    pub current: usize,
    pub frame: Frame,
}

impl Simulator {
    /// The first body is selected, in the absolute frame.
    pub fn new() -> (s: Simulator)
        ensures
            s.current == 0,
            s.frame == Frame::Zero,
    {
        Simulator { current: 0, frame: Frame::Zero }
    }

    /// Index of the selected body.
    pub fn current_index(&self) -> (i: usize)
        ensures
            i == self.current,
    {
        self.current
    }

    /// Applies a key to the selection of a cluster of `len` bodies.
    pub fn update(&mut self, key: &Option<KeyCode>, bypass_last: bool, len: usize) -> (action:
        Action)
        requires
            *key == Some(KEY_INCREASE_CURRENT_INDEX) ==> len >= reserved(bypass_last),
        ensures
            *key == Some(KEY_NEXT_METHOD_STATE) ==> {
                &&& action == Action::NextMethod
                &&& *final(self) == *old(self)
            },
            *key == Some(KEY_NEXT_FRAME_STATE) ==> {
                &&& action == Action::ResetOrigin
                &&& final(self).frame == next_frame(old(self).frame)
                &&& final(self).current == old(self).current
            },
            *key == Some(KEY_INCREASE_CURRENT_INDEX) ==> {
                &&& action == selection_action(old(self).frame)
                &&& final(self).frame == old(self).frame
                &&& final(self).current == incremented(old(self).current, len, bypass_last)
            },
            *key == Some(KEY_DECREASE_CURRENT_INDEX) ==> {
                &&& action == selection_action(old(self).frame)
                &&& final(self).frame == old(self).frame
                &&& final(self).current == decremented(old(self).current)
            },
            !(*key == Some(KEY_NEXT_METHOD_STATE) || *key == Some(KEY_NEXT_FRAME_STATE) || *key
                == Some(KEY_INCREASE_CURRENT_INDEX) || *key == Some(KEY_DECREASE_CURRENT_INDEX))
                ==> {
                &&& action == Action::Nothing
                &&& *final(self) == *old(self)
            },
    {
        if let Some(key) = key {
            if *key == KEY_NEXT_METHOD_STATE {
                return Action::NextMethod;
            } else if *key == KEY_NEXT_FRAME_STATE {
                return self.next_frame();
            } else if *key == KEY_INCREASE_CURRENT_INDEX {
                return self.increment_current(bypass_last, len);
            } else if *key == KEY_DECREASE_CURRENT_INDEX {
                return self.decrement_current();
            }
        }
        Action::Nothing
    }

    /// Index bookkeeping of the removal of the last of `len` bodies. Returns
    /// how many times the origin is to be reset before the body is removed.
    pub fn pop(&mut self, len: usize) -> (resets: u8)
        requires
            len > 0,
        ensures
            resets == removal_resets(old(self).current, old(self).frame, len - 1, len as int),
            final(self).frame == old(self).frame,
            final(self).current == (if old(self).current == len - 1 {
                decremented(old(self).current)
            } else {
                old(self).current
            }),
    {
        if self.current == len - 1 {
            let action = self.decrement_current();
            if action == Action::ResetOrigin {
                2
            } else {
                1
            }
        } else {
            0
        }
    }

    /// Index bookkeeping of the removal of the body at `i` out of `len`
    /// bodies. Returns how many times the origin is to be reset before the
    /// body is removed.
    pub fn remove(&mut self, i: usize, len: usize) -> (resets: u8)
        requires
            i < len,
        ensures
            resets == removal_resets(old(self).current, old(self).frame, i as int, len as int),
            final(self).frame == old(self).frame,
            final(self).current == (if old(self).current == len - 1 && i == old(self).current {
                decremented(old(self).current)
            } else {
                old(self).current
            }),
    {
        if self.current == len - 1 && i == self.current {
            let action = self.decrement_current();
            if action == Action::ResetOrigin {
                2
            } else {
                1
            }
        } else {
            0
        }
    }

    fn next_frame(&mut self) -> (action: Action)
        ensures
            action == Action::ResetOrigin,
            final(self).frame == next_frame(old(self).frame),
            final(self).current == old(self).current,
    {
        self.frame.next();
        Action::ResetOrigin
    }

    fn decrement_current(&mut self) -> (action: Action)
        ensures
            action == selection_action(old(self).frame),
            final(self).frame == old(self).frame,
            final(self).current == decremented(old(self).current),
    {
        if self.current > 0 {
            self.current -= 1;
        }
        if self.frame == Frame::Current {
            Action::ResetOrigin
        } else {
            Action::Nothing
        }
    }

    fn increment_current(&mut self, bypass_last: bool, len: usize) -> (action: Action)
        requires
            len >= reserved(bypass_last),
        ensures
            action == selection_action(old(self).frame),
            final(self).frame == old(self).frame,
            final(self).current == incremented(old(self).current, len, bypass_last),
    {
        let offset: usize = if bypass_last {
            2
        } else {
            1
        };
        if self.current < len - offset {
            self.current += 1;
        }
        if self.frame == Frame::Current {
            Action::ResetOrigin
        } else {
            Action::Nothing
        }
    }
}

} // verus!

verus! {

/// The reset key resets the edition, whatever the state and the button.
pub proof fn lemma_reset_key_resets(s: State, button: ButtonCode)
    ensures
        next_state(s, KEY_RESET, button) == State::Reset,
{
}

/// With no key and no button, the edition settles: a reset, an addition, a
/// removal or a cancelled drop end in the next frame, and the other states
/// wait for their input.
pub proof fn lemma_idle_step(s: State)
    ensures
        next_state(s, KEY_UNKNOWN, BUTTON_UNKNOWN) == (match s {
            State::Reset | State::Remove | State::CancelDrop => State::Move,
            State::Add => State::WaitDrop,
            _ => s,
        }),
{
}

/// Three changes of frame come back to the frame of departure.
pub proof fn lemma_frame_cycle(f: Frame)
    ensures
        next_frame(next_frame(next_frame(f))) == f,
        next_frame(f) != f,
{
}

/// Doubling then halving the oversampling gives it back, as long as the
/// doubling keeps within a `u32`; halving never gives zero.
pub proof fn lemma_oversampling_round_trip(o: u32)
    requires
        1 <= o < 0x8000_0000,
    ensures
        halved_oversampling(doubled_oversampling(o) as u32) == o,
        halved_oversampling(o) >= 1,
{
}

/// Moving the selection forward keeps it on a body of the cluster, and moving
/// it back undoes the move when the selection moved.
pub proof fn lemma_selection_moves(current: usize, len: usize, bypass_last: bool)
    requires
        len >= reserved(bypass_last),
        current < len,
    ensures
        incremented(current, len, bypass_last) < len,
        incremented(current, len, bypass_last) != current ==> decremented(
            incremented(current, len, bypass_last),
        ) == current,
        decremented(current) <= current,
{
}

/// Removing a body keeps the selection on a body of the cluster, except when
/// the last body is selected and another one is removed: the selection then
/// stays past the end.
pub proof fn lemma_removal_selection(current: usize, i: usize, len: usize)
    requires
        i < len,
        current < len,
        len > 1,
        !(current == len - 1 && i != current),
    ensures
        (if current == len - 1 && i == current {
            decremented(current)
        } else {
            current
        }) < len - 1,
{
}

} // verus!

verus! {

/// While translating, clicks are ignored: only the translate key, which goes
/// back to moving, and the reset key change the state.
pub proof fn lemma_translate_reacts_to_keys_only(key: KeyCode, button: ButtonCode)
    ensures
        key != KEY_TOGGLE_TRANSLATE && key != KEY_RESET ==> next_state(State::Translate, key, button)
            == State::Translate,
        next_state(State::Translate, KEY_TOGGLE_TRANSLATE, button) == State::Move,
        next_state(State::Translate, key, button) == next_state(State::Translate, key, BUTTON_UNKNOWN),
{
}

/// While a body is dropped or launched, keys other than reset are ignored:
/// only the buttons move the addition forward or back.
pub proof fn lemma_addition_reacts_to_buttons_only(s: State, key: KeyCode, button: ButtonCode)
    requires
        s == State::WaitDrop || s == State::WaitSpeed,
        key != KEY_RESET,
    ensures
        next_state(s, key, button) == next_state(s, KEY_UNKNOWN, button),
        button != MOUSE_WAIT_DROP_DO && button != MOUSE_WAIT_DROP_CANCEL ==> next_state(s, key, button)
            == s,
{
}

/// The one-frame states pass on whatever the input, unless it is the reset
/// key: an addition waits for the drop, the others return to moving.
pub proof fn lemma_transient_states(s: State, key: KeyCode, button: ButtonCode)
    requires
        s == State::Add || s == State::Remove || s == State::CancelDrop || s == State::Reset,
        key != KEY_RESET,
    ensures
        next_state(s, key, button) == (if s == State::Add {
            State::WaitDrop
        } else {
            State::Move
        }),
{
}

/// While moving, a click decides before any key except reset: the adding
/// button starts an addition and the removing button a removal; without
/// them only the translate key changes the state.
pub proof fn lemma_move_state(key: KeyCode, button: ButtonCode)
    requires
        key != KEY_RESET,
    ensures
        button == MOUSE_MOVE_ADD ==> next_state(State::Move, key, button) == State::Add,
        button == MOUSE_MOVE_REMOVE ==> next_state(State::Move, key, button) == State::Remove,
        button != MOUSE_MOVE_ADD && button != MOUSE_MOVE_REMOVE ==> next_state(State::Move, key, button)
            == (if key == KEY_TOGGLE_TRANSLATE {
            State::Translate
        } else {
            State::Move
        }),
{
}

/// The view is redrawn after every key that changes what is shown: a change
/// of the distance scale, a rotation of the camera, a move of the selection
/// or a change of frame; no other key redraws it.
pub proof fn lemma_view_refreshing_keys(key: KeyCode)
    ensures
        scale_change_of(key) == ScaleChange::IncreaseDistance || scale_change_of(key)
            == ScaleChange::DecreaseDistance ==> refreshes_view(key),
        key == KEY_ROTATION_DOWN || key == KEY_ROTATION_UP || key == KEY_ROTATION_LEFT || key
            == KEY_ROTATION_RIGHT ==> refreshes_view(key),
        key == KEY_INCREASE_CURRENT_INDEX || key == KEY_DECREASE_CURRENT_INDEX || key
            == KEY_NEXT_FRAME_STATE ==> refreshes_view(key),
        refreshes_view(key) ==> scale_change_of(key) == ScaleChange::IncreaseDistance
            || scale_change_of(key) == ScaleChange::DecreaseDistance || key == KEY_ROTATION_DOWN
            || key == KEY_ROTATION_UP || key == KEY_ROTATION_LEFT || key == KEY_ROTATION_RIGHT
            || key == KEY_INCREASE_CURRENT_INDEX || key == KEY_DECREASE_CURRENT_INDEX || key
            == KEY_NEXT_FRAME_STATE,
        refreshes_view(key) ==> status_key(key),
        scale_change_of(key) == ScaleChange::IncreaseTime || scale_change_of(key)
            == ScaleChange::DecreaseTime ==> !refreshes_view(key),
{
}

} // verus!
