//! Directions of the keyboard arrows and orientation of the camera.

use vstd::prelude::*;

use crate::keys::{KeyCode, KEY_DIRECTION_DOWN, KEY_DIRECTION_LEFT, KEY_DIRECTION_RIGHT, KEY_DIRECTION_UP};

verus! {

/// A direction given with the keyboard, in the plane of the screen.
#[derive(Copy, Clone, PartialEq, Eq, Debug, Structural)]
pub enum Direction {
    Left,
    Right,
    Up,
    Down,
    Hold,
}

/// Signed value of a direction: opposite directions have opposite values.
pub open spec fn direction_value(d: Direction) -> int {
    match d {
        Direction::Left => -1,
        Direction::Right => 1,
        Direction::Up => -2,
        Direction::Down => 2,
        Direction::Hold => 0,
    }
}

/// Direction that a key selects.
pub open spec fn direction_of_key(key: KeyCode) -> Direction {
    if key == KEY_DIRECTION_LEFT {
        Direction::Left
    } else if key == KEY_DIRECTION_RIGHT {
        Direction::Right
    } else if key == KEY_DIRECTION_UP {
        Direction::Up
    } else if key == KEY_DIRECTION_DOWN {
        Direction::Down
    } else {
        Direction::Hold
    }
}

/// Unit vector of a direction in the frame of the scene (y pointing up).
pub open spec fn direction_vector(d: Direction) -> (i8, i8, i8) {
    match d {
        Direction::Left => (-1i8, 0i8, 0i8),
        Direction::Right => (1i8, 0i8, 0i8),
        Direction::Up => (0i8, 1i8, 0i8),
        Direction::Down => (0i8, -1i8, 0i8),
        Direction::Hold => (0i8, 0i8, 0i8),
    }
}

pub const HOLD: Direction = Direction::Hold;

impl Direction {
    /// Signed value of the direction.
    pub fn value(&self) -> (v: i8)
        ensures
            v == direction_value(*self),
    {
        match *self {
            Direction::Left => -1,
            Direction::Right => 1,
            Direction::Up => -2,
            Direction::Down => 2,
            Direction::Hold => 0,
        }
    }

    /// Whether `other` points the opposite way; `Hold` is its own opposite.
    pub fn opposite(&self, other: &Direction) -> (b: bool)
        ensures
            b == (direction_value(*self) == -direction_value(*other)),
    {
        let self_val = self.value();
        let other_val = other.value();
        self_val == -other_val
    }

    /// Direction selected by a key; any key that is not a direction key holds.
    pub fn from(key: &KeyCode) -> (d: Direction)
        ensures
            d == direction_of_key(*key),
    {
        if *key == KEY_DIRECTION_LEFT {
            Direction::Left
        } else if *key == KEY_DIRECTION_RIGHT {
            Direction::Right
        } else if *key == KEY_DIRECTION_UP {
            Direction::Up
        } else if *key == KEY_DIRECTION_DOWN {
            Direction::Down
        } else {
            Direction::Hold
        }
    }

    /// Coordinates of the unit vector of the direction.
    pub fn as_vector(&self) -> (v: (i8, i8, i8))
        ensures
            v == direction_vector(*self),
    {
        match *self {
            Direction::Left => (-1, 0, 0),
            Direction::Right => (1, 0, 0),
            Direction::Up => (0, 1, 0),
            Direction::Down => (0, -1, 0),
            Direction::Hold => (0, 0, 0),
        }
    }
}

} // verus!

verus! {

/// Number of angle increments in a full turn: the camera turns by a
/// forty-eighth of a half turn at each key press.
pub const ANGLE_STEPS_PER_TURN: u8 = 96;

/// Angle after one more increment, in increments, modulo a full turn.
pub open spec fn step_up(angle: int) -> int {
    (angle + 1) % (ANGLE_STEPS_PER_TURN as int)
}

/// Angle after one increment less, in increments, modulo a full turn.
pub open spec fn step_down(angle: int) -> int {
    (angle + ANGLE_STEPS_PER_TURN - 1) % (ANGLE_STEPS_PER_TURN as int)
}

/// Orientation of the camera: the rotation `Rz(z) * Ry(y) * Rx(x)` whose
/// three angles are counted in increments of a forty-eighth of a half turn.
/// Each angle is kept within a full turn.
#[derive(Clone, Copy, Debug)]
pub struct Orientation {
    angle_x: u8,
    angle_y: u8,
    angle_z: u8,
}

impl View for Orientation {
    type V = (int, int, int);

    /// The angles about the x, y and z axes, in increments.
    closed spec fn view(&self) -> (int, int, int) {
        (self.angle_x as int, self.angle_y as int, self.angle_z as int)
    }
}

impl Orientation {
    #[verifier::type_invariant]
    spec fn within_a_turn(self) -> bool {
        &&& self.angle_x < ANGLE_STEPS_PER_TURN
        &&& self.angle_y < ANGLE_STEPS_PER_TURN
        &&& self.angle_z < ANGLE_STEPS_PER_TURN
    }

    /// The orientation in which no rotation has been applied.
    pub fn zeros() -> (o: Orientation)
        ensures
            o@ == (0int, 0int, 0int),
    {
        Orientation { angle_x: 0, angle_y: 0, angle_z: 0 }
    }

    /// Rotates one increment further about the x axis.
    pub fn increment_x(&mut self) -> (r: &mut Self)
        ensures
            r@ == (step_up(old(self)@.0), old(self)@.1, old(self)@.2),
            final(self)@ == final(r)@,
    {
        proof { use_type_invariant(&*self); }
        self.angle_x = (self.angle_x + 1) % ANGLE_STEPS_PER_TURN;
        self
    }

    /// Rotates one increment further about the y axis.
    pub fn increment_y(&mut self) -> (r: &mut Self)
        ensures
            r@ == (old(self)@.0, step_up(old(self)@.1), old(self)@.2),
            final(self)@ == final(r)@,
    {
        proof { use_type_invariant(&*self); }
        self.angle_y = (self.angle_y + 1) % ANGLE_STEPS_PER_TURN;
        self
    }

    /// Rotates one increment further about the z axis.
    pub fn increment_z(&mut self) -> (r: &mut Self)
        ensures
            r@ == (old(self)@.0, old(self)@.1, step_up(old(self)@.2)),
            final(self)@ == final(r)@,
    {
        proof { use_type_invariant(&*self); }
        self.angle_z = (self.angle_z + 1) % ANGLE_STEPS_PER_TURN;
        self
    }

    /// Rotates one increment back about the x axis.
    pub fn decrement_x(&mut self) -> (r: &mut Self)
        ensures
            r@ == (step_down(old(self)@.0), old(self)@.1, old(self)@.2),
            final(self)@ == final(r)@,
    {
        proof { use_type_invariant(&*self); }
        self.angle_x = (self.angle_x + ANGLE_STEPS_PER_TURN - 1) % ANGLE_STEPS_PER_TURN;
        self
    }

    /// Rotates one increment back about the y axis.
    pub fn decrement_y(&mut self) -> (r: &mut Self)
        ensures
            r@ == (old(self)@.0, step_down(old(self)@.1), old(self)@.2),
            final(self)@ == final(r)@,
    {
        proof { use_type_invariant(&*self); }
        self.angle_y = (self.angle_y + ANGLE_STEPS_PER_TURN - 1) % ANGLE_STEPS_PER_TURN;
        self
    }

    /// Rotates one increment back about the z axis.
    pub fn decrement_z(&mut self) -> (r: &mut Self)
        ensures
            r@ == (old(self)@.0, old(self)@.1, step_down(old(self)@.2)),
            final(self)@ == final(r)@,
    {
        proof { use_type_invariant(&*self); }
        self.angle_z = (self.angle_z + ANGLE_STEPS_PER_TURN - 1) % ANGLE_STEPS_PER_TURN;
        self
    }

    /// The rotation, as its angles about the x, y and z axes in increments.
    pub fn rotation(&self) -> (r: (u8, u8, u8))
        ensures
            (r.0 as int, r.1 as int, r.2 as int) == self@,
            r.0 < ANGLE_STEPS_PER_TURN && r.1 < ANGLE_STEPS_PER_TURN && r.2 < ANGLE_STEPS_PER_TURN,
    {
        proof { use_type_invariant(self); }
        (self.angle_x, self.angle_y, self.angle_z)
    }
}

} // verus!

verus! {

/// Being opposite is symmetric.
pub proof fn lemma_opposite_symmetric(a: Direction, b: Direction)
    ensures
        (direction_value(a) == -direction_value(b)) == (direction_value(b) == -direction_value(a)),
{
}

/// A direction is its own opposite only when it holds.
pub proof fn lemma_opposite_itself(d: Direction)
    ensures
        (direction_value(d) == -direction_value(d)) == (d == Direction::Hold),
{
}

/// Opposite directions have opposite unit vectors.
pub proof fn lemma_opposite_vectors(a: Direction, b: Direction)
    requires
        direction_value(a) == -direction_value(b),
    ensures
        direction_vector(a).0 == -direction_vector(b).0,
        direction_vector(a).1 == -direction_vector(b).1,
        direction_vector(a).2 == -direction_vector(b).2,
{
}

/// Angle after `n` increments from `angle`.
pub open spec fn steps_up(angle: int, n: nat) -> int
    decreases n,
{
    if n == 0 {
        angle
    } else {
        step_up(steps_up(angle, (n - 1) as nat))
    }
}

/// `n` increments turn by `n` increments modulo a full turn.
proof fn lemma_steps_up(angle: int, n: nat)
    requires
        0 <= angle < ANGLE_STEPS_PER_TURN,
    ensures
        steps_up(angle, n) == (angle + n) % (ANGLE_STEPS_PER_TURN as int),
    decreases n,
{
    if n > 0 {
        lemma_steps_up(angle, (n - 1) as nat);
    }
}

/// An increment undoes a decrement and a decrement undoes an increment.
pub proof fn lemma_increment_decrement(angle: int)
    requires
        0 <= angle < ANGLE_STEPS_PER_TURN,
    ensures
        step_down(step_up(angle)) == angle,
        step_up(step_down(angle)) == angle,
{
}

/// A full turn of increments brings the camera back to where it was.
pub proof fn lemma_full_turn(angle: int)
    requires
        0 <= angle < ANGLE_STEPS_PER_TURN,
    ensures
        steps_up(angle, ANGLE_STEPS_PER_TURN as nat) == angle,
{
    lemma_steps_up(angle, ANGLE_STEPS_PER_TURN as nat);
}

} // verus!
