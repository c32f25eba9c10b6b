//! Key map of the application. Keys and mouse buttons are identified by the
//! codes that piston gives them (`u32::from(key)`, `u32::from(button)`).

use vstd::prelude::*;

verus! {

/// Code of a keyboard key.
pub type KeyCode = u32;

/// Code of a mouse button.
pub type ButtonCode = u32;

pub const KEY_UNKNOWN: KeyCode = 0x00;
pub const KEY_RESET: KeyCode = 0x08;

pub const KEY_TOGGLE_TRANSLATE: KeyCode = 0x6A;
pub const KEY_TOGGLE_TRAJECTORY: KeyCode = 0x72;
pub const KEY_TOGGLE_PAUSE: KeyCode = 0x20;
pub const KEY_TOGGLE_ORBITS: KeyCode = 0x79;

pub const KEY_DIRECTION_UP: KeyCode = 0x77;
pub const KEY_DIRECTION_DOWN: KeyCode = 0x73;
pub const KEY_DIRECTION_LEFT: KeyCode = 0x61;
pub const KEY_DIRECTION_RIGHT: KeyCode = 0x64;

pub const KEY_ROTATION_UP: KeyCode = 0x4000_0052;
pub const KEY_ROTATION_DOWN: KeyCode = 0x4000_0051;
pub const KEY_ROTATION_LEFT: KeyCode = 0x4000_0050;
pub const KEY_ROTATION_RIGHT: KeyCode = 0x4000_004F;

pub const KEY_INCREASE_OVERSAMPLING: KeyCode = 0x70;
pub const KEY_DECREASE_OVERSAMPLING: KeyCode = 0x6F;

/// The time and distance scales are adjusted with I, U, Comma and Semicolon.
pub const KEY_INCREASE_DISTANCE: KeyCode = 0x69;
pub const KEY_DECREASE_DISTANCE: KeyCode = 0x75;

pub const KEY_INCREASE_TIME: KeyCode = 0x2C;
pub const KEY_DECREASE_TIME: KeyCode = 0x3B;

pub const KEY_INCREASE_CURRENT_INDEX: KeyCode = 0x76;
pub const KEY_DECREASE_CURRENT_INDEX: KeyCode = 0x63;

pub const KEY_NEXT_LOGGER_STATE: KeyCode = 0x6C;
pub const KEY_NEXT_FRAME_STATE: KeyCode = 0x6B;
pub const KEY_NEXT_METHOD_STATE: KeyCode = 0x6D;

pub const BUTTON_UNKNOWN: ButtonCode = 0;
/// Bodies are added with the right button: a right click starts the
/// addition, the next right click sets the position and the one after sets
/// the speed; the left button removes a body or steps back.
pub const MOUSE_MOVE_ADD: ButtonCode = 2;
pub const MOUSE_MOVE_REMOVE: ButtonCode = 1;
pub const MOUSE_WAIT_DROP_DO: ButtonCode = 2;
pub const MOUSE_WAIT_DROP_CANCEL: ButtonCode = 1;

} // verus!
