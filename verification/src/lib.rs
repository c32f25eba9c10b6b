//! Control logic of an n-body simulation viewer: the state machines that
//! react to the keyboard and the mouse, the camera orientation, the bookkeeping
//! of the selected body and of the reference frame, and the labels of the
//! physical units shown by the logger.

pub mod keys;
pub mod common;
pub mod control;
pub mod log;
pub mod units;
pub mod orbital;
