//! Which page of information the logger shows.

use vstd::prelude::*;

use crate::keys::{KeyCode, KEY_NEXT_LOGGER_STATE};

verus! {

/// Page of information shown by the logger.
#[derive(Copy, Clone, Debug, PartialEq, Eq, Structural)]
pub enum State {
    Hide,
    Status,
    Config,
    Step,
    Cinematic,
    Points,
    Physics,
    Bodies,
}

/// The page that follows `s`; the pages form one cycle of eight.
pub open spec fn next_page(s: State) -> State {
    match s {
        State::Hide => State::Status,
        State::Status => State::Config,
        State::Config => State::Step,
        State::Step => State::Cinematic,
        State::Cinematic => State::Points,
        State::Points => State::Bodies,
        State::Bodies => State::Physics,
        State::Physics => State::Hide,
    }
}

/// Pages that end with the time and distance scales.
pub open spec fn page_shows_scale(s: State) -> bool {
    s == State::Step || s == State::Points || s == State::Cinematic || s == State::Physics
}

impl State {
    /// Moves to the next page.
    pub fn next(&mut self)
        ensures
            *final(self) == next_page(*old(self)),
    {
        *self = match *self {
            State::Hide => State::Status,
            State::Status => State::Config,
            State::Config => State::Step,
            State::Step => State::Cinematic,
            State::Cinematic => State::Points,
            State::Points => State::Bodies,
            State::Bodies => State::Physics,
            State::Physics => State::Hide,
        };
    }

    /// Whether the page ends with the time and distance scales.
    pub fn shows_scale(&self) -> (b: bool)
        ensures
            b == page_shows_scale(*self),
    {
        match *self {
            State::Step | State::Points | State::Cinematic | State::Physics => true,
            _ => false,
        }
    }
}

/// Page selection of the logger; the text of the pages is written by the
/// caller.
#[derive(Clone, Debug)]
pub struct Logger {
    pub state: State,
}

impl Logger {
    /// A logger that shows nothing.
    pub fn new() -> (l: Logger)
        ensures
            l.state == State::Hide,
    {
        Logger { state: State::Hide }
    }

    /// Moves to the next page on the logger key.
    pub fn update(&mut self, key: &KeyCode)
        ensures
            final(self).state == (if *key == KEY_NEXT_LOGGER_STATE {
                next_page(old(self).state)
            } else {
                old(self).state
            }),
    {
        if *key == KEY_NEXT_LOGGER_STATE {
            self.state.next();
        }
    }
}

} // verus!

verus! {

/// Eight presses of the logger key come back to the page of departure.
pub proof fn lemma_page_cycle(s: State)
    ensures
        next_page(next_page(next_page(next_page(next_page(next_page(next_page(next_page(s))))))))
            == s,
{
}

} // verus!
