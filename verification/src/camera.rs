//! The camera controller: the decision part of the demo's event loop.
//!
//! Each mapped key press moves the camera by exactly one step along one
//! axis.  Positions are counted in steps; one step is a fifth of a world
//! unit (0.2), so the caller multiplies by 0.2 when it builds the view
//! matrix.  A close event or the escape key asks the loop to stop.

use vstd::prelude::*;

verus! {

/// A key the demo's input handling recognises; anything else is `Other`.
#[derive(Copy, Clone, PartialEq, Eq, Debug)]
pub enum Key {
    PageUp,
    PageDown,
    Left,
    Right,
    Up,
    Down,
    Space,
    Escape,
    Other,
}

/// A window event, reduced to what the controller decides on.  The caller
/// maps only completed key presses to `KeyPressed`; everything that is
/// neither a close request nor a key press is `Other`.
#[derive(Copy, Clone, PartialEq, Eq, Debug)]
pub enum Event {
    Closed,
    KeyPressed(Key),
    Other,
}

/// A side effect the caller performs after handing in an event.
#[derive(Copy, Clone, PartialEq, Eq, Debug)]
pub enum Action {
    Nothing,
    PrintHello,
}

/// A camera position, each coordinate counted in key steps of a fifth of
/// a world unit.
#[derive(Copy, Clone, PartialEq, Eq, Debug)]
pub struct Position {
    pub x: i64,
    pub y: i64,
    pub z: i64,
}

/// How one key press moves the camera, in steps per axis.
pub open spec fn key_delta(k: Key) -> (int, int, int) {
    match k {
        Key::PageUp => (0, 1, 0),
        Key::PageDown => (0, -1, 0),
        Key::Left => (-1, 0, 0),
        Key::Right => (1, 0, 0),
        Key::Up => (0, 0, -1),
        Key::Down => (0, 0, 1),
        _ => (0, 0, 0),
    }
}

/// How one event moves the camera: only a key press moves it.
pub open spec fn event_delta(e: Event) -> (int, int, int) {
    match e {
        Event::KeyPressed(k) => key_delta(k),
        _ => (0, 0, 0),
    }
}

/// Whether an event asks the loop to stop.
pub open spec fn requests_exit(e: Event) -> bool {
    e == Event::Closed || e == Event::KeyPressed(Key::Escape)
}

/// The side effect an event asks for: the space key prints a greeting.
pub open spec fn action_of(e: Event) -> Action {
    if e == Event::KeyPressed(Key::Space) {
        Action::PrintHello
    } else {
        Action::Nothing
    }
}

impl Position {
    /// One more step fits in every coordinate, in both directions.
    pub open spec fn has_step_headroom(self) -> bool {
        &&& i64::MIN < self.x < i64::MAX
        &&& i64::MIN < self.y < i64::MAX
        &&& i64::MIN < self.z < i64::MAX
    }
}

/// The state the event loop carries: where the camera stands and whether
/// a stop was requested.
#[derive(Copy, Clone, PartialEq, Eq, Debug)]
pub struct Controller {
    pub position: Position,
    pub exit: bool,
}

impl Controller {
    /// The demo starts with the camera at (0, 1, 5) in world units, which
    /// is (0, 5, 25) in steps, and no stop requested.
    pub fn new() -> (c: Controller)
        ensures
            c.position == (Position { x: 0, y: 5, z: 25 }),
            !c.exit,
    {
        Controller { position: Position { x: 0, y: 5, z: 25 }, exit: false }
    }

    /// Feed one event to the controller: the position moves by exactly the
    /// event's step, the exit flag latches on a close request or escape,
    /// and the returned action is what the caller must perform.
    pub fn handle_event(&mut self, e: Event) -> (a: Action)
        requires
            old(self).position.has_step_headroom(),
        ensures
            final(self).position.x == old(self).position.x + event_delta(e).0,
            final(self).position.y == old(self).position.y + event_delta(e).1,
            final(self).position.z == old(self).position.z + event_delta(e).2,
            final(self).exit == (old(self).exit || requests_exit(e)),
            a == action_of(e),
    {
        match e {
            Event::Closed => {
                self.exit = true;
                Action::Nothing
            },
            Event::KeyPressed(k) => match k {
                Key::PageUp => {
                    self.position.y = self.position.y + 1;
                    Action::Nothing
                },
                Key::PageDown => {
                    self.position.y = self.position.y - 1;
                    Action::Nothing
                },
                Key::Left => {
                    self.position.x = self.position.x - 1;
                    Action::Nothing
                },
                Key::Right => {
                    self.position.x = self.position.x + 1;
                    Action::Nothing
                },
                Key::Up => {
                    self.position.z = self.position.z - 1;
                    Action::Nothing
                },
                Key::Down => {
                    self.position.z = self.position.z + 1;
                    Action::Nothing
                },
                Key::Space => Action::PrintHello,
                Key::Escape => {
                    self.exit = true;
                    Action::Nothing
                },
                Key::Other => Action::Nothing,
            },
            Event::Other => Action::Nothing,
        }
    }
}

} // verus!
