//! Buttons of the device and the events they produce.
use vstd::prelude::*;

verus! {

/// A button of the handheld.
#[derive(Debug, Clone, Copy, PartialEq, Eq, Structural)]
pub enum Key {
    Up,
    Down,
    Left,
    Right,
    A,
    B,
    X,
    Y,
    Start,
    Select,
    L,
    R,
    L2,
    R2,
    Menu,
    Power,
    VolUp,
    VolDown,
    LidClose,
    Unknown,
}

/// What happened to a button.
#[derive(Debug, Clone, Copy, PartialEq, Eq, Structural)]
pub enum KeyEvent {
    Pressed(Key),
    Released(Key),
    Autorepeat(Key),
}

} // verus!
