use vstd::prelude::*;

verus! {

/// A point in screen coordinates, or a two-axis delta.
#[derive(Clone, Copy, Debug, Default, PartialEq, Eq)]
pub struct Point<T> {
    pub x: T,
    pub y: T,
}

impl<T> Point<T> {
    pub fn new(x: T, y: T) -> (r: Self)
        ensures
            r.x == x,
            r.y == y,
    {
        Point { x, y }
    }
}

/// Mouse buttons that can click the tray icon.
#[derive(Clone, Copy, Debug, PartialEq, Eq, Structural)]
pub enum MouseButton {
    Left,
    Right,
    Middle,
}

/// Events emitted by user interaction with the tray.
#[derive(Clone, Debug)]
pub enum TrayEvent {
    /// The tray icon was clicked.
    Click { button: MouseButton, position: Point<i32> },
    /// The tray received scroll input.
    Scroll { delta: Point<i32> },
    /// A menu item was selected.
    MenuSelect { id: String },
}

} // verus!
