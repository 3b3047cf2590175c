//! Keyboard and mouse input as the browser's tiles and popups read it, and the
//! screen areas they occupy.
use vstd::prelude::*;

verus! {

/// The keys the browser tells apart.
#[derive(Debug, Clone, Copy, PartialEq, Eq, Structural)]
pub enum KeyCode {
    Char(char),
    Enter,
    Esc,
    Backspace,
    Tab,
    Up,
    Down,
    Left,
    Right,
    PageUp,
    PageDown,
    Other,
}

/// A key press; `plain` when no modifier key was held.
#[derive(Debug, Clone, Copy, PartialEq, Eq, Structural)]
pub struct KeyEvent {
    pub code: KeyCode,
    pub plain: bool,
}

/// The mouse events the browser tells apart.
#[derive(Debug, Clone, Copy, PartialEq, Eq, Structural)]
pub enum MouseKind {
    LeftDown,
    ScrollUp,
    ScrollDown,
    Other,
}

/// A mouse event at a screen cell.
#[derive(Debug, Clone, Copy, PartialEq, Eq, Structural)]
pub struct MouseEvent {
    pub kind: MouseKind,
    pub column: u16,
    pub row: u16,
}

/// An input event.
#[derive(Debug, Clone, Copy, PartialEq, Eq, Structural)]
pub enum InputEvent {
    Key(KeyEvent),
    Mouse(MouseEvent),
}

/// A rectangle of screen cells.
#[derive(Debug, Clone, Copy, PartialEq, Eq, Structural, Default)]
pub struct Area {
    pub x: u16,
    pub y: u16,
    pub width: u16,
    pub height: u16,
}

/// The cell at `column`, `row` lies inside `area`.
pub open spec fn spec_in_area(column: u16, row: u16, area: Area) -> bool {
    area.x <= column && column < area.x + area.width && area.y <= row && row < area.y + area.height
}

/// Whether the cell at `column`, `row` lies inside `area`.
pub fn in_area(column: u16, row: u16, area: Area) -> (r: bool)
    ensures
        r == spec_in_area(column, row, area),
{
    let x = area.x as u32;
    let y = area.y as u32;
    let c = column as u32;
    let rw = row as u32;
    x <= c && c < x + area.width as u32 && y <= rw && rw < y + area.height as u32
}

} // verus!
