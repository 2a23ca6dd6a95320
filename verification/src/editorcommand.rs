//! Commands the editor understands.  Decoding raw terminal events into these
//! commands is a collaborator's job; the library only consumes them.
use crate::geometry::Size;
use vstd::prelude::*;

verus! {

/// A cursor movement command.
#[derive(Debug, Clone, Copy, PartialEq, Eq, Structural)]
pub enum Direction {
    Up,
    Down,
    Left,
    Right,
    PageUp,
    PageDown,
    Home,
    End,
}

/// The name of a direction, as its debug rendering prints it.
pub open spec fn direction_name(d: Direction) -> Seq<char> {
    match d {
        Direction::Up => "Up"@,
        Direction::Down => "Down"@,
        Direction::Left => "Left"@,
        Direction::Right => "Right"@,
        Direction::PageUp => "PageUp"@,
        Direction::PageDown => "PageDown"@,
        Direction::Home => "Home"@,
        Direction::End => "End"@,
    }
}

impl Direction {
    /// The direction's name as text.
    pub fn name(&self) -> (s: String)
        ensures
            s@ == direction_name(*self),
    {
        match self {
            Direction::Up => String::from_str("Up"),
            Direction::Down => String::from_str("Down"),
            Direction::Left => String::from_str("Left"),
            Direction::Right => String::from_str("Right"),
            Direction::PageUp => String::from_str("PageUp"),
            Direction::PageDown => String::from_str("PageDown"),
            Direction::Home => String::from_str("Home"),
            Direction::End => String::from_str("End"),
        }
    }
}

/// A decoded editor command.
#[derive(Debug)]
pub enum EditorCommand {
    Move(Direction),
    Resize(Size),
    Help,
    Quit,
    OtherKeyCommand(String),
    OtherEvent(String),
}

} // verus!
