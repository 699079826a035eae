//! The events that callbacks take, and the adapter that makes them of what a
//! backend reads out of its native events.
//!
//! A handler bound to a native event applies the adapter when the event
//! fires, and calls the callback with what the adapter made.

use vstd::prelude::*;

verus! {

/// A click, with the position of the pointer.
#[derive(Debug, PartialEq, Eq, Clone, Copy, Structural)]
pub struct MouseEvent {
    pub x: i32,
    pub y: i32,
}

/// A change of an input, with the text that the input now holds.
#[derive(Debug, PartialEq)]
pub struct InputEvent {
    pub value: String,
}

/// An event as a callback takes it.
#[derive(Debug, PartialEq)]
pub enum Event {
    Mouse(MouseEvent),
    Input(InputEvent),
}

/// The mathematical content of an [`Event`].
pub enum EventView {
    Mouse { x: int, y: int },
    Input { value: Seq<char> },
}

impl View for Event {
    type V = EventView;

    open spec fn view(&self) -> EventView {
        match *self {
            Event::Mouse(mouse) => EventView::Mouse { x: mouse.x as int, y: mouse.y as int },
            Event::Input(input) => EventView::Input { value: input.value@ },
        }
    }
}

/// Makes the event of a native mouse event, of which the pointer stood at
/// (`x`, `y`).
pub fn from_mouse_event(x: i32, y: i32) -> (event: Event)
    ensures
        event@ == (EventView::Mouse { x: x as int, y: y as int }),
{
    Event::Mouse(MouseEvent { x, y })
}

/// Makes the event of a native input event, after which the input holds
/// `value`.
pub fn to_input_event(value: String) -> (event: Event)
    ensures
        event@ == (EventView::Input { value: value@ }),
{
    Event::Input(InputEvent { value })
}

} // verus!
