use vstd::prelude::*;

verus! {

/// The extent of the terminal in character cells.
#[derive(Clone, Copy, Debug, PartialEq, Eq, Structural)]
pub struct Size {
    pub width: u16,
    pub height: u16,
}

/// Which key was pressed. Keys that the viewer does not act on are `Other`.
#[derive(Clone, Copy, Debug, PartialEq, Eq, Structural)]
pub enum KeyCode {
    Up,
    Down,
    Left,
    Right,
    Home,
    End,
    PageUp,
    PageDown,
    Char(char),
    Other,
}

/// The modifier keys held down while a key was pressed.
#[derive(Clone, Copy, Debug, PartialEq, Eq, Structural)]
pub struct KeyModifiers {
    pub shift: bool,
    pub control: bool,
    pub alt: bool,
}

/// A key press.
#[derive(Clone, Copy, Debug, PartialEq, Eq, Structural)]
pub struct KeyEvent {
    pub code: KeyCode,
    pub modifiers: KeyModifiers,
}

/// What the terminal reports while the viewer waits for input.
#[derive(Clone, Copy, Debug, PartialEq, Eq, Structural)]
pub enum Event {
    /// A key was pressed.
    Key(KeyEvent),
    /// The terminal now has this many columns and rows.
    Resize(u16, u16),
    /// Anything else, such as the mouse.
    Other,
}

/// The size that a terminal of size `size` has once it has seen `event`.
pub open spec fn resized(size: Size, event: Event) -> Size {
    match event {
        Event::Resize(width, height) => Size { width, height },
        _ => size,
    }
}

/// The key press that `event` delivers, if it is one.
pub open spec fn key_of(event: Event) -> Option<KeyEvent> {
    match event {
        Event::Key(key) => Some(key),
        _ => None,
    }
}

/// The terminal as the viewer knows it: its current size, kept up to date
/// from the resize events that arrive between key presses.
pub struct Terminal {
    size: Size,
}

impl View for Terminal {
    type V = Size;

    closed spec fn view(&self) -> Size {
        self.size
    }
}

impl Terminal {
    /// A terminal of the given size.
    pub fn new(size: Size) -> (terminal: Terminal)
        ensures
            terminal@ == size,
    {
        Terminal { size }
    }

    /// The current size.
    pub fn size(&self) -> (size: &Size)
        ensures
            *size == self@,
    {
        &self.size
    }

    /// Takes in one event. A resize replaces the size at once; a key press is
    /// handed back, and anything else leaves the caller waiting for the next
    /// event.
    pub fn handle_event(&mut self, event: Event) -> (key: Option<KeyEvent>)
        ensures
            final(self)@ == resized(old(self)@, event),
            key == key_of(event),
        no_unwind
    {
        match event {
            Event::Key(key) => Some(key),
            Event::Resize(width, height) => {
                self.size = Size { width, height };
                None
            },
            Event::Other => None,
        }
    }
}

} // verus!
