//! The display as the renderer sees it: its size in character cells, and
//! the decisions of the loop that drives a session.

use vstd::prelude::*;

verus! {

/// A key as the session loop reads it.
#[derive(Debug, Clone, Copy, PartialEq, Eq, Structural)]
pub enum Key {
    /// A character key.
    Char(char),
    /// Any other key.
    Other,
}

/// An input event as the session loop reads it.
#[derive(Debug, Clone, Copy, PartialEq, Eq, Structural)]
pub enum Event {
    /// The display now has this many columns and rows.
    Resize(u16, u16),
    /// A key was pressed, with or without the control modifier.
    Key { key: Key, control: bool },
    /// Anything else.
    Other,
}

/// Whether a key press ends the session: `q`, `Q`, or `c` with control.
pub open spec fn is_quit_key(key: Key, control: bool) -> bool {
    match key {
        Key::Char(c) => c == 'q' || c == 'Q' || (c == 'c' && control),
        Key::Other => false,
    }
}

/// Whether an event ends the session.
pub open spec fn is_quit(event: Event) -> bool {
    match event {
        Event::Key { key, control } => is_quit_key(key, control),
        _ => false,
    }
}

/// The number of columns after an event, given the number before it.
pub open spec fn resized_width(width: u16, event: Event) -> u16 {
    match event {
        Event::Resize(columns, _) => columns,
        _ => width,
    }
}

/// The number of rows after an event, given the number before it.
pub open spec fn resized_height(height: u16, event: Event) -> u16 {
    match event {
        Event::Resize(_, rows) => rows,
        _ => height,
    }
}

/// Terminal handler: the size of the display, in character cells.
pub struct Terminal {
    width: u16,
    height: u16,
}

impl Terminal {
    /// Number of columns.
    pub closed spec fn spec_width(&self) -> u16 {
        self.width
    }

    /// Number of rows.
    pub closed spec fn spec_height(&self) -> u16 {
        self.height
    }

    /// A display of the given size.
    pub fn new(width: u16, height: u16) -> (term: Terminal)
        ensures
            term.spec_width() == width,
            term.spec_height() == height,
    {
        Terminal { width, height }
    }

    /// Get terminal width
    #[verifier::when_used_as_spec(spec_width)]
    pub fn width(&self) -> (w: u16)
        ensures
            w == self.spec_width(),
    {
        self.width
    }

    /// Get terminal height
    #[verifier::when_used_as_spec(spec_height)]
    pub fn height(&self) -> (h: u16)
        ensures
            h == self.spec_height(),
    {
        self.height
    }

    /// Takes the event read at the start of an iteration of the session
    /// loop. A resize sets the size of the display; any other event is
    /// dropped and changes nothing.
    pub fn handle_resize(&mut self, event: Event)
        ensures
            final(self).width() == resized_width(old(self).width(), event),
            final(self).height() == resized_height(old(self).height(), event),
    {
        match event {
            Event::Resize(width, height) => {
                self.width = width;
                self.height = height;
            },
            _ => {},
        }
    }

    /// Whether a frame is due: the time since the last frame has reached
    /// the frame duration. Both are in the same unit.
    pub fn frame_due(since_last_frame: u64, frame_duration: u64) -> (due: bool)
        ensures
            due == (since_last_frame >= frame_duration),
    {
        since_last_frame >= frame_duration
    }

    /// Takes the event read at the end of an iteration of the session loop
    /// and says whether the session ends: on `q`, on `Q`, and on `c` with
    /// control.
    pub fn handle_key(event: Event) -> (quit: bool)
        ensures
            quit == is_quit(event),
    {
        match event {
            Event::Key { key, control } => match key {
                Key::Char(c) => c == 'q' || c == 'Q' || (c == 'c' && control),
                Key::Other => false,
            },
            _ => false,
        }
    }
}

/// The duration of one frame in milliseconds at a number of frames per
/// second: the floor of `1000 / fps`.
pub fn frame_duration_ms(fps: u8) -> (ms: u64)
    requires
        fps > 0,
    ensures
        ms == 1000int / (fps as int),
{
    1000 / (fps as u64)
}

} // verus!
