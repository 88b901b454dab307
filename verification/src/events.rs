//! What the window system tells the frame loop, and what the frame loop
//! asks of its driver in return.

use vstd::prelude::*;

use crate::frame::FramePlan;
use crate::surface::SurfaceConfig;

verus! {

/// A key of the keyboard, as far as the frame loop tells keys apart.
#[derive(Clone, Copy, Debug, PartialEq, Eq, Structural)]
pub enum Key {
    Escape,
    Other,
}

/// An event of one window.
#[derive(Clone, Copy, Debug, PartialEq, Eq)]
pub enum WindowEvent {
    /// The window has a new size, in pixels.
    Resized { width: u32, height: u32 },
    /// The window's scale factor changed; this is its new size, in pixels.
    ScaleFactorChanged { width: u32, height: u32 },
    /// The user asked to close the window.
    CloseRequested,
    /// A key went down (`pressed`) or up; `key` is `None` where the key has
    /// no name.
    KeyboardInput { pressed: bool, key: Option<Key> },
    /// Any other event of the window.
    Other,
}

/// An event of the window system.
#[derive(Clone, Copy, Debug, PartialEq, Eq)]
pub enum Event {
    /// An event of the window with identity `window`.
    Window { window: u64, event: WindowEvent },
    /// All pending events are handled.
    MainEventsCleared,
    /// The window with identity `window` is to be redrawn. `now` is the
    /// reading of a monotonic clock, in nanoseconds, when the request is
    /// handled.
    RedrawRequested { window: u64, now: u64 },
    /// Any other event.
    Other,
}

/// What the driver of the frame loop is to do after an event.
#[derive(Clone, Copy, Debug, PartialEq, Eq, Structural)]
pub enum Action {
    /// Nothing.
    Wait,
    /// Configure the surface with this configuration.
    Configure(SurfaceConfig),
    /// Ask the window system for a redraw of the window.
    RequestRedraw,
    /// Encode, submit and present this frame.
    Frame(FramePlan),
    /// Leave the event loop.
    Exit,
}

impl WindowEvent {
    /// Whether the event ends the run: a request to close the window, or the
    /// escape key going down.
    pub open spec fn spec_is_exit(self) -> bool {
        match self {
            WindowEvent::CloseRequested => true,
            WindowEvent::KeyboardInput { pressed, key } => pressed && key == Some(Key::Escape),
            _ => false,
        }
    }

    /// The size that the event announces, if it announces one.
    pub open spec fn spec_new_size(self) -> Option<(u32, u32)> {
        match self {
            WindowEvent::Resized { width, height } => Some((width, height)),
            WindowEvent::ScaleFactorChanged { width, height } => Some((width, height)),
            _ => None,
        }
    }

    /// Whether the event ends the run.
    #[verifier::when_used_as_spec(spec_is_exit)]
    pub fn is_exit(self) -> (exit: bool)
        ensures
            exit == self.spec_is_exit(),
    {
        match self {
            WindowEvent::CloseRequested => true,
            WindowEvent::KeyboardInput { pressed, key } => {
                pressed && match key {
                    Some(Key::Escape) => true,
                    _ => false,
                }
            },
            _ => false,
        }
    }

    /// The size that the event announces, if it announces one.
    #[verifier::when_used_as_spec(spec_new_size)]
    pub fn new_size(self) -> (size: Option<(u32, u32)>)
        ensures
            size == self.spec_new_size(),
    {
        match self {
            WindowEvent::Resized { width, height } => Some((width, height)),
            WindowEvent::ScaleFactorChanged { width, height } => Some((width, height)),
            _ => None,
        }
    }
}

} // verus!
