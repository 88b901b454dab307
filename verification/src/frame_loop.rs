//! The frame loop as a state machine: from the state and an event of the
//! window system to the next state and what the driver is to do.

use vstd::prelude::*;

use crate::events::{Action, Event, WindowEvent};
use crate::frame::frame;
use crate::state::{State, StateView};

verus! {

/// Least time between two simulation steps, in nanoseconds: half a second.
/// A redraw request is served only where more than this has passed since the
/// request that was served last.
pub const STEP_INTERVAL: u64 = 500_000_000;

/// What a `FrameLoop` holds, as plain values.
pub struct LoopView {
    /// The state of the simulation's host side.
    pub state: StateView,
    /// Clock reading of the redraw request that was served last, or of the
    /// start of the loop.
    pub last_redraw: u64,
}

/// The frame loop.
#[derive(Debug)]
pub struct FrameLoop {
    state: State,
    last_redraw: u64,
}

impl View for FrameLoop {
    type V = LoopView;

    closed spec fn view(&self) -> LoopView {
        LoopView { state: self.state@, last_redraw: self.last_redraw }
    }
}

/// Whether a redraw request at clock reading `now` is served, the last one
/// having been served at `last`.
pub open spec fn due(last: u64, now: u64) -> bool {
    now - last > STEP_INTERVAL
}

/// The state after a window event of the loop's own window, and the action
/// that it asks for.
pub open spec fn on_window_event(pre: LoopView, event: WindowEvent) -> (LoopView, Action) {
    if event.spec_is_exit() {
        (pre, Action::Exit)
    } else {
        match event.spec_new_size() {
            Some((width, height)) => if width > 0 && height > 0 {
                let config = pre.state.config.spec_resized(width, height);
                (
                    LoopView { state: StateView { config, ..pre.state }, ..pre },
                    Action::Configure(config),
                )
            } else {
                (pre, Action::Wait)
            },
            None => (pre, Action::Wait),
        }
    }
}

/// The state after a redraw request at clock reading `now` for the loop's
/// own window, and the action that it asks for: a frame where one is due.
pub open spec fn on_redraw(pre: LoopView, now: u64) -> (LoopView, Action) {
    if due(pre.last_redraw, now) {
        (
            LoopView {
                state: StateView { parity: pre.state.parity.spec_toggled(), ..pre.state },
                last_redraw: now,
            },
            Action::Frame(frame(pre.state.grid, pre.state.parity)),
        )
    } else {
        (pre, Action::Wait)
    }
}

/// The transition of the frame loop: the state after `event`, and the action
/// that it asks for. Events of other windows change nothing.
pub open spec fn transition(pre: LoopView, event: Event) -> (LoopView, Action) {
    match event {
        Event::Window { window, event } => if window == pre.state.window {
            on_window_event(pre, event)
        } else {
            (pre, Action::Wait)
        },
        Event::MainEventsCleared => (pre, Action::RequestRedraw),
        Event::RedrawRequested { window, now } => if window == pre.state.window {
            on_redraw(pre, now)
        } else {
            (pre, Action::Wait)
        },
        Event::Other => (pre, Action::Wait),
    }
}

impl FrameLoop {
    /// A frame loop that starts at clock reading `now` with `state`. The
    /// first frame is due more than `STEP_INTERVAL` later.
    pub fn new(state: State, now: u64) -> (frame_loop: FrameLoop)
        ensures
            frame_loop@ == (LoopView { state: state@, last_redraw: now }),
    {
        FrameLoop { state, last_redraw: now }
    }

    /// The state of the simulation's host side.
    pub fn state(&self) -> (state: &State)
        ensures
            state@ == self@.state,
    {
        &self.state
    }

    /// Clock reading of the redraw request that was served last.
    pub fn last_redraw(&self) -> (last: u64)
        ensures
            last == self@.last_redraw,
    {
        self.last_redraw
    }

    /// Takes one event of the window system and says what the driver is to
    /// do.
    pub fn handle(&mut self, event: &Event) -> (action: Action)
        ensures
            (final(self)@, action) == transition(old(self)@, *event),
    {
        match event {
            Event::Window { window, event } => {
                if *window != self.state.window() || self.state.input(event) {
                    Action::Wait
                } else if event.is_exit() {
                    Action::Exit
                } else {
                    match event.new_size() {
                        Some((width, height)) => {
                            if self.state.resize(width, height) {
                                Action::Configure(self.state.config())
                            } else {
                                Action::Wait
                            }
                        },
                        None => Action::Wait,
                    }
                }
            },
            Event::MainEventsCleared => Action::RequestRedraw,
            Event::RedrawRequested { window, now } => {
                if *window == self.state.window() && *now > self.last_redraw && *now
                    - self.last_redraw > STEP_INTERVAL {
                    self.last_redraw = *now;
                    self.state.update();
                    Action::Frame(self.state.render())
                } else {
                    Action::Wait
                }
            },
            Event::Other => Action::Wait,
        }
    }
}

/// What the driver is to do once it has run a frame: go on where the frame
/// was presented, leave the event loop where the surface gave no image.
pub fn after_frame(presented: Option<()>) -> (action: Action)
    ensures
        presented is Some ==> action == Action::Wait,
        presented is None ==> action == Action::Exit,
{
    match presented {
        Some(_) => Action::Wait,
        None => Action::Exit,
    }
}

} // verus!
