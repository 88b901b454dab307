//! Runs of the frame loop over a sequence of events, and what holds of
//! every run.

use vstd::prelude::*;

use crate::events::{Action, Event, WindowEvent};
use crate::frame_loop::{due, transition, LoopView, STEP_INTERVAL};

verus! {

/// The state after the events of `events`, one after the other.
pub open spec fn run(pre: LoopView, events: Seq<Event>) -> LoopView
    decreases events.len(),
{
    if events.len() == 0 {
        pre
    } else {
        transition(run(pre, events.drop_last()), events.last()).0
    }
}

/// The action that event `i` of `events` asks for.
pub open spec fn action_at(pre: LoopView, events: Seq<Event>, i: int) -> Action {
    transition(run(pre, events.take(i)), events[i]).1
}

/// The number of frames that `events` ask for.
pub open spec fn frames(pre: LoopView, events: Seq<Event>) -> nat
    decreases events.len(),
{
    if events.len() == 0 {
        0
    } else if transition(run(pre, events.drop_last()), events.last()).1 is Frame {
        frames(pre, events.drop_last()) + 1
    } else {
        frames(pre, events.drop_last())
    }
}

/// The clock reading of event `i` of `events` where that event is a redraw
/// request.
pub open spec fn clock_at(events: Seq<Event>, i: int) -> Option<u64> {
    match events[i] {
        Event::RedrawRequested { window, now } => Some(now),
        _ => None,
    }
}

/// One transition toggles the step parity exactly where it asks for a frame,
/// and leaves it alone otherwise. A frame is asked for only by a redraw
/// request for the loop's own window that is due, and the request's clock
/// reading is then the new `last_redraw`.
pub proof fn frame_toggles_parity(pre: LoopView, event: Event)
    ensures
        transition(pre, event).1 is Frame ==> {
            &&& transition(pre, event).0.state.parity == pre.state.parity.spec_toggled()
            &&& transition(pre, event).0.state.parity.bit() == 1 - pre.state.parity.bit()
            &&& event matches Event::RedrawRequested { window, now }
            &&& window == pre.state.window
            &&& due(pre.last_redraw, now)
            &&& transition(pre, event).0.last_redraw == now
        },
        !(transition(pre, event).1 is Frame) ==> {
            &&& transition(pre, event).0.state.parity == pre.state.parity
            &&& transition(pre, event).0.last_redraw == pre.last_redraw
        },
{
}

/// Over a run the step parity alternates with each frame: after the run it
/// is the parity at the start plus the number of frames, modulo 2. From
/// parity 0, the parity after t frames is t modulo 2.
pub proof fn parity_alternates(pre: LoopView, events: Seq<Event>)
    ensures
        run(pre, events).state.parity.bit() == (pre.state.parity.bit() + frames(pre, events)) % 2,
    decreases events.len(),
{
    if events.len() > 0 {
        parity_alternates(pre, events.drop_last());
        frame_toggles_parity(run(pre, events.drop_last()), events.last());
    }
}

/// A run changes neither the window's identity nor the grid nor the format
/// of the surface: only the size of the surface and the step parity change.
pub proof fn run_keeps_window_grid_and_format(pre: LoopView, events: Seq<Event>)
    ensures
        run(pre, events).state.window == pre.state.window,
        run(pre, events).state.grid == pre.state.grid,
        run(pre, events).state.config.format == pre.state.config.format,
    decreases events.len(),
{
    if events.len() > 0 {
        run_keeps_window_grid_and_format(pre, events.drop_last());
    }
}

/// A resize notification with a zero dimension changes nothing and asks for
/// nothing, whatever the window.
pub proof fn degenerate_resize_changes_nothing(
    pre: LoopView,
    window: u64,
    width: u32,
    height: u32,
)
    requires
        width == 0 || height == 0,
    ensures
        transition(pre, Event::Window { window, event: WindowEvent::Resized { width, height } })
            == (pre, Action::Wait),
        transition(
            pre,
            Event::Window { window, event: WindowEvent::ScaleFactorChanged { width, height } },
        ) == (pre, Action::Wait),
{
}

/// The clock reading of the last served redraw request never goes back in a
/// run.
proof fn last_redraw_grows(pre: LoopView, events: Seq<Event>, i: int, k: int)
    requires
        0 <= i <= k <= events.len(),
    ensures
        run(pre, events.take(i)).last_redraw <= run(pre, events.take(k)).last_redraw,
    decreases k - i,
{
    if i < k {
        last_redraw_grows(pre, events, i, k - 1);
        assert(events.take(k).drop_last() =~= events.take(k - 1));
        assert(events.take(k).last() == events[k - 1]);
        frame_toggles_parity(run(pre, events.take(k - 1)), events[k - 1]);
    }
}

/// However many redraw requests arrive: any two frames of a run are asked
/// for by requests whose clock readings lie more than `STEP_INTERVAL` apart,
/// so no window of that length holds two simulation steps.
pub proof fn steps_are_spaced(pre: LoopView, events: Seq<Event>, i: int, j: int)
    requires
        0 <= i < j < events.len(),
        action_at(pre, events, i) is Frame,
        action_at(pre, events, j) is Frame,
    ensures
        clock_at(events, i) is Some,
        clock_at(events, j) is Some,
        clock_at(events, j).unwrap() - clock_at(events, i).unwrap() > STEP_INTERVAL,
{
    frame_toggles_parity(run(pre, events.take(i)), events[i]);
    frame_toggles_parity(run(pre, events.take(j)), events[j]);
    assert(events.take(i + 1).drop_last() =~= events.take(i));
    assert(events.take(i + 1).last() == events[i]);
    last_redraw_grows(pre, events, i + 1, j);
}

} // verus!
