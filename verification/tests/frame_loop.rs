use google_conway::bindings::Parity;
use google_conway::events::{Action, Event, Key, WindowEvent};
use google_conway::frame_loop::{after_frame, FrameLoop, STEP_INTERVAL};
use google_conway::grid::Grid;
use google_conway::state::State;
use google_conway::surface::{Acquisition, PixelFormat, SurfaceConfig};

const WINDOW: u64 = 7;

fn config(width: u32, height: u32) -> SurfaceConfig {
    SurfaceConfig { width, height, format: PixelFormat::Rgba8UnormSrgb }
}

fn frame_loop(now: u64) -> FrameLoop {
    let grid: Grid = Grid::new(32).unwrap();
    let state: State = State::new(WINDOW, Acquisition::Configured(config(800, 600)), grid).unwrap();
    FrameLoop::new(state, now)
}

fn redraw(now: u64) -> Event {
    Event::RedrawRequested { window: WINDOW, now }
}

fn window(event: WindowEvent) -> Event {
    Event::Window { window: WINDOW, event }
}

fn is_frame(action: Action) -> bool {
    matches!(action, Action::Frame(_))
}

#[test]
fn step_interval_is_half_a_second() {
    assert_eq!(STEP_INTERVAL, 500_000_000);
}

#[test]
fn new_loop_starts_at_the_given_clock_reading() {
    let l: FrameLoop = frame_loop(123);
    assert_eq!(l.last_redraw(), 123);
    assert_eq!(l.state().parity(), Parity::Zero);
    assert_eq!(l.state().window(), WINDOW);
}

#[test]
fn redraw_before_the_interval_is_skipped() {
    let mut l: FrameLoop = frame_loop(0);
    assert_eq!(l.handle(&redraw(0)), Action::Wait);
    assert_eq!(l.handle(&redraw(1)), Action::Wait);
    assert_eq!(l.handle(&redraw(400_000_000)), Action::Wait);
    assert_eq!(l.last_redraw(), 0);
    assert_eq!(l.state().parity(), Parity::Zero);
}

#[test]
fn redraw_at_exactly_the_interval_is_skipped() {
    let mut l: FrameLoop = frame_loop(0);
    assert_eq!(l.handle(&redraw(500_000_000)), Action::Wait);
    assert_eq!(l.last_redraw(), 0);
    let mut l: FrameLoop = frame_loop(1_000);
    assert_eq!(l.handle(&redraw(500_001_000)), Action::Wait);
}

#[test]
fn redraw_after_the_interval_is_served() {
    let mut l: FrameLoop = frame_loop(0);
    let action: Action = l.handle(&redraw(500_000_001));
    assert!(is_frame(action));
    assert_eq!(l.last_redraw(), 500_000_001);
    assert_eq!(l.state().parity(), Parity::One);
}

#[test]
fn served_frame_is_the_frame_of_the_state() {
    let mut l: FrameLoop = frame_loop(0);
    let mut twin: State = State::new(
        WINDOW,
        Acquisition::Configured(config(800, 600)),
        Grid::new(32).unwrap(),
    ).unwrap();
    assert_eq!(l.handle(&redraw(600_000_000)), Action::Frame(twin.render()));
    assert_eq!(l.handle(&redraw(1_200_000_000)), Action::Frame(twin.render()));
}

#[test]
fn redraw_with_a_clock_that_went_back_is_skipped() {
    let mut l: FrameLoop = frame_loop(1_000_000_000);
    assert_eq!(l.handle(&redraw(0)), Action::Wait);
    assert_eq!(l.handle(&redraw(999_999_999)), Action::Wait);
    assert_eq!(l.last_redraw(), 1_000_000_000);
}

#[test]
fn redraw_at_the_end_of_the_clock_is_served() {
    let mut l: FrameLoop = frame_loop(0);
    assert!(is_frame(l.handle(&redraw(u64::MAX))));
    assert_eq!(l.last_redraw(), u64::MAX);
    assert_eq!(l.handle(&redraw(u64::MAX)), Action::Wait);
}

#[test]
fn many_redraw_requests_give_one_step_per_interval() {
    let mut l: FrameLoop = frame_loop(0);
    let mut served: Vec<u64> = Vec::new();
    let mut now: u64 = 0;
    while now <= 3_000_000_000 {
        if is_frame(l.handle(&redraw(now))) {
            served.push(now);
        }
        now += 16_000_000;
    }
    assert_eq!(served, vec![512_000_000, 1_024_000_000, 1_536_000_000, 2_048_000_000, 2_560_000_000]);
    for pair in served.windows(2) {
        assert!(pair[1] - pair[0] > STEP_INTERVAL);
    }
    assert_eq!(l.state().parity().index(), served.len() % 2);
}

#[test]
fn redraw_of_another_window_is_ignored() {
    let mut l: FrameLoop = frame_loop(0);
    let event = Event::RedrawRequested { window: WINDOW + 1, now: 2_000_000_000 };
    assert_eq!(l.handle(&event), Action::Wait);
    assert_eq!(l.last_redraw(), 0);
    assert_eq!(l.state().parity(), Parity::Zero);
}

#[test]
fn events_cleared_asks_for_a_redraw() {
    let mut l: FrameLoop = frame_loop(0);
    assert_eq!(l.handle(&Event::MainEventsCleared), Action::RequestRedraw);
    assert_eq!(l.last_redraw(), 0);
    assert_eq!(l.state().parity(), Parity::Zero);
}

#[test]
fn close_request_exits() {
    let mut l: FrameLoop = frame_loop(0);
    assert_eq!(l.handle(&window(WindowEvent::CloseRequested)), Action::Exit);
}

#[test]
fn escape_going_down_exits() {
    let mut l: FrameLoop = frame_loop(0);
    let event = WindowEvent::KeyboardInput { pressed: true, key: Some(Key::Escape) };
    assert_eq!(l.handle(&window(event)), Action::Exit);
}

#[test]
fn other_keyboard_input_does_nothing() {
    let mut l: FrameLoop = frame_loop(0);
    let released = WindowEvent::KeyboardInput { pressed: false, key: Some(Key::Escape) };
    let other = WindowEvent::KeyboardInput { pressed: true, key: Some(Key::Other) };
    let nameless = WindowEvent::KeyboardInput { pressed: true, key: None };
    assert_eq!(l.handle(&window(released)), Action::Wait);
    assert_eq!(l.handle(&window(other)), Action::Wait);
    assert_eq!(l.handle(&window(nameless)), Action::Wait);
}

#[test]
fn events_of_another_window_are_ignored() {
    let mut l: FrameLoop = frame_loop(0);
    let close = Event::Window { window: WINDOW + 1, event: WindowEvent::CloseRequested };
    let resize =
        Event::Window { window: 0, event: WindowEvent::Resized { width: 10, height: 10 } };
    assert_eq!(l.handle(&close), Action::Wait);
    assert_eq!(l.handle(&resize), Action::Wait);
    assert_eq!(l.state().config(), config(800, 600));
}

#[test]
fn resize_event_configures_the_surface() {
    let mut l: FrameLoop = frame_loop(0);
    let event = window(WindowEvent::Resized { width: 640, height: 480 });
    assert_eq!(l.handle(&event), Action::Configure(config(640, 480)));
    assert_eq!(l.state().config(), config(640, 480));
}

#[test]
fn scale_factor_event_configures_the_surface() {
    let mut l: FrameLoop = frame_loop(0);
    let event = window(WindowEvent::ScaleFactorChanged { width: 1600, height: 1200 });
    assert_eq!(l.handle(&event), Action::Configure(config(1600, 1200)));
    assert_eq!(l.state().config(), config(1600, 1200));
}

#[test]
fn degenerate_resize_event_is_ignored() {
    let mut l: FrameLoop = frame_loop(0);
    assert_eq!(l.handle(&window(WindowEvent::Resized { width: 0, height: 480 })), Action::Wait);
    assert_eq!(l.handle(&window(WindowEvent::Resized { width: 640, height: 0 })), Action::Wait);
    assert_eq!(
        l.handle(&window(WindowEvent::ScaleFactorChanged { width: 0, height: 0 })),
        Action::Wait
    );
    assert_eq!(l.state().config(), config(800, 600));
}

#[test]
fn other_events_do_nothing() {
    let mut l: FrameLoop = frame_loop(0);
    assert_eq!(l.handle(&Event::Other), Action::Wait);
    assert_eq!(l.handle(&window(WindowEvent::Other)), Action::Wait);
    assert_eq!(l.last_redraw(), 0);
    assert_eq!(l.state().config(), config(800, 600));
}

#[test]
fn resize_does_not_disturb_the_pace() {
    let mut l: FrameLoop = frame_loop(0);
    assert!(is_frame(l.handle(&redraw(600_000_000))));
    assert_eq!(
        l.handle(&window(WindowEvent::Resized { width: 640, height: 480 })),
        Action::Configure(config(640, 480))
    );
    assert_eq!(l.handle(&redraw(700_000_000)), Action::Wait);
    assert_eq!(l.state().parity(), Parity::One);
    assert_eq!(l.state().grid().size(), 32);
    assert!(is_frame(l.handle(&redraw(1_100_000_001))));
    assert_eq!(l.state().parity(), Parity::Zero);
}

#[test]
fn after_a_presented_frame_the_loop_goes_on() {
    assert_eq!(after_frame(Some(())), Action::Wait);
}

#[test]
fn after_a_lost_frame_the_loop_exits() {
    assert_eq!(after_frame(None), Action::Exit);
}
