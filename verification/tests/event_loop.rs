use gui_bootstrap::event_loop::{Event, EventLoop, EventSource, RunState, Turn};
use gui_bootstrap::menu::Action;

#[test]
fn a_new_loop_is_not_running() {
    let l = EventLoop::new();
    assert_eq!(l, EventLoop { state: RunState::NotRunning, stop_request: None });
    assert!(!l.is_running());
    assert!(!l.has_returned());
}

#[test]
fn run_starts_a_loop_once() {
    let mut l = EventLoop::new();
    assert!(l.run());
    assert_eq!(l, EventLoop { state: RunState::Running, stop_request: None });
    assert!(l.is_running());
    assert!(!l.run());
    assert_eq!(l, EventLoop { state: RunState::Running, stop_request: None });
}

#[test]
fn a_loop_that_is_not_running_is_idle() {
    let mut l = EventLoop::new();
    assert_eq!(l.turn(None), Turn::Idle);
    assert_eq!(l.turn(Some(Event::Input(EventSource::Mouse))), Turn::Idle);
    assert_eq!(l.turn(Some(Event::Command(Action::Stop))), Turn::Idle);
    assert!(!l.perform(Action::Stop));
    assert_eq!(l, EventLoop::new());
}

#[test]
fn a_running_loop_waits_on_an_empty_queue() {
    let mut l = EventLoop::new();
    l.run();
    assert_eq!(l.turn(None), Turn::Wait);
    assert!(l.is_running());
    assert_eq!(l.stop_request, None);
}

#[test]
fn a_running_loop_delivers_events() {
    let mut l = EventLoop::new();
    l.run();
    for source in
        [EventSource::Mouse, EventSource::Keyboard, EventSource::Window, EventSource::Application]
    {
        assert_eq!(l.turn(Some(Event::Input(source))), Turn::Dispatch(Event::Input(source)));
        assert_eq!(l, EventLoop { state: RunState::Running, stop_request: None });
    }
}

#[test]
fn a_performed_action_ends_the_loop_at_the_next_turn() {
    let mut l = EventLoop::new();
    l.run();
    assert!(l.perform(Action::Stop));
    assert!(l.is_running());
    assert_eq!(l.stop_request, Some(Action::Stop));
    assert_eq!(l.turn(Some(Event::Input(EventSource::Keyboard))), Turn::Return(Action::Stop));
    assert_eq!(l, EventLoop { state: RunState::Returned, stop_request: None });
    assert!(l.has_returned());
    assert!(!l.is_running());
}

#[test]
fn a_dispatched_command_ends_the_loop_at_the_next_turn() {
    let mut l = EventLoop::new();
    l.run();
    let command = Event::Command(Action::Terminate);
    assert_eq!(l.turn(Some(command)), Turn::Dispatch(command));
    assert_eq!(l, EventLoop { state: RunState::Running, stop_request: Some(Action::Terminate) });
    assert_eq!(l.turn(None), Turn::Return(Action::Terminate));
    assert!(l.has_returned());
}

#[test]
fn the_first_request_is_the_one_that_counts() {
    let mut l = EventLoop::new();
    l.run();
    assert!(l.perform(Action::Stop));
    assert!(!l.perform(Action::Terminate));
    assert_eq!(l.stop_request, Some(Action::Stop));
    assert_eq!(l.turn(None), Turn::Return(Action::Stop));
}

#[test]
fn a_returned_loop_stays_returned() {
    let mut l = EventLoop::new();
    l.run();
    l.perform(Action::Stop);
    l.turn(None);
    let returned = EventLoop { state: RunState::Returned, stop_request: None };
    assert_eq!(l, returned);
    assert!(!l.run());
    assert!(!l.perform(Action::Stop));
    assert_eq!(l.turn(None), Turn::Idle);
    assert_eq!(l.turn(Some(Event::Command(Action::Stop))), Turn::Idle);
    assert_eq!(l, returned);
}
