//! The event loop as a state machine: it starts, takes one event per turn,
//! and returns to its caller at the first turn after a request to stop.

use crate::menu::Action;
use vstd::prelude::*;

verus! {

/// Where the loop is in its life.
#[derive(Clone, Copy, Debug, PartialEq, Eq, Structural)]
pub enum RunState {
    /// The loop has not been started.
    NotRunning,
    /// The loop is waiting for events and dispatching them.
    Running,
    /// The loop has returned to its caller and is not running any more.
    Returned,
}

/// Where an event comes from.
#[derive(Clone, Copy, Debug, PartialEq, Eq, Structural)]
pub enum EventSource {
    Mouse,
    Keyboard,
    Window,
    Application,
}

/// What the loop takes from the queue in one turn.
#[derive(Clone, Copy, Debug, PartialEq, Eq, Structural)]
pub enum Event {
    /// An event of the system or the user, to be delivered.
    Input(EventSource),
    /// A command was chosen, from a menu or by its key: its action is to be
    /// performed.
    Command(Action),
}

/// What the loop does in one turn.
#[derive(Clone, Copy, Debug, PartialEq, Eq, Structural)]
pub enum Turn {
    /// The loop is not running: nothing is done with the event.
    Idle,
    /// No event is queued: the thread blocks until one arrives.
    Wait,
    /// The event is delivered.
    Dispatch(Event),
    /// A request to stop was seen: the loop returns to its caller, and says
    /// which action asked for it.
    Return(Action),
}

/// The event loop of an application.
#[derive(Clone, Copy, Debug, PartialEq, Eq, Structural)]
pub struct EventLoop {
    pub state: RunState,
    /// The action that has asked the loop to stop, until the loop sees it.
    pub stop_request: Option<Action>,
}

impl EventLoop {
    /// A loop that has not been started.
    pub open spec fn idle() -> EventLoop {
        EventLoop { state: RunState::NotRunning, stop_request: None }
    }

    /// A request is pending only while the loop runs.
    pub open spec fn wf(self) -> bool {
        self.stop_request is Some ==> self.state is Running
    }

    /// The loop after `run`: a loop that has not been started is running, any
    /// other is as it was.
    pub open spec fn started(self) -> EventLoop {
        if self.state is NotRunning {
            EventLoop { state: RunState::Running, stop_request: None }
        } else {
            self
        }
    }

    /// The loop after `action` was performed: a running loop keeps the first
    /// request it was given, any other loop takes none.
    pub open spec fn requested(self, action: Action) -> EventLoop {
        if self.state is Running && self.stop_request is None {
            EventLoop { stop_request: Some(action), ..self }
        } else {
            self
        }
    }

    /// What the loop does in a turn in which `event` is at the head of the
    /// queue.
    pub open spec fn turn_of(self, event: Option<Event>) -> Turn {
        if !(self.state is Running) {
            Turn::Idle
        } else if self.stop_request is Some {
            Turn::Return(self.stop_request->0)
        } else {
            match event {
                Some(e) => Turn::Dispatch(e),
                None => Turn::Wait,
            }
        }
    }

    /// The loop after a turn in which `event` is at the head of the queue. A
    /// pending request ends the loop before the event is looked at; a command
    /// that is dispatched leaves its request for the next turn.
    pub open spec fn turned(self, event: Option<Event>) -> EventLoop {
        match self.turn_of(event) {
            Turn::Return(_) => EventLoop { state: RunState::Returned, stop_request: None },
            Turn::Dispatch(Event::Command(action)) => self.requested(action),
            _ => self,
        }
    }

    /// Makes a loop that has not been started.
    pub fn new() -> (l: EventLoop)
        ensures
            l == EventLoop::idle(),
    {
        EventLoop { state: RunState::NotRunning, stop_request: None }
    }

    /// Starts the loop. Only a loop that has not been started can be started;
    /// the result says whether this call started it.
    pub fn run(&mut self) -> (started: bool)
        ensures
            *final(self) == old(self).started(),
            started == (old(self).state is NotRunning),
    {
        match self.state {
            RunState::NotRunning => {
                self.state = RunState::Running;
                self.stop_request = None;
                true
            },
            _ => false,
        }
    }

    /// Performs the action of a command: asks the running loop to stop at its
    /// next turn. The result says whether this call placed the request.
    pub fn perform(&mut self, action: Action) -> (placed: bool)
        ensures
            *final(self) == old(self).requested(action),
            placed == (old(self).state is Running && old(self).stop_request is None),
    {
        match (self.state, self.stop_request) {
            (RunState::Running, None) => {
                self.stop_request = Some(action);
                true
            },
            _ => false,
        }
    }

    /// Takes one turn of the loop with `event` at the head of the queue, or
    /// with an empty queue.
    pub fn turn(&mut self, event: Option<Event>) -> (t: Turn)
        ensures
            t == old(self).turn_of(event),
            *final(self) == old(self).turned(event),
    {
        match self.state {
            RunState::Running => {},
            _ => { return Turn::Idle; },
        }
        match self.stop_request {
            Some(action) => {
                self.state = RunState::Returned;
                self.stop_request = None;
                return Turn::Return(action);
            },
            None => {},
        }
        match event {
            Some(Event::Command(action)) => {
                self.stop_request = Some(action);
                Turn::Dispatch(Event::Command(action))
            },
            Some(e) => Turn::Dispatch(e),
            None => Turn::Wait,
        }
    }

    /// Whether the loop is running.
    pub fn is_running(&self) -> (b: bool)
        ensures
            b == (self.state is Running),
    {
        match self.state {
            RunState::Running => true,
            _ => false,
        }
    }

    /// Whether the loop has returned to its caller.
    pub fn has_returned(&self) -> (b: bool)
        ensures
            b == (self.state is Returned),
    {
        match self.state {
            RunState::Returned => true,
            _ => false,
        }
    }
}

/// Every step keeps the loop well formed.
pub proof fn lemma_loop_steps_keep_wf(l: EventLoop, action: Action, event: Option<Event>)
    requires
        l.wf(),
    ensures
        EventLoop::idle().wf(),
        l.started().wf(),
        l.requested(action).wf(),
        l.turned(event).wf(),
{
}

/// A command performed while the loop runs ends the loop at its next turn,
/// whatever is queued then: the loop returns to its caller, names the action
/// that was performed first, and holds no request any more.
pub proof fn lemma_command_returns_loop(l: EventLoop, action: Action, next: Option<Event>)
    requires
        l.wf(),
        l.state is Running,
    ensures
        l.requested(action).turn_of(next) is Return,
        l.stop_request is None ==> l.requested(action).turn_of(next) == Turn::Return(action),
        l.requested(action).turned(next) == (EventLoop {
            state: RunState::Returned,
            stop_request: None,
        }),
{
}

/// A loop that has returned stays so: it cannot be started again, takes no
/// request and does nothing with events.
pub proof fn lemma_returned_is_final(l: EventLoop, action: Action, event: Option<Event>)
    requires
        l.wf(),
        l.state is Returned,
    ensures
        l.started() == l,
        l.requested(action) == l,
        l.turned(event) == l,
        l.turn_of(event) == Turn::Idle,
{
}

/// While no request is pending the running loop keeps running: events of the
/// system and the user are delivered and an empty queue makes it wait.
pub proof fn lemma_loop_keeps_running(l: EventLoop, source: EventSource)
    requires
        l.state is Running,
        l.stop_request is None,
    ensures
        l.turned(Some(Event::Input(source))) == l,
        l.turn_of(Some(Event::Input(source))) == Turn::Dispatch(Event::Input(source)),
        l.turned(None) == l,
        l.turn_of(None) == Turn::Wait,
{
}

} // verus!
