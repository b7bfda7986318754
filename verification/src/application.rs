//! The application object of a process: the one receiver of the activation
//! policy, the main menu, activation and the event loop.

use crate::event_loop::{Event, EventLoop, Turn};
use crate::menu::{Action, MenuBar, MenuBarView};
use vstd::prelude::*;

verus! {

/// Whether a process may come to the foreground.
#[derive(Clone, Copy, Debug, PartialEq, Eq, Structural)]
pub enum ActivationPolicy {
    /// An ordinary application: it owns a menu bar and can take the keyboard.
    Regular,
    /// An application without a menu bar of its own.
    Accessory,
    /// A background process.
    Prohibited,
}

impl ActivationPolicy {
    /// Whether a process with this policy shows a menu bar and can be raised
    /// above other applications.
    pub open spec fn foreground_capable(self) -> bool {
        self is Regular
    }

    /// Tests `foreground_capable`.
    pub fn is_foreground_capable(&self) -> (b: bool)
        ensures
            b == self.foreground_capable(),
    {
        match self {
            ActivationPolicy::Regular => true,
            _ => false,
        }
    }
}

/// The application object.
#[derive(Debug, PartialEq, Eq)]
pub struct Application {
    pub policy: ActivationPolicy,
    pub main_menu: Option<MenuBar>,
    /// Whether the main menu is drawn along the top of the screen.
    pub menu_bar_shown: bool,
    /// Whether the application has been raised above the other applications.
    pub active: bool,
    pub event_loop: EventLoop,
}

/// The application object, as contracts see it.
pub ghost struct ApplicationView {
    pub policy: ActivationPolicy,
    pub main_menu: Option<MenuBarView>,
    pub menu_bar_shown: bool,
    pub active: bool,
    pub event_loop: EventLoop,
}

impl View for Application {
    type V = ApplicationView;

    open spec fn view(&self) -> ApplicationView {
        ApplicationView {
            policy: self.policy,
            main_menu: match self.main_menu {
                Some(bar) => Some(bar@),
                None => None,
            },
            menu_bar_shown: self.menu_bar_shown,
            active: self.active,
            event_loop: self.event_loop,
        }
    }
}

impl ApplicationView {
    /// The application of a process that was started without any description
    /// of itself: a background process without a menu, not active, its loop
    /// not started.
    pub open spec fn launched() -> ApplicationView {
        ApplicationView {
            policy: ActivationPolicy::Prohibited,
            main_menu: None,
            menu_bar_shown: false,
            active: false,
            event_loop: EventLoop::idle(),
        }
    }

    /// The menu bar is drawn only for a menu that is installed, and the event
    /// loop is well formed.
    pub open spec fn wf(self) -> bool {
        &&& self.menu_bar_shown ==> self.main_menu is Some
        &&& self.event_loop.wf()
    }
}

impl Application {
    /// Makes the application object of a process that has just started.
    pub fn new() -> (app: Application)
        ensures
            app@ == ApplicationView::launched(),
    {
        Application {
            policy: ActivationPolicy::Prohibited,
            main_menu: None,
            menu_bar_shown: false,
            active: false,
            event_loop: EventLoop::new(),
        }
    }

    /// Sets the activation policy. A menu that is already installed is not
    /// drawn or hidden by this: the policy counts when a menu is installed
    /// and when the application is activated.
    pub fn set_activation_policy(&mut self, policy: ActivationPolicy)
        ensures
            final(self)@ == (ApplicationView { policy, ..old(self)@ }),
    {
        self.policy = policy;
    }

    /// Installs `menu` as the main menu, in place of any earlier one. It is
    /// drawn if the policy of this moment lets the process own a menu bar.
    pub fn set_main_menu(&mut self, menu: MenuBar)
        ensures
            final(self)@ == (ApplicationView {
                main_menu: Some(menu@),
                menu_bar_shown: old(self)@.policy.foreground_capable(),
                ..old(self)@
            }),
    {
        self.menu_bar_shown = self.policy.is_foreground_capable();
        self.main_menu = Some(menu);
    }

    /// Raises the application above all others, whatever state they are in,
    /// if the policy of this moment lets the process come to the foreground.
    /// An application that is active stays so.
    pub fn activate(&mut self)
        ensures
            final(self)@ == (ApplicationView {
                active: old(self)@.active || old(self)@.policy.foreground_capable(),
                ..old(self)@
            }),
    {
        if self.policy.is_foreground_capable() {
            self.active = true;
        }
    }

    /// Starts the event loop; see `EventLoop::run`.
    pub fn run(&mut self) -> (started: bool)
        ensures
            final(self)@ == (ApplicationView {
                event_loop: old(self)@.event_loop.started(),
                ..old(self)@
            }),
            started == (old(self)@.event_loop.state is NotRunning),
    {
        self.event_loop.run()
    }

    /// Performs the action of a command; see `EventLoop::perform`.
    pub fn perform(&mut self, action: Action) -> (placed: bool)
        ensures
            final(self)@ == (ApplicationView {
                event_loop: old(self)@.event_loop.requested(action),
                ..old(self)@
            }),
            placed == (old(self)@.event_loop.state is Running && old(self)@.event_loop.stop_request
                is None),
    {
        self.event_loop.perform(action)
    }

    /// Takes one turn of the event loop; see `EventLoop::turn`.
    pub fn turn(&mut self, event: Option<Event>) -> (t: Turn)
        ensures
            final(self)@ == (ApplicationView {
                event_loop: old(self)@.event_loop.turned(event),
                ..old(self)@
            }),
            t == old(self)@.event_loop.turn_of(event),
    {
        self.event_loop.turn(event)
    }
}

/// The process as far as its application object goes: the object comes into
/// being at the first access and is the same one at every later access.
pub struct Process {
    application: Option<Application>,
}

/// What an access makes of the application object of a process: the object
/// that is there, or a new one where there is none yet.
pub open spec fn accessed(application: Option<ApplicationView>) -> ApplicationView {
    match application {
        Some(app) => app,
        None => ApplicationView::launched(),
    }
}

impl View for Process {
    type V = Option<ApplicationView>;

    closed spec fn view(&self) -> Option<ApplicationView> {
        match self.application {
            Some(app) => Some(app@),
            None => None,
        }
    }
}

impl Process {
    /// A process whose application object has not been accessed yet.
    pub fn new() -> (process: Process)
        ensures
            process@ is None,
    {
        Process { application: None }
    }

    /// Whether the application object exists.
    pub fn is_materialized(&self) -> (b: bool)
        ensures
            b == (self@ is Some),
    {
        self.application.is_some()
    }

    /// The application object, if it exists. This access does not make it.
    pub fn application(&self) -> (app: Option<&Application>)
        ensures
            match app {
                Some(a) => self@ == Some(a@),
                None => self@ is None,
            },
    {
        self.application.as_ref()
    }

    /// Gives the application object of the process, making it at the first
    /// access. What is done to it through the result is done to the one
    /// object of the process.
    pub fn shared_application(&mut self) -> (app: &mut Application)
        ensures
            (*app)@ == accessed(old(self)@),
            final(self)@ == Some((*final(app))@),
    {
        if self.application.is_none() {
            self.application = Some(Application::new());
        }
        match &mut self.application {
            Some(app) => app,
            None => vstd::pervasive::unreached(),
        }
    }
}

/// Access to the application object is idempotent: the first access makes the
/// object, every later access finds that same object, unchanged, and leaves it
/// in place.
pub proof fn lemma_shared_application_is_idempotent(process: Option<ApplicationView>)
    ensures
        accessed(Some(accessed(process))) == accessed(process),
        process is Some ==> accessed(process) == process->0,
        process is None ==> accessed(process) == ApplicationView::launched(),
{
}

} // verus!
