//! The bootstrap as an ordered pipeline: open the region, acquire the
//! application, set its policy, build the menu, build the window, activate,
//! run the event loop, drain the region. Each phase is refused unless it is
//! the next one, so the order of the phases holds of every run.

use crate::application::{accessed, ActivationPolicy, Application, ApplicationView, Process};
use crate::event_loop::{Event, EventLoop, RunState, Turn};
use crate::geometry::{lemma_centered_is_valid, Rect};
use crate::menu::{
    build_main_menu, lemma_main_menu_shape, lemma_menu_bar_life, main_menu, main_menu_objects,
    name_or_empty, Action, QUIT_KEY,
};
use crate::region::{ObjectKind, RegionState, ResourceRegion};
use crate::window::{
    build_window, build_window_error, built_window, window_title, Window, WindowDescriptor,
    WindowError, WindowView,
};
use vstd::prelude::*;

verus! {

/// The phase that is to be performed next.
#[derive(Clone, Copy, Debug, PartialEq, Eq, Structural)]
pub enum Phase {
    OpenRegion,
    AcquireApp,
    SetPolicy,
    BuildMenu,
    BuildWindow,
    Activate,
    RunLoop,
    DrainRegion,
    /// Every phase has been performed.
    Done,
}

/// Why a phase was refused.
#[derive(Clone, Copy, Debug, PartialEq, Eq, Structural)]
pub enum BootstrapError {
    /// The phase is not the one that is to be performed next.
    OutOfOrder,
    /// The window could not be built.
    Window(WindowError),
}

impl Phase {
    /// The place of the phase in the order of the phases.
    pub open spec fn index(self) -> int {
        match self {
            Phase::OpenRegion => 0,
            Phase::AcquireApp => 1,
            Phase::SetPolicy => 2,
            Phase::BuildMenu => 3,
            Phase::BuildWindow => 4,
            Phase::Activate => 5,
            Phase::RunLoop => 6,
            Phase::DrainRegion => 7,
            Phase::Done => 8,
        }
    }

    /// The phase that follows; nothing follows `Done`.
    pub open spec fn following(self) -> Phase {
        match self {
            Phase::OpenRegion => Phase::AcquireApp,
            Phase::AcquireApp => Phase::SetPolicy,
            Phase::SetPolicy => Phase::BuildMenu,
            Phase::BuildMenu => Phase::BuildWindow,
            Phase::BuildWindow => Phase::Activate,
            Phase::Activate => Phase::RunLoop,
            Phase::RunLoop => Phase::DrainRegion,
            Phase::DrainRegion => Phase::Done,
            Phase::Done => Phase::Done,
        }
    }

    /// Gives `following`.
    pub fn next(&self) -> (p: Phase)
        ensures
            p == self.following(),
    {
        match self {
            Phase::OpenRegion => Phase::AcquireApp,
            Phase::AcquireApp => Phase::SetPolicy,
            Phase::SetPolicy => Phase::BuildMenu,
            Phase::BuildMenu => Phase::BuildWindow,
            Phase::BuildWindow => Phase::Activate,
            Phase::Activate => Phase::RunLoop,
            Phase::RunLoop => Phase::DrainRegion,
            Phase::DrainRegion => Phase::Done,
            Phase::Done => Phase::Done,
        }
    }
}

/// The state of a bootstrap, as contracts see it.
pub ghost struct BootstrapView {
    pub phase: Phase,
    /// The region, once it has been opened.
    pub region: Option<RegionState>,
    /// The application object, once it has been acquired.
    pub application: Option<ApplicationView>,
    /// The window, once it has been built.
    pub window: Option<WindowView>,
}

/// The objects that the bootstrap has registered once the window is built.
pub open spec fn bootstrap_objects() -> Seq<ObjectKind> {
    main_menu_objects().push(ObjectKind::Window)
}

impl BootstrapView {
    /// The state before the first phase.
    pub open spec fn initial() -> BootstrapView {
        BootstrapView { phase: Phase::OpenRegion, region: None, application: None, window: None }
    }

    /// Whether `phase` has been performed.
    pub open spec fn past(self, phase: Phase) -> bool {
        self.phase.index() > phase.index()
    }

    /// What holds of the region in every state.
    pub open spec fn region_wf(self) -> bool {
        &&& self.region is Some <==> self.past(Phase::OpenRegion)
        &&& self.region matches Some(region) ==> {
            &&& region.wf()
            &&& region.drained <==> self.past(Phase::DrainRegion)
            &&& !self.past(Phase::BuildMenu) ==> region.registered == Seq::<ObjectKind>::empty()
            &&& self.past(Phase::BuildMenu) && !self.past(Phase::BuildWindow)
                ==> region.registered == main_menu_objects()
            &&& self.past(Phase::BuildWindow) && !self.past(Phase::DrainRegion)
                ==> region.registered == bootstrap_objects()
        }
    }

    /// What holds of the application in every state.
    pub open spec fn application_wf(self) -> bool {
        &&& self.application is Some <==> self.past(Phase::AcquireApp)
        &&& self.application matches Some(app) ==> {
            &&& app.wf()
            &&& !self.past(Phase::SetPolicy) ==> app == ApplicationView::launched()
            &&& !self.past(Phase::BuildMenu) ==> app.main_menu is None && !app.menu_bar_shown
            &&& self.past(Phase::BuildMenu) ==> {
                &&& app.main_menu is Some
                &&& app.main_menu->0.is_main_menu(0)
                &&& app.menu_bar_shown == app.policy.foreground_capable()
                &&& !self.past(Phase::DrainRegion) ==> app.main_menu->0.live_in(self.region->0)
            }
            &&& !self.past(Phase::Activate) ==> !app.active && app.event_loop == EventLoop::idle()
            &&& self.past(Phase::Activate) ==> app.active == app.policy.foreground_capable()
            &&& self.phase is RunLoop ==> !(app.event_loop.state is Returned)
            &&& self.past(Phase::RunLoop) ==> app.event_loop == (EventLoop {
                state: RunState::Returned,
                stop_request: None,
            })
        }
    }

    /// What holds of the window in every state.
    pub open spec fn window_wf(self) -> bool {
        &&& self.window is Some <==> self.past(Phase::BuildWindow)
        &&& self.window matches Some(window) ==> {
            &&& window.handle == main_menu_objects().len()
            &&& window.frame.valid()
            &&& window.title == window_title()
            &&& window.visible
            &&& window.key
            &&& !self.past(Phase::DrainRegion) ==> self.region->0.live(window.handle)
        }
    }

    /// What holds in every state that a bootstrap can reach. In particular:
    /// the region is open from the second phase on and drained in the last
    /// state only; a menu is installed, and a window exists, only after the
    /// policy was set; the application is active only when its window is in
    /// front; the loop has returned before the region is drained; and while
    /// the region is open every object of the menu and the window is live.
    pub open spec fn wf(self) -> bool {
        &&& self.region_wf()
        &&& self.application_wf()
        &&& self.window_wf()
    }

    /// The state after the region was opened.
    pub open spec fn opened(self) -> BootstrapView {
        BootstrapView { phase: Phase::AcquireApp, region: Some(RegionState::opened()), ..self }
    }

    /// The state after the application was acquired.
    pub open spec fn acquired(self) -> BootstrapView {
        BootstrapView {
            phase: Phase::SetPolicy,
            application: Some(accessed(self.application)),
            ..self
        }
    }

    /// The state after the activation policy was set.
    pub open spec fn with_policy(self, policy: ActivationPolicy) -> BootstrapView {
        BootstrapView {
            phase: Phase::BuildMenu,
            application: Some(ApplicationView { policy, ..self.application->0 }),
            ..self
        }
    }

    /// The state after the main menu was built and installed.
    pub open spec fn with_menu(self, process_name: Seq<char>, quit: Action) -> BootstrapView {
        let region = self.region->0;
        let app = self.application->0;
        BootstrapView {
            phase: Phase::BuildWindow,
            region: Some(
                RegionState {
                    registered: region.registered + main_menu_objects(),
                    drained: false,
                },
            ),
            application: Some(
                ApplicationView {
                    main_menu: Some(
                        main_menu(region.registered.len() as int, process_name, quit),
                    ),
                    menu_bar_shown: app.policy.foreground_capable(),
                    ..app
                },
            ),
            ..self
        }
    }

    /// The state after the window was built.
    pub open spec fn with_window(self, descriptor: WindowDescriptor, display: Rect) -> BootstrapView {
        let region = self.region->0;
        BootstrapView {
            phase: Phase::Activate,
            region: Some(region.after_register(ObjectKind::Window)),
            window: Some(built_window(region.registered.len() as int, descriptor, display)),
            ..self
        }
    }

    /// The state after the application was activated.
    pub open spec fn activated(self) -> BootstrapView {
        let app = self.application->0;
        BootstrapView {
            phase: Phase::RunLoop,
            application: Some(
                ApplicationView { active: app.active || app.policy.foreground_capable(), ..app },
            ),
            ..self
        }
    }

    /// The state after the event loop was started.
    pub open spec fn running(self) -> BootstrapView {
        let app = self.application->0;
        BootstrapView {
            application: Some(ApplicationView { event_loop: app.event_loop.started(), ..app }),
            ..self
        }
    }

    /// The state after the action of a command was performed.
    pub open spec fn performed(self, action: Action) -> BootstrapView {
        let app = self.application->0;
        BootstrapView {
            application: Some(
                ApplicationView { event_loop: app.event_loop.requested(action), ..app },
            ),
            ..self
        }
    }

    /// The state after one turn of the event loop: when the loop returns, the
    /// region is the next to be drained.
    pub open spec fn turned(self, event: Option<Event>) -> BootstrapView {
        let app = self.application->0;
        BootstrapView {
            phase: if app.event_loop.turn_of(event) is Return {
                Phase::DrainRegion
            } else {
                self.phase
            },
            application: Some(
                ApplicationView { event_loop: app.event_loop.turned(event), ..app },
            ),
            ..self
        }
    }

    /// The state in which the loop can be started: every phase before the
    /// loop has been performed, in order, with the given choices.
    pub open spec fn launched(
        policy: ActivationPolicy,
        process_name: Seq<char>,
        quit: Action,
        descriptor: WindowDescriptor,
        display: Rect,
    ) -> BootstrapView {
        BootstrapView::initial().opened().acquired().with_policy(policy).with_menu(
            process_name,
            quit,
        ).with_window(descriptor, display).activated()
    }

    /// The state after the region was drained.
    pub open spec fn drained(self) -> BootstrapView {
        BootstrapView { phase: Phase::Done, region: Some(self.region->0.after_drain()), ..self }
    }
}

/// A phase other than `expected` was to be performed next: the phase that was
/// asked for is refused as out of order and nothing changes.
pub open spec fn refused(
    before: BootstrapView,
    after: BootstrapView,
    expected: Phase,
    e: BootstrapError,
) -> bool {
    &&& before.phase != expected
    &&& e == BootstrapError::OutOfOrder
    &&& after == before
}

/// A bootstrap in progress: the region, the process with its application
/// object, the window, and the phase that comes next.
pub struct Bootstrap {
    phase: Phase,
    region: Option<ResourceRegion>,
    process: Process,
    window: Option<Window>,
}

impl View for Bootstrap {
    type V = BootstrapView;

    closed spec fn view(&self) -> BootstrapView {
        BootstrapView {
            phase: self.phase,
            region: match self.region {
                Some(region) => Some(region@),
                None => None,
            },
            application: self.process@,
            window: match self.window {
                Some(window) => Some(window@),
                None => None,
            },
        }
    }
}

impl Bootstrap {
    /// A bootstrap of which no phase has been performed.
    pub fn new() -> (b: Bootstrap)
        ensures
            b@ == BootstrapView::initial(),
            b@.wf(),
    {
        Bootstrap { phase: Phase::OpenRegion, region: None, process: Process::new(), window: None }
    }

    /// The phase that is to be performed next.
    pub fn phase(&self) -> (p: Phase)
        ensures
            p == self@.phase,
    {
        self.phase
    }

    /// The region, once it has been opened.
    pub fn region(&self) -> (r: Option<&ResourceRegion>)
        ensures
            match r {
                Some(region) => self@.region == Some(region@),
                None => self@.region is None,
            },
    {
        self.region.as_ref()
    }

    /// The application object, once it has been acquired.
    pub fn application(&self) -> (a: Option<&Application>)
        ensures
            match a {
                Some(app) => self@.application == Some(app@),
                None => self@.application is None,
            },
    {
        self.process.application()
    }

    /// The window, once it has been built.
    pub fn window(&self) -> (w: Option<&Window>)
        ensures
            match w {
                Some(window) => self@.window == Some(window@),
                None => self@.window is None,
            },
    {
        self.window.as_ref()
    }

    /// First phase: opens the region in which every later phase registers
    /// what it creates.
    pub fn open_region(&mut self) -> (r: Result<(), BootstrapError>)
        requires
            old(self)@.wf(),
        ensures
            final(self)@.wf(),
            match r {
                Ok(_) => old(self)@.phase is OpenRegion && final(self)@ == old(self)@.opened(),
                Err(e) => refused(old(self)@, final(self)@, Phase::OpenRegion, e),
            },
    {
        match self.phase {
            Phase::OpenRegion => {},
            _ => { return Err(BootstrapError::OutOfOrder); },
        }
        self.region = Some(ResourceRegion::open());
        self.phase = self.phase.next();
        Ok(())
    }

    /// Second phase: acquires the application object of the process.
    pub fn acquire_application(&mut self) -> (r: Result<(), BootstrapError>)
        requires
            old(self)@.wf(),
        ensures
            final(self)@.wf(),
            match r {
                Ok(_) => old(self)@.phase is AcquireApp && final(self)@ == old(self)@.acquired(),
                Err(e) => refused(old(self)@, final(self)@, Phase::AcquireApp, e),
            },
    {
        match self.phase {
            Phase::AcquireApp => {},
            _ => { return Err(BootstrapError::OutOfOrder); },
        }
        let _ = self.process.shared_application();
        self.phase = self.phase.next();
        Ok(())
    }

    /// Third phase: sets the activation policy, before any menu or window
    /// exists.
    pub fn set_activation_policy(&mut self, policy: ActivationPolicy) -> (r: Result<
        (),
        BootstrapError,
    >)
        requires
            old(self)@.wf(),
        ensures
            final(self)@.wf(),
            match r {
                Ok(_) => old(self)@.phase is SetPolicy && final(self)@ == old(self)@.with_policy(
                    policy,
                ),
                Err(e) => refused(old(self)@, final(self)@, Phase::SetPolicy, e),
            },
    {
        match self.phase {
            Phase::SetPolicy => {},
            _ => { return Err(BootstrapError::OutOfOrder); },
        }
        self.process.shared_application().set_activation_policy(policy);
        self.phase = self.phase.next();
        Ok(())
    }

    /// Fourth phase: builds the main menu of the process, registers its
    /// objects in the region and installs it. `process_name` is the name of
    /// the process, or `None` where it could not be found out.
    pub fn build_menu(&mut self, process_name: Option<&str>, quit: Action) -> (r: Result<
        (),
        BootstrapError,
    >)
        requires
            old(self)@.wf(),
        ensures
            final(self)@.wf(),
            match r {
                Ok(_) => old(self)@.phase is BuildMenu && final(self)@ == old(self)@.with_menu(
                    name_or_empty(process_name),
                    quit,
                ),
                Err(e) => refused(old(self)@, final(self)@, Phase::BuildMenu, e),
            },
    {
        match self.phase {
            Phase::BuildMenu => {},
            _ => { return Err(BootstrapError::OutOfOrder); },
        }
        let built = match &mut self.region {
            Some(region) => build_main_menu(region, process_name, quit),
            None => { return Err(BootstrapError::OutOfOrder); },
        };
        let bar = match built {
            Ok(bar) => bar,
            Err(_) => { return Err(BootstrapError::OutOfOrder); },
        };
        proof {
            lemma_main_menu_shape(0, name_or_empty(process_name), quit);
            assert(Seq::<ObjectKind>::empty() + main_menu_objects() =~= main_menu_objects());
        }
        self.process.shared_application().set_main_menu(bar);
        self.phase = self.phase.next();
        Ok(())
    }

    /// Fifth phase: builds the window from `descriptor` on `display` and
    /// registers it in the region. Where the window cannot be built the phase
    /// is still to be performed.
    pub fn build_window(&mut self, descriptor: &WindowDescriptor, display: &Rect) -> (r: Result<
        (),
        BootstrapError,
    >)
        requires
            old(self)@.wf(),
        ensures
            final(self)@.wf(),
            match r {
                Ok(_) => {
                    &&& old(self)@.phase is BuildWindow
                    &&& build_window_error(old(self)@.region->0, *descriptor, *display) is None
                    &&& final(self)@ == old(self)@.with_window(*descriptor, *display)
                },
                Err(BootstrapError::Window(e)) => {
                    &&& old(self)@.phase is BuildWindow
                    &&& build_window_error(old(self)@.region->0, *descriptor, *display) == Some(e)
                    &&& final(self)@ == old(self)@
                },
                Err(e) => refused(old(self)@, final(self)@, Phase::BuildWindow, e),
            },
    {
        match self.phase {
            Phase::BuildWindow => {},
            _ => { return Err(BootstrapError::OutOfOrder); },
        }
        let built = match &mut self.region {
            Some(region) => build_window(region, descriptor, display),
            None => { return Err(BootstrapError::OutOfOrder); },
        };
        match built {
            Ok(window) => {
                proof {
                    lemma_menu_bar_life(
                        self@.application->0.main_menu->0,
                        old(self)@.region->0,
                        ObjectKind::Window,
                    );
                    lemma_centered_is_valid(descriptor.content_rect, *display);
                }
                self.window = Some(window);
                self.phase = self.phase.next();
                Ok(())
            },
            Err(e) => Err(BootstrapError::Window(e)),
        }
    }

    /// Sixth phase: raises the application above all others, now that its
    /// window is in front.
    pub fn activate(&mut self) -> (r: Result<(), BootstrapError>)
        requires
            old(self)@.wf(),
        ensures
            final(self)@.wf(),
            match r {
                Ok(_) => old(self)@.phase is Activate && final(self)@ == old(self)@.activated(),
                Err(e) => refused(old(self)@, final(self)@, Phase::Activate, e),
            },
    {
        match self.phase {
            Phase::Activate => {},
            _ => { return Err(BootstrapError::OutOfOrder); },
        }
        self.process.shared_application().activate();
        self.phase = self.phase.next();
        Ok(())
    }

    /// Seventh phase: starts the event loop. The phase lasts until a turn of
    /// the loop returns; the result says whether this call started the loop.
    pub fn run(&mut self) -> (r: Result<bool, BootstrapError>)
        requires
            old(self)@.wf(),
        ensures
            final(self)@.wf(),
            match r {
                Ok(started) => {
                    &&& old(self)@.phase is RunLoop
                    &&& final(self)@ == old(self)@.running()
                    &&& started == (old(self)@.application->0.event_loop.state is NotRunning)
                },
                Err(e) => refused(old(self)@, final(self)@, Phase::RunLoop, e),
            },
    {
        match self.phase {
            Phase::RunLoop => {},
            _ => { return Err(BootstrapError::OutOfOrder); },
        }
        let started = self.process.shared_application().run();
        Ok(started)
    }

    /// Performs the action of a command while the loop is in its phase: asks
    /// the running loop to stop at its next turn. The result says whether this
    /// call placed the request.
    pub fn perform(&mut self, action: Action) -> (r: Result<bool, BootstrapError>)
        requires
            old(self)@.wf(),
        ensures
            final(self)@.wf(),
            match r {
                Ok(placed) => {
                    let event_loop = old(self)@.application->0.event_loop;
                    &&& old(self)@.phase is RunLoop
                    &&& final(self)@ == old(self)@.performed(action)
                    &&& placed == (event_loop.state is Running && event_loop.stop_request is None)
                },
                Err(e) => refused(old(self)@, final(self)@, Phase::RunLoop, e),
            },
    {
        match self.phase {
            Phase::RunLoop => {},
            _ => { return Err(BootstrapError::OutOfOrder); },
        }
        let placed = self.process.shared_application().perform(action);
        Ok(placed)
    }

    /// Takes one turn of the event loop with `event` at the head of the queue,
    /// or with an empty queue. When the loop returns, the phase is over.
    pub fn turn(&mut self, event: Option<Event>) -> (r: Result<Turn, BootstrapError>)
        requires
            old(self)@.wf(),
        ensures
            final(self)@.wf(),
            match r {
                Ok(t) => {
                    &&& old(self)@.phase is RunLoop
                    &&& final(self)@ == old(self)@.turned(event)
                    &&& t == old(self)@.application->0.event_loop.turn_of(event)
                },
                Err(e) => refused(old(self)@, final(self)@, Phase::RunLoop, e),
            },
    {
        match self.phase {
            Phase::RunLoop => {},
            _ => { return Err(BootstrapError::OutOfOrder); },
        }
        let t = self.process.shared_application().turn(event);
        match t {
            Turn::Return(_) => {
                self.phase = self.phase.next();
            },
            _ => {},
        }
        Ok(t)
    }

    /// Last phase: drains the region. The result holds the released objects by
    /// handle: those of the menu, then the window.
    pub fn drain_region(&mut self) -> (r: Result<Vec<ObjectKind>, BootstrapError>)
        requires
            old(self)@.wf(),
        ensures
            final(self)@.wf(),
            match r {
                Ok(released) => {
                    &&& old(self)@.phase is DrainRegion
                    &&& final(self)@ == old(self)@.drained()
                    &&& released@ == bootstrap_objects()
                },
                Err(e) => refused(old(self)@, final(self)@, Phase::DrainRegion, e),
            },
    {
        match self.phase {
            Phase::DrainRegion => {},
            _ => { return Err(BootstrapError::OutOfOrder); },
        }
        let released = match &mut self.region {
            Some(region) => region.drain(),
            None => { return Err(BootstrapError::OutOfOrder); },
        };
        self.phase = self.phase.next();
        Ok(released)
    }

    /// Performs every phase before the event loop, in order: opens the region,
    /// acquires the application, sets `policy`, builds the menu of the process
    /// called `process_name` with a quit command that performs `quit`, builds
    /// the window from `descriptor` on `display`, and activates.
    ///
    /// It fails only where the window cannot be built, with the error of the
    /// window builder.
    pub fn launch(
        policy: ActivationPolicy,
        process_name: Option<&str>,
        quit: Action,
        descriptor: &WindowDescriptor,
        display: &Rect,
    ) -> (r: Result<Bootstrap, BootstrapError>)
        ensures
            match r {
                Ok(b) => {
                    &&& launch_error(*descriptor, *display) is None
                    &&& b@ == BootstrapView::launched(
                        policy,
                        name_or_empty(process_name),
                        quit,
                        *descriptor,
                        *display,
                    )
                    &&& b@.wf()
                },
                Err(e) => launch_error(*descriptor, *display) == Some(e),
            },
    {
        let mut b = Bootstrap::new();
        match b.open_region() {
            Ok(_) => {},
            Err(e) => { return Err(e); },
        }
        match b.acquire_application() {
            Ok(_) => {},
            Err(e) => { return Err(e); },
        }
        match b.set_activation_policy(policy) {
            Ok(_) => {},
            Err(e) => { return Err(e); },
        }
        match b.build_menu(process_name, quit) {
            Ok(_) => {},
            Err(e) => { return Err(e); },
        }
        match b.build_window(descriptor, display) {
            Ok(_) => {},
            Err(e) => { return Err(e); },
        }
        match b.activate() {
            Ok(_) => {},
            Err(e) => { return Err(e); },
        }
        Ok(b)
    }
}

/// Why `launch` fails, if it does: the window builder refuses the descriptor
/// or the display.
pub open spec fn launch_error(descriptor: WindowDescriptor, display: Rect) -> Option<
    BootstrapError,
> {
    match build_window_error(
        RegionState { registered: main_menu_objects(), drained: false },
        descriptor,
        display,
    ) {
        Some(e) => Some(BootstrapError::Window(e)),
        None => None,
    }
}

/// Each phase, performed when it is the next, leads from a well-formed state
/// to a well-formed state, and so does every step of the loop.
pub proof fn lemma_phases_keep_wf(
    v: BootstrapView,
    policy: ActivationPolicy,
    process_name: Seq<char>,
    quit: Action,
    descriptor: WindowDescriptor,
    display: Rect,
    event: Option<Event>,
)
    requires
        v.wf(),
    ensures
        BootstrapView::initial().wf(),
        v.phase is OpenRegion ==> v.opened().wf(),
        v.phase is AcquireApp ==> v.acquired().wf(),
        v.phase is SetPolicy ==> v.with_policy(policy).wf(),
        v.phase is BuildMenu ==> v.with_menu(process_name, quit).wf(),
        v.phase is BuildWindow && build_window_error(v.region->0, descriptor, display) is None
            ==> v.with_window(descriptor, display).wf(),
        v.phase is Activate ==> v.activated().wf(),
        v.phase is RunLoop ==> v.running().wf() && v.performed(quit).wf() && v.turned(event).wf(),
        v.phase is DrainRegion ==> v.drained().wf(),
{
    if v.phase is BuildMenu {
        let w = v.with_menu(process_name, quit);
        lemma_main_menu_shape(0, process_name, quit);
        assert(w.region->0.registered =~= main_menu_objects());
    }
    if v.phase is BuildWindow && build_window_error(v.region->0, descriptor, display) is None {
        lemma_menu_bar_life(
            v.application->0.main_menu->0,
            v.region->0,
            ObjectKind::Window,
        );
        lemma_centered_is_valid(descriptor.content_rect, display);
    }
}

/// The order of the phases, read off a well-formed state: nothing is
/// registered before the region is open or after it is drained, and the
/// region is drained only when every phase is done; a menu is installed and
/// drawn, and the application is activated, under the policy that was set
/// before; the application is activated only once its window is in front.
pub proof fn lemma_order_of_phases(v: BootstrapView)
    requires
        v.wf(),
    ensures
        v.region matches Some(region) ==> (region.drained <==> v.phase is Done),
        v.region is None ==> v.application is None && v.window is None,
        v.application matches Some(app) ==> (app.main_menu is Some ==> app.menu_bar_shown
            == app.policy.foreground_capable()),
        v.application matches Some(app) ==> (app.active ==> app.policy.foreground_capable()
            && v.window is Some && v.window->0.visible && v.window->0.key),
        v.application matches Some(app) ==> (app.event_loop.state is Running ==> v.phase
            is RunLoop),
        v.phase is Done ==> v.application->0.event_loop.state is Returned,
{
}

/// With the regular policy, once the menu, the window and the activation are
/// done the main menu is drawn and has exactly one top-level item, which owns
/// exactly one submenu, which holds exactly one command, under the quit key;
/// the window is on screen, key and titled; and the application is active.
pub proof fn lemma_launched_application(v: BootstrapView)
    requires
        v.wf(),
        v.phase is RunLoop,
        v.application->0.policy is Regular,
    ensures
        v.application->0.menu_bar_shown,
        v.application->0.main_menu->0.items.len() == 1,
        v.application->0.main_menu->0.items[0].submenu is Some,
        v.application->0.main_menu->0.items[0].submenu->0.items.len() == 1,
        v.application->0.main_menu->0.items[0].submenu->0.items[0].key_equivalent == QUIT_KEY,
        v.window->0.visible && v.window->0.key,
        v.window->0.title == window_title(),
        v.application->0.active,
{
}

/// The action of a command, performed while the loop runs, ends the loop at
/// its next turn whatever is queued then, and leaves the region as the next
/// thing to be drained.
pub proof fn lemma_quit_ends_the_loop(v: BootstrapView, action: Action, next: Option<Event>)
    requires
        v.wf(),
        v.phase is RunLoop,
        v.application->0.event_loop.state is Running,
    ensures
        v.performed(action).application->0.event_loop.turn_of(next) is Return,
        v.performed(action).turned(next).phase is DrainRegion,
        v.performed(action).turned(next).application->0.event_loop.state is Returned,
        v.performed(action).turned(next).wf(),
{
}

} // verus!
