use gui_bootstrap::application::{ActivationPolicy, Application, Process};
use gui_bootstrap::event_loop::{Event, EventLoop, EventSource, RunState, Turn};
use gui_bootstrap::menu::{build_main_menu, Action, MenuBar};
use gui_bootstrap::region::ResourceRegion;

#[test]
fn only_the_regular_policy_is_foreground_capable() {
    assert!(ActivationPolicy::Regular.is_foreground_capable());
    assert!(!ActivationPolicy::Accessory.is_foreground_capable());
    assert!(!ActivationPolicy::Prohibited.is_foreground_capable());
}

#[test]
fn a_new_application_is_a_background_process() {
    let app = Application::new();
    assert_eq!(
        app,
        Application {
            policy: ActivationPolicy::Prohibited,
            main_menu: None,
            menu_bar_shown: false,
            active: false,
            event_loop: EventLoop::new(),
        }
    );
}

#[test]
fn set_activation_policy_changes_the_policy_alone() {
    let mut app = Application::new();
    app.set_activation_policy(ActivationPolicy::Regular);
    assert_eq!(app.policy, ActivationPolicy::Regular);
    assert_eq!(app.main_menu, None);
    assert!(!app.menu_bar_shown && !app.active);
    app.set_activation_policy(ActivationPolicy::Accessory);
    assert_eq!(app.policy, ActivationPolicy::Accessory);
}

#[test]
fn a_menu_installed_under_the_regular_policy_is_shown() {
    let mut app = Application::new();
    app.set_activation_policy(ActivationPolicy::Regular);
    app.set_main_menu(MenuBar::new(0));
    assert_eq!(app.main_menu, Some(MenuBar { handle: 0, items: vec![] }));
    assert!(app.menu_bar_shown);
}

#[test]
fn a_menu_installed_before_the_policy_is_not_shown() {
    let mut app = Application::new();
    app.set_main_menu(MenuBar::new(0));
    assert!(app.main_menu.is_some());
    assert!(!app.menu_bar_shown);
    app.set_activation_policy(ActivationPolicy::Regular);
    assert!(!app.menu_bar_shown);
    app.set_main_menu(MenuBar::new(1));
    assert!(app.menu_bar_shown);
    assert_eq!(app.main_menu, Some(MenuBar { handle: 1, items: vec![] }));
}

#[test]
fn a_menu_installed_under_another_policy_is_not_shown() {
    for policy in [ActivationPolicy::Accessory, ActivationPolicy::Prohibited] {
        let mut app = Application::new();
        app.set_activation_policy(policy);
        app.set_main_menu(MenuBar::new(0));
        assert!(app.main_menu.is_some());
        assert!(!app.menu_bar_shown);
    }
}

#[test]
fn activate_needs_a_foreground_capable_policy() {
    let mut app = Application::new();
    app.activate();
    assert!(!app.active);
    app.set_activation_policy(ActivationPolicy::Accessory);
    app.activate();
    assert!(!app.active);
    app.set_activation_policy(ActivationPolicy::Regular);
    assert!(!app.active);
    app.activate();
    assert!(app.active);
    app.set_activation_policy(ActivationPolicy::Prohibited);
    app.activate();
    assert!(app.active);
}

#[test]
fn the_application_runs_its_loop() {
    let mut app = Application::new();
    assert!(!app.perform(Action::Stop));
    assert_eq!(app.turn(None), Turn::Idle);
    assert!(app.run());
    assert!(!app.run());
    assert_eq!(app.event_loop.state, RunState::Running);
    let click = Event::Input(EventSource::Mouse);
    assert_eq!(app.turn(Some(click)), Turn::Dispatch(click));
    assert_eq!(app.turn(None), Turn::Wait);
    assert!(app.perform(Action::Stop));
    assert_eq!(app.turn(Some(click)), Turn::Return(Action::Stop));
    assert_eq!(app.event_loop, EventLoop { state: RunState::Returned, stop_request: None });
    assert_eq!(app.policy, ActivationPolicy::Prohibited);
    assert!(!app.active);
}

#[test]
fn the_application_object_is_made_at_the_first_access() {
    let mut process = Process::new();
    assert!(!process.is_materialized());
    assert!(process.application().is_none());
    let app = process.shared_application();
    assert_eq!(*app, Application::new());
    assert!(process.is_materialized());
    assert_eq!(process.application(), Some(&Application::new()));
}

#[test]
fn every_access_gives_the_same_application_object() {
    let mut process = Process::new();
    process.shared_application().set_activation_policy(ActivationPolicy::Regular);
    let mut region = ResourceRegion::open();
    let bar = build_main_menu(&mut region, Some("demo"), Action::Stop).unwrap();
    process.shared_application().set_main_menu(bar);
    process.shared_application().activate();
    let app = process.shared_application();
    assert_eq!(app.policy, ActivationPolicy::Regular);
    assert!(app.menu_bar_shown);
    assert!(app.active);
    assert_eq!(app.main_menu.as_ref().unwrap().items.len(), 1);
    process.shared_application().set_activation_policy(ActivationPolicy::Accessory);
    assert_eq!(process.shared_application().policy, ActivationPolicy::Accessory);
    process.shared_application().set_activation_policy(ActivationPolicy::Regular);
    assert_eq!(process.application().unwrap().policy, ActivationPolicy::Regular);
}
