use crius::application::{ApplicationBuilder, Directive, Flow};
use crius::event::{RuntimeEvent, WindowEvent};
use crius::probe::{
    ProbeScene, ProbeSystem, ScenePlan, SystemAction, HOOK_EVENT, HOOK_PAUSE, HOOK_RESUME,
    HOOK_STOP, HOOK_UPDATE, LOG_COUNT_KEY, LOG_SLOT_BASE,
};
use crius::settings::{
    ApplicationSettings, GraphicsSettings, Settings, Version, WindowSettings,
};

fn make_settings() -> Settings {
    Settings {
        application: ApplicationSettings {
            name: "demo".to_owned(),
            version: Version::new(0, 1, 0),
            assets_path: "assets".to_owned(),
        },
        window: WindowSettings {
            title: "demo window".to_owned(),
            size: None,
            min_size: None,
            max_size: None,
            resizeable: true,
            maximized: false,
            visible: true,
            transparent: false,
            decorations: true,
            always_on_top: false,
        },
        graphics: GraphicsSettings { extensions: None, layers: None },
    }
}

fn entry(id: u64, hook: u64) -> u64 {
    id * 16 + hook
}

type App = crius::application::Application<ProbeScene, ProbeSystem>;

fn simple_app(scene: ProbeScene) -> App {
    let mut app = ApplicationBuilder::<ProbeScene, ProbeSystem>::new(scene)
        .with_resource(1, 42)
        .with_system(ProbeSystem::new(SystemAction::Put { key: 10, value: 7 }))
        .barrier()
        .with_system(ProbeSystem::new(SystemAction::Copy { from: 10, to: 11 }))
        .build(make_settings());
    app.initialize();
    app
}

fn log_len(app: &App) -> u64 {
    app.get_resource(LOG_COUNT_KEY).unwrap_or(0)
}

fn log_entry(app: &App, n: u64) -> u64 {
    app.get_resource(LOG_SLOT_BASE + n).unwrap()
}

#[test]
fn build_and_initialize() {
    let app = simple_app(ProbeScene::new(0));
    assert!(app.is_running());
    assert_eq!(app.depth(), 1);
    assert_eq!(app.get_resource(1), Some(42));
    assert_eq!(log_len(&app), 1);
    assert_eq!(app.settings().application.name, "demo");
}

#[test]
fn close_request_exits_without_routing() {
    let mut app = simple_app(ProbeScene::new(0));
    let before = log_len(&app);
    let directive = app.handle_runtime_event(RuntimeEvent::Window(WindowEvent::CloseRequested));
    assert_eq!(directive, Directive { flow: Flow::Exit, redraw: false });
    assert!(app.is_running());
    assert_eq!(log_len(&app), before);
}

#[test]
fn window_event_is_routed_to_the_top_scene() {
    let mut app = simple_app(ProbeScene::new(0));
    let before = log_len(&app);
    let directive = app.handle_runtime_event(RuntimeEvent::Window(WindowEvent::Resized(800, 600)));
    assert_eq!(directive, Directive { flow: Flow::Poll, redraw: false });
    assert_eq!(log_len(&app), before + 1);
    assert_eq!(log_entry(&app, before), entry(0, HOOK_EVENT));
}

#[test]
fn suspended_routes_event_then_pauses_and_waits() {
    let mut app = simple_app(ProbeScene::new(0));
    let before = log_len(&app);
    let directive = app.handle_runtime_event(RuntimeEvent::Suspended);
    assert_eq!(directive, Directive { flow: Flow::Wait, redraw: false });
    assert_eq!(log_len(&app), before + 2);
    assert_eq!(log_entry(&app, before), entry(0, HOOK_EVENT));
    assert_eq!(log_entry(&app, before + 1), entry(0, HOOK_PAUSE));
}

#[test]
fn resumed_routes_event_then_resumes_and_polls() {
    let mut app = simple_app(ProbeScene::new(0));
    let before = log_len(&app);
    let directive = app.handle_runtime_event(RuntimeEvent::Resumed);
    assert_eq!(directive, Directive { flow: Flow::Poll, redraw: false });
    assert_eq!(log_len(&app), before + 2);
    assert_eq!(log_entry(&app, before), entry(0, HOOK_EVENT));
    assert_eq!(log_entry(&app, before + 1), entry(0, HOOK_RESUME));
}

#[test]
fn frame_tick_updates_and_requests_redraw() {
    let mut app = simple_app(ProbeScene::new(0));
    let before = log_len(&app);
    let directive = app.handle_runtime_event(RuntimeEvent::MainEventsCleared);
    assert_eq!(directive, Directive { flow: Flow::Poll, redraw: true });
    assert_eq!(log_len(&app), before + 1);
    assert_eq!(log_entry(&app, before), entry(0, HOOK_UPDATE));
}

#[test]
fn quit_transition_turns_into_exit() {
    let mut app = simple_app(ProbeScene::with_update_plan(0, ScenePlan::Quit));
    let directive = app.handle_runtime_event(RuntimeEvent::MainEventsCleared);
    assert_eq!(directive, Directive { flow: Flow::Exit, redraw: true });
    assert!(!app.is_running());
    assert_eq!(app.depth(), 0);
}

#[test]
fn redraw_request_executes_the_schedule() {
    let mut app = simple_app(ProbeScene::new(0));
    assert_eq!(app.get_resource(11), None);
    let before = log_len(&app);
    let directive = app.handle_runtime_event(RuntimeEvent::RedrawRequested);
    assert_eq!(directive, Directive { flow: Flow::Poll, redraw: false });
    assert_eq!(app.get_resource(10), Some(7));
    assert_eq!(app.get_resource(11), Some(7));
    assert_eq!(log_len(&app), before);
}

#[test]
fn loop_teardown_routes_terminating_then_stops() {
    let mut app = simple_app(ProbeScene::new(0));
    let before = log_len(&app);
    let directive = app.handle_runtime_event(RuntimeEvent::LoopDestroyed);
    assert_eq!(directive, Directive { flow: Flow::Poll, redraw: false });
    assert!(!app.is_running());
    assert_eq!(app.depth(), 0);
    assert_eq!(log_len(&app), before + 2);
    assert_eq!(log_entry(&app, before), entry(0, HOOK_EVENT));
    assert_eq!(log_entry(&app, before + 1), entry(0, HOOK_STOP));
}

#[test]
fn unknown_events_are_ignored() {
    let mut app = simple_app(ProbeScene::new(0));
    let before = log_len(&app);
    let directive = app.handle_runtime_event(RuntimeEvent::Other);
    assert_eq!(directive, Directive { flow: Flow::Poll, redraw: false });
    assert_eq!(log_len(&app), before);
    assert!(app.is_running());
}

#[test]
fn push_from_event_grows_the_stack_through_the_runtime() {
    let mut app = simple_app(ProbeScene::with_event_plan(0, ScenePlan::Push(1)));
    let directive = app.handle_runtime_event(RuntimeEvent::Window(WindowEvent::Focused(false)));
    assert_eq!(directive, Directive { flow: Flow::Poll, redraw: false });
    assert_eq!(app.depth(), 2);
}

#[test]
fn schedule_analysis_is_reachable_through_the_runtime() {
    let app = simple_app(ProbeScene::new(0));
    let schedule = app.schedule();
    assert_eq!(schedule.stage_count(), 2);
    assert_eq!(schedule.systems_in_stage(0), 1);
    assert_eq!(schedule.systems_in_stage(1), 1);
}
