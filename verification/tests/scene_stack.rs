use crius::probe::{
    ProbeScene, ScenePlan, HOOK_EVENT, HOOK_PAUSE, HOOK_RESUME, HOOK_START, HOOK_STOP, HOOK_UPDATE,
    LOG_COUNT_KEY, LOG_SLOT_BASE,
};
use crius::scene::{Context, SceneManager, Transition, TransitionKind};
use crius::store::Store;

fn fresh_context() -> Context {
    Context::new(Store::new())
}

fn log_len(ctx: &Context) -> u64 {
    ctx.store.get_resource(LOG_COUNT_KEY).unwrap_or(0)
}

fn log_entry(ctx: &Context, n: u64) -> u64 {
    ctx.store.get_resource(LOG_SLOT_BASE + n).unwrap()
}

fn entry(id: u64, hook: u64) -> u64 {
    id * 16 + hook
}

#[test]
fn new_stack_is_not_running() {
    let manager = SceneManager::new(ProbeScene::new(0));
    assert!(!manager.is_running());
    assert_eq!(manager.depth(), 1);
}

#[test]
fn initialize_starts_top_scene_once() {
    let mut manager = SceneManager::new(ProbeScene::new(0));
    let mut ctx = fresh_context();
    manager.initialize(&mut ctx);
    assert!(manager.is_running());
    assert_eq!(log_len(&ctx), 1);
    assert_eq!(log_entry(&ctx, 0), entry(0, HOOK_START));
}

#[test]
fn update_push_pauses_prior_top_then_starts_new() {
    let mut manager = SceneManager::new(ProbeScene::with_update_plan(0, ScenePlan::Push(1)));
    let mut ctx = fresh_context();
    manager.initialize(&mut ctx);
    let kind = manager.update(&mut ctx);
    assert_eq!(kind, TransitionKind::Push);
    assert_eq!(manager.depth(), 2);
    assert_eq!(manager.top().unwrap().id, 1);
    assert_eq!(log_len(&ctx), 4);
    assert_eq!(log_entry(&ctx, 0), entry(0, HOOK_START));
    assert_eq!(log_entry(&ctx, 1), entry(0, HOOK_UPDATE));
    assert_eq!(log_entry(&ctx, 2), entry(0, HOOK_PAUSE));
    assert_eq!(log_entry(&ctx, 3), entry(1, HOOK_START));
}

#[test]
fn push_on_singleton_keeps_prior_scene_beneath() {
    let mut manager = SceneManager::new(ProbeScene::new(0));
    let mut ctx = fresh_context();
    manager.initialize(&mut ctx);
    manager.push(ProbeScene::new(1), &mut ctx);
    assert_eq!(manager.depth(), 2);
    assert_eq!(manager.top().unwrap().id, 1);
    assert_eq!(log_len(&ctx), 3);
    assert_eq!(log_entry(&ctx, 1), entry(0, HOOK_PAUSE));
    assert_eq!(log_entry(&ctx, 2), entry(1, HOOK_START));
}

#[test]
fn stop_stops_scenes_top_to_bottom_and_is_idempotent() {
    let mut manager = SceneManager::new(ProbeScene::new(0));
    let mut ctx = fresh_context();
    manager.initialize(&mut ctx);
    manager.push(ProbeScene::new(1), &mut ctx);
    let before = log_len(&ctx);
    manager.stop(&mut ctx);
    assert!(!manager.is_running());
    assert_eq!(manager.depth(), 0);
    assert_eq!(log_len(&ctx), before + 2);
    assert_eq!(log_entry(&ctx, before), entry(1, HOOK_STOP));
    assert_eq!(log_entry(&ctx, before + 1), entry(0, HOOK_STOP));
    let after = log_len(&ctx);
    manager.stop(&mut ctx);
    assert!(!manager.is_running());
    assert_eq!(log_len(&ctx), after);
    assert_eq!(manager.depth(), 0);
}

#[test]
fn quit_from_update_stops_whole_stack() {
    let mut manager = SceneManager::new(ProbeScene::with_update_plan(0, ScenePlan::Quit));
    let mut ctx = fresh_context();
    manager.initialize(&mut ctx);
    let kind = manager.update(&mut ctx);
    assert_eq!(kind, TransitionKind::Quit);
    assert!(!manager.is_running());
    assert_eq!(manager.depth(), 0);
    assert_eq!(log_len(&ctx), 3);
    assert_eq!(log_entry(&ctx, 1), entry(0, HOOK_UPDATE));
    assert_eq!(log_entry(&ctx, 2), entry(0, HOOK_STOP));
}

#[test]
fn switch_and_pop_leave_depth_and_top_unchanged() {
    let mut manager = SceneManager::new(ProbeScene::with_update_plan(0, ScenePlan::Switch(9)));
    let mut ctx = fresh_context();
    manager.initialize(&mut ctx);
    let kind = manager.update(&mut ctx);
    assert_eq!(kind, TransitionKind::Switch);
    assert_eq!(manager.depth(), 1);
    assert_eq!(manager.top().unwrap().id, 0);
    assert!(manager.is_running());

    let mut manager = SceneManager::new(ProbeScene::with_update_plan(3, ScenePlan::Pop));
    let mut ctx = fresh_context();
    manager.initialize(&mut ctx);
    let kind = manager.update(&mut ctx);
    assert_eq!(kind, TransitionKind::Pop);
    assert_eq!(manager.depth(), 1);
    assert_eq!(manager.top().unwrap().id, 3);
    assert!(manager.is_running());
}

#[test]
fn apply_transition_switch_pop_are_no_ops() {
    let mut manager = SceneManager::new(ProbeScene::new(0));
    let mut ctx = fresh_context();
    manager.initialize(&mut ctx);
    let before = log_len(&ctx);
    let kind = manager.apply_transition(Transition::Switch(ProbeScene::new(7)), &mut ctx);
    assert_eq!(kind, TransitionKind::Switch);
    let kind = manager.apply_transition(Transition::Pop, &mut ctx);
    assert_eq!(kind, TransitionKind::Pop);
    let kind = manager.apply_transition(Transition::Stay, &mut ctx);
    assert_eq!(kind, TransitionKind::Stay);
    assert_eq!(manager.depth(), 1);
    assert_eq!(manager.top().unwrap().id, 0);
    assert_eq!(log_len(&ctx), before);
}

#[test]
fn running_stack_is_never_empty() {
    let mut manager = SceneManager::new(ProbeScene::with_update_plan(0, ScenePlan::Push(1)));
    let mut ctx = fresh_context();
    manager.initialize(&mut ctx);
    assert!(manager.is_running() && manager.depth() >= 1);
    manager.update(&mut ctx);
    assert!(manager.is_running() && manager.depth() >= 1);
    manager.handle_event(
        &mut ctx,
        crius::event::Event::Application(crius::event::ApplicationEvent::Resumed),
    );
    assert!(manager.is_running() && manager.depth() >= 1);
    manager.pause(&mut ctx);
    manager.resume(&mut ctx);
    assert!(manager.is_running() && manager.depth() >= 1);
    manager.apply_transition(Transition::Pop, &mut ctx);
    assert!(manager.is_running() && manager.depth() >= 1);
}

#[test]
fn update_when_not_running_is_a_no_op() {
    let mut manager = SceneManager::new(ProbeScene::with_update_plan(0, ScenePlan::Push(1)));
    let mut ctx = fresh_context();
    let kind = manager.update(&mut ctx);
    assert_eq!(kind, TransitionKind::Stay);
    assert_eq!(manager.depth(), 1);
    assert_eq!(log_len(&ctx), 0);
}

#[test]
fn handle_event_routes_to_top_and_applies_push() {
    let mut manager = SceneManager::new(ProbeScene::with_event_plan(0, ScenePlan::Push(2)));
    let mut ctx = fresh_context();
    manager.initialize(&mut ctx);
    let kind = manager.handle_event(
        &mut ctx,
        crius::event::Event::Window(crius::event::WindowEvent::Focused(true)),
    );
    assert_eq!(kind, TransitionKind::Push);
    assert_eq!(manager.depth(), 2);
    assert_eq!(manager.top().unwrap().id, 2);
    assert_eq!(log_entry(&ctx, 1), entry(0, HOOK_EVENT));
    assert_eq!(log_entry(&ctx, 2), entry(0, HOOK_PAUSE));
    assert_eq!(log_entry(&ctx, 3), entry(2, HOOK_START));
}

#[test]
fn event_plan_is_consumed_by_first_call() {
    let mut manager = SceneManager::new(ProbeScene::with_event_plan(0, ScenePlan::Switch(9)));
    let mut ctx = fresh_context();
    manager.initialize(&mut ctx);
    let event = crius::event::Event::Application(crius::event::ApplicationEvent::Suspended);
    let kind = manager.handle_event(&mut ctx, event);
    assert_eq!(kind, TransitionKind::Switch);
    assert_eq!(manager.depth(), 1);
    assert_eq!(manager.top().unwrap().id, 0);
    let kind = manager.handle_event(&mut ctx, event);
    assert_eq!(kind, TransitionKind::Stay);
    assert_eq!(manager.depth(), 1);
}

#[test]
fn pause_and_resume_touch_only_the_top() {
    let mut manager = SceneManager::new(ProbeScene::new(0));
    let mut ctx = fresh_context();
    manager.initialize(&mut ctx);
    manager.push(ProbeScene::new(1), &mut ctx);
    let before = log_len(&ctx);
    manager.pause(&mut ctx);
    manager.resume(&mut ctx);
    assert_eq!(log_len(&ctx), before + 2);
    assert_eq!(log_entry(&ctx, before), entry(1, HOOK_PAUSE));
    assert_eq!(log_entry(&ctx, before + 1), entry(1, HOOK_RESUME));
}

#[test]
fn pause_resume_and_stop_on_a_spent_stack_are_no_ops() {
    let mut manager = SceneManager::new(ProbeScene::with_update_plan(0, ScenePlan::Quit));
    let mut ctx = fresh_context();
    manager.initialize(&mut ctx);
    manager.update(&mut ctx);
    assert_eq!(manager.depth(), 0);
    let before = log_len(&ctx);
    manager.pause(&mut ctx);
    manager.resume(&mut ctx);
    manager.stop(&mut ctx);
    assert_eq!(log_len(&ctx), before);
    assert!(!manager.is_running());
    assert!(manager.top().is_none());
}
