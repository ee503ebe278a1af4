use keyhook::{HookPhase, HookRegistry, KeyboardHook, RegisterError, StartAction, StopAction};

fn start(hook: &mut KeyboardHook, registry: &mut HookRegistry<u32>, tag: u32, installed: bool) -> Result<(), RegisterError> {
    match hook.begin_start(registry, tag)? {
        StartAction::Ready => Ok(()),
        StartAction::Install => hook.finish_start(registry, installed),
    }
}

fn stop(hook: &mut KeyboardHook, registry: &mut HookRegistry<u32>) -> StopAction {
    let action = hook.begin_stop();
    if action == StopAction::WakeAndJoin {
        hook.finish_stop(registry);
    }
    action
}

#[test]
fn second_start_installs_nothing() {
    let mut hook = KeyboardHook::new();
    let mut registry = HookRegistry::new();
    assert_eq!(hook.begin_start(&mut registry, 1), Ok(StartAction::Install));
    assert_eq!(hook.phase(), HookPhase::Starting);
    assert_eq!(hook.finish_start(&mut registry, true), Ok(()));
    assert!(hook.is_running());
    assert_eq!(hook.begin_start(&mut registry, 2), Ok(StartAction::Ready));
    assert!(hook.is_running());
    assert_eq!(registry.current(), Some(&1));
}

#[test]
fn stop_twice_and_stop_when_idle() {
    let mut hook = KeyboardHook::new();
    let mut registry = HookRegistry::new();
    assert_eq!(stop(&mut hook, &mut registry), StopAction::Nothing);
    assert_eq!(hook.phase(), HookPhase::Idle);
    start(&mut hook, &mut registry, 1, true).unwrap();
    assert_eq!(stop(&mut hook, &mut registry), StopAction::WakeAndJoin);
    assert_eq!(stop(&mut hook, &mut registry), StopAction::Nothing);
    assert_eq!(hook.phase(), HookPhase::Idle);
    assert!(!registry.is_bound());
}

#[test]
fn stop_right_after_start_wakes_the_pump() {
    let mut hook = KeyboardHook::new();
    let mut registry = HookRegistry::new();
    start(&mut hook, &mut registry, 1, true).unwrap();
    assert_eq!(hook.begin_stop(), StopAction::WakeAndJoin);
    assert_eq!(hook.phase(), HookPhase::Stopping);
    hook.finish_stop(&mut registry);
    assert_eq!(hook.phase(), HookPhase::Idle);
}

#[test]
fn teardown_frees_the_slot_for_a_fresh_start() {
    let mut registry = HookRegistry::new();
    let mut first = KeyboardHook::new();
    start(&mut first, &mut registry, 1, true).unwrap();
    stop(&mut first, &mut registry);
    let mut second = KeyboardHook::new();
    assert_eq!(start(&mut second, &mut registry, 2, true), Ok(()));
    assert_eq!(registry.current(), Some(&2));
}

#[test]
fn failed_install_reports_hook_failed_and_stays_idle() {
    let mut hook = KeyboardHook::new();
    let mut registry = HookRegistry::new();
    assert_eq!(start(&mut hook, &mut registry, 1, false), Err(RegisterError::HookFailed));
    assert_eq!(hook.phase(), HookPhase::Idle);
    assert!(!registry.is_bound());
    assert_eq!(start(&mut hook, &mut registry, 1, true), Ok(()));
}

#[test]
fn second_controller_is_rejected_while_one_runs() {
    let mut registry = HookRegistry::new();
    let mut first = KeyboardHook::new();
    let mut second = KeyboardHook::new();
    start(&mut first, &mut registry, 1, true).unwrap();
    assert_eq!(second.begin_start(&mut registry, 2), Err(RegisterError::AlreadyRunning));
    assert_eq!(second.phase(), HookPhase::Idle);
    assert_eq!(registry.current(), Some(&1));
}

#[test]
fn start_while_starting_is_rejected() {
    let mut hook = KeyboardHook::new();
    let mut registry = HookRegistry::new();
    assert_eq!(hook.begin_start(&mut registry, 1), Ok(StartAction::Install));
    assert_eq!(hook.begin_start(&mut registry, 1), Err(RegisterError::AlreadyRunning));
    assert_eq!(hook.phase(), HookPhase::Starting);
}

#[test]
fn registry_tickets_guard_retract() {
    let mut registry = HookRegistry::new();
    assert_eq!(registry.publish(10), Ok(0));
    assert_eq!(registry.publish(11), Err(RegisterError::AlreadyRunning));
    assert!(!registry.retract(5));
    assert_eq!(registry.current(), Some(&10));
    assert!(registry.retract(0));
    assert!(!registry.retract(0));
    assert_eq!(registry.current(), None);
    assert_eq!(registry.publish(12), Ok(1));
}

#[test]
fn registered_keys_survive_a_restart() {
    let mut hook = KeyboardHook::new();
    let mut registry = HookRegistry::new();
    hook.register_key(7);
    start(&mut hook, &mut registry, 1, true).unwrap();
    stop(&mut hook, &mut registry);
    assert!(hook.watches(7));
    assert!(!hook.watches(8));
}

#[test]
fn install_report_outside_starting_changes_nothing() {
    let mut hook = KeyboardHook::new();
    let mut registry: HookRegistry<u32> = HookRegistry::new();
    assert_eq!(hook.finish_start(&mut registry, true), Err(RegisterError::HookFailed));
    assert_eq!(hook.phase(), HookPhase::Idle);
    start(&mut hook, &mut registry, 4, true).unwrap();
    assert_eq!(hook.finish_start(&mut registry, false), Ok(()));
    assert!(hook.is_running());
    assert_eq!(registry.current(), Some(&4));
}
