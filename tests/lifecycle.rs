use gnome_voice_input::lifecycle::{
    LifecycleAction, LifecycleEvent, Orchestrator, Phase, Teardown, TeardownStatus, TEARDOWN_TIMEOUT_MS,
};
use gnome_voice_input::reload::{triggers_reload, DebounceEvent, FsChange, ReloadDebouncer, DEBOUNCE_WINDOW_MS};

#[test]
fn hung_component_is_abandoned_at_deadline() {
    let mut t = Teardown::new(1000, TEARDOWN_TIMEOUT_MS, 3);
    t.mark_finished(0);
    t.mark_finished(2);
    assert!(matches!(t.poll(1000), TeardownStatus::Waiting));
    assert!(matches!(t.poll(3999), TeardownStatus::Waiting));
    match t.poll(4000) {
        TeardownStatus::TimedOut { abandoned } => assert_eq!(abandoned, vec![1]),
        _ => panic!("teardown must give up at its deadline"),
    }
}

#[test]
fn graceful_teardown() {
    let mut t = Teardown::new(0, TEARDOWN_TIMEOUT_MS, 2);
    t.mark_finished(1);
    t.mark_finished(0);
    assert!(matches!(t.poll(5), TeardownStatus::Graceful));
    assert!(matches!(Teardown::new(0, 10, 0).poll(0), TeardownStatus::Graceful));
}

#[test]
fn deadline_saturates() {
    let t = Teardown::new(u64::MAX - 1, 3000, 1);
    assert_eq!(t.deadline_ms, u64::MAX);
}

fn live() -> Orchestrator {
    let mut o = Orchestrator::new();
    assert_eq!(o.step(LifecycleEvent::Start), LifecycleAction::StartComponents { generation: 0 });
    assert_eq!(o.step(LifecycleEvent::Started), LifecycleAction::Nothing);
    assert_eq!(o.phase, Phase::Live);
    o
}

#[test]
fn process_cancel_reaches_live_set() {
    let mut o = live();
    assert!(!o.is_set_cancelled());
    assert_eq!(o.step(LifecycleEvent::Shutdown), LifecycleAction::TearDown { generation: 0 });
    assert!(o.is_set_cancelled());
    assert!(o.process_cancelled);
    assert_eq!(o.step(LifecycleEvent::TornDown), LifecycleAction::Exit);
    assert_eq!(o.phase, Phase::ShutDown);
}

#[test]
fn reload_tears_down_then_starts_next_generation() {
    let mut o = live();
    assert_eq!(o.step(LifecycleEvent::ReloadRequested), LifecycleAction::TearDown { generation: 0 });
    assert!(o.is_set_cancelled());
    assert!(!o.process_cancelled);
    assert_eq!(o.step(LifecycleEvent::TornDown), LifecycleAction::StartComponents { generation: 1 });
    assert!(!o.is_set_cancelled());
    assert_eq!(o.step(LifecycleEvent::Started), LifecycleAction::Nothing);
    assert_eq!(o.phase, Phase::Live);
}

#[test]
fn second_reload_is_queued_not_run() {
    let mut o = live();
    o.step(LifecycleEvent::ReloadRequested);
    assert_eq!(o.step(LifecycleEvent::ReloadRequested), LifecycleAction::Nothing);
    assert_eq!(o.step(LifecycleEvent::ReloadRequested), LifecycleAction::Nothing);
    assert_eq!(o.step(LifecycleEvent::TornDown), LifecycleAction::StartComponents { generation: 1 });
    assert_eq!(o.step(LifecycleEvent::ReloadRequested), LifecycleAction::Nothing);
    assert_eq!(o.step(LifecycleEvent::Started), LifecycleAction::TearDown { generation: 1 });
}

#[test]
fn failed_start_leaves_nothing_running() {
    let mut o = live();
    o.step(LifecycleEvent::ReloadRequested);
    o.step(LifecycleEvent::TornDown);
    assert_eq!(o.step(LifecycleEvent::StartFailed), LifecycleAction::ReportFailure);
    assert_eq!(o.phase, Phase::Failed);
    assert_eq!(o.step(LifecycleEvent::ReloadRequested), LifecycleAction::Nothing);
    assert_eq!(o.step(LifecycleEvent::Shutdown), LifecycleAction::Exit);
}

#[test]
fn five_triggers_in_one_window_reload_once() {
    let mut d = ReloadDebouncer::new(DEBOUNCE_WINDOW_MS);
    let mut reloads = 0;
    for t in [1000u64, 1050, 1100, 1300, 1499] {
        if d.step(DebounceEvent::Trigger(t)) {
            reloads += 1;
        }
        if d.step(DebounceEvent::Tick(t)) {
            reloads += 1;
        }
    }
    assert_eq!(reloads, 0);
    assert_eq!(d.due_at(), Some(1500));
    assert!(d.step(DebounceEvent::Tick(1500)));
    assert!(!d.step(DebounceEvent::Tick(1600)));
    assert_eq!(d.due_at(), None);
}

#[test]
fn trigger_after_window_opens_a_new_one() {
    let mut d = ReloadDebouncer::new(500);
    d.step(DebounceEvent::Trigger(0));
    assert!(d.step(DebounceEvent::Tick(700)));
    d.step(DebounceEvent::Trigger(800));
    assert!(!d.step(DebounceEvent::Tick(1299)));
    assert!(d.step(DebounceEvent::Tick(1300)));
}

#[test]
fn only_changes_to_the_file_trigger() {
    assert!(triggers_reload(FsChange::Modify, true));
    assert!(triggers_reload(FsChange::Create, true));
    assert!(!triggers_reload(FsChange::Other, true));
    assert!(!triggers_reload(FsChange::Modify, false));
}
