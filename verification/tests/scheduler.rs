use sketchybar_daemon::events::render_pass;
use sketchybar_daemon::events::EventManager;
use sketchybar_daemon::events::Phase;
use sketchybar_daemon::events::RefreshTask;
use sketchybar_daemon::events::SchedulerAction;
use sketchybar_daemon::events::SchedulerEvent;
use sketchybar_daemon::events::TaskAction;
use sketchybar_daemon::events::TaskKind;
use sketchybar_daemon::events::WaitEvent;
use sketchybar_daemon::events::MAX_INTERVAL_SECS;
use sketchybar_daemon::name_map::NameMap;
use sketchybar_daemon::sketchybar::SketchyBar;

fn all_kinds() -> Vec<TaskKind> {
    vec![
        TaskKind::StateSync,
        TaskKind::Clock,
        TaskKind::Battery,
        TaskKind::Keyboard,
        TaskKind::Space,
        TaskKind::App,
        TaskKind::Window,
    ]
}

#[test]
fn task_intervals() {
    assert_eq!(TaskKind::StateSync.interval_secs(), 2);
    assert_eq!(TaskKind::Clock.interval_secs(), 1);
    assert_eq!(TaskKind::Battery.interval_secs(), 30);
    assert_eq!(TaskKind::Keyboard.interval_secs(), 5);
    assert_eq!(TaskKind::Space.interval_secs(), 1);
    assert_eq!(TaskKind::App.interval_secs(), 1);
    assert_eq!(TaskKind::Window.interval_secs(), 1);
    assert_eq!(MAX_INTERVAL_SECS, 30);
    for kind in all_kinds() {
        assert!(kind.interval_secs() >= 1 && kind.interval_secs() <= MAX_INTERVAL_SECS);
    }
}

#[test]
fn snapshot_readers() {
    assert!(!TaskKind::StateSync.reads_snapshot());
    assert!(!TaskKind::Clock.reads_snapshot());
    assert!(!TaskKind::Battery.reads_snapshot());
    assert!(!TaskKind::Keyboard.reads_snapshot());
    assert!(TaskKind::Space.reads_snapshot());
    assert!(TaskKind::App.reads_snapshot());
    assert!(TaskKind::Window.reads_snapshot());
}

#[test]
fn a_task_runs_once_per_tick_until_shutdown() {
    let mut task = RefreshTask::new(TaskKind::Clock);
    assert_eq!(task.kind(), TaskKind::Clock);
    assert!(!task.is_stopped());
    for _ in 0..3 {
        assert_eq!(task.on_event(WaitEvent::Tick), TaskAction::RunUnit);
        task.record(true);
    }
    assert_eq!(task.runs(), 3);
    assert_eq!(task.failures(), 0);
    assert_eq!(task.on_event(WaitEvent::Shutdown), TaskAction::Exit);
    assert!(task.is_stopped());
    assert_eq!(task.on_event(WaitEvent::Tick), TaskAction::Exit);
    assert_eq!(task.on_event(WaitEvent::Shutdown), TaskAction::Exit);
    assert_eq!(task.runs(), 3);
}

#[test]
fn a_failed_unit_does_not_stop_its_task() {
    let mut task = RefreshTask::new(TaskKind::Battery);
    assert_eq!(task.on_event(WaitEvent::Tick), TaskAction::RunUnit);
    task.record(false);
    assert!(!task.is_stopped());
    assert_eq!(task.on_event(WaitEvent::Tick), TaskAction::RunUnit);
    task.record(false);
    assert_eq!(task.on_event(WaitEvent::Tick), TaskAction::RunUnit);
    task.record(true);
    assert_eq!(task.runs(), 3);
    assert_eq!(task.failures(), 2);
}

#[test]
fn shutdown_completeness() {
    let mut manager = EventManager::new();
    let mut tasks = manager.start_event_loops();
    for task in tasks.iter_mut() {
        assert_eq!(task.on_event(WaitEvent::Tick), TaskAction::RunUnit);
        task.record(true);
    }
    assert_eq!(manager.on_event(SchedulerEvent::ShutdownSignal), SchedulerAction::Finish);
    for task in tasks.iter_mut() {
        assert_eq!(task.on_event(WaitEvent::Shutdown), TaskAction::Exit);
        assert!(task.is_stopped());
        assert_eq!(task.runs(), 1);
    }
    assert_eq!(manager.phase(), Phase::Finished);
}

#[test]
fn the_scheduler_starts_every_task_once() {
    let mut manager = EventManager::new();
    assert_eq!(manager.phase(), Phase::Idle);
    let tasks = manager.start_event_loops();
    assert_eq!(manager.phase(), Phase::Running);
    let kinds: Vec<TaskKind> = tasks.iter().map(|t| t.kind()).collect();
    assert_eq!(kinds, all_kinds());
    for task in &tasks {
        assert!(!task.is_stopped());
        assert_eq!(task.runs(), 0);
        assert_eq!(task.failures(), 0);
    }
    assert!(manager.start_event_loops().is_empty());
    assert_eq!(manager.phase(), Phase::Running);
}

#[test]
fn an_idle_scheduler_ignores_events() {
    let mut manager = EventManager::new();
    assert_eq!(manager.on_event(SchedulerEvent::ShutdownSignal), SchedulerAction::Ignore);
    assert_eq!(manager.phase(), Phase::Idle);
    assert_eq!(manager.start_event_loops().len(), 7);
}

#[test]
fn a_lost_task_ends_the_scheduler() {
    let mut manager = EventManager::new();
    let _ = manager.start_event_loops();
    assert_eq!(
        manager.on_event(SchedulerEvent::TaskExited(TaskKind::Keyboard)),
        SchedulerAction::FinishAfterLoss(TaskKind::Keyboard)
    );
    assert_eq!(manager.phase(), Phase::Finished);
}

#[test]
fn shutdown_is_idempotent() {
    let mut manager = EventManager::new();
    let _ = manager.start_event_loops();
    assert_eq!(manager.on_event(SchedulerEvent::ShutdownSignal), SchedulerAction::Finish);
    assert_eq!(manager.on_event(SchedulerEvent::ShutdownSignal), SchedulerAction::Ignore);
    assert_eq!(manager.on_event(SchedulerEvent::TaskExited(TaskKind::Clock)), SchedulerAction::Ignore);
    assert_eq!(manager.phase(), Phase::Finished);
    assert!(manager.start_event_loops().is_empty());
}

#[test]
fn a_render_pass_reaches_every_target() {
    let mut bars: NameMap<SketchyBar> = NameMap::new();
    let mut second = SketchyBar::new();
    second.set_bar_name("external_2");
    bars.insert("1".to_string(), SketchyBar::new());
    bars.insert("2".to_string(), second);
    let commands = vec!["--set clock label=now".to_string(), "--update".to_string()];
    let dispatches = render_pass(&bars, &commands);
    let seen: Vec<(&str, &str)> =
        dispatches.iter().map(|d| (d.bar_name.as_str(), d.command.as_str())).collect();
    assert_eq!(
        seen,
        vec![
            ("sketchybar", "--set clock label=now"),
            ("sketchybar", "--update"),
            ("external_2", "--set clock label=now"),
            ("external_2", "--update"),
        ]
    );
    assert!(render_pass(&bars, &vec![]).is_empty());
    assert!(render_pass(&NameMap::new(), &commands).is_empty());
}
