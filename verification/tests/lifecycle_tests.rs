use agentropic_runtime::lifecycle::{action, step, LifecycleAction, LifecycleEvent, LifecyclePhase};

fn run(events: &[LifecycleEvent]) -> Vec<LifecyclePhase> {
    let mut phase = LifecyclePhase::Initializing;
    let mut trace = vec![phase];
    for e in events {
        phase = step(phase, *e);
        trace.push(phase);
    }
    trace
}

#[test]
fn failed_initialize_finishes_without_shutdown() {
    let trace = run(&[LifecycleEvent::InitializeFailed]);
    assert_eq!(trace, vec![LifecyclePhase::Initializing, LifecyclePhase::Finished]);
    assert_eq!(action(LifecyclePhase::Finished), LifecycleAction::Exit);
}

#[test]
fn executions_keep_running_until_signal() {
    let trace = run(&[
        LifecycleEvent::Initialized,
        LifecycleEvent::Executed,
        LifecycleEvent::ShutdownSignal(false),
        LifecycleEvent::Executed,
        LifecycleEvent::ShutdownSignal(true),
        LifecycleEvent::ShutdownReturned,
    ]);
    assert_eq!(
        trace,
        vec![
            LifecyclePhase::Initializing,
            LifecyclePhase::Running,
            LifecyclePhase::Running,
            LifecyclePhase::Running,
            LifecyclePhase::Running,
            LifecyclePhase::ShuttingDown,
            LifecyclePhase::Finished,
        ]
    );
}

#[test]
fn execute_error_and_dropped_sender_lead_to_shutdown() {
    assert_eq!(
        step(LifecyclePhase::Running, LifecycleEvent::ExecuteFailed),
        LifecyclePhase::ShuttingDown
    );
    assert_eq!(
        step(LifecyclePhase::Running, LifecycleEvent::ShutdownSenderDropped),
        LifecyclePhase::ShuttingDown
    );
}

#[test]
fn actions_follow_phases() {
    assert_eq!(action(LifecyclePhase::Initializing), LifecycleAction::Initialize);
    assert_eq!(action(LifecyclePhase::Running), LifecycleAction::RunCycle);
    assert_eq!(action(LifecyclePhase::ShuttingDown), LifecycleAction::Shutdown);
    assert_eq!(action(LifecyclePhase::Finished), LifecycleAction::Exit);
}

#[test]
fn finished_stays_finished_and_stray_events_are_ignored() {
    assert_eq!(
        step(LifecyclePhase::Finished, LifecycleEvent::Initialized),
        LifecyclePhase::Finished
    );
    assert_eq!(
        step(LifecyclePhase::Initializing, LifecycleEvent::Executed),
        LifecyclePhase::Initializing
    );
    assert_eq!(
        step(LifecyclePhase::ShuttingDown, LifecycleEvent::ShutdownSignal(true)),
        LifecyclePhase::ShuttingDown
    );
}
