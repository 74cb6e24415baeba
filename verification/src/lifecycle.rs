use vstd::prelude::*;

verus! {

/// Where an agent's task stands in its life: initializing, running its
/// execute loop, shutting down, or finished.
#[derive(Clone, Copy, Debug, PartialEq, Eq, Structural)]
pub enum LifecyclePhase {
    Initializing,
    Running,
    ShuttingDown,
    Finished,
}

/// What the agent's task reports back from the work it was asked to do.
#[derive(Clone, Copy, Debug, PartialEq, Eq, Structural)]
pub enum LifecycleEvent {
    /// The agent's `initialize` succeeded.
    Initialized,
    /// The agent's `initialize` failed.
    InitializeFailed,
    /// The shutdown signal changed; the flag is its new value.
    ShutdownSignal(bool),
    /// The sender of the shutdown signal is gone.
    ShutdownSenderDropped,
    /// One `execute` call succeeded.
    Executed,
    /// One `execute` call failed.
    ExecuteFailed,
    /// The agent's `shutdown` returned, successfully or not.
    ShutdownReturned,
}

/// The work the agent's task is to do next.
#[derive(Clone, Copy, Debug, PartialEq, Eq, Structural)]
pub enum LifecycleAction {
    /// Call the agent's `initialize`.
    Initialize,
    /// Wait for whichever comes first: a change of the shutdown signal, or
    /// the end of one `execute` call.
    RunCycle,
    /// Call the agent's `shutdown`.
    Shutdown,
    /// Leave the task.
    Exit,
}

/// The phase after `event` arrives in `phase`. Events that the work of
/// `phase` cannot produce leave the phase as it is.
pub open spec fn next_phase(phase: LifecyclePhase, event: LifecycleEvent) -> LifecyclePhase {
    match (phase, event) {
        (LifecyclePhase::Initializing, LifecycleEvent::Initialized) => LifecyclePhase::Running,
        (LifecyclePhase::Initializing, LifecycleEvent::InitializeFailed) => LifecyclePhase::Finished,
        (LifecyclePhase::Running, LifecycleEvent::ShutdownSignal(true)) => LifecyclePhase::ShuttingDown,
        (LifecyclePhase::Running, LifecycleEvent::ShutdownSignal(false)) => LifecyclePhase::Running,
        (LifecyclePhase::Running, LifecycleEvent::ShutdownSenderDropped) => LifecyclePhase::ShuttingDown,
        (LifecyclePhase::Running, LifecycleEvent::Executed) => LifecyclePhase::Running,
        (LifecyclePhase::Running, LifecycleEvent::ExecuteFailed) => LifecyclePhase::ShuttingDown,
        (LifecyclePhase::ShuttingDown, LifecycleEvent::ShutdownReturned) => LifecyclePhase::Finished,
        _ => phase,
    }
}

/// The work that each phase asks for.
pub open spec fn phase_action(phase: LifecyclePhase) -> LifecycleAction {
    match phase {
        LifecyclePhase::Initializing => LifecycleAction::Initialize,
        LifecyclePhase::Running => LifecycleAction::RunCycle,
        LifecyclePhase::ShuttingDown => LifecycleAction::Shutdown,
        LifecyclePhase::Finished => LifecycleAction::Exit,
    }
}

/// Whether the work of `phase` can produce `event`.
pub open spec fn event_fits(phase: LifecyclePhase, event: LifecycleEvent) -> bool {
    match phase {
        LifecyclePhase::Initializing => event is Initialized || event is InitializeFailed,
        LifecyclePhase::Running => event is ShutdownSignal || event is ShutdownSenderDropped
            || event is Executed || event is ExecuteFailed,
        LifecyclePhase::ShuttingDown => event is ShutdownReturned,
        LifecyclePhase::Finished => false,
    }
}

/// The phases an agent's task passes through from `phase` as `events` arrive
/// one after another, starting with `phase` itself.
pub open spec fn phase_trace(phase: LifecyclePhase, events: Seq<LifecycleEvent>) -> Seq<LifecyclePhase>
    decreases events.len(),
{
    if events.len() == 0 {
        seq![phase]
    } else {
        seq![phase] + phase_trace(next_phase(phase, events[0]), events.drop_first())
    }
}

/// Every event fits the phase it arrives in.
pub open spec fn trace_fits(phase: LifecyclePhase, events: Seq<LifecycleEvent>) -> bool
    decreases events.len(),
{
    if events.len() == 0 {
        true
    } else {
        event_fits(phase, events[0]) && trace_fits(next_phase(phase, events[0]), events.drop_first())
    }
}

/// How many phases of `t` are `ShuttingDown`.
pub open spec fn shutdown_count(t: Seq<LifecyclePhase>) -> nat
    decreases t.len(),
{
    if t.len() == 0 {
        0
    } else {
        (if t[0] == LifecyclePhase::ShuttingDown { 1nat } else { 0nat }) + shutdown_count(t.drop_first())
    }
}

/// The phase after `event` arrives in `phase`.
pub fn step(phase: LifecyclePhase, event: LifecycleEvent) -> (p: LifecyclePhase)
    ensures
        p == next_phase(phase, event),
{
    match (phase, event) {
        (LifecyclePhase::Initializing, LifecycleEvent::Initialized) => LifecyclePhase::Running,
        (LifecyclePhase::Initializing, LifecycleEvent::InitializeFailed) => LifecyclePhase::Finished,
        (LifecyclePhase::Running, LifecycleEvent::ShutdownSignal(stop)) => {
            if stop {
                LifecyclePhase::ShuttingDown
            } else {
                LifecyclePhase::Running
            }
        },
        (LifecyclePhase::Running, LifecycleEvent::ShutdownSenderDropped) => LifecyclePhase::ShuttingDown,
        (LifecyclePhase::Running, LifecycleEvent::Executed) => LifecyclePhase::Running,
        (LifecyclePhase::Running, LifecycleEvent::ExecuteFailed) => LifecyclePhase::ShuttingDown,
        (LifecyclePhase::ShuttingDown, LifecycleEvent::ShutdownReturned) => LifecyclePhase::Finished,
        _ => phase,
    }
}

/// The work that `phase` asks for.
pub fn action(phase: LifecyclePhase) -> (a: LifecycleAction)
    ensures
        a == phase_action(phase),
{
    match phase {
        LifecyclePhase::Initializing => LifecycleAction::Initialize,
        LifecyclePhase::Running => LifecycleAction::RunCycle,
        LifecyclePhase::ShuttingDown => LifecycleAction::Shutdown,
        LifecyclePhase::Finished => LifecycleAction::Exit,
    }
}

/// A finished task stays finished, whatever arrives.
pub proof fn law_finished_is_final(events: Seq<LifecycleEvent>)
    ensures
        forall|k: int|
            0 <= k < phase_trace(LifecyclePhase::Finished, events).len() ==> #[trigger] phase_trace(
                LifecyclePhase::Finished,
                events,
            )[k] == LifecyclePhase::Finished,
    decreases events.len(),
{
    if events.len() > 0 {
        law_finished_is_final(events.drop_first());
        let rest = phase_trace(LifecyclePhase::Finished, events.drop_first());
        assert forall|k: int|
            0 <= k < phase_trace(LifecyclePhase::Finished, events).len() implies #[trigger] phase_trace(
                LifecyclePhase::Finished,
                events,
            )[k] == LifecyclePhase::Finished by {
            if k > 0 {
                assert(phase_trace(LifecyclePhase::Finished, events)[k] == rest[k - 1]);
            }
        }
    }
}

/// A failed initialization ends the task at once, without calling the
/// agent's `shutdown`.
pub proof fn law_failed_initialize_skips_shutdown()
    ensures
        next_phase(LifecyclePhase::Initializing, LifecycleEvent::InitializeFailed)
            == LifecyclePhase::Finished,
        phase_action(next_phase(LifecyclePhase::Initializing, LifecycleEvent::InitializeFailed))
            == LifecycleAction::Exit,
{
}

/// The execute loop goes on exactly while executions succeed and the
/// shutdown signal stays false: a true signal, a dropped sender or a failed
/// execution each lead to `shutdown`.
pub proof fn law_running_continues_until_stopped(event: LifecycleEvent)
    requires
        event_fits(LifecyclePhase::Running, event),
    ensures
        next_phase(LifecyclePhase::Running, event) == LifecyclePhase::Running <==> (event
            == LifecycleEvent::Executed || event == LifecycleEvent::ShutdownSignal(false)),
        next_phase(LifecyclePhase::Running, event) != LifecyclePhase::Running ==> next_phase(
            LifecyclePhase::Running,
            event,
        ) == LifecyclePhase::ShuttingDown,
{
}

/// From the phases after `ShuttingDown` no `ShuttingDown` follows, and from
/// any phase at most one does, when every event fits its phase.
proof fn lemma_shutdown_at_most_once(phase: LifecyclePhase, events: Seq<LifecycleEvent>)
    requires
        trace_fits(phase, events),
    ensures
        shutdown_count(phase_trace(phase, events)) <= 1,
        phase == LifecyclePhase::Finished ==> shutdown_count(phase_trace(phase, events)) == 0,
    decreases events.len(),
{
    let t = phase_trace(phase, events);
    if events.len() == 0 {
        assert(t.drop_first() =~= Seq::<LifecyclePhase>::empty());
        assert(shutdown_count(t.drop_first()) == 0);
    } else {
        let next = next_phase(phase, events[0]);
        lemma_shutdown_at_most_once(next, events.drop_first());
        assert(t.drop_first() =~= phase_trace(next, events.drop_first()));
        if phase == LifecyclePhase::ShuttingDown {
            assert(next == LifecyclePhase::Finished);
        }
    }
}

/// Over any run whose events fit their phases, the agent's `shutdown` is
/// asked for at most once.
pub proof fn law_shutdown_at_most_once(events: Seq<LifecycleEvent>)
    requires
        trace_fits(LifecyclePhase::Initializing, events),
    ensures
        shutdown_count(phase_trace(LifecyclePhase::Initializing, events)) <= 1,
{
    lemma_shutdown_at_most_once(LifecyclePhase::Initializing, events);
}

/// From `Initializing`, the trace reaches `ShuttingDown` only after an
/// `Initialized` event.
proof fn lemma_shutdown_needs_initialized(phase: LifecyclePhase, events: Seq<LifecycleEvent>)
    requires
        phase == LifecyclePhase::Initializing || phase == LifecyclePhase::Finished,
        phase_trace(phase, events).contains(LifecyclePhase::ShuttingDown),
    ensures
        events.contains(LifecycleEvent::Initialized),
    decreases events.len(),
{
    let t = phase_trace(phase, events);
    let k = choose|k: int| 0 <= k < t.len() && t[k] == LifecyclePhase::ShuttingDown;
    if events.len() == 0 {
        assert(t[k] == phase);
    } else {
        let next = next_phase(phase, events[0]);
        if events[0] == LifecycleEvent::Initialized && phase == LifecyclePhase::Initializing {
            assert(events[0] == LifecycleEvent::Initialized);
        } else {
            assert(next == LifecyclePhase::Initializing || next == LifecyclePhase::Finished);
            assert(k > 0);
            let rest = phase_trace(next, events.drop_first());
            assert(rest[k - 1] == LifecyclePhase::ShuttingDown);
            lemma_shutdown_needs_initialized(next, events.drop_first());
            let j = choose|j: int|
                0 <= j < events.drop_first().len() && events.drop_first()[j]
                    == LifecycleEvent::Initialized;
            assert(events[j + 1] == LifecycleEvent::Initialized);
        }
    }
}

/// The agent's `shutdown` is asked for only in a run in which its
/// `initialize` succeeded.
pub proof fn law_shutdown_only_after_initialized(events: Seq<LifecycleEvent>)
    requires
        phase_trace(LifecyclePhase::Initializing, events).contains(LifecyclePhase::ShuttingDown),
    ensures
        events.contains(LifecycleEvent::Initialized),
{
    lemma_shutdown_needs_initialized(LifecyclePhase::Initializing, events);
}

/// From the execute loop or from shutting down, a run whose events fit their
/// phases and that ends finished has passed through `ShuttingDown`.
proof fn lemma_finish_passes_shutdown(phase: LifecyclePhase, events: Seq<LifecycleEvent>)
    requires
        phase == LifecyclePhase::Running || phase == LifecyclePhase::ShuttingDown,
        trace_fits(phase, events),
        phase_trace(phase, events).last() == LifecyclePhase::Finished,
    ensures
        phase_trace(phase, events).contains(LifecyclePhase::ShuttingDown),
    decreases events.len(),
{
    let t = phase_trace(phase, events);
    if phase == LifecyclePhase::ShuttingDown {
        assert(t[0] == LifecyclePhase::ShuttingDown);
    } else {
        assert(events.len() > 0);
        let next = next_phase(phase, events[0]);
        let rest = phase_trace(next, events.drop_first());
        assert(t == seq![phase] + rest);
        assert(rest.len() > 0);
        assert(rest.last() == t.last());
        lemma_finish_passes_shutdown(next, events.drop_first());
        let k = choose|k: int| 0 <= k < rest.len() && rest[k] == LifecyclePhase::ShuttingDown;
        assert(t[k + 1] == LifecyclePhase::ShuttingDown);
    }
}

/// An agent whose `initialize` succeeded has its `shutdown` called before
/// its task finishes, in any run whose events fit their phases.
pub proof fn law_initialized_agent_is_shut_down(events: Seq<LifecycleEvent>)
    requires
        trace_fits(LifecyclePhase::Initializing, events),
        events.contains(LifecycleEvent::Initialized),
        phase_trace(LifecyclePhase::Initializing, events).last() == LifecyclePhase::Finished,
    ensures
        phase_trace(LifecyclePhase::Initializing, events).contains(LifecyclePhase::ShuttingDown),
{
    let t = phase_trace(LifecyclePhase::Initializing, events);
    assert(events.len() > 0);
    let e0 = events[0];
    let next = next_phase(LifecyclePhase::Initializing, e0);
    let rest = phase_trace(next, events.drop_first());
    assert(t == seq![LifecyclePhase::Initializing] + rest);
    if e0 == LifecycleEvent::InitializeFailed {
        assert(next == LifecyclePhase::Finished);
        assert(trace_fits(next, events.drop_first()));
        if events.drop_first().len() > 0 {
            assert(!event_fits(LifecyclePhase::Finished, events.drop_first()[0]));
        }
        assert(events.len() == 1);
        let j = choose|j: int| 0 <= j < events.len() && events[j] == LifecycleEvent::Initialized;
        assert(j == 0);
    } else {
        assert(e0 == LifecycleEvent::Initialized);
        assert(next == LifecyclePhase::Running);
        assert(rest.last() == t.last());
        lemma_finish_passes_shutdown(next, events.drop_first());
        let k = choose|k: int| 0 <= k < rest.len() && rest[k] == LifecyclePhase::ShuttingDown;
        assert(t[k + 1] == LifecyclePhase::ShuttingDown);
    }
}

} // verus!
