//! The liveness loop of a service and its way out: ticks keep the
//! registration alive until a termination signal arrives, then the service
//! unregisters once and stops.

use vstd::prelude::*;

verus! {

/// Where a service stands between start and exit.
#[derive(Clone, Copy, Debug, PartialEq, Eq, Structural)]
pub enum Phase {
    /// Ticks are served.
    Running,
    /// A signal arrived: no tick is served, the unregister call is under way.
    Draining,
    /// The unregister call ended: the process may exit.
    Stopped,
}

/// The termination signals that a service reacts to.
#[derive(Clone, Copy, Debug, PartialEq, Eq, Structural)]
pub enum Signal {
    Interrupt,
    Terminate,
}

/// What the loop is woken by.
#[derive(Clone, Copy, Debug, PartialEq, Eq, Structural)]
pub enum LoopEvent {
    /// The liveness timer fired.
    Tick,
    /// A termination signal arrived.
    Signal(Signal),
    /// The withdrawal ended: the unregister call came back, well or badly,
    /// or there was nothing to withdraw.
    UnregisterDone,
}

/// What the loop does next.
#[derive(Clone, Copy, Debug, PartialEq, Eq, Structural)]
pub enum LoopAction {
    /// Ask the session to ensure that the service is registered.
    EnsureRegistered,
    /// Stop the timer and unregister.
    Unregister,
    /// Nothing.
    Wait,
    /// Leave the loop.
    Exit,
}

/// The phase that follows `phase` on `event`.
pub open spec fn next_phase(phase: Phase, event: LoopEvent) -> Phase {
    match (phase, event) {
        (Phase::Running, LoopEvent::Signal(_)) => Phase::Draining,
        (Phase::Draining, LoopEvent::UnregisterDone) => Phase::Stopped,
        _ => phase,
    }
}

/// What the loop does on `event` in `phase`.
pub open spec fn action_for(phase: Phase, event: LoopEvent) -> LoopAction {
    match (phase, event) {
        (Phase::Running, LoopEvent::Tick) => LoopAction::EnsureRegistered,
        (Phase::Running, LoopEvent::Signal(_)) => LoopAction::Unregister,
        (Phase::Draining, LoopEvent::UnregisterDone) => LoopAction::Exit,
        (Phase::Stopped, _) => LoopAction::Exit,
        _ => LoopAction::Wait,
    }
}

/// The phase reached from `phase` after a run of events.
pub open spec fn phase_after(phase: Phase, events: Seq<LoopEvent>) -> Phase
    decreases events.len(),
{
    if events.len() == 0 {
        phase
    } else {
        next_phase(phase_after(phase, events.drop_last()), events.last())
    }
}

/// How often a run of events, served from `phase`, asks for the unregister
/// call.
pub open spec fn unregister_count(phase: Phase, events: Seq<LoopEvent>) -> nat
    decreases events.len(),
{
    if events.len() == 0 {
        0
    } else {
        let earlier = events.drop_last();
        let asked: nat = if action_for(phase_after(phase, earlier), events.last())
            == LoopAction::Unregister {
            1
        } else {
            0
        };
        unregister_count(phase, earlier) + asked
    }
}

/// Drives a service from start to exit.
#[derive(Clone, Copy, Debug)]
pub struct ShutdownCoordinator {
    phase: Phase,
}

impl ShutdownCoordinator {
    /// The phase that the coordinator is in.
    pub closed spec fn spec_phase(&self) -> Phase {
        self.phase
    }

    /// A coordinator of a service that runs.
    pub fn new() -> (coordinator: Self)
        ensures
            coordinator.spec_phase() == Phase::Running,
    {
        ShutdownCoordinator { phase: Phase::Running }
    }

    /// The current phase.
    pub fn phase(&self) -> (phase: Phase)
        ensures
            phase == self.spec_phase(),
    {
        self.phase
    }

    /// Whether ticks are still served.
    pub fn is_running(&self) -> (running: bool)
        ensures
            running == (self.spec_phase() == Phase::Running),
    {
        match self.phase {
            Phase::Running => true,
            _ => false,
        }
    }

    /// Serves one event: moves to the phase that follows and says what to
    /// do. The first signal asks for the unregister call; nothing else ever
    /// does.
    pub fn on_event(&mut self, event: LoopEvent) -> (action: LoopAction)
        ensures
            final(self).spec_phase() == next_phase(old(self).spec_phase(), event),
            action == action_for(old(self).spec_phase(), event),
    {
        match (self.phase, event) {
            (Phase::Running, LoopEvent::Tick) => LoopAction::EnsureRegistered,
            (Phase::Running, LoopEvent::Signal(_)) => {
                self.phase = Phase::Draining;
                LoopAction::Unregister
            },
            (Phase::Draining, LoopEvent::UnregisterDone) => {
                self.phase = Phase::Stopped;
                LoopAction::Exit
            },
            (Phase::Stopped, _) => LoopAction::Exit,
            _ => LoopAction::Wait,
        }
    }
}

/// Whatever events arrive and in whatever order, the unregister call is asked
/// for at most once, and never once the service has left the running phase.
pub proof fn lemma_unregister_at_most_once(phase: Phase, events: Seq<LoopEvent>)
    ensures
        unregister_count(phase, events) <= 1,
        phase != Phase::Running ==> unregister_count(phase, events) == 0,
        phase != Phase::Running ==> phase_after(phase, events) != Phase::Running,
        unregister_count(phase, events) == 1 ==> phase_after(phase, events) != Phase::Running,
        phase == Phase::Running && unregister_count(phase, events) == 0 ==> phase_after(
            phase,
            events,
        ) == Phase::Running,
    decreases events.len(),
{
    if events.len() > 0 {
        lemma_unregister_at_most_once(phase, events.drop_last());
    }
}

/// A signal followed by the end of the unregister call stops the service,
/// whether the call succeeded or not and whatever ticks or further signals
/// arrive in between.
pub proof fn lemma_signal_leads_to_stop(signal: Signal, between: Seq<LoopEvent>)
    requires
        forall|i: int| 0 <= i < between.len() ==> between[i] != LoopEvent::UnregisterDone,
    ensures
        next_phase(Phase::Running, LoopEvent::Signal(signal)) == Phase::Draining,
        phase_after(Phase::Draining, between) == Phase::Draining,
        next_phase(phase_after(Phase::Draining, between), LoopEvent::UnregisterDone)
            == Phase::Stopped,
    decreases between.len(),
{
    if between.len() > 0 {
        let earlier = between.drop_last();
        assert forall|i: int| 0 <= i < earlier.len() implies earlier[i]
            != LoopEvent::UnregisterDone by {
            assert(earlier[i] == between[i]);
        }
        lemma_signal_leads_to_stop(signal, earlier);
    }
}

/// No tick is served once a signal has arrived: the session is asked to
/// ensure registration only while the service runs.
pub proof fn lemma_ticks_only_while_running(phase: Phase, event: LoopEvent)
    ensures
        action_for(phase, event) == LoopAction::EnsureRegistered <==> phase == Phase::Running
            && event == LoopEvent::Tick,
        action_for(phase, event) == LoopAction::Unregister <==> phase == Phase::Running
            && event is Signal,
{
}

} // verus!
