//! The liveness loop of a service: the registration session driven by a
//! timer, and the way out of it. The loop is told of ticks, of signals and
//! of the end of each call, and answers with the next call to make.
//!
//! A signal ends the ticking at once. The loop then waits for the call that
//! is under way, if there is one, withdraws the registration with one
//! unregister call, if there is an identity to withdraw, and stops.

use vstd::prelude::*;
use crate::lifecycle::{LoopAction, LoopEvent, Phase, ShutdownCoordinator, Signal};
use crate::messages::{
    ActivityReport, ActivityRequest, CallReply, Endpoint, HeartbeatRequest, RegisterReply,
    RegisterRequest, TopologyProxyConfig, TopologyProxyError, UnregisterRequest,
};
use crate::proxy_client::{
    RegistrationStep, SessionEvent, SessionView, StepKind, TopologyProxyClient,
};

verus! {

/// What the loop is told of.
pub enum LoopInput {
    /// The liveness timer fired.
    Tick,
    /// A termination signal arrived.
    Signal,
    /// The registration call ended, with the identity it granted if any.
    RegistrationEnded(Option<Seq<char>>),
    /// The heartbeat call ended; `true` where the registry accepted it.
    HeartbeatEnded(bool),
    /// An activity call ended; `true` where the registry accepted it.
    ActivityEnded(bool),
    /// The unregister call ended, well or badly.
    UnregisterEnded,
}

/// A command without the request that it carries.
pub enum CommandKind {
    Idle,
    Register,
    Heartbeat,
    /// Withdraw the identity given.
    Unregister(Seq<char>),
    Exit,
}

/// What the loop asks its driver to do next.
#[derive(Clone, Debug)]
pub enum LoopCommand {
    /// Nothing: wait for the next tick, signal or reply.
    Idle,
    /// Send the registration, then report its end.
    Register(RegisterRequest),
    /// Send the heartbeat, then report its end.
    Heartbeat(HeartbeatRequest),
    /// Send the unregister call, then report its end.
    Unregister(UnregisterRequest),
    /// Leave the loop.
    Exit,
}

impl LoopCommand {
    /// The command without the request that it carries.
    pub open spec fn kind(self) -> CommandKind {
        match self {
            LoopCommand::Idle => CommandKind::Idle,
            LoopCommand::Register(_) => CommandKind::Register,
            LoopCommand::Heartbeat(_) => CommandKind::Heartbeat,
            LoopCommand::Unregister(request) => CommandKind::Unregister(request.service_id@),
            LoopCommand::Exit => CommandKind::Exit,
        }
    }
}

/// What a loop holds, as contracts speak of it.
pub struct LoopView {
    pub phase: Phase,
    pub session: SessionView,
    /// Whether the unregister call is under way.
    pub unregistering: bool,
}

impl LoopView {
    /// The session is well formed; a draining loop waits for a call; and the
    /// unregister call is under way only while the loop drains, with the
    /// identity forgotten and no other call outstanding.
    pub open spec fn wf(self) -> bool {
        &&& self.session.wf()
        &&& self.phase == Phase::Draining ==> self.unregistering || self.session.in_flight
        &&& self.unregistering ==> self.phase == Phase::Draining
            && self.session.service_id.is_none() && !self.session.in_flight
    }

    /// A loop that runs, with a session that never registered.
    pub open spec fn initial(now: u64) -> LoopView {
        LoopView {
            phase: Phase::Running,
            session: SessionView::initial(now),
            unregistering: false,
        }
    }

    /// The loop still acts on the end of a registration, heartbeat or
    /// activity call.
    pub open spec fn hears_replies(self) -> bool {
        self.phase == Phase::Running || (self.phase == Phase::Draining && !self.unregistering)
    }

    /// The loop may still ask for the unregister call.
    pub open spec fn may_withdraw(self) -> bool {
        self.hears_replies()
    }

    /// The end of a draining loop that waits for no call: with an identity,
    /// one unregister call; without, the stop.
    pub open spec fn withdraw(self) -> (LoopView, CommandKind) {
        match self.session.service_id {
            Some(service_id) => (
                LoopView {
                    phase: Phase::Draining,
                    session: self.session.unregistered(),
                    unregistering: true,
                },
                CommandKind::Unregister(service_id),
            ),
            None => (
                LoopView {
                    phase: Phase::Stopped,
                    session: self.session.unregistered(),
                    unregistering: false,
                },
                CommandKind::Exit,
            ),
        }
    }

    /// The loop after `event` reached its session, and what it asks for: a
    /// running loop nothing; a draining loop, which waited for this call,
    /// the withdrawal.
    pub open spec fn after_reply(self, event: SessionEvent, now: u64) -> (LoopView, CommandKind) {
        let heard = LoopView { session: self.session.after(event, now), ..self };
        if self.phase == Phase::Running {
            (heard, CommandKind::Idle)
        } else {
            heard.withdraw()
        }
    }

    /// The loop after `input` at `now`, and what it asks for.
    pub open spec fn step(self, input: LoopInput, now: u64, interval_ms: u64) -> (
        LoopView,
        CommandKind,
    ) {
        if self.phase == Phase::Stopped {
            (self, CommandKind::Exit)
        } else {
            match input {
                LoopInput::Tick => if self.phase == Phase::Running {
                    match self.session.tick(interval_ms, now) {
                        StepKind::SendRegister => (
                            LoopView {
                                session: self.session.after(SessionEvent::CallIssued, now),
                                ..self
                            },
                            CommandKind::Register,
                        ),
                        StepKind::SendHeartbeat => (
                            LoopView {
                                session: self.session.after(SessionEvent::CallIssued, now),
                                ..self
                            },
                            CommandKind::Heartbeat,
                        ),
                        _ => (self, CommandKind::Idle),
                    }
                } else {
                    (self, CommandKind::Idle)
                },
                LoopInput::Signal => if self.phase == Phase::Running {
                    if self.session.in_flight {
                        (LoopView { phase: Phase::Draining, ..self }, CommandKind::Idle)
                    } else {
                        (LoopView { phase: Phase::Draining, ..self }).withdraw()
                    }
                } else {
                    (self, CommandKind::Idle)
                },
                LoopInput::RegistrationEnded(granted) => if self.hears_replies() {
                    self.after_reply(SessionEvent::Registration(granted), now)
                } else {
                    (self, CommandKind::Idle)
                },
                LoopInput::HeartbeatEnded(accepted) => if self.hears_replies() {
                    self.after_reply(SessionEvent::Heartbeat(accepted), now)
                } else {
                    (self, CommandKind::Idle)
                },
                LoopInput::ActivityEnded(accepted) => if self.hears_replies() {
                    (
                        LoopView {
                            session: self.session.after(SessionEvent::Activity(accepted), now),
                            ..self
                        },
                        CommandKind::Idle,
                    )
                } else {
                    (self, CommandKind::Idle)
                },
                LoopInput::UnregisterEnded => if self.unregistering {
                    (
                        LoopView { phase: Phase::Stopped, unregistering: false, ..self },
                        CommandKind::Exit,
                    )
                } else {
                    (self, CommandKind::Idle)
                },
            }
        }
    }

    /// The loop after a run of inputs, each with its instant.
    pub open spec fn after_all(self, inputs: Seq<(LoopInput, u64)>, interval_ms: u64) -> LoopView
        decreases inputs.len(),
    {
        if inputs.len() == 0 {
            self
        } else {
            self.after_all(inputs.drop_last(), interval_ms).step(
                inputs.last().0,
                inputs.last().1,
                interval_ms,
            ).0
        }
    }

    /// How often a run of inputs makes the loop ask for the unregister call.
    pub open spec fn unregister_commands(self, inputs: Seq<(LoopInput, u64)>, interval_ms: u64)
        -> nat
        decreases inputs.len(),
    {
        if inputs.len() == 0 {
            0
        } else {
            let earlier = inputs.drop_last();
            let command = self.after_all(earlier, interval_ms).step(
                inputs.last().0,
                inputs.last().1,
                interval_ms,
            ).1;
            let asked: nat = if command is Unregister {
                1
            } else {
                0
            };
            self.unregister_commands(earlier, interval_ms) + asked
        }
    }
}

/// A registration session inside its liveness loop.
pub struct LivenessLoop {
    coordinator: ShutdownCoordinator,
    session: TopologyProxyClient,
    unregistering: bool,
}

impl View for LivenessLoop {
    type V = LoopView;

    closed spec fn view(&self) -> LoopView {
        LoopView {
            phase: self.coordinator.spec_phase(),
            session: self.session@,
            unregistering: self.unregistering,
        }
    }
}

impl LivenessLoop {
    /// The facts that the session registers with.
    pub closed spec fn descriptor(&self) -> TopologyProxyConfig {
        self.session.descriptor()
    }

    /// The loop is well formed.
    pub open spec fn wf(&self) -> bool {
        self@.wf()
    }

    /// A loop that runs, with a session that may register at once.
    pub fn new(config: TopologyProxyConfig, now: u64) -> (liveness: Self)
        ensures
            liveness.wf(),
            liveness@ == LoopView::initial(now),
            liveness.descriptor() == config,
    {
        LivenessLoop {
            coordinator: ShutdownCoordinator::new(),
            session: TopologyProxyClient::new(config, now),
            unregistering: false,
        }
    }

    /// The current phase.
    pub fn phase(&self) -> (phase: Phase)
        ensures
            phase == self@.phase,
    {
        self.coordinator.phase()
    }

    /// The session, for the request path to read.
    pub fn session(&self) -> (session: &TopologyProxyClient)
        ensures
            session@ == self@.session,
            session.descriptor() == self.descriptor(),
    {
        &self.session
    }

    /// Ends a drain that waits for no call: with an identity, by asking for
    /// the unregister call; without, by stopping.
    fn withdraw(&mut self) -> (command: LoopCommand)
        requires
            old(self)@.phase == Phase::Draining,
            old(self)@.session.wf(),
            !old(self)@.session.in_flight,
            !old(self)@.unregistering,
        ensures
            final(self).descriptor() == old(self).descriptor(),
            (final(self)@, command.kind()) == old(self)@.withdraw(),
            final(self).wf(),
    {
        match self.session.unregister() {
            Some(request) => {
                self.unregistering = true;
                LoopCommand::Unregister(request)
            },
            None => {
                let _ = self.coordinator.on_event(LoopEvent::UnregisterDone);
                LoopCommand::Exit
            },
        }
    }

    /// Serves a tick of the liveness timer at `now`. A running loop asks for
    /// the call that its session needs, if it needs one; a loop that drains
    /// asks for nothing.
    pub fn on_tick(&mut self, now: u64) -> (command: LoopCommand)
        requires
            old(self).wf(),
        ensures
            final(self).wf(),
            final(self).descriptor() == old(self).descriptor(),
            (final(self)@, command.kind()) == old(self)@.step(
                LoopInput::Tick,
                now,
                old(self).descriptor().heartbeat_interval_ms,
            ),
            command matches LoopCommand::Register(request) ==> request.describes(
                &old(self).descriptor(),
            ),
            command matches LoopCommand::Heartbeat(request) ==> old(self)@.session.service_id
                == Some(request.service_id@),
    {
        match self.coordinator.phase() {
            Phase::Stopped => LoopCommand::Exit,
            Phase::Draining => LoopCommand::Idle,
            Phase::Running => match self.session.ensure_registered(now) {
                RegistrationStep::SendRegister(request) => LoopCommand::Register(request),
                RegistrationStep::SendHeartbeat(request) => LoopCommand::Heartbeat(request),
                _ => LoopCommand::Idle,
            },
        }
    }

    /// Serves a termination signal. A running loop stops ticking: it waits
    /// for the call that is under way, or withdraws at once. A second signal
    /// changes nothing.
    pub fn on_signal(&mut self, signal: Signal) -> (command: LoopCommand)
        requires
            old(self).wf(),
        ensures
            final(self).wf(),
            final(self).descriptor() == old(self).descriptor(),
            forall|now: u64, interval_ms: u64|
                (final(self)@, command.kind()) == #[trigger] old(self)@.step(
                    LoopInput::Signal,
                    now,
                    interval_ms,
                ),
    {
        match self.coordinator.on_event(LoopEvent::Signal(signal)) {
            LoopAction::Unregister => {
                if self.session.call_in_flight() {
                    LoopCommand::Idle
                } else {
                    self.withdraw()
                }
            },
            LoopAction::Exit => LoopCommand::Exit,
            _ => LoopCommand::Idle,
        }
    }

    /// Takes the end of the registration call at `now`. A running loop hands
    /// it to its session. A loop that drained while the call was under way
    /// does so too, and then withdraws: an identity that was granted late is
    /// given back. A loop that no longer waits for the call ignores it.
    pub fn on_registration_ended(&mut self, reply: RegisterReply, now: u64) -> (result: (
        LoopCommand,
        Result<bool, TopologyProxyError>,
    ))
        requires
            old(self).wf(),
        ensures
            final(self).wf(),
            final(self).descriptor() == old(self).descriptor(),
            forall|interval_ms: u64|
                (final(self)@, result.0.kind()) == #[trigger] old(self)@.step(
                    LoopInput::RegistrationEnded(reply.granted()),
                    now,
                    interval_ms,
                ),
            if !old(self)@.hears_replies() {
                result.1 matches Ok(registered) && !registered
            } else if reply.granted().is_some() {
                result.1 matches Ok(registered) && registered
            } else {
                result.1 matches Err(error) && error.reports(reply.failure())
            },
    {
        match self.coordinator.phase() {
            Phase::Stopped => (LoopCommand::Exit, Ok(false)),
            Phase::Running => {
                let outcome = self.session.complete_registration(reply, now);
                (LoopCommand::Idle, outcome)
            },
            Phase::Draining => {
                if self.unregistering {
                    (LoopCommand::Idle, Ok(false))
                } else {
                    let outcome = self.session.complete_registration(reply, now);
                    let command = self.withdraw();
                    (command, outcome)
                }
            },
        }
    }

    /// Takes the end of the heartbeat call at `now`, as
    /// `on_registration_ended` takes the end of a registration.
    pub fn on_heartbeat_ended(&mut self, reply: CallReply, now: u64) -> (result: (
        LoopCommand,
        Result<bool, TopologyProxyError>,
    ))
        requires
            old(self).wf(),
        ensures
            final(self).wf(),
            final(self).descriptor() == old(self).descriptor(),
            forall|interval_ms: u64|
                (final(self)@, result.0.kind()) == #[trigger] old(self)@.step(
                    LoopInput::HeartbeatEnded(reply.accepted()),
                    now,
                    interval_ms,
                ),
            if !old(self)@.hears_replies() {
                result.1 matches Ok(registered) && !registered
            } else if reply.accepted() {
                result.1 matches Ok(registered) && registered == old(self)@.session.service_id.is_some()
            } else {
                result.1 matches Err(error) && error.reports(reply.failure(Endpoint::Heartbeat))
            },
    {
        match self.coordinator.phase() {
            Phase::Stopped => (LoopCommand::Exit, Ok(false)),
            Phase::Running => {
                let outcome = self.session.complete_heartbeat(reply, now);
                (LoopCommand::Idle, outcome)
            },
            Phase::Draining => {
                if self.unregistering {
                    (LoopCommand::Idle, Ok(false))
                } else {
                    let outcome = self.session.complete_heartbeat(reply, now);
                    let command = self.withdraw();
                    (command, outcome)
                }
            },
        }
    }

    /// The request that reports `report`, where the service has an identity.
    /// Without one the report is dropped and nothing is to be sent.
    pub fn report_activity(&self, report: ActivityReport) -> (request: Option<ActivityRequest>)
        ensures
            request.is_some() == self@.session.service_id.is_some(),
            request matches Some(body) ==> body.carries(
                self@.session.service_id.unwrap(),
                &report,
            ),
    {
        self.session.report_activity(report)
    }

    /// Takes the end of an activity call at `now`. The report is never sent
    /// again; where the loop still hears replies, a reply that is not
    /// accepted invalidates the registration.
    pub fn on_activity_ended(&mut self, reply: CallReply, now: u64) -> (outcome: Result<
        (),
        TopologyProxyError,
    >)
        requires
            old(self).wf(),
        ensures
            final(self).wf(),
            final(self).descriptor() == old(self).descriptor(),
            forall|interval_ms: u64|
                final(self)@ == (#[trigger] old(self)@.step(
                    LoopInput::ActivityEnded(reply.accepted()),
                    now,
                    interval_ms,
                )).0,
            outcome.is_ok() == reply.accepted(),
            outcome matches Err(error) ==> error.reports(reply.failure(Endpoint::Activity)),
    {
        let hears = match self.coordinator.phase() {
            Phase::Stopped => false,
            Phase::Running => true,
            Phase::Draining => !self.unregistering,
        };
        if hears {
            self.session.complete_activity(reply, now)
        } else {
            reply.into_result(Endpoint::Activity)
        }
    }

    /// Takes the end of the unregister call. Whether it succeeded does not
    /// matter: the loop stops. The result of the call is handed back for the
    /// log.
    pub fn on_unregister_ended(&mut self, reply: CallReply) -> (result: (
        LoopCommand,
        Result<(), TopologyProxyError>,
    ))
        requires
            old(self).wf(),
        ensures
            final(self).wf(),
            final(self).descriptor() == old(self).descriptor(),
            forall|now: u64, interval_ms: u64|
                (final(self)@, result.0.kind()) == #[trigger] old(self)@.step(
                    LoopInput::UnregisterEnded,
                    now,
                    interval_ms,
                ),
            result.1.is_ok() == reply.accepted(),
            result.1 matches Err(error) ==> error.reports(reply.failure(Endpoint::Unregister)),
    {
        let outcome = TopologyProxyClient::complete_unregister(reply);
        match self.coordinator.phase() {
            Phase::Stopped => (LoopCommand::Exit, outcome),
            Phase::Running => (LoopCommand::Idle, outcome),
            Phase::Draining => {
                if self.unregistering {
                    self.unregistering = false;
                    let _ = self.coordinator.on_event(LoopEvent::UnregisterDone);
                    (LoopCommand::Exit, outcome)
                } else {
                    (LoopCommand::Idle, outcome)
                }
            },
        }
    }
}

/// Every input leaves a well-formed loop well formed.
pub proof fn lemma_step_keeps_loop_well_formed(
    view: LoopView,
    input: LoopInput,
    now: u64,
    interval_ms: u64,
)
    requires
        view.wf(),
    ensures
        view.step(input, now, interval_ms).0.wf(),
{
}

/// Whatever the loop is told and in whatever order, it asks for the
/// unregister call at most once, and never again once it has asked or has
/// stopped.
pub proof fn lemma_loop_unregisters_at_most_once(
    view: LoopView,
    inputs: Seq<(LoopInput, u64)>,
    interval_ms: u64,
)
    requires
        view.wf(),
    ensures
        view.after_all(inputs, interval_ms).wf(),
        view.unregister_commands(inputs, interval_ms) <= 1,
        !view.may_withdraw() ==> view.unregister_commands(inputs, interval_ms) == 0,
        !view.may_withdraw() ==> !view.after_all(inputs, interval_ms).may_withdraw(),
        view.unregister_commands(inputs, interval_ms) == 1 ==> !view.after_all(
            inputs,
            interval_ms,
        ).may_withdraw(),
    decreases inputs.len(),
{
    if inputs.len() > 0 {
        let earlier = inputs.drop_last();
        lemma_loop_unregisters_at_most_once(view, earlier, interval_ms);
        lemma_step_keeps_loop_well_formed(
            view.after_all(earlier, interval_ms),
            inputs.last().0,
            inputs.last().1,
            interval_ms,
        );
    }
}

/// After a signal the loop asks for no registration and no heartbeat any
/// more: new calls are named only while it runs.
pub proof fn lemma_no_new_calls_after_signal(
    view: LoopView,
    input: LoopInput,
    now: u64,
    interval_ms: u64,
)
    ensures
        view.step(input, now, interval_ms).1 is Register ==> view.phase == Phase::Running
            && input is Tick,
        view.step(input, now, interval_ms).1 is Heartbeat ==> view.phase == Phase::Running
            && input is Tick,
        view.phase != Phase::Running ==> view.step(input, now, interval_ms).0.phase
            != Phase::Running,
{
}

/// A signal stops a running loop after at most two calls have ended: the
/// call that was under way when the signal came, if there was one, and the
/// unregister call, if there was an identity to withdraw. No answer of the
/// registry can keep the loop from stopping.
pub proof fn lemma_signal_stops_the_loop(
    view: LoopView,
    ended: SessionEvent,
    now: u64,
    interval_ms: u64,
)
    requires
        view.wf(),
        view.phase == Phase::Running,
        ended is Registration || ended is Heartbeat,
    ensures
        ({
            let drained = view.step(LoopInput::Signal, now, interval_ms).0;
            let reply = match ended {
                SessionEvent::Registration(granted) => LoopInput::RegistrationEnded(granted),
                SessionEvent::Heartbeat(accepted) => LoopInput::HeartbeatEnded(accepted),
                _ => LoopInput::UnregisterEnded,
            };
            let heard = drained.step(reply, now, interval_ms).0;
            &&& drained.phase != Phase::Running
            &&& drained.phase == Phase::Stopped || drained.unregistering
                || drained.session.in_flight
            &&& drained.unregistering ==> drained.step(
                LoopInput::UnregisterEnded,
                now,
                interval_ms,
            ).0.phase == Phase::Stopped
            &&& drained.phase == Phase::Draining && !drained.unregistering ==> {
                ||| heard.phase == Phase::Stopped
                ||| heard.unregistering && heard.step(
                    LoopInput::UnregisterEnded,
                    now,
                    interval_ms,
                ).0.phase == Phase::Stopped
            }
        }),
{
}

} // verus!
