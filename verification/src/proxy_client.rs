//! The registration session of a service that polls the registry: it
//! registers, sends a heartbeat when one is due, reports activity under its
//! identity, and unregisters.
//!
//! The session performs no call itself. It names the request to send, and is
//! told how the call ended.

use vstd::prelude::*;
use vstd::string::StringExecFns;
use crate::messages::{
    ActivityReport, ActivityRequest, CallReply, Endpoint, HeartbeatRequest, RegisterBody,
    RegisterReply, RegisterRequest, TopologyProxyConfig, TopologyProxyError, UnregisterRequest,
};
use crate::retry::{
    spec_deadline, spec_next_backoff, RetryState, MAX_DELAY_SECS, MIN_DELAY_SECS,
};
use crate::status::{failure_message, is_success_status};

verus! {

/// What a session holds, as contracts speak of it.
pub struct SessionView {
    /// The identity under which the service is registered, if it is.
    pub service_id: Option<Seq<char>>,
    /// When the registry last heard of the service.
    pub last_heartbeat_at: Option<u64>,
    /// From when the next registration may be tried.
    pub next_retry_at: u64,
    /// The wait, in seconds, that the next failure imposes.
    pub current_delay: u64,
    /// Whether a call that a tick asked for has not ended yet.
    pub in_flight: bool,
}

/// Something that happened to a session at a given instant.
pub enum SessionEvent {
    /// A tick asked for a registration or heartbeat call.
    CallIssued,
    /// A registration call ended, with the identity it granted if any.
    Registration(Option<Seq<char>>),
    /// A heartbeat call ended; `true` where the registry accepted it.
    Heartbeat(bool),
    /// An activity call ended; `true` where the registry accepted it.
    Activity(bool),
    /// A consumer saw the transport fail.
    Invalidate,
    /// The service withdrew its registration.
    Unregister,
}

impl SessionEvent {
    /// The event is a failure: it imposes a wait before the next attempt.
    pub open spec fn is_failure(self) -> bool {
        match self {
            SessionEvent::CallIssued => false,
            SessionEvent::Registration(granted) => granted.is_none(),
            SessionEvent::Heartbeat(accepted) => !accepted,
            SessionEvent::Activity(accepted) => !accepted,
            SessionEvent::Invalidate => true,
            SessionEvent::Unregister => false,
        }
    }

    /// The event reports the end of a call that a tick asked for.
    pub open spec fn ends_call(self) -> bool {
        self is Registration || self is Heartbeat
    }

    /// The event takes the identity away.
    pub open spec fn invalidating(self) -> bool {
        match self {
            SessionEvent::CallIssued => false,
            SessionEvent::Registration(_) => false,
            SessionEvent::Heartbeat(accepted) => !accepted,
            SessionEvent::Activity(accepted) => !accepted,
            SessionEvent::Invalidate => true,
            SessionEvent::Unregister => true,
        }
    }
}

impl SessionView {
    /// The delay is between the floor and the ceiling, and a session
    /// without identity holds no last heartbeat.
    pub open spec fn wf(self) -> bool {
        &&& MIN_DELAY_SECS <= self.current_delay <= MAX_DELAY_SECS
        &&& self.service_id.is_none() ==> self.last_heartbeat_at.is_none()
    }

    /// A session that never registered: an attempt is allowed at once.
    pub open spec fn initial(now: u64) -> SessionView {
        SessionView {
            service_id: None,
            last_heartbeat_at: None,
            next_retry_at: now,
            current_delay: MIN_DELAY_SECS,
            in_flight: false,
        }
    }

    /// The session after a failure at `now` that leaves the identity alone.
    pub open spec fn after_failure(self, now: u64) -> SessionView {
        SessionView {
            next_retry_at: spec_deadline(now, self.current_delay),
            current_delay: spec_next_backoff(self.current_delay),
            ..self
        }
    }

    /// The session after its identity was found dead at `now`.
    pub open spec fn invalidated(self, now: u64) -> SessionView {
        SessionView { service_id: None, last_heartbeat_at: None, ..self.after_failure(now) }
    }

    /// The session after the registry granted `service_id` at `now`.
    pub open spec fn registered_as(service_id: Seq<char>, now: u64) -> SessionView {
        SessionView {
            service_id: Some(service_id),
            last_heartbeat_at: Some(now),
            next_retry_at: now,
            current_delay: MIN_DELAY_SECS,
            in_flight: false,
        }
    }

    /// The session after it withdrew its registration. A session without
    /// identity is left as it was. One with an identity forgets it and the
    /// last heartbeat; whether a call is under way is not touched, since only
    /// the reported end of a call settles that.
    pub open spec fn unregistered(self) -> SessionView {
        if self.service_id.is_none() {
            self
        } else {
            SessionView { service_id: None, last_heartbeat_at: None, ..self }
        }
    }

    /// The session after the call that a tick asked for has ended.
    pub open spec fn settled(self) -> SessionView {
        SessionView { in_flight: false, ..self }
    }

    /// The session after `event` at `now`.
    pub open spec fn after(self, event: SessionEvent, now: u64) -> SessionView {
        match event {
            SessionEvent::CallIssued => SessionView { in_flight: true, ..self },
            SessionEvent::Registration(Some(service_id)) => Self::registered_as(service_id, now),
            SessionEvent::Registration(None) => self.after_failure(now).settled(),
            SessionEvent::Heartbeat(true) => if self.service_id.is_some() {
                SessionView { last_heartbeat_at: Some(now), in_flight: false, ..self }
            } else {
                self.settled()
            },
            SessionEvent::Heartbeat(false) => self.invalidated(now).settled(),
            SessionEvent::Activity(true) => self,
            SessionEvent::Activity(false) => self.invalidated(now),
            SessionEvent::Invalidate => self.invalidated(now),
            SessionEvent::Unregister => self.unregistered(),
        }
    }

    /// The session after a run of events, each with its instant.
    pub open spec fn after_all(self, events: Seq<(SessionEvent, u64)>) -> SessionView
        decreases events.len(),
    {
        if events.len() == 0 {
            self
        } else {
            self.after_all(events.drop_last()).after(events.last().0, events.last().1)
        }
    }

    /// A heartbeat is due: heartbeats are on, and none was sent yet or the
    /// interval has passed since the last one.
    pub open spec fn heartbeat_due(self, interval_ms: u64, now: u64) -> bool {
        interval_ms != 0 && match self.last_heartbeat_at {
            None => true,
            Some(last) => now >= last && now - last >= interval_ms,
        }
    }

    /// What a liveness tick at `now` asks for. While a call of an earlier
    /// tick is under way, a tick asks for nothing. A registered service
    /// sends a heartbeat where one is due; a service without identity
    /// registers once the retry deadline has come.
    pub open spec fn tick(self, interval_ms: u64, now: u64) -> StepKind {
        if self.in_flight {
            StepKind::InFlight
        } else if self.service_id.is_some() {
            if self.heartbeat_due(interval_ms, now) {
                StepKind::SendHeartbeat
            } else {
                StepKind::Registered
            }
        } else if now < self.next_retry_at {
            StepKind::NotYetEligible
        } else {
            StepKind::SendRegister
        }
    }

    /// `step` is what a liveness tick at `now` asks for, with the request
    /// that it names: a heartbeat under the session's identity, or a
    /// registration with the facts of `config`.
    pub open spec fn plans(self, config: &TopologyProxyConfig, now: u64, step: RegistrationStep) -> bool {
        &&& step.kind() == self.tick(config.heartbeat_interval_ms, now)
        &&& match step {
            RegistrationStep::SendHeartbeat(request) => self.service_id == Some(
                request.service_id@,
            ),
            RegistrationStep::SendRegister(request) => request.describes(config),
            _ => true,
        }
    }

    /// The session after a tick that asked for `step`.
    pub open spec fn after_step(self, step: RegistrationStep, now: u64) -> SessionView {
        if step.names_call() {
            self.after(SessionEvent::CallIssued, now)
        } else {
            self
        }
    }
}

/// What a liveness tick asks the caller to do.
#[derive(Clone, Debug)]
pub enum RegistrationStep {
    /// A call that an earlier tick asked for has not ended: nothing to send.
    InFlight,
    /// The service is registered and no heartbeat is due: nothing to send.
    Registered,
    /// The service is registered and a heartbeat is due: send it, then call
    /// `complete_heartbeat`.
    SendHeartbeat(HeartbeatRequest),
    /// The service is not registered and must still wait: nothing to send.
    NotYetEligible,
    /// The service is not registered and may try: send the request, then call
    /// `complete_registration`.
    SendRegister(RegisterRequest),
}

/// A step without the request that it names.
pub enum StepKind {
    InFlight,
    Registered,
    SendHeartbeat,
    NotYetEligible,
    SendRegister,
}

impl RegistrationStep {
    /// The step without the request that it names.
    pub open spec fn kind(self) -> StepKind {
        match self {
            RegistrationStep::InFlight => StepKind::InFlight,
            RegistrationStep::Registered => StepKind::Registered,
            RegistrationStep::SendHeartbeat(_) => StepKind::SendHeartbeat,
            RegistrationStep::NotYetEligible => StepKind::NotYetEligible,
            RegistrationStep::SendRegister(_) => StepKind::SendRegister,
        }
    }

    /// The step asks the caller to make a call and to report its end.
    pub open spec fn names_call(self) -> bool {
        self is SendHeartbeat || self is SendRegister
    }
}

/// A registration session with retry and heartbeat.
pub struct TopologyProxyClient {
    config: TopologyProxyConfig,
    service_id: Option<String>,
    retry: RetryState,
    last_heartbeat_at: Option<u64>,
    in_flight: bool,
}

impl View for TopologyProxyClient {
    type V = SessionView;

    closed spec fn view(&self) -> SessionView {
        SessionView {
            service_id: match self.service_id {
                Some(id) => Some(id@),
                None => None,
            },
            last_heartbeat_at: self.last_heartbeat_at,
            next_retry_at: self.retry.deadline(),
            current_delay: self.retry.delay(),
            in_flight: self.in_flight,
        }
    }
}

impl TopologyProxyClient {
    /// The facts that the session registers with.
    pub closed spec fn descriptor(&self) -> TopologyProxyConfig {
        self.config
    }

    /// The session's delay is between the floor and the ceiling, and a
    /// session without identity holds no last heartbeat.
    pub open spec fn wf(&self) -> bool {
        self@.wf()
    }

    /// A session that is not registered and may try at once.
    pub fn new(config: TopologyProxyConfig, now: u64) -> (client: Self)
        ensures
            client.wf(),
            client@ == SessionView::initial(now),
            client.descriptor() == config,
    {
        TopologyProxyClient {
            config,
            service_id: None,
            retry: RetryState::new(now),
            last_heartbeat_at: None,
            in_flight: false,
        }
    }

    /// The facts that the session registers with.
    pub fn config(&self) -> (config: &TopologyProxyConfig)
        ensures
            *config == self.descriptor(),
    {
        &self.config
    }

    /// The current identity, if the service is registered.
    pub fn service_id(&self) -> (id: Option<&str>)
        ensures
            match id {
                Some(text) => self@.service_id == Some(text@),
                None => self@.service_id.is_none(),
            },
    {
        match &self.service_id {
            Some(id) => Some(id.as_str()),
            None => None,
        }
    }

    /// From when the next registration may be tried.
    pub fn next_retry_at(&self) -> (at: u64)
        ensures
            at == self@.next_retry_at,
    {
        self.retry.next_retry_at()
    }

    /// The wait, in seconds, that the next failure imposes.
    pub fn retry_delay(&self) -> (secs: u64)
        ensures
            secs == self@.current_delay,
    {
        self.retry.current_delay()
    }

    /// When the registry last heard of the service.
    pub fn last_heartbeat_at(&self) -> (at: Option<u64>)
        ensures
            at == self@.last_heartbeat_at,
    {
        self.last_heartbeat_at
    }

    /// Whether a call that a tick asked for has not ended yet.
    pub fn call_in_flight(&self) -> (in_flight: bool)
        ensures
            in_flight == self@.in_flight,
    {
        self.in_flight
    }

    /// One liveness tick at `now`. While a call that an earlier tick asked
    /// for is under way, the tick asks for nothing. Else a registered service
    /// sends a heartbeat where one is due, and a service without identity
    /// registers exactly when the retry deadline has come. A tick that asks
    /// for a call marks it as under way; nothing but the reported end of a
    /// registration or heartbeat call takes that mark away. A tick changes
    /// nothing else: identity and retry state stay as they were.
    pub fn ensure_registered(&mut self, now: u64) -> (step: RegistrationStep)
        ensures
            old(self)@.plans(&old(self).descriptor(), now, step),
            final(self)@ == old(self)@.after_step(step, now),
            final(self).descriptor() == old(self).descriptor(),
            final(self).wf() == old(self).wf(),
            step is SendRegister ==> now >= old(self)@.next_retry_at,
            old(self)@.in_flight ==> step is InFlight,
            !old(self)@.in_flight ==> (step is SendRegister <==> old(self)@.service_id.is_none()
                && now >= old(self)@.next_retry_at),
            old(self)@.service_id.is_some() ==> !(step is SendRegister),
            step.names_call() ==> !old(self)@.in_flight && final(self)@.in_flight,
            !step.names_call() ==> final(self)@ == old(self)@,
            final(self)@.service_id == old(self)@.service_id,
            final(self)@.last_heartbeat_at == old(self)@.last_heartbeat_at,
            final(self)@.next_retry_at == old(self)@.next_retry_at,
            final(self)@.current_delay == old(self)@.current_delay,
    {
        if self.in_flight {
            return RegistrationStep::InFlight;
        }
        match &self.service_id {
            Some(id) => {
                let interval = self.config.heartbeat_interval_ms;
                let due = interval != 0 && match self.last_heartbeat_at {
                    None => true,
                    Some(last) => now >= last && now - last >= interval,
                };
                if due {
                    let request = HeartbeatRequest { service_id: id.clone() };
                    self.in_flight = true;
                    RegistrationStep::SendHeartbeat(request)
                } else {
                    RegistrationStep::Registered
                }
            },
            None => {
                if !self.retry.should_retry_now(now) {
                    RegistrationStep::NotYetEligible
                } else {
                    self.in_flight = true;
                    RegistrationStep::SendRegister(RegisterRequest::for_config(&self.config))
                }
            },
        }
    }

    /// Takes the end of a registration call at `now`. A reply that grants an
    /// identity registers the service and resets the retry delay. Any other
    /// reply leaves the identity as it was and imposes the current delay.
    /// Either way no call is under way any more.
    pub fn complete_registration(&mut self, reply: RegisterReply, now: u64) -> (outcome: Result<
        bool,
        TopologyProxyError,
    >)
        requires
            old(self).wf(),
        ensures
            final(self).wf(),
            final(self).descriptor() == old(self).descriptor(),
            final(self)@ == old(self)@.after(SessionEvent::Registration(reply.granted()), now),
            match reply.granted() {
                Some(_) => outcome matches Ok(registered) && registered,
                None => outcome matches Err(error) && error.reports(reply.failure()),
            },
    {
        self.in_flight = false;
        match reply {
            RegisterReply::Unreachable(reason) => {
                self.retry.schedule_retry(now);
                Err(TopologyProxyError::Http(reason))
            },
            RegisterReply::Answered { status, body } => {
                if !is_success_status(status) {
                    self.retry.schedule_retry(now);
                    Err(
                        TopologyProxyError::InvalidResponse(
                            failure_message(Endpoint::Register.failure_prefix_str(), status),
                        ),
                    )
                } else {
                    match body {
                        RegisterBody::Unreadable(reason) => {
                            self.retry.schedule_retry(now);
                            Err(TopologyProxyError::Http(reason))
                        },
                        RegisterBody::Handle { service_id } => {
                            if service_id.as_str().is_empty() {
                                self.retry.schedule_retry(now);
                                Err(
                                    TopologyProxyError::InvalidResponse(
                                        String::from_str("Missing serviceId in response."),
                                    ),
                                )
                            } else {
                                self.service_id = Some(service_id);
                                self.last_heartbeat_at = Some(now);
                                self.retry.reset(now);
                                Ok(true)
                            }
                        },
                    }
                }
            },
        }
    }

    /// Takes the end of a heartbeat call at `now`. An accepted heartbeat is
    /// noted where the session still has its identity; where the identity
    /// was lost while the call was under way, nothing is noted. Any other
    /// reply invalidates the registration. Either way no call is under way
    /// any more. An accepted reply gives back whether the service is
    /// registered.
    pub fn complete_heartbeat(&mut self, reply: CallReply, now: u64) -> (outcome: Result<
        bool,
        TopologyProxyError,
    >)
        requires
            old(self).wf(),
        ensures
            final(self).wf(),
            final(self).descriptor() == old(self).descriptor(),
            final(self)@ == old(self)@.after(SessionEvent::Heartbeat(reply.accepted()), now),
            if reply.accepted() {
                outcome matches Ok(registered) && registered == old(self)@.service_id.is_some()
            } else {
                outcome matches Err(error) && error.reports(reply.failure(Endpoint::Heartbeat))
            },
    {
        self.in_flight = false;
        match reply.into_result(Endpoint::Heartbeat) {
            Ok(()) => {
                if self.service_id.is_some() {
                    self.last_heartbeat_at = Some(now);
                    Ok(true)
                } else {
                    Ok(false)
                }
            },
            Err(error) => {
                self.invalidate_registration(now);
                Err(error)
            },
        }
    }

    /// The request that reports `report`, where the service has an identity.
    /// Without one the report is dropped and nothing is to be sent.
    pub fn report_activity(&self, report: ActivityReport) -> (request: Option<ActivityRequest>)
        ensures
            request.is_some() == self@.service_id.is_some(),
            request matches Some(body) ==> body.carries(self@.service_id.unwrap(), &report),
    {
        match &self.service_id {
            Some(id) => Some(ActivityRequest::for_report(id.clone(), report)),
            None => None,
        }
    }

    /// Takes the end of an activity call at `now`. The report is never sent
    /// again; a reply that is not accepted invalidates the registration.
    pub fn complete_activity(&mut self, reply: CallReply, now: u64) -> (outcome: Result<
        (),
        TopologyProxyError,
    >)
        requires
            old(self).wf(),
        ensures
            final(self).wf(),
            final(self).descriptor() == old(self).descriptor(),
            final(self)@ == old(self)@.after(SessionEvent::Activity(reply.accepted()), now),
            outcome.is_ok() == reply.accepted(),
            outcome matches Err(error) ==> error.reports(reply.failure(Endpoint::Activity)),
    {
        match reply.into_result(Endpoint::Activity) {
            Ok(()) => Ok(()),
            Err(error) => {
                self.invalidate_registration(now);
                Err(error)
            },
        }
    }

    /// Drops the identity at `now` and imposes the current delay, so that the
    /// next eligible tick registers anew.
    pub fn invalidate_registration(&mut self, now: u64)
        requires
            old(self).wf(),
        ensures
            final(self).wf(),
            final(self).descriptor() == old(self).descriptor(),
            final(self)@ == old(self)@.after(SessionEvent::Invalidate, now),
            final(self)@.service_id.is_none(),
    {
        self.service_id = None;
        self.last_heartbeat_at = None;
        self.retry.schedule_retry(now);
    }

    /// Withdraws the registration. Where the service has an identity, the
    /// session forgets it and the request to send under it is returned.
    /// Where it has none, nothing is sent and nothing changes: a second call
    /// is a no-op. Whether a call is under way is left as it was.
    pub fn unregister(&mut self) -> (request: Option<UnregisterRequest>)
        ensures
            final(self).wf() == old(self).wf(),
            final(self).descriptor() == old(self).descriptor(),
            final(self)@ == old(self)@.after(SessionEvent::Unregister, 0),
            old(self)@.service_id.is_none() ==> final(self)@ == old(self)@,
            final(self)@.service_id.is_none(),
            final(self)@.in_flight == old(self)@.in_flight,
            match request {
                Some(body) => old(self)@.service_id == Some(body.service_id@),
                None => old(self)@.service_id.is_none(),
            },
    {
        match self.service_id.take() {
            Some(service_id) => {
                self.last_heartbeat_at = None;
                Some(UnregisterRequest { service_id })
            },
            None => None,
        }
    }

    /// The result of an unregister call, for the log. The session has
    /// forgotten its identity already: nothing is retried.
    pub fn complete_unregister(reply: CallReply) -> (outcome: Result<(), TopologyProxyError>)
        ensures
            outcome.is_ok() == reply.accepted(),
            outcome matches Err(error) ==> error.reports(reply.failure(Endpoint::Unregister)),
    {
        reply.into_result(Endpoint::Unregister)
    }
}

} // verus!
