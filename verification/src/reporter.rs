//! The reporter of a service that talks to the registry over long-lived
//! streams: one registration call, then a stream of numbered heartbeats and
//! a stream of activity events fed from a queue.
//!
//! The reporter performs no call itself. It names what to send and keeps the
//! queue; the caller owns the streams.

use vstd::prelude::*;
use vstd::string::StringExecFns;
use crate::address::{normalize_broker_url, spec_normalize_broker_url};
use crate::kinds::{ActivityType, ServiceLanguage, ServiceType};
use crate::messages::{clone_text, opt_text, ActivityReport};

verus! {

/// The facts a process registers with, fixed at start.
#[derive(Clone, Debug)]
pub struct TopologyReporterOptions {
    /// Address of the registry, with or without a scheme.
    pub topology_address: String,
    pub service_name: String,
    pub service_type: ServiceType,
    pub language: ServiceLanguage,
    pub version: Option<String>,
    pub address: Option<String>,
    pub host: Option<String>,
    /// Whether activity is reported at all.
    pub enable_activity: bool,
}

/// What the reporter currently holds, for display.
#[derive(Clone, Debug)]
pub struct TopologyReporterStatus {
    pub service_id: Option<String>,
    pub heartbeat_interval_ms: Option<i32>,
    pub activity_enabled: bool,
}

/// What the registry grants on registration.
#[derive(Clone, Debug)]
pub struct ServiceHandle {
    pub service_id: String,
    pub heartbeat_interval_ms: i32,
    pub timeout_multiplier: i32,
}

/// Body of the registration call.
#[derive(Clone, Debug)]
pub struct RegisterServiceRequest {
    pub service_name: String,
    pub service_type: ServiceType,
    pub language: ServiceLanguage,
    pub version: Option<String>,
    pub address: Option<String>,
    pub host: Option<String>,
}

impl RegisterServiceRequest {
    /// The request carries exactly the facts of `options`.
    pub open spec fn describes(&self, options: &TopologyReporterOptions) -> bool {
        &&& self.service_name@ == options.service_name@
        &&& self.service_type == options.service_type
        &&& self.language == options.language
        &&& opt_text(self.version) == opt_text(options.version)
        &&& opt_text(self.address) == opt_text(options.address)
        &&& opt_text(self.host) == opt_text(options.host)
    }
}

/// Body of the unregister call.
#[derive(Clone, Debug)]
pub struct UnregisterServiceRequest {
    pub service_id: String,
}

/// One message of the heartbeat stream.
#[derive(Clone, Debug)]
pub struct StreamHeartbeat {
    pub service_id: String,
    pub sequence: i64,
}

/// One message of the activity stream.
#[derive(Clone, Debug)]
pub struct ReportActivityRequest {
    pub service_id: String,
    pub target_service: String,
    pub activity_type: ActivityType,
    pub timestamp_ms: Option<i64>,
    pub latency_ms: Option<i32>,
    pub method: Option<String>,
    pub success: Option<bool>,
    pub batch_size: Option<i32>,
    pub error_message: Option<String>,
}

/// An activity message, as contracts speak of it.
pub struct ActivityEventView {
    pub service_id: Seq<char>,
    pub target_service: Seq<char>,
    pub activity_type: ActivityType,
    pub timestamp_ms: Option<i64>,
    pub latency_ms: Option<i32>,
    pub method: Option<Seq<char>>,
    pub success: Option<bool>,
    pub batch_size: Option<i32>,
    pub error_message: Option<Seq<char>>,
}

impl View for ReportActivityRequest {
    type V = ActivityEventView;

    open spec fn view(&self) -> ActivityEventView {
        ActivityEventView {
            service_id: self.service_id@,
            target_service: self.target_service@,
            activity_type: self.activity_type,
            timestamp_ms: self.timestamp_ms,
            latency_ms: self.latency_ms,
            method: opt_text(self.method),
            success: self.success,
            batch_size: self.batch_size,
            error_message: opt_text(self.error_message),
        }
    }
}

/// The message that reports `report` under `service_id`: the report's own
/// timestamp where it has one, else `now_ms`; no batch size.
pub open spec fn event_for(service_id: Seq<char>, report: &ActivityReport, now_ms: i64)
    -> ActivityEventView {
    ActivityEventView {
        service_id,
        target_service: report.target_service@,
        activity_type: report.activity_type,
        timestamp_ms: Some(
            match report.timestamp_ms {
                Some(at) => at,
                None => now_ms,
            },
        ),
        latency_ms: report.latency_ms,
        method: opt_text(report.method),
        success: report.success,
        batch_size: None,
        error_message: opt_text(report.error_message),
    }
}

/// The messages of a queue, in order.
pub open spec fn events_of(queue: Seq<ReportActivityRequest>) -> Seq<ActivityEventView> {
    queue.map_values(|event: ReportActivityRequest| event@)
}

/// How the registration call ended.
#[derive(Clone, Debug)]
pub enum HandleReply {
    /// The call failed: the reason, as the transport gives it.
    Failed(String),
    /// The registry answered, with or without a handle.
    Answered(Option<ServiceHandle>),
}

impl HandleReply {
    /// The handle that the reply grants, if it grants one.
    pub open spec fn granted(&self) -> Option<ServiceHandle> {
        match self {
            HandleReply::Answered(Some(handle)) => Some(*handle),
            _ => None,
        }
    }

    /// The text of the error that a reply without handle stands for.
    pub open spec fn failure(&self) -> Seq<char> {
        match self {
            HandleReply::Failed(reason) => reason@,
            _ => "Topology registration failed: missing service handle."@,
        }
    }
}

/// What `register` asks the caller to do.
#[derive(Clone, Debug)]
pub enum RegisterPlan {
    /// The service is registered: this is its handle, and nothing is sent.
    Already(ServiceHandle),
    /// A registration call is under way: nothing is sent.
    InFlight,
    /// The service is not registered: send the request, then call
    /// `complete_register`.
    Send(RegisterServiceRequest),
}

/// What the caller starts after a registration that was granted.
#[derive(Clone, Debug)]
pub struct Registered {
    /// The handle, as the registry gave it.
    pub handle: ServiceHandle,
    /// The first message of the heartbeat stream, to send as the stream
    /// opens.
    pub first_heartbeat: StreamHeartbeat,
    /// Whether to open the activity stream.
    pub open_activity_stream: bool,
}

/// What a reporter holds, as contracts speak of it.
pub struct ReporterView {
    pub service_id: Option<Seq<char>>,
    pub heartbeat_interval_ms: Option<i32>,
    /// Whether reports are accepted into the queue.
    pub activity_open: bool,
    /// The activity messages that wait for the stream, oldest first.
    pub pending: Seq<ActivityEventView>,
    /// The number of the last heartbeat of the current stream.
    pub heartbeat_sequence: i64,
    /// Whether a registration call has been asked for and has not ended.
    pub registering: bool,
}

impl ReporterView {
    /// A reporter that never registered.
    pub open spec fn initial() -> ReporterView {
        ReporterView {
            service_id: None,
            heartbeat_interval_ms: None,
            activity_open: false,
            pending: Seq::empty(),
            heartbeat_sequence: 0,
            registering: false,
        }
    }

    /// Whether a report is taken into the queue.
    pub open spec fn accepts_reports(self) -> bool {
        self.activity_open && self.service_id.is_some()
    }

    /// The reporter after `report` was handed in at `now_ms`.
    pub open spec fn after_report(self, report: &ActivityReport, now_ms: i64) -> ReporterView {
        if self.accepts_reports() {
            ReporterView {
                pending: self.pending.push(event_for(self.service_id.unwrap(), report, now_ms)),
                ..self
            }
        } else {
            self
        }
    }

    /// The reporter after it lost or gave up its identity. A reporter
    /// without identity is left as it was. One with an identity forgets it
    /// and the heartbeat interval and accepts no more reports. What waits in
    /// the queue stays there, and a registration call that is under way
    /// stays under way until its end is reported.
    pub open spec fn closed(self) -> ReporterView {
        if self.service_id.is_none() {
            self
        } else {
            ReporterView {
                service_id: None,
                heartbeat_interval_ms: None,
                activity_open: false,
                ..self
            }
        }
    }

    /// `plan` is what the reporter asks for in order to be registered.
    pub open spec fn plans(self, options: &TopologyReporterOptions, plan: RegisterPlan) -> bool {
        match plan {
            RegisterPlan::Already(handle) => {
                &&& self.service_id == Some(handle.service_id@)
                &&& handle.heartbeat_interval_ms == match self.heartbeat_interval_ms {
                    Some(interval) => interval,
                    None => 0,
                }
                &&& handle.timeout_multiplier == 0
            },
            RegisterPlan::InFlight => self.service_id.is_none() && self.registering,
            RegisterPlan::Send(request) => self.service_id.is_none() && !self.registering
                && request.describes(options),
        }
    }

    /// Whether a further heartbeat can be numbered.
    pub open spec fn can_beat(self) -> bool {
        self.service_id.is_some() && self.heartbeat_interval_ms.is_some()
            && self.heartbeat_sequence < i64::MAX
    }
}

/// Registers a service once and feeds its heartbeat and activity streams.
pub struct TopologyReporter {
    service_id: Option<String>,
    heartbeat_interval_ms: Option<i32>,
    activity_open: bool,
    queue: Vec<ReportActivityRequest>,
    heartbeat_sequence: i64,
    registering: bool,
    options: TopologyReporterOptions,
}

impl View for TopologyReporter {
    type V = ReporterView;

    closed spec fn view(&self) -> ReporterView {
        ReporterView {
            service_id: opt_text(self.service_id),
            heartbeat_interval_ms: self.heartbeat_interval_ms,
            activity_open: self.activity_open,
            pending: events_of(self.queue@),
            heartbeat_sequence: self.heartbeat_sequence,
            registering: self.registering,
        }
    }
}

impl TopologyReporter {
    /// The facts that the reporter registers with.
    pub closed spec fn descriptor(&self) -> TopologyReporterOptions {
        self.options
    }

    /// A reporter that is not registered and holds no event.
    pub fn new(options: TopologyReporterOptions) -> (reporter: Self)
        ensures
            reporter@ == ReporterView::initial(),
            reporter.descriptor() == options,
    {
        let reporter = TopologyReporter {
            service_id: None,
            heartbeat_interval_ms: None,
            activity_open: false,
            queue: Vec::new(),
            heartbeat_sequence: 0,
            registering: false,
            options,
        };
        assert(events_of(reporter.queue@) =~= Seq::empty());
        reporter
    }

    /// The address to connect to: the registry's address with a scheme.
    pub fn topology_url(&self) -> (url: String)
        ensures
            url@ == spec_normalize_broker_url(self.descriptor().topology_address@),
    {
        normalize_broker_url(self.options.topology_address.as_str())
    }

    /// What to do in order to be registered. A registered service gets its
    /// handle back and sends nothing. Another gets the request to send, once:
    /// until the end of that call is reported, nothing more is sent.
    pub fn register(&mut self) -> (plan: RegisterPlan)
        ensures
            old(self)@.plans(&old(self).descriptor(), plan),
            final(self).descriptor() == old(self).descriptor(),
            final(self)@ == (ReporterView {
                registering: old(self)@.registering || plan is Send,
                ..old(self)@
            }),
    {
        match &self.service_id {
            Some(id) => RegisterPlan::Already(
                ServiceHandle {
                    service_id: id.clone(),
                    heartbeat_interval_ms: match self.heartbeat_interval_ms {
                        Some(interval) => interval,
                        None => 0,
                    },
                    timeout_multiplier: 0,
                },
            ),
            None => {
                if self.registering {
                    RegisterPlan::InFlight
                } else {
                    self.registering = true;
                    RegisterPlan::Send(
                        RegisterServiceRequest {
                            service_name: self.options.service_name.clone(),
                            service_type: self.options.service_type,
                            language: self.options.language,
                            version: clone_text(&self.options.version),
                            address: clone_text(&self.options.address),
                            host: clone_text(&self.options.host),
                        },
                    )
                }
            },
        }
    }

    /// Takes the end of the registration call. A reply with a handle
    /// registers the service: the heartbeat stream starts with the message
    /// numbered 1, and reports are accepted from now on where activity
    /// reporting is enabled. Any other reply changes nothing but that no
    /// registration call is under way any more.
    pub fn complete_register(&mut self, reply: HandleReply) -> (outcome: Result<
        Registered,
        String,
    >)
        ensures
            final(self).descriptor() == old(self).descriptor(),
            match reply.granted() {
                Some(handle) => {
                    &&& outcome matches Ok(started)
                    &&& started.handle == handle
                    &&& started.first_heartbeat.service_id@ == handle.service_id@
                    &&& started.first_heartbeat.sequence == 1
                    &&& started.open_activity_stream == old(self).descriptor().enable_activity
                    &&& final(self)@ == (ReporterView {
                        service_id: Some(handle.service_id@),
                        heartbeat_interval_ms: Some(handle.heartbeat_interval_ms),
                        activity_open: old(self).descriptor().enable_activity || old(self)@.activity_open,
                        pending: old(self)@.pending,
                        heartbeat_sequence: 1,
                        registering: false,
                    })
                },
                None => {
                    &&& outcome matches Err(message)
                    &&& message@ == reply.failure()
                    &&& final(self)@ == (ReporterView { registering: false, ..old(self)@ })
                },
            },
    {
        self.registering = false;
        match reply {
            HandleReply::Failed(reason) => Err(reason),
            HandleReply::Answered(None) => Err(
                String::from_str("Topology registration failed: missing service handle."),
            ),
            HandleReply::Answered(Some(handle)) => {
                self.service_id = Some(handle.service_id.clone());
                self.heartbeat_interval_ms = Some(handle.heartbeat_interval_ms);
                self.heartbeat_sequence = 1;
                let first_heartbeat = StreamHeartbeat {
                    service_id: handle.service_id.clone(),
                    sequence: 1,
                };
                let open_activity_stream = self.options.enable_activity;
                if open_activity_stream {
                    self.activity_open = true;
                }
                Ok(Registered { handle, first_heartbeat, open_activity_stream })
            },
        }
    }

    /// The period of the heartbeat timer in milliseconds, where the service
    /// is registered with an interval above zero.
    pub fn heartbeat_period_ms(&self) -> (period: Option<u64>)
        ensures
            period == match (self@.service_id, self@.heartbeat_interval_ms) {
                (Some(_), Some(interval)) => if interval > 0 {
                    Some(interval as u64)
                } else {
                    None::<u64>
                },
                _ => None::<u64>,
            },
    {
        match (&self.service_id, self.heartbeat_interval_ms) {
            (Some(_), Some(interval)) => if interval > 0 {
                Some(interval as u64)
            } else {
                None
            },
            _ => None,
        }
    }

    /// The next message of the heartbeat stream, on a tick of the heartbeat
    /// timer: its number is one above the last. There is none where the
    /// service is not registered or the numbers are used up.
    pub fn next_heartbeat(&mut self) -> (beat: Option<StreamHeartbeat>)
        ensures
            final(self).descriptor() == old(self).descriptor(),
            beat.is_some() == old(self)@.can_beat(),
            match beat {
                Some(message) => {
                    &&& Some(message.service_id@) == old(self)@.service_id
                    &&& message.sequence == old(self)@.heartbeat_sequence + 1
                    &&& final(self)@ == (ReporterView {
                        heartbeat_sequence: message.sequence,
                        ..old(self)@
                    })
                },
                None => final(self)@ == old(self)@,
            },
    {
        if self.heartbeat_interval_ms.is_none() || self.heartbeat_sequence == i64::MAX {
            return None;
        }
        match &self.service_id {
            Some(id) => {
                let service_id = id.clone();
                self.heartbeat_sequence = self.heartbeat_sequence + 1;
                Some(StreamHeartbeat { service_id, sequence: self.heartbeat_sequence })
            },
            None => None,
        }
    }

    /// Hands in a report at `now_ms`, the time in milliseconds since the
    /// epoch. Where the service is registered and reports are accepted, the
    /// message joins the end of the queue; else the report is dropped.
    /// Nothing is sent and nothing can fail.
    pub fn report_activity(&mut self, report: ActivityReport, now_ms: i64) -> (queued: bool)
        ensures
            final(self).descriptor() == old(self).descriptor(),
            queued == old(self)@.accepts_reports(),
            final(self)@ == old(self)@.after_report(&report, now_ms),
    {
        if !self.activity_open {
            return false;
        }
        match &self.service_id {
            Some(id) => {
                let event = ReportActivityRequest {
                    service_id: id.clone(),
                    target_service: report.target_service,
                    activity_type: report.activity_type,
                    timestamp_ms: Some(
                        match report.timestamp_ms {
                            Some(at) => at,
                            None => now_ms,
                        },
                    ),
                    latency_ms: report.latency_ms,
                    method: report.method,
                    success: report.success,
                    batch_size: None,
                    error_message: report.error_message,
                };
                let ghost before = self.queue@;
                self.queue.push(event);
                assert(events_of(self.queue@) =~= events_of(before).push(event@));
                true
            },
            None => false,
        }
    }

    /// How many messages wait for the activity stream.
    pub fn pending_len(&self) -> (count: usize)
        ensures
            count == self@.pending.len(),
    {
        self.queue.len()
    }

    /// Takes every waiting message out of the queue, oldest first, for the
    /// activity stream.
    pub fn take_pending(&mut self) -> (batch: Vec<ReportActivityRequest>)
        ensures
            final(self).descriptor() == old(self).descriptor(),
            events_of(batch@) == old(self)@.pending,
            final(self)@ == (ReporterView { pending: Seq::empty(), ..old(self)@ }),
    {
        let mut batch: Vec<ReportActivityRequest> = Vec::new();
        std::mem::swap(&mut self.queue, &mut batch);
        assert(events_of(self.queue@) =~= Seq::empty());
        batch
    }

    /// What the reporter currently holds.
    pub fn status(&self) -> (status: TopologyReporterStatus)
        ensures
            opt_text(status.service_id) == self@.service_id,
            status.heartbeat_interval_ms == self@.heartbeat_interval_ms,
            status.activity_enabled == self@.activity_open,
    {
        TopologyReporterStatus {
            service_id: clone_text(&self.service_id),
            heartbeat_interval_ms: self.heartbeat_interval_ms,
            activity_enabled: self.activity_open,
        }
    }

    /// Notes that a stream failed: the identity is dropped and reports are
    /// no longer accepted, so that the next `register` asks for a new one.
    /// A reporter without identity is left as it was.
    pub fn stream_failed(&mut self)
        ensures
            final(self).descriptor() == old(self).descriptor(),
            final(self)@ == old(self)@.closed(),
            old(self)@.service_id.is_none() ==> final(self)@ == old(self)@,
    {
        if self.service_id.is_some() {
            self.activity_open = false;
            self.service_id = None;
            self.heartbeat_interval_ms = None;
        }
    }

    /// Shuts the reporter down. Where the service has an identity, the
    /// reporter forgets it and the unregister request to send under it is
    /// returned; whether that call succeeds does not matter. Where it has
    /// none, nothing is sent and nothing changes: a second call is a no-op.
    /// A registration call that is under way stays under way.
    pub fn shutdown(&mut self) -> (request: Option<UnregisterServiceRequest>)
        ensures
            final(self).descriptor() == old(self).descriptor(),
            final(self)@ == old(self)@.closed(),
            old(self)@.service_id.is_none() ==> final(self)@ == old(self)@,
            final(self)@.service_id.is_none(),
            final(self)@.registering == old(self)@.registering,
            match request {
                Some(body) => old(self)@.service_id == Some(body.service_id@),
                None => old(self)@.service_id.is_none(),
            },
    {
        match self.service_id.take() {
            Some(service_id) => {
                self.activity_open = false;
                self.heartbeat_interval_ms = None;
                Some(UnregisterServiceRequest { service_id })
            },
            None => None,
        }
    }
}

/// The queue after a run of reports was handed in, one after the other.
pub open spec fn after_reports(
    reporter: ReporterView,
    reports: Seq<(ActivityReport, i64)>,
) -> ReporterView
    decreases reports.len(),
{
    if reports.len() == 0 {
        reporter
    } else {
        after_reports(reporter, reports.drop_last()).after_report(
            &reports.last().0,
            reports.last().1,
        )
    }
}

/// Reports leave the queue in the order in which they were handed in: after
/// any run of reports to a reporter that accepts them, the queue holds what it
/// held before, followed by one message for each report, in the order of the
/// reports.
pub proof fn lemma_reports_keep_their_order(
    reporter: ReporterView,
    reports: Seq<(ActivityReport, i64)>,
)
    requires
        reporter.accepts_reports(),
    ensures
        after_reports(reporter, reports).accepts_reports(),
        after_reports(reporter, reports).service_id == reporter.service_id,
        after_reports(reporter, reports).pending == reporter.pending + Seq::new(
            reports.len(),
            |i: int| event_for(reporter.service_id.unwrap(), &reports[i].0, reports[i].1),
        ),
    decreases reports.len(),
{
    let expected = Seq::new(
        reports.len(),
        |i: int| event_for(reporter.service_id.unwrap(), &reports[i].0, reports[i].1),
    );
    if reports.len() > 0 {
        let earlier = reports.drop_last();
        lemma_reports_keep_their_order(reporter, earlier);
        let before = Seq::new(
            earlier.len(),
            |i: int| event_for(reporter.service_id.unwrap(), &earlier[i].0, earlier[i].1),
        );
        assert((reporter.pending + before).push(
            event_for(reporter.service_id.unwrap(), &reports.last().0, reports.last().1),
        ) =~= reporter.pending + expected);
    }
}

/// A reporter without identity, or one that does not accept reports, drops
/// every report: its queue does not change.
pub proof fn lemma_report_without_identity_is_dropped(
    reporter: ReporterView,
    report: ActivityReport,
    now_ms: i64,
)
    requires
        reporter.service_id.is_none() || !reporter.activity_open,
    ensures
        reporter.after_report(&report, now_ms) == reporter,
{
}

/// Shutting down twice is shutting down once: after the first the reporter
/// holds no identity, so the second has nothing to send and changes nothing.
/// Shutting down a reporter without identity changes nothing at all, and a
/// registration call that is under way stays under way.
pub proof fn lemma_shutdown_idempotent(reporter: ReporterView)
    ensures
        reporter.closed().service_id.is_none(),
        reporter.closed().closed() == reporter.closed(),
        reporter.service_id.is_none() ==> reporter.closed() == reporter,
        reporter.closed().registering == reporter.registering,
{
}

/// A registration stays outstanding until its end is reported: after the
/// request was asked for, neither a shutdown nor a failed stream nor any
/// report makes the reporter ask for a second one.
pub proof fn lemma_registration_stays_outstanding(
    reporter: ReporterView,
    options: TopologyReporterOptions,
    report: ActivityReport,
    now_ms: i64,
    plan: RegisterPlan,
)
    requires
        reporter.service_id.is_none(),
        reporter.registering,
    ensures
        reporter.closed().registering,
        reporter.after_report(&report, now_ms).registering,
        reporter.closed().plans(&options, plan) ==> plan is InFlight,
        reporter.after_report(&report, now_ms).plans(&options, plan) ==> plan is InFlight,
{
}

/// The registration request is sent at most once at a time: it is asked for
/// only where the service has no identity and no registration is under way,
/// and after it was asked for nothing more is sent until its end is reported.
pub proof fn lemma_one_registration_at_a_time(
    reporter: ReporterView,
    options: TopologyReporterOptions,
    first: RegisterPlan,
    second: RegisterPlan,
)
    requires
        reporter.plans(&options, first),
        (ReporterView { registering: reporter.registering || first is Send, ..reporter }).plans(
            &options,
            second,
        ),
    ensures
        first is Send ==> reporter.service_id.is_none() && !reporter.registering,
        first is Send ==> second is InFlight,
        !(first is Send && second is Send),
{
}

} // verus!
