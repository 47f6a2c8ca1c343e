//! What a service says of itself, what it reports, and what the registry is
//! sent and answers.

use vstd::prelude::*;
use vstd::string::StringExecFns;
use crate::kinds::{ActivityType, ServiceLanguage, ServiceType};
use crate::status::{failure_message, is_success_status, spec_failure_message, success_status};

verus! {

/// The characters of an optional text.
pub open spec fn opt_text(text: Option<String>) -> Option<Seq<char>> {
    match text {
        Some(s) => Some(s@),
        None => None,
    }
}

/// Copies an optional text.
pub fn clone_text(text: &Option<String>) -> (copy: Option<String>)
    ensures
        opt_text(copy) == opt_text(*text),
{
    match text {
        Some(s) => Some(s.clone()),
        None => None,
    }
}

/// Heartbeat interval of a configuration made by `with_defaults`, in
/// milliseconds.
pub const DEFAULT_HEARTBEAT_INTERVAL_MS: u64 = 5000;

/// The facts a process registers with, fixed at start.
#[derive(Clone, Debug)]
pub struct TopologyProxyConfig {
    pub proxy_address: String,
    pub service_name: String,
    pub service_type: ServiceType,
    pub language: ServiceLanguage,
    pub service_interface: Option<String>,
    pub service_role: Option<String>,
    pub program_name: Option<String>,
    pub version: Option<String>,
    pub address: Option<String>,
    pub host: Option<String>,
    pub enable_activity: bool,
    /// Milliseconds between two heartbeats; zero sends none.
    pub heartbeat_interval_ms: u64,
}

impl TopologyProxyConfig {
    /// A configuration with no optional fact set, activity reporting on, and
    /// a heartbeat every five seconds.
    pub fn with_defaults(
        proxy_address: String,
        service_name: String,
        service_type: ServiceType,
        language: ServiceLanguage,
    ) -> (config: Self)
        ensures
            config.proxy_address == proxy_address,
            config.service_name == service_name,
            config.service_type == service_type,
            config.language == language,
            config.service_interface.is_none(),
            config.service_role.is_none(),
            config.program_name.is_none(),
            config.version.is_none(),
            config.address.is_none(),
            config.host.is_none(),
            config.enable_activity,
            config.heartbeat_interval_ms == DEFAULT_HEARTBEAT_INTERVAL_MS,
    {
        TopologyProxyConfig {
            proxy_address,
            service_name,
            service_type,
            language,
            service_interface: None,
            service_role: None,
            program_name: None,
            version: None,
            address: None,
            host: None,
            enable_activity: true,
            heartbeat_interval_ms: DEFAULT_HEARTBEAT_INTERVAL_MS,
        }
    }
}

/// One interaction with another service, as the request path records it.
#[derive(Clone, Debug)]
pub struct ActivityReport {
    pub target_service: String,
    pub activity_type: ActivityType,
    pub timestamp_ms: Option<i64>,
    pub latency_ms: Option<i32>,
    pub method: Option<String>,
    pub success: Option<bool>,
    pub error_message: Option<String>,
}

/// Why a call to the registry failed.
#[derive(Clone, Debug)]
pub enum TopologyProxyError {
    /// The registry could not be reached, or its answer could not be read.
    Http(String),
    /// The registry answered, but not with what the call needs.
    InvalidResponse(String),
}

impl TopologyProxyError {
    /// The text of the error.
    pub open spec fn text(&self) -> Seq<char> {
        match self {
            TopologyProxyError::Http(message) => message@,
            TopologyProxyError::InvalidResponse(message) => message@,
        }
    }

    /// Whether the error is a failure to reach the registry.
    pub open spec fn is_transport(&self) -> bool {
        self is Http
    }

    /// The text of the error, as it is logged.
    pub fn message(&self) -> (message: String)
        ensures
            message@ == self.text(),
    {
        match self {
            TopologyProxyError::Http(message) => message.clone(),
            TopologyProxyError::InvalidResponse(message) => message.clone(),
        }
    }
}

/// Body of a registration call.
#[derive(Clone, Debug)]
pub struct RegisterRequest {
    pub service_name: String,
    pub service_type: String,
    pub language: String,
    pub service_interface: Option<String>,
    pub service_role: Option<String>,
    pub program_name: Option<String>,
    pub version: Option<String>,
    pub address: Option<String>,
    pub host: Option<String>,
    pub enable_activity: bool,
}

impl RegisterRequest {
    /// The request carries exactly the facts of `config`.
    pub open spec fn describes(&self, config: &TopologyProxyConfig) -> bool {
        &&& self.service_name@ == config.service_name@
        &&& self.service_type@ == config.service_type.wire_name()
        &&& self.language@ == config.language.wire_name()
        &&& opt_text(self.service_interface) == opt_text(config.service_interface)
        &&& opt_text(self.service_role) == opt_text(config.service_role)
        &&& opt_text(self.program_name) == opt_text(config.program_name)
        &&& opt_text(self.version) == opt_text(config.version)
        &&& opt_text(self.address) == opt_text(config.address)
        &&& opt_text(self.host) == opt_text(config.host)
        &&& self.enable_activity == config.enable_activity
    }

    /// Builds the registration request for `config`.
    pub fn for_config(config: &TopologyProxyConfig) -> (request: Self)
        ensures
            request.describes(config),
    {
        RegisterRequest {
            service_name: config.service_name.clone(),
            service_type: String::from_str(config.service_type.as_str()),
            language: String::from_str(config.language.as_str()),
            service_interface: clone_text(&config.service_interface),
            service_role: clone_text(&config.service_role),
            program_name: clone_text(&config.program_name),
            version: clone_text(&config.version),
            address: clone_text(&config.address),
            host: clone_text(&config.host),
            enable_activity: config.enable_activity,
        }
    }
}

/// Body of a heartbeat call.
#[derive(Clone, Debug)]
pub struct HeartbeatRequest {
    pub service_id: String,
}

/// Body of an unregister call.
#[derive(Clone, Debug)]
pub struct UnregisterRequest {
    pub service_id: String,
}

/// Body of an activity call.
#[derive(Clone, Debug)]
pub struct ActivityRequest {
    pub service_id: String,
    pub target_service: String,
    pub activity_type: String,
    pub timestamp_ms: Option<i64>,
    pub latency_ms: Option<i32>,
    pub method: Option<String>,
    pub success: Option<bool>,
    pub error_message: Option<String>,
}

impl ActivityRequest {
    /// The request carries `report` under the identity `service_id`.
    pub open spec fn carries(&self, service_id: Seq<char>, report: &ActivityReport) -> bool {
        &&& self.service_id@ == service_id
        &&& self.target_service@ == report.target_service@
        &&& self.activity_type@ == report.activity_type.wire_name()
        &&& self.timestamp_ms == report.timestamp_ms
        &&& self.latency_ms == report.latency_ms
        &&& opt_text(self.method) == opt_text(report.method)
        &&& self.success == report.success
        &&& opt_text(self.error_message) == opt_text(report.error_message)
    }

    /// Builds the activity request that carries `report` under `service_id`.
    pub fn for_report(service_id: String, report: ActivityReport) -> (request: Self)
        ensures
            request.carries(service_id@, &report),
    {
        ActivityRequest {
            service_id,
            target_service: report.target_service,
            activity_type: String::from_str(report.activity_type.as_str()),
            timestamp_ms: report.timestamp_ms,
            latency_ms: report.latency_ms,
            method: report.method,
            success: report.success,
            error_message: report.error_message,
        }
    }
}

/// The four calls that the registry's HTTP front accepts.
#[derive(Clone, Copy, Debug, PartialEq, Eq, Structural)]
pub enum Endpoint {
    Register,
    Heartbeat,
    Activity,
    Unregister,
}

impl Endpoint {
    /// The path of the call under the registry's address.
    pub open spec fn path(self) -> Seq<char> {
        match self {
            Endpoint::Register => "/register"@,
            Endpoint::Heartbeat => "/heartbeat"@,
            Endpoint::Activity => "/activity"@,
            Endpoint::Unregister => "/unregister"@,
        }
    }

    /// How a failure of the call is introduced in an error message.
    pub open spec fn failure_prefix(self) -> Seq<char> {
        match self {
            Endpoint::Register => "Registration failed: "@,
            Endpoint::Heartbeat => "Heartbeat failed: "@,
            Endpoint::Activity => "Activity report failed: "@,
            Endpoint::Unregister => "Unregister failed: "@,
        }
    }

    /// The address to post the call to: the registry's address, then the
    /// call's path.
    pub fn url(self, proxy_address: &str) -> (url: String)
        ensures
            url@ == proxy_address@ + self.path(),
    {
        let path = match self {
            Endpoint::Register => "/register",
            Endpoint::Heartbeat => "/heartbeat",
            Endpoint::Activity => "/activity",
            Endpoint::Unregister => "/unregister",
        };
        String::from_str(proxy_address).concat(path)
    }

    /// How a failure of the call is introduced in an error message.
    pub fn failure_prefix_str(self) -> (prefix: &'static str)
        ensures
            prefix@ == self.failure_prefix(),
    {
        match self {
            Endpoint::Register => "Registration failed: ",
            Endpoint::Heartbeat => "Heartbeat failed: ",
            Endpoint::Activity => "Activity report failed: ",
            Endpoint::Unregister => "Unregister failed: ",
        }
    }
}

/// How a call that expects no body ended.
#[derive(Clone, Debug)]
pub enum CallReply {
    /// No answer: the reason, as the transport gives it.
    Unreachable(String),
    /// An answer with this HTTP status.
    Status(u16),
}

impl CallReply {
    /// The call reached the registry and was accepted.
    pub open spec fn accepted(&self) -> bool {
        match self {
            CallReply::Unreachable(_) => false,
            CallReply::Status(code) => success_status(*code),
        }
    }

    /// The error that a reply which is not accepted stands for.
    pub open spec fn failure(&self, call: Endpoint) -> (bool, Seq<char>) {
        match self {
            CallReply::Unreachable(reason) => (true, reason@),
            CallReply::Status(code) => (false, spec_failure_message(call.failure_prefix(), *code)),
        }
    }
}

/// What the body of an accepted registration held.
#[derive(Clone, Debug)]
pub enum RegisterBody {
    /// The body could not be read as a registration answer: the reason.
    Unreadable(String),
    /// The identity that the registry assigned.
    Handle { service_id: String },
}

/// How a registration call ended.
#[derive(Clone, Debug)]
pub enum RegisterReply {
    /// No answer: the reason, as the transport gives it.
    Unreachable(String),
    /// An answer with this HTTP status; the body counts only under a status
    /// that reports success.
    Answered { status: u16, body: RegisterBody },
}

impl RegisterReply {
    /// The identity that the reply grants, if it grants one: the status
    /// reports success and the body holds an identity that is not empty.
    pub open spec fn granted(&self) -> Option<Seq<char>> {
        match self {
            RegisterReply::Answered { status, body: RegisterBody::Handle { service_id } } => {
                if success_status(*status) && service_id@.len() > 0 {
                    Some(service_id@)
                } else {
                    None
                }
            },
            _ => None,
        }
    }

    /// The error that a reply which grants nothing stands for: whether it is
    /// a transport error, and its text.
    pub open spec fn failure(&self) -> (bool, Seq<char>) {
        match self {
            RegisterReply::Unreachable(reason) => (true, reason@),
            RegisterReply::Answered { status, body } => {
                if !success_status(*status) {
                    (false, spec_failure_message(Endpoint::Register.failure_prefix(), *status))
                } else {
                    match body {
                        RegisterBody::Unreadable(reason) => (true, reason@),
                        RegisterBody::Handle { .. } => (false, "Missing serviceId in response."@),
                    }
                }
            },
        }
    }
}

impl TopologyProxyError {
    /// The error is the one that `failure` describes.
    pub open spec fn reports(&self, failure: (bool, Seq<char>)) -> bool {
        self.is_transport() == failure.0 && self.text() == failure.1
    }
}

impl CallReply {
    /// Turns the reply into the result of the call: nothing where it was
    /// accepted, else the error it stands for.
    pub fn into_result(self, call: Endpoint) -> (outcome: Result<(), TopologyProxyError>)
        ensures
            outcome.is_ok() == self.accepted(),
            outcome matches Err(error) ==> error.reports(self.failure(call)),
    {
        match self {
            CallReply::Unreachable(reason) => Err(TopologyProxyError::Http(reason)),
            CallReply::Status(code) => {
                if is_success_status(code) {
                    Ok(())
                } else {
                    Err(
                        TopologyProxyError::InvalidResponse(
                            failure_message(call.failure_prefix_str(), code),
                        ),
                    )
                }
            },
        }
    }
}

} // verus!
