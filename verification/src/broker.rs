//! What a service decides when it deals with the broker: whether it is
//! listed, which listed service to call, and how long to wait between
//! attempts.

use vstd::prelude::*;
use vstd::string::StringExecFns;
use crate::address::{role_matches, same_text, spec_role_matches};
use crate::retry::{next_backoff, spec_next_backoff, MAX_DELAY_SECS, MIN_DELAY_SECS};

verus! {

/// The interface under which the calculator service is listed.
pub open spec fn calculator_interface() -> Seq<char> {
    "calculator.v1.CalculatorService"@
}

/// Interface and role of a listed service.
#[derive(Clone, Debug)]
pub struct ServiceInfo {
    pub interface_name: String,
    pub role: String,
}

/// One line of the broker's list of services.
#[derive(Clone, Debug)]
pub struct ServiceEntry {
    pub info: Option<ServiceInfo>,
    pub url: String,
    pub port: i32,
}

impl ServiceEntry {
    /// The entry lists the calculator under a role that a lookup without
    /// role accepts.
    pub open spec fn offers_calculator(&self) -> bool {
        match self.info {
            Some(info) => info.interface_name@ == calculator_interface() && spec_role_matches(
                info.role@,
            ),
            None => false,
        }
    }

    /// The entry lists the calculator under the default role at this host
    /// and port.
    pub open spec fn is_calculator_at(&self, host: Seq<char>, port: i32) -> bool {
        match self.info {
            Some(info) => info.interface_name@ == calculator_interface() && info.role@
                == "default"@ && self.url@ == host && self.port == port,
            None => false,
        }
    }
}

/// Whether the broker's list already holds the calculator at `service_host`
/// and `service_port` under the default role.
pub fn is_registered(services: &Vec<ServiceEntry>, service_host: &str, service_port: i32) -> (listed:
    bool)
    ensures
        listed == exists|i: int|
            0 <= i < services@.len() && (#[trigger] services@[i]).is_calculator_at(
                service_host@,
                service_port,
            ),
{
    let mut at: usize = 0;
    while at < services.len()
        invariant
            at <= services@.len(),
            forall|i: int|
                0 <= i < at ==> !(#[trigger] services@[i]).is_calculator_at(
                    service_host@,
                    service_port,
                ),
        decreases services@.len() - at,
    {
        let entry = &services[at];
        match &entry.info {
            Some(info) => {
                if same_text(info.interface_name.as_str(), "calculator.v1.CalculatorService")
                    && same_text(info.role.as_str(), "default") && same_text(
                    entry.url.as_str(),
                    service_host,
                ) && entry.port == service_port {
                    return true;
                }
            },
            None => {},
        }
        at += 1;
    }
    false
}

/// The address of the first entry of the broker's list that offers the
/// calculator, if any does.
pub fn lookup_service_via_list(services: &Vec<ServiceEntry>) -> (found: Option<(String, i32)>)
    ensures
        match found {
            Some(endpoint) => exists|i: int|
                {
                    &&& 0 <= i < services@.len()
                    &&& (#[trigger] services@[i]).offers_calculator()
                    &&& forall|k: int| 0 <= k < i ==> !(#[trigger] services@[k]).offers_calculator()
                    &&& endpoint.0@ == services@[i].url@
                    &&& endpoint.1 == services@[i].port
                },
            None => forall|i: int|
                0 <= i < services@.len() ==> !(#[trigger] services@[i]).offers_calculator(),
        },
{
    let mut at: usize = 0;
    while at < services.len()
        invariant
            at <= services@.len(),
            forall|i: int| 0 <= i < at ==> !(#[trigger] services@[i]).offers_calculator(),
        decreases services@.len() - at,
    {
        let entry = &services[at];
        match &entry.info {
            Some(info) => {
                if same_text(info.interface_name.as_str(), "calculator.v1.CalculatorService")
                    && role_matches(info.role.as_str()) {
                    return Some((entry.url.clone(), entry.port));
                }
            },
            None => {},
        }
        at += 1;
    }
    None
}

/// What the broker answers to a lookup by interface and role.
#[derive(Clone, Debug)]
pub struct LookupReply {
    pub url: String,
    pub port: i32,
    pub error: String,
}

impl LookupReply {
    /// The reply names a service: no error, a host, and a port above zero.
    pub open spec fn names_service(&self) -> bool {
        self.error@.len() == 0 && self.port > 0 && self.url@.len() > 0
    }
}

/// The address that a lookup reply names, or the message that says that the
/// calculator was not found, with the broker's own words.
pub fn endpoint_from_lookup(reply: &LookupReply) -> (endpoint: Result<(String, i32), String>)
    ensures
        match endpoint {
            Ok(pair) => reply.names_service() && pair.0@ == reply.url@ && pair.1 == reply.port,
            Err(message) => !reply.names_service() && message@
                == "Calculator service not found: "@ + reply.error@,
        },
{
    if reply.error.as_str().is_empty() && reply.port > 0 && !reply.url.as_str().is_empty() {
        Ok((reply.url.clone(), reply.port))
    } else {
        Err(String::from_str("Calculator service not found: ").concat(reply.error.as_str()))
    }
}

/// Seconds between two checks of a registration that succeeded.
pub const REFRESH_DELAY_SECS: u64 = 5;

/// How one attempt to register with the broker ended.
#[derive(Clone, Copy, Debug, PartialEq, Eq, Structural)]
pub enum BrokerAttempt {
    /// The broker answered; whether the service is now listed.
    Answered(bool),
    /// The broker could not be reached, or refused.
    Failed,
}

/// The registration of a service with the broker: whether it is listed, and
/// how long to wait before the next attempt. Its backoff is its own and is
/// shared with no session.
#[derive(Clone, Copy, Debug)]
pub struct BrokerRegistration {
    delay_secs: u64,
    registered: bool,
}

impl BrokerRegistration {
    /// Seconds to wait before the next attempt.
    pub closed spec fn delay(&self) -> u64 {
        self.delay_secs
    }

    /// Whether the last answer of the broker listed the service.
    pub closed spec fn listed(&self) -> bool {
        self.registered
    }

    /// A service that is not listed and waits one second after its first
    /// attempt.
    pub fn new() -> (state: Self)
        ensures
            state.delay() == MIN_DELAY_SECS,
            !state.listed(),
    {
        BrokerRegistration { delay_secs: 1, registered: false }
    }

    /// Takes the end of one attempt and gives the seconds to wait before the
    /// next. After an answer the wait is the refresh delay; after a failure
    /// it is the doubled delay, at most fifteen seconds, and the service
    /// counts as listed or not as before.
    pub fn record(&mut self, attempt: BrokerAttempt) -> (wait_secs: u64)
        ensures
            wait_secs == final(self).delay(),
            match attempt {
                BrokerAttempt::Answered(listed) => final(self).listed() == listed && final(self).delay() == REFRESH_DELAY_SECS,
                BrokerAttempt::Failed => final(self).listed() == old(self).listed() && final(self).delay() == spec_next_backoff(old(self).delay()),
            },
            MIN_DELAY_SECS <= wait_secs <= MAX_DELAY_SECS,
    {
        match attempt {
            BrokerAttempt::Answered(listed) => {
                self.registered = listed;
                self.delay_secs = REFRESH_DELAY_SECS;
            },
            BrokerAttempt::Failed => {
                self.delay_secs = next_backoff(self.delay_secs);
            },
        }
        self.delay_secs
    }

    /// Whether the service must withdraw from the broker's list on exit.
    pub fn must_unregister(&self) -> (needed: bool)
        ensures
            needed == self.listed(),
    {
        self.registered
    }

    /// Seconds to wait before the next attempt.
    pub fn delay_secs(&self) -> (secs: u64)
        ensures
            secs == self.delay(),
    {
        self.delay_secs
    }
}

} // verus!
