//! The closed vocabularies that appear on the wire.

use vstd::prelude::*;

verus! {

/// Role a service plays in the topology.
#[derive(Clone, Copy, Debug, PartialEq, Eq, Structural)]
pub enum ServiceType {
    Client,
    Server,
    Hybrid,
}

impl ServiceType {
    /// The wire name of the service type.
    pub open spec fn wire_name(self) -> Seq<char> {
        match self {
            ServiceType::Client => "SERVICE_TYPE_CLIENT"@,
            ServiceType::Server => "SERVICE_TYPE_SERVER"@,
            ServiceType::Hybrid => "SERVICE_TYPE_HYBRID"@,
        }
    }

    /// The name under which the value goes over the wire.
    pub fn as_str(self) -> (name: &'static str)
        ensures
            name@ == self.wire_name(),
    {
        match self {
            ServiceType::Client => "SERVICE_TYPE_CLIENT",
            ServiceType::Server => "SERVICE_TYPE_SERVER",
            ServiceType::Hybrid => "SERVICE_TYPE_HYBRID",
        }
    }
}

/// Implementation language of a service.
#[derive(Clone, Copy, Debug, PartialEq, Eq, Structural)]
pub enum ServiceLanguage {
    Rust,
    Cpp,
    Typescript,
    Unknown,
}

impl ServiceLanguage {
    /// The wire name of the language.
    pub open spec fn wire_name(self) -> Seq<char> {
        match self {
            ServiceLanguage::Rust => "SERVICE_LANGUAGE_RUST"@,
            ServiceLanguage::Cpp => "SERVICE_LANGUAGE_CPP"@,
            ServiceLanguage::Typescript => "SERVICE_LANGUAGE_TYPESCRIPT"@,
            ServiceLanguage::Unknown => "SERVICE_LANGUAGE_UNKNOWN"@,
        }
    }

    /// The name under which the value goes over the wire.
    pub fn as_str(self) -> (name: &'static str)
        ensures
            name@ == self.wire_name(),
    {
        match self {
            ServiceLanguage::Rust => "SERVICE_LANGUAGE_RUST",
            ServiceLanguage::Cpp => "SERVICE_LANGUAGE_CPP",
            ServiceLanguage::Typescript => "SERVICE_LANGUAGE_TYPESCRIPT",
            ServiceLanguage::Unknown => "SERVICE_LANGUAGE_UNKNOWN",
        }
    }
}

/// What an activity event records.
#[derive(Clone, Copy, Debug, PartialEq, Eq, Structural)]
pub enum ActivityType {
    RequestSent,
    ResponseReceived,
    Error,
}

impl ActivityType {
    /// The wire name of the activity type.
    pub open spec fn wire_name(self) -> Seq<char> {
        match self {
            ActivityType::RequestSent => "ACTIVITY_TYPE_REQUEST_SENT"@,
            ActivityType::ResponseReceived => "ACTIVITY_TYPE_RESPONSE_RECEIVED"@,
            ActivityType::Error => "ACTIVITY_TYPE_ERROR"@,
        }
    }

    /// The name under which the value goes over the wire.
    pub fn as_str(self) -> (name: &'static str)
        ensures
            name@ == self.wire_name(),
    {
        match self {
            ActivityType::RequestSent => "ACTIVITY_TYPE_REQUEST_SENT",
            ActivityType::ResponseReceived => "ACTIVITY_TYPE_RESPONSE_RECEIVED",
            ActivityType::Error => "ACTIVITY_TYPE_ERROR",
        }
    }
}

} // verus!
