//! The network requests the controller asks the host to make, and how it
//! reads their answers.

use vstd::prelude::*;

verus! {

/// The three addresses the controller ever contacts.
#[derive(Clone, Copy, Debug, PartialEq, Eq, Structural)]
pub enum Endpoint {
    /// The backend's health check.
    Health,
    /// The backend's shutdown hook.
    Shutdown,
    /// A well-known address outside, to tell whether the network is up.
    Internet,
}

/// The request method.
#[derive(Clone, Copy, Debug, PartialEq, Eq, Structural)]
pub enum Method {
    Get,
    Post,
}

/// One request for the host to make.
#[derive(Clone, Copy, Debug, PartialEq, Eq, Structural)]
pub struct Request {
    pub endpoint: Endpoint,
    pub method: Method,
    /// The time allowed for the request, in milliseconds; `None` leaves the
    /// client's own default in force.
    pub timeout_ms: Option<u64>,
}

/// Time allowed for one connectivity probe.
pub const CONNECTIVITY_TIMEOUT_MS: u64 = 2000;

/// Time allowed for the shutdown request.
pub const SHUTDOWN_TIMEOUT_MS: u64 = 500;

impl Endpoint {
    /// The address of the endpoint.
    pub open spec fn spec_url(self) -> Seq<char> {
        match self {
            Endpoint::Health => "http://127.0.0.1:8000/health"@,
            Endpoint::Shutdown => "http://localhost:8000/shutdown"@,
            Endpoint::Internet => "https://www.google.com"@,
        }
    }

    /// The address of the endpoint.
    pub fn url(self) -> (s: &'static str)
        ensures
            s@ == self.spec_url(),
    {
        match self {
            Endpoint::Health => "http://127.0.0.1:8000/health",
            Endpoint::Shutdown => "http://localhost:8000/shutdown",
            Endpoint::Internet => "https://www.google.com",
        }
    }
}

impl Request {
    /// The health check: a `GET` under the client's default timeout.
    pub open spec fn spec_health() -> Request {
        Request { endpoint: Endpoint::Health, method: Method::Get, timeout_ms: None }
    }

    /// The connectivity probe: a `GET` that may take two seconds.
    pub open spec fn spec_internet() -> Request {
        Request {
            endpoint: Endpoint::Internet,
            method: Method::Get,
            timeout_ms: Some(CONNECTIVITY_TIMEOUT_MS),
        }
    }

    /// The shutdown notice: a `POST` that may take half a second.
    pub open spec fn spec_shutdown() -> Request {
        Request {
            endpoint: Endpoint::Shutdown,
            method: Method::Post,
            timeout_ms: Some(SHUTDOWN_TIMEOUT_MS),
        }
    }

    /// The health check.
    pub fn health() -> (r: Request)
        ensures
            r == Request::spec_health(),
    {
        Request { endpoint: Endpoint::Health, method: Method::Get, timeout_ms: None }
    }

    /// The connectivity probe.
    pub fn internet() -> (r: Request)
        ensures
            r == Request::spec_internet(),
    {
        Request {
            endpoint: Endpoint::Internet,
            method: Method::Get,
            timeout_ms: Some(CONNECTIVITY_TIMEOUT_MS),
        }
    }

    /// The shutdown notice.
    pub fn shutdown() -> (r: Request)
        ensures
            r == Request::spec_shutdown(),
    {
        Request {
            endpoint: Endpoint::Shutdown,
            method: Method::Post,
            timeout_ms: Some(SHUTDOWN_TIMEOUT_MS),
        }
    }
}

/// Whether an answer counts as success. An answer is the status code of the
/// response, or `None` when no response came (refused, timed out, broken
/// off). Only a status from 200 to 299 is a success.
pub open spec fn spec_is_success(answer: Option<u16>) -> bool {
    match answer {
        Some(status) => 200 <= status <= 299,
        None => false,
    }
}

/// Whether an answer counts as success.
pub fn is_success(answer: Option<u16>) -> (ok: bool)
    ensures
        ok == spec_is_success(answer),
{
    match answer {
        Some(status) => 200 <= status && status <= 299,
        None => false,
    }
}

} // verus!
