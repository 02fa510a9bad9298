//! The four operations of the gateway and the upstream call each one maps to.

use vstd::prelude::*;
use vstd::string::*;

verus! {

/// The HTTP method of an outbound request.
#[derive(Debug, Clone, Copy, PartialEq, Eq, Structural)]
pub enum Method {
    Get,
    Post,
}

/// A local action of the gateway. Each maps to exactly one upstream call.
#[derive(Debug, Clone, Copy, PartialEq, Eq, Structural)]
pub enum Operation {
    /// Initiate a call.
    MakeCall,
    /// List the calls made so far.
    ListCalls,
    /// Fetch the details of one call.
    CallDetail,
    /// Fetch the recording URL of one call.
    RecordingUrl,
}

impl Operation {
    /// The method of the upstream call.
    pub open spec fn spec_method(self) -> Method {
        match self {
            Operation::MakeCall => Method::Post,
            Operation::ListCalls => Method::Get,
            Operation::CallDetail => Method::Get,
            Operation::RecordingUrl => Method::Get,
        }
    }

    /// Whether the upstream path names a call.
    pub open spec fn spec_takes_call_id(self) -> bool {
        self == Operation::CallDetail || self == Operation::RecordingUrl
    }

    /// The upstream path, with the call's identifier substituted verbatim
    /// where the operation names a call. The identifier is ignored otherwise.
    pub open spec fn spec_upstream_path(self, call_id: Seq<char>) -> Seq<char> {
        match self {
            Operation::MakeCall => "/api/proxy/make-call/"@,
            Operation::ListCalls => "/api/proxy/calls/list/"@,
            Operation::CallDetail => "/api/proxy/call/detail/"@ + call_id + "/"@,
            Operation::RecordingUrl => "/api/proxy/recording-url/"@ + call_id + "/"@,
        }
    }

    /// Returns the method of the upstream call.
    pub fn method(&self) -> (method: Method)
        ensures
            method == self.spec_method(),
    {
        match self {
            Operation::MakeCall => Method::Post,
            Operation::ListCalls => Method::Get,
            Operation::CallDetail => Method::Get,
            Operation::RecordingUrl => Method::Get,
        }
    }

    /// Tells whether the upstream path names a call.
    pub fn takes_call_id(&self) -> (takes: bool)
        ensures
            takes == self.spec_takes_call_id(),
    {
        match self {
            Operation::MakeCall => false,
            Operation::ListCalls => false,
            Operation::CallDetail => true,
            Operation::RecordingUrl => true,
        }
    }

    /// Builds the upstream path of this operation for `call_id`.
    pub fn upstream_path(&self, call_id: &str) -> (path: String)
        ensures
            path@ == self.spec_upstream_path(call_id@),
    {
        match self {
            Operation::MakeCall => String::from_str("/api/proxy/make-call/"),
            Operation::ListCalls => String::from_str("/api/proxy/calls/list/"),
            Operation::CallDetail => {
                let mut path = String::from_str("/api/proxy/call/detail/");
                path.append(call_id);
                path.append("/");
                path
            },
            Operation::RecordingUrl => {
                let mut path = String::from_str("/api/proxy/recording-url/");
                path.append(call_id);
                path.append("/");
                path
            },
        }
    }
}

} // verus!
