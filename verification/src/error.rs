//! The failures a request can end in, and the status each one is reported as.

use vstd::prelude::*;
use crate::status::{
    is_success_status, is_valid_status, mirror_status, mirrored_status, STATUS_BAD_GATEWAY,
    STATUS_INTERNAL_SERVER_ERROR, STATUS_UNAUTHORIZED,
};

verus! {

/// Why a request did not produce a successful reply. Every failure ends the
/// request: nothing is retried and no partial reply is sent.
#[derive(Debug, Clone, Copy, PartialEq, Eq, Structural)]
pub enum GatewayError {
    /// The deployment takes its token from configuration and none is set.
    Configuration,
    /// The deployment takes its token from the inbound `Authorization` header
    /// and the header is absent or does not have the form `Bearer <token>`.
    Unauthorized,
    /// A local resource needed to build the request is missing or unparsable.
    ResourceUnavailable,
    /// The upstream could not be reached.
    UpstreamUnreachable,
    /// The upstream answered with a body that does not fit the expected schema.
    BodyParse,
    /// The upstream answered with a well-formed body and a status outside the
    /// success range.
    UpstreamRejected { status: u16 },
}

impl GatewayError {
    /// A rejection never carries a success code: an upstream answer in the
    /// success range is no failure.
    pub open spec fn wf(self) -> bool {
        self matches GatewayError::UpstreamRejected { status } ==> !is_success_status(status)
    }

    /// The status of the local reply that reports this failure.
    #[verifier::inline]
    pub open spec fn spec_status(self) -> u16 {
        match self {
            GatewayError::Configuration => STATUS_INTERNAL_SERVER_ERROR,
            GatewayError::Unauthorized => STATUS_UNAUTHORIZED,
            GatewayError::ResourceUnavailable => STATUS_INTERNAL_SERVER_ERROR,
            GatewayError::UpstreamUnreachable => STATUS_BAD_GATEWAY,
            GatewayError::BodyParse => STATUS_BAD_GATEWAY,
            GatewayError::UpstreamRejected { status } => mirrored_status(status),
        }
    }

    /// Computes the status of the local reply that reports this failure.
    pub fn status(&self) -> (code: u16)
        ensures
            code == self.spec_status(),
            is_valid_status(code),
    {
        match self {
            GatewayError::Configuration => STATUS_INTERNAL_SERVER_ERROR,
            GatewayError::Unauthorized => STATUS_UNAUTHORIZED,
            GatewayError::ResourceUnavailable => STATUS_INTERNAL_SERVER_ERROR,
            GatewayError::UpstreamUnreachable => STATUS_BAD_GATEWAY,
            GatewayError::BodyParse => STATUS_BAD_GATEWAY,
            GatewayError::UpstreamRejected { status } => mirror_status(*status),
        }
    }
}

/// No failure is ever reported with a code of the success range, so a caller
/// can tell success from failure by the status alone.
pub proof fn lemma_failure_status_never_success(error: GatewayError)
    requires
        error.wf(),
    ensures
        !is_success_status(error.spec_status()),
        is_valid_status(error.spec_status()),
{
}

} // verus!
