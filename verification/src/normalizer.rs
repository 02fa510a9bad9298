//! The response normalizer: maps what came back from the upstream to the
//! reply that the local caller receives.

use vstd::prelude::*;
use crate::error::GatewayError;
use crate::status::{
    is_success_status, is_valid_status, mirrored_status, success_status, STATUS_BAD_GATEWAY,
    STATUS_OK,
};

verus! {

/// What one attempt to reach the upstream produced. `T` is the payload type
/// of the operation's reply schema.
#[derive(Debug, PartialEq, Eq)]
pub enum Outcome<T> {
    /// The request could not be sent or the reply could not be read.
    Unreachable,
    /// The upstream replied with `status`. `body` is the reply's body decoded
    /// against the schema, `None` if it does not fit.
    Received { status: u16, body: Option<T> },
}

/// The reply to the local caller: a status and, where there is one, the
/// payload.
#[derive(Debug, PartialEq, Eq)]
pub struct LocalResponse<T> {
    pub status: u16,
    pub body: Option<T>,
}

/// The failure that an outcome amounts to, `None` for a success. A body that
/// does not fit the schema is a failure of its own, whatever the status.
pub open spec fn classified<T>(outcome: Outcome<T>) -> Option<GatewayError> {
    match outcome {
        Outcome::Unreachable => Some(GatewayError::UpstreamUnreachable),
        Outcome::Received { status, body: None } => Some(GatewayError::BodyParse),
        Outcome::Received { status, body: Some(_) } => if is_success_status(status) {
            None
        } else {
            Some(GatewayError::UpstreamRejected { status })
        },
    }
}

/// The payload that an outcome carries to the caller: the decoded body, on
/// success and on rejection alike.
pub open spec fn carried<T>(outcome: Outcome<T>) -> Option<T> {
    match outcome {
        Outcome::Unreachable => None,
        Outcome::Received { status, body } => body,
    }
}

/// The reply for an outcome: 200 with the decoded body on success, the
/// failure's status otherwise, with the decoded body where there is one.
pub open spec fn normalized<T>(outcome: Outcome<T>) -> LocalResponse<T> {
    LocalResponse {
        status: match classified(outcome) {
            None => STATUS_OK,
            Some(error) => error.spec_status(),
        },
        body: carried(outcome),
    }
}

/// The reply that reports a failure met before anything was sent.
pub open spec fn failed<T>(error: GatewayError) -> LocalResponse<T> {
    LocalResponse { status: error.spec_status(), body: None }
}

/// Names the failure that `outcome` amounts to, `None` for a success.
pub fn classify<T>(outcome: &Outcome<T>) -> (failure: Option<GatewayError>)
    ensures
        failure == classified(*outcome),
        failure matches Some(error) ==> error.wf(),
{
    match outcome {
        Outcome::Unreachable => Some(GatewayError::UpstreamUnreachable),
        Outcome::Received { status, body: None } => Some(GatewayError::BodyParse),
        Outcome::Received { status, body: Some(_) } => {
            if success_status(*status) {
                None
            } else {
                Some(GatewayError::UpstreamRejected { status: *status })
            }
        },
    }
}

/// Turns the outcome of the upstream call into the local reply.
pub fn normalize<T>(outcome: Outcome<T>) -> (reply: LocalResponse<T>)
    ensures
        reply == normalized(outcome),
        is_valid_status(reply.status),
{
    let status = match classify(&outcome) {
        None => STATUS_OK,
        Some(error) => error.status(),
    };
    let body = match outcome {
        Outcome::Unreachable => None,
        Outcome::Received { status: _, body } => body,
    };
    LocalResponse { status, body }
}

/// Builds the reply for a failure met before anything was sent.
pub fn fail<T>(error: GatewayError) -> (reply: LocalResponse<T>)
    ensures
        reply == failed::<T>(error),
        is_valid_status(reply.status),
{
    LocalResponse { status: error.status(), body: None }
}

/// An upstream reply in the success range with a body that fits the schema
/// is answered with 200 and exactly that body.
pub proof fn lemma_success_round_trip<T>(status: u16, body: T)
    requires
        is_success_status(status),
    ensures
        normalized(Outcome::Received { status, body: Some(body) }) == (LocalResponse {
            status: STATUS_OK,
            body: Some(body),
        }),
{
}

/// An upstream reply outside the success range with a body that fits the
/// schema is answered with the upstream's own status, which is never 200, and
/// with that body. The upstream status must be one that a reply can carry.
pub proof fn lemma_rejection_mirrors_status<T>(status: u16, body: T)
    requires
        !is_success_status(status),
        is_valid_status(status),
    ensures
        normalized(Outcome::Received { status, body: Some(body) }).status == status,
        normalized(Outcome::Received { status, body: Some(body) }).status != STATUS_OK,
        normalized(Outcome::Received { status, body: Some(body) }).body == Some(body),
{
}

/// An upstream reply outside the success range whose status no reply can
/// carry is answered with the generic server error.
pub proof fn lemma_rejection_falls_back<T>(status: u16, body: T)
    requires
        !is_valid_status(status),
    ensures
        normalized(Outcome::Received { status, body: Some(body) }).status == mirrored_status(
            status,
        ),
        mirrored_status(status) == 500,
{
}

/// A body that does not fit the schema is answered with 502 and no payload,
/// whatever status the upstream sent.
pub proof fn lemma_unparsable_body_is_bad_gateway<T>(status: u16)
    ensures
        normalized(Outcome::<T>::Received { status, body: None }) == (LocalResponse::<T> {
            status: STATUS_BAD_GATEWAY,
            body: None,
        }),
{
}

/// A reply carries 200 exactly when the outcome is a success; no failure is
/// reported with a status of the success range.
pub proof fn lemma_status_tells_success<T>(outcome: Outcome<T>)
    ensures
        is_valid_status(normalized(outcome).status),
        classified(outcome) is None <==> normalized(outcome).status == STATUS_OK,
        classified(outcome) is None <==> is_success_status(normalized(outcome).status),
{
}

} // verus!
