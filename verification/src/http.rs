//! What comes back from a call to a service, and the first reading of it:
//! was there a reply, does its status report success, is its body a JSON
//! document.

use crate::error::{bytes_result, ErrorModel, PipelineError};
use crate::json::{json_document, parse_document, Json, JsonTree};
use vstd::prelude::*;

verus! {

/// The outcome of one call to a service.
#[derive(Clone, Debug, PartialEq, Eq)]
pub enum HttpOutcome {
    /// The service replied.
    Reply { status: u16, body: Vec<u8> },
    /// No reply could be had: the call failed on the way.
    TransportFailure,
}

/// The mathematical value of an [`HttpOutcome`].
pub enum OutcomeModel {
    Reply { status: u16, body: Seq<u8> },
    TransportFailure,
}

impl View for HttpOutcome {
    type V = OutcomeModel;

    open spec fn view(&self) -> OutcomeModel {
        match self {
            HttpOutcome::Reply { status, body } => OutcomeModel::Reply {
                status: *status,
                body: body@,
            },
            HttpOutcome::TransportFailure => OutcomeModel::TransportFailure,
        }
    }
}

/// A status reports success where it lies in 200..=299.
pub open spec fn status_is_success(status: u16) -> bool {
    200 <= status <= 299
}

/// The body of a reply that reports success. A reply with another status is
/// an `UpstreamError` that carries status and body; no reply at all is a
/// `TransportError`.
pub open spec fn accepted_body(outcome: OutcomeModel) -> Result<Seq<u8>, ErrorModel> {
    match outcome {
        OutcomeModel::TransportFailure => Err(ErrorModel::TransportError),
        OutcomeModel::Reply { status, body } => if status_is_success(status) {
            Ok(body)
        } else {
            Err(ErrorModel::UpstreamError { status, body })
        },
    }
}

/// The JSON document in the body of a reply that reports success. A body
/// that is no JSON text counts as a `TransportError`.
pub open spec fn accepted_document(outcome: OutcomeModel) -> Result<JsonTree, ErrorModel> {
    match accepted_body(outcome) {
        Err(error) => Err(error),
        Ok(body) => match json_document(body) {
            Some(document) => Ok(document),
            None => Err(ErrorModel::TransportError),
        },
    }
}

/// Tells whether a status reports success.
pub fn is_success(status: u16) -> (success: bool)
    ensures
        success == status_is_success(status),
{
    200 <= status && status <= 299
}

/// Takes the body out of an outcome that reports success.
pub fn accept(outcome: HttpOutcome) -> (accepted: Result<Vec<u8>, PipelineError>)
    ensures
        bytes_result(accepted) == accepted_body(outcome@),
{
    match outcome {
        HttpOutcome::TransportFailure => Err(PipelineError::TransportError),
        HttpOutcome::Reply { status, body } => if is_success(status) {
            Ok(body)
        } else {
            Err(PipelineError::UpstreamError { status, body })
        },
    }
}

/// Reads the JSON document out of an outcome that reports success.
pub fn accept_document(outcome: HttpOutcome) -> (accepted: Result<Json, PipelineError>)
    ensures
        match accepted {
            Ok(document) => accepted_document(outcome@) == Ok::<JsonTree, ErrorModel>(document@),
            Err(error) => accepted_document(outcome@) == Err::<JsonTree, ErrorModel>(error@),
        },
{
    match accept(outcome) {
        Err(error) => Err(error),
        Ok(body) => match parse_document(body.as_slice()) {
            Some(document) => Ok(document),
            None => Err(PipelineError::TransportError),
        },
    }
}

} // verus!
