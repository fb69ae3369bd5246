//! The ways in which a stage of the pipeline fails, and what the caller of the
//! service is told of each.

use vstd::prelude::*;

verus! {

/// Why a stage could not produce its result.
#[derive(Clone, Debug, PartialEq, Eq)]
pub enum PipelineError {
    /// The audio of the request is not valid base64.
    DecodeError,
    /// The media converter did not produce audio; `diagnostics` is what it
    /// reported, unchanged.
    TranscodeError { diagnostics: String },
    /// The language code is none of the supported ones.
    InvalidLanguage,
    /// A service answered with a status outside 200..=299.
    UpstreamError { status: u16, body: Vec<u8> },
    /// A service answered with success, but the expected field is not there.
    MalformedResponse,
    /// The bearer credential is missing, malformed or could not be verified.
    Unauthorized,
    /// No usable reply was received from a service.
    TransportError,
}

/// The mathematical value of a [`PipelineError`].
pub enum ErrorModel {
    DecodeError,
    TranscodeError { diagnostics: Seq<char> },
    InvalidLanguage,
    UpstreamError { status: u16, body: Seq<u8> },
    MalformedResponse,
    Unauthorized,
    TransportError,
}

impl View for PipelineError {
    type V = ErrorModel;

    open spec fn view(&self) -> ErrorModel {
        match self {
            PipelineError::DecodeError => ErrorModel::DecodeError,
            PipelineError::TranscodeError { diagnostics } => ErrorModel::TranscodeError {
                diagnostics: diagnostics@,
            },
            PipelineError::InvalidLanguage => ErrorModel::InvalidLanguage,
            PipelineError::UpstreamError { status, body } => ErrorModel::UpstreamError {
                status: *status,
                body: body@,
            },
            PipelineError::MalformedResponse => ErrorModel::MalformedResponse,
            PipelineError::Unauthorized => ErrorModel::Unauthorized,
            PipelineError::TransportError => ErrorModel::TransportError,
        }
    }
}

/// What the caller of the service learns of a failure: the kind of fault and
/// nothing of its details.
#[derive(Clone, Copy, Debug, PartialEq, Eq, Structural)]
pub enum Fault {
    /// The request named an unsupported language.
    BadRequest,
    /// The request carried no credential that could be verified.
    Unauthorized,
    /// Anything else: the request was in order and the service failed.
    ServerFault,
}

/// The fault that is reported for an error: an invalid language and a failed
/// authorization are faults of the client, every other error is a fault of the
/// server.
pub open spec fn fault_for(error: ErrorModel) -> Fault {
    match error {
        ErrorModel::InvalidLanguage => Fault::BadRequest,
        ErrorModel::Unauthorized => Fault::Unauthorized,
        _ => Fault::ServerFault,
    }
}

/// The HTTP status that carries a fault.
pub open spec fn fault_status(fault: Fault) -> u16 {
    match fault {
        Fault::BadRequest => 400,
        Fault::Unauthorized => 401,
        Fault::ServerFault => 500,
    }
}

/// The label that names a fault to the caller.
pub open spec fn fault_label(fault: Fault) -> Seq<char> {
    match fault {
        Fault::BadRequest => "Invalid language"@,
        Fault::Unauthorized => "Unauthorized"@,
        Fault::ServerFault => "Internal server error"@,
    }
}

impl Fault {
    /// True for the faults that the client can mend.
    pub open spec fn is_client_fault(self) -> bool {
        self != Fault::ServerFault
    }

    /// The HTTP status that carries this fault.
    pub fn status(self) -> (code: u16)
        ensures
            code == fault_status(self),
            400 <= code <= 499 <==> self.is_client_fault(),
    {
        match self {
            Fault::BadRequest => 400,
            Fault::Unauthorized => 401,
            Fault::ServerFault => 500,
        }
    }

    /// The label that names this fault to the caller.
    pub fn label(self) -> (label: &'static str)
        ensures
            label@ == fault_label(self),
    {
        match self {
            Fault::BadRequest => "Invalid language",
            Fault::Unauthorized => "Unauthorized",
            Fault::ServerFault => "Internal server error",
        }
    }
}

/// Maps an error to the fault that the caller is told of. The details that
/// the error carries stay behind.
pub fn fault_of(error: &PipelineError) -> (fault: Fault)
    ensures
        fault == fault_for(error@),
{
    match error {
        PipelineError::InvalidLanguage => Fault::BadRequest,
        PipelineError::Unauthorized => Fault::Unauthorized,
        _ => Fault::ServerFault,
    }
}

/// The view of a result that holds text or an error.
pub open spec fn text_result(result: Result<String, PipelineError>) -> Result<Seq<char>, ErrorModel> {
    match result {
        Ok(text) => Ok(text@),
        Err(error) => Err(error@),
    }
}

/// The view of a result that holds bytes or an error.
pub open spec fn bytes_result(result: Result<Vec<u8>, PipelineError>) -> Result<Seq<u8>, ErrorModel> {
    match result {
        Ok(bytes) => Ok(bytes@),
        Err(error) => Err(error@),
    }
}

} // verus!
