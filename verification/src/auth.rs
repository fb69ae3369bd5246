//! Authorization: the bearer credential of a request and the identity that
//! the identity service resolves it to.

use crate::error::{ErrorModel, PipelineError};
use crate::http::{accept_document, accepted_document, status_is_success, HttpOutcome, OutcomeModel};
use crate::json::{Json, JsonTree};
use crate::text::{strip_prefix, view_of, without_prefix};
use vstd::prelude::*;

verus! {

/// The user on whose behalf a request is handled. It is resolved anew for
/// every request.
#[derive(Clone, Debug, PartialEq, Eq)]
pub struct AuthenticatedIdentity {
    pub user_id: String,
}

/// The credential in an authorization header: what follows `Bearer `. A
/// missing header and one that does not begin so are `Unauthorized`.
pub open spec fn bearer_of(header: Option<Seq<char>>) -> Result<Seq<char>, ErrorModel> {
    match header {
        Some(value) => match without_prefix(value, "Bearer "@) {
            Some(token) => Ok(token),
            None => Err(ErrorModel::Unauthorized),
        },
        None => Err(ErrorModel::Unauthorized),
    }
}

/// The authorization header that presents a credential.
pub open spec fn authorization_for(token: Seq<char>) -> Seq<char> {
    "Bearer "@ + token
}

/// The identifier in the document of the identity service: its string
/// member `id`, where that is not empty.
pub open spec fn identity_in(document: JsonTree) -> Result<Seq<char>, ErrorModel> {
    match document.text_member("id"@) {
        Some(id) => if id.len() > 0 {
            Ok(id)
        } else {
            Err(ErrorModel::Unauthorized)
        },
        None => Err(ErrorModel::Unauthorized),
    }
}

/// The identifier that the outcome of a verification resolves to. No reply,
/// a status that reports no success, a body that is no JSON document and a
/// document without identifier are all the same to the caller:
/// `Unauthorized`.
pub open spec fn resolved_identity(outcome: OutcomeModel) -> Result<Seq<char>, ErrorModel> {
    match accepted_document(outcome) {
        Ok(document) => identity_in(document),
        Err(_) => Err(ErrorModel::Unauthorized),
    }
}

/// Takes the bearer credential out of an authorization header.
pub fn bearer_token(header: Option<&str>) -> (token: Result<String, PipelineError>)
    ensures
        match token {
            Ok(token) => bearer_of(view_of(header)) == Ok::<Seq<char>, ErrorModel>(
                token@,
            ),
            Err(error) => bearer_of(view_of(header)) == Err::<
                Seq<char>,
                ErrorModel,
            >(error@),
        },
{
    match header {
        Some(value) => match strip_prefix(value, "Bearer ") {
            Some(token) => Ok(String::from_str(token)),
            None => Err(PipelineError::Unauthorized),
        },
        None => Err(PipelineError::Unauthorized),
    }
}

/// Writes the authorization header that presents a credential.
pub fn authorization_header(token: &str) -> (header: String)
    ensures
        header@ == authorization_for(token@),
{
    let mut header = String::from_str("Bearer ");
    header.append(token);
    header
}

/// Takes the identity out of the document of the identity service.
pub fn identity_from(document: &Json) -> (identity: Result<AuthenticatedIdentity, PipelineError>)
    ensures
        match identity {
            Ok(identity) => identity_in(document@) == Ok::<Seq<char>, ErrorModel>(
                identity.user_id@,
            ),
            Err(error) => identity_in(document@) == Err::<Seq<char>, ErrorModel>(error@),
        },
{
    match document.text_member("id") {
        Some(id) => if id.unicode_len() > 0 {
            Ok(AuthenticatedIdentity { user_id: String::from_str(id) })
        } else {
            Err(PipelineError::Unauthorized)
        },
        None => Err(PipelineError::Unauthorized),
    }
}

/// Resolves the outcome of a verification to an identity.
pub fn read_identity(outcome: HttpOutcome) -> (identity: Result<
    AuthenticatedIdentity,
    PipelineError,
>)
    ensures
        match identity {
            Ok(identity) => resolved_identity(outcome@) == Ok::<Seq<char>, ErrorModel>(
                identity.user_id@,
            ),
            Err(error) => resolved_identity(outcome@) == Err::<Seq<char>, ErrorModel>(error@),
        },
{
    match accept_document(outcome) {
        Ok(document) => identity_from(&document),
        Err(_) => Err(PipelineError::Unauthorized),
    }
}

/// The header that presents a credential holds that credential.
pub proof fn lemma_authorization_round_trip(token: Seq<char>)
    ensures
        bearer_of(Some(authorization_for(token))) == Ok::<Seq<char>, ErrorModel>(token),
{
    let header = authorization_for(token);
    assert(header.subrange(0, "Bearer "@.len() as int) =~= "Bearer "@);
    assert(header.skip("Bearer "@.len() as int) =~= token);
}

/// Authorization fails in one way only. A missing header, a header without
/// the `Bearer ` prefix, no reply from the identity service, a reply whose
/// status reports no success and a reply without identifier all give
/// `Unauthorized`, and nothing else does.
pub proof fn lemma_authorization_fails_in_one_way(header: Option<Seq<char>>, outcome: OutcomeModel)
    ensures
        bearer_of(header) is Err ==> bearer_of(header) == Err::<Seq<char>, ErrorModel>(
            ErrorModel::Unauthorized,
        ),
        header is None ==> bearer_of(header) is Err,
        header is Some && !"Bearer "@.is_prefix_of(header->0) ==> bearer_of(header) is Err,
        resolved_identity(outcome) is Err ==> resolved_identity(outcome) == Err::<
            Seq<char>,
            ErrorModel,
        >(ErrorModel::Unauthorized),
        outcome is TransportFailure ==> resolved_identity(outcome) is Err,
        outcome is Reply && !status_is_success(outcome->status) ==> resolved_identity(outcome) is Err,
        accepted_document(outcome) is Ok && accepted_document(outcome)->Ok_0.text_member("id"@)
            == Some(Seq::<char>::empty()) ==> resolved_identity(outcome) is Err,
        resolved_identity(outcome) is Ok ==> resolved_identity(outcome)->Ok_0.len() > 0,
{
}

} // verus!
