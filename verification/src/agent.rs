//! The credential endpoint: one request is answered in up to three steps,
//! with a call to the cluster and a call to the issuer between them.

use crate::credentials::{
    clock_view, credential_step, stamped, AssumeRoleRequest, AwsState, CredentialStep, CredentialStepView,
    Credentials, Field, FieldValue, FieldValueView, FieldView, TemporaryCredential,
};
use crate::error::ErrorView;
use crate::identity::{
    allowed_token, check_token, token_review, verified_identity, TokenReviewRequest,
    TokenReviewStatus, TokenReviewStatusView, REVIEW_NAME_PREFIX,
};
use crate::mappings::{role_of, Mapping};
use crate::text::{joined, starts_with, strip_prefix};
use vstd::prelude::*;

verus! {

/// The body of every refusal: a status code as text, and what went wrong.
#[derive(Clone, Debug, PartialEq, Eq)]
pub struct CredentialError {
    pub code: String,
    pub message: String,
}

pub struct CredentialErrorView {
    pub code: Seq<char>,
    pub message: Seq<char>,
}

impl View for CredentialError {
    type V = CredentialErrorView;

    open spec fn view(&self) -> CredentialErrorView {
        CredentialErrorView { code: self.code@, message: self.message@ }
    }
}

/// The refusal that every failure of the endpoint is mapped to. Callers are
/// not told apart by cause: the code is the same for all.
pub open spec fn unauthorized(message: Seq<char>) -> CredentialErrorView {
    CredentialErrorView { code: "401 Unauthorized"@, message }
}

/// `http::StatusCode::UNAUTHORIZED` shown as text. The crate writes the
/// number, a space and the canonical reason phrase.
#[verifier::external_body]
fn unauthorized_code() -> (code: String)
    ensures
        code@ == "401 Unauthorized"@,
{
    http::StatusCode::UNAUTHORIZED.to_string()
}

fn refuse(message: String) -> (refusal: CredentialError)
    ensures
        refusal@ == unauthorized(message@),
{
    CredentialError { code: unauthorized_code(), message }
}

/// The body of a refusal: the two members by the names they are written under.
pub open spec fn refusal_of(refusal: CredentialErrorView) -> Seq<FieldView> {
    seq![
        FieldView { name: "code"@, value: FieldValueView::Text(refusal.code) },
        FieldView { name: "message"@, value: FieldValueView::Text(refusal.message) },
    ]
}

/// The members of the body for `refusal`.
pub fn refusal_document(refusal: &CredentialError) -> (fields: Vec<Field>)
    ensures
        fields.deep_view() == refusal_of(refusal@),
{
    let mut fields: Vec<Field> = Vec::new();
    fields.push(Field { name: "code", value: FieldValue::Text(refusal.code.clone()) });
    fields.push(Field { name: "message", value: FieldValue::Text(refusal.message.clone()) });
    fields
}

/// The `Authorization` header as the listener found it.
#[derive(Clone, Debug, PartialEq, Eq)]
pub enum Authorization {
    /// The request has no such header.
    Missing,
    /// The header is not text; the cause is kept.
    Unreadable(String),
    /// The header's value.
    Value(String),
}

/// The scheme that stands before the token.
pub const BEARER: &'static str = "Bearer ";

/// What a caller is told whose header is not of the form `Bearer <token>`.
pub const NOT_BEARER: &'static str = "Authorization header is not of the form 'Bearer <token>'";

/// The token that a header value carries: what follows `Bearer `. A value
/// of any other form carries none.
pub open spec fn bearer_token(value: Seq<char>) -> Option<Seq<char>> {
    if starts_with(value, BEARER@) {
        Some(value.skip(BEARER@.len() as int))
    } else {
        None
    }
}

/// First step: from the header to the review that is put to the cluster. A
/// header that is missing, is not text or is not of the form
/// `Bearer <token>` is refused, and no review is made for it.
pub fn container_credentials(authorization: Authorization) -> (step: Result<
    TokenReviewRequest,
    CredentialError,
>)
    ensures
        match authorization {
            Authorization::Missing => step matches Err(e) && e@ == unauthorized(
                "No authorization token passed"@,
            ),
            Authorization::Unreadable(cause) => step matches Err(e) && e@ == unauthorized(cause@),
            Authorization::Value(value) => match bearer_token(value@) {
                Some(token) => step matches Ok(review) && review.token@ == token
                    && review.generate_name@ == REVIEW_NAME_PREFIX@,
                None => step matches Err(e) && e@ == unauthorized(NOT_BEARER@),
            },
        },
{
    match authorization {
        Authorization::Missing => Err(refuse("No authorization token passed".to_owned())),
        Authorization::Unreadable(cause) => Err(refuse(cause)),
        Authorization::Value(value) => match strip_prefix(value.as_str(), BEARER) {
            Some(token) => Ok(token_review(token)),
            None => Err(refuse(NOT_BEARER.to_owned())),
        },
    }
}

/// What follows the review: an answer to the caller, or a request to the issuer.
#[derive(Debug, PartialEq, Eq)]
pub enum Reviewed {
    Respond(Result<TemporaryCredential, CredentialError>),
    AssumeRole { role: String, request: AssumeRoleRequest },
}

/// The answer of the cluster as the contracts read it.
pub open spec fn answer_view(answer: Result<Option<TokenReviewStatus>, String>) -> Result<
    Option<TokenReviewStatusView>,
    Seq<char>,
> {
    match answer {
        Ok(Some(status)) => Ok(Some(status@)),
        Ok(None) => Ok(None),
        Err(cause) => Err(cause@),
    }
}

/// The identity that an answer of the cluster establishes, or why it
/// establishes none.
pub open spec fn reviewed_identity(
    answer: Result<Option<TokenReviewStatusView>, Seq<char>>,
) -> Result<(Seq<char>, Seq<char>), ErrorView> {
    match answer {
        Ok(Some(status)) => verified_identity(status),
        Ok(None) => Err(
            ErrorView::OtherError("TokenReview request did not return TokenReviewStatus"@),
        ),
        Err(cause) => Err(ErrorView::KubeError(cause)),
    }
}

/// The name under which a credential is issued: namespace, a hyphen, service account.
pub open spec fn session_name(namespace: Seq<char>, service_account: Seq<char>) -> Seq<char> {
    namespace + "-"@ + service_account
}

/// Second step: from the cluster's answer and a reading of the clock to the
/// reply, or to the request for the issuer. A caller whose token is not
/// verified, or whose identity has no role, is refused. For a role with a
/// usable cached credential the reply is that credential. Otherwise, and
/// whenever the clock could not be read, the issuer is asked.
pub fn token_reviewed(
    mappings: &Mapping,
    cache: &AwsState,
    answer: Result<Option<TokenReviewStatus>, String>,
    now: Result<u64, String>,
) -> (step: Reviewed)
    ensures
        match reviewed_identity(answer_view(answer)) {
            Err(e) => step matches Reviewed::Respond(Err(refusal)) && refusal@ == unauthorized(
                e.message(),
            ),
            Ok((namespace, service_account)) => match role_of(
                mappings@,
                namespace,
                service_account,
            ) {
                None => step matches Reviewed::Respond(Err(refusal)) && refusal@ == unauthorized(
                    "role not found serviceaccount mappings"@,
                ),
                Some(role) => match credential_step(
                    cache@,
                    role,
                    session_name(namespace, service_account),
                    clock_view(now),
                ) {
                    CredentialStepView::Cached(cached) => step matches Reviewed::Respond(
                        Ok(credential),
                    ) && credential@ == cached,
                    CredentialStepView::Issue(wanted) => step matches Reviewed::AssumeRole {
                        role: asked,
                        request,
                    } && asked@ == role && request@ == wanted,
                },
            },
        },
{
    let status = match allowed_token(answer) {
        Ok(status) => status,
        Err(e) => {
            return Reviewed::Respond(Err(refuse(e.message())));
        },
    };
    let (namespace, service_account) = match check_token(status) {
        Ok(identity) => identity,
        Err(e) => {
            return Reviewed::Respond(Err(refuse(e.message())));
        },
    };
    let role = match mappings.get_role(namespace.as_str(), service_account.as_str()) {
        Some(role) => role,
        None => {
            return Reviewed::Respond(
                Err(refuse("role not found serviceaccount mappings".to_owned())),
            );
        },
    };
    let mut session = joined(namespace.as_str(), "-");
    session.append(service_account.as_str());
    match cache.get_credentials(role.clone(), session, &now) {
        CredentialStep::Cached(credential) => Reviewed::Respond(Ok(credential)),
        CredentialStep::Issue(request) => Reviewed::AssumeRole { role, request },
    }
}

/// Third step: from the issuer's answer to the reply. A credential is
/// stored for the role and returned; a failure is a refusal that carries its
/// text, and leaves the cache as it was.
pub fn role_assumed(
    cache: &mut AwsState,
    role: String,
    issued: Result<Option<Credentials>, String>,
) -> (reply: Result<TemporaryCredential, CredentialError>)
    ensures
        match issued {
            Ok(Some(creds)) => reply matches Ok(tc) && tc@ == stamped(
                creds.access_key_id@,
                creds.secret_access_key@,
                creds.session_token@,
                creds.expiration,
            ) && final(cache)@ == old(cache)@.insert(role@, tc@),
            Ok(None) => reply matches Err(refusal) && refusal@ == unauthorized(
                ErrorView::AwsError("credentials not provided"@).message(),
            ) && final(cache)@ == old(cache)@,
            Err(cause) => reply matches Err(refusal) && refusal@ == unauthorized(
                ErrorView::AwsError(cause@).message(),
            ) && final(cache)@ == old(cache)@,
        },
{
    match cache.credentials_issued(role, issued) {
        Ok(tc) => Ok(tc),
        Err(e) => Err(refuse(e.message())),
    }
}

} // verus!
