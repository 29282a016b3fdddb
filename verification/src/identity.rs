//! Verifying a caller: the token review that is put to the cluster, and what
//! its answer says about who the caller is.

use crate::error::{Error, ErrorView};
use crate::text::{split, split_text, str_eq};
use vstd::prelude::*;

verus! {

/// The prefix of the name that the cluster generates for each review.
pub const REVIEW_NAME_PREFIX: &'static str = "aws-credentials-token-review-";

/// The review put to the cluster for one bearer token.
#[derive(Clone, Debug, PartialEq, Eq)]
pub struct TokenReviewRequest {
    /// `metadata.generateName`.
    pub generate_name: String,
    /// `spec.token`.
    pub token: String,
}

/// The user that a review found behind a token.
#[derive(Clone, Debug, PartialEq, Eq)]
pub struct UserInfo {
    pub username: Option<String>,
}

/// The `status` of an answered review.
#[derive(Clone, Debug, PartialEq, Eq)]
pub struct TokenReviewStatus {
    pub authenticated: Option<bool>,
    pub error: Option<String>,
    pub user: Option<UserInfo>,
}

pub struct TokenReviewStatusView {
    pub authenticated: Option<bool>,
    pub error: Option<Seq<char>>,
    /// `None` without a user; `Some(None)` for a user without a name.
    pub username: Option<Option<Seq<char>>>,
}

impl View for TokenReviewStatus {
    type V = TokenReviewStatusView;

    open spec fn view(&self) -> TokenReviewStatusView {
        TokenReviewStatusView {
            authenticated: self.authenticated,
            error: match self.error {
                Some(e) => Some(e@),
                None => None,
            },
            username: match self.user {
                Some(user) => Some(
                    match user.username {
                        Some(name) => Some(name@),
                        None => None,
                    },
                ),
                None => None,
            },
        }
    }
}

/// The review for `token`: the cluster names it, the token is all it holds.
pub fn token_review(token: String) -> (review: TokenReviewRequest)
    ensures
        review.generate_name@ == REVIEW_NAME_PREFIX@,
        review.token@ == token@,
{
    TokenReviewRequest { generate_name: REVIEW_NAME_PREFIX.to_owned(), token }
}

/// The status of an answered review. An answer without a status is a
/// failure, and so is a call that failed with `Err`, whose text is kept.
pub fn allowed_token(answer: Result<Option<TokenReviewStatus>, String>) -> (status: Result<
    TokenReviewStatus,
    Error,
>)
    ensures
        match answer {
            Ok(Some(s)) => status matches Ok(out) && out@ == s@,
            Ok(None) => status matches Err(e) && e@ == ErrorView::OtherError(
                "TokenReview request did not return TokenReviewStatus"@,
            ),
            Err(cause) => status matches Err(e) && e@ == ErrorView::KubeError(cause@),
        },
{
    match answer {
        Ok(Some(status)) => Ok(status),
        Ok(None) => Err(
            Error::OtherError("TokenReview request did not return TokenReviewStatus".to_owned()),
        ),
        Err(cause) => Err(Error::KubeError(cause)),
    }
}

/// The colon-separated segments of a subject.
pub open spec fn segments(username: Seq<char>) -> Seq<Seq<char>> {
    split(username, ':')
}

/// The text of the failure for a subject of another shape.
pub open spec fn malformed_subject() -> Seq<char> {
    "username does not conform to expected 'system:serviceaccount:namespace:serviceaccount' format"@
}

/// Whether a subject names a service account: it has exactly four segments,
/// of which the first two are `system` and `serviceaccount`.
pub open spec fn names_service_account(username: Seq<char>) -> bool {
    &&& segments(username).len() == 4
    &&& segments(username)[0] == "system"@
    &&& segments(username)[1] == "serviceaccount"@
}

/// The identity that a subject stands for: namespace and service account,
/// or the failure for a subject of any other shape.
pub open spec fn identity_of(username: Seq<char>) -> Result<(Seq<char>, Seq<char>), ErrorView> {
    if names_service_account(username) {
        Ok((segments(username)[2], segments(username)[3]))
    } else {
        Err(ErrorView::TokenError(malformed_subject()))
    }
}

/// Whether `outcome` is `expected`, seen through the views.
pub open spec fn is_identity(
    outcome: Result<(String, String), Error>,
    expected: Result<(Seq<char>, Seq<char>), ErrorView>,
) -> bool {
    match (outcome, expected) {
        (Ok((namespace, service_account)), Ok((ns, sa))) => namespace@ == ns && service_account@
            == sa,
        (Err(e), Err(f)) => e@ == f,
        _ => false,
    }
}

/// Splits a subject of the form `system:serviceaccount:<namespace>:<serviceaccount>`
/// into namespace and service account. A subject that does not consist of
/// exactly four colon-separated segments is rejected, and so is one whose
/// first two segments are not `system` and `serviceaccount`.
pub fn get_namespace_sa(username: String) -> (identity: Result<(String, String), Error>)
    ensures
        is_identity(identity, identity_of(username@)),
        identity is Ok <==> names_service_account(username@),
        identity is Ok ==> segments(username@).len() == 4,
{
    let mut usplit = split_text(username.as_str(), ':');
    if usplit.len() != 4 || !str_eq(usplit[0].as_str(), "system") || !str_eq(
        usplit[1].as_str(),
        "serviceaccount",
    ) {
        Err(
            Error::TokenError(
                "username does not conform to expected 'system:serviceaccount:namespace:serviceaccount' format".to_owned(),
            ),
        )
    } else {
        let service_account = usplit.pop().unwrap();
        let namespace = usplit.pop().unwrap();
        Ok((namespace, service_account))
    }
}

/// What a review status says of the caller, in the order the checks are
/// made: a reported error, a token that is not authenticated, a missing
/// user, a missing name, and last the shape of the name.
pub open spec fn verified_identity(status: TokenReviewStatusView) -> Result<
    (Seq<char>, Seq<char>),
    ErrorView,
> {
    if let Some(e) = status.error {
        Err(ErrorView::TokenError(e))
    } else if status.authenticated == Some(false) {
        Err(ErrorView::TokenError("token not authenticated"@))
    } else {
        match status.username {
            None => Err(ErrorView::TokenError("user not found"@)),
            Some(None) => Err(ErrorView::TokenError("username not found in status"@)),
            Some(Some(name)) => identity_of(name),
        }
    }
}

/// Reads the identity of the caller off a review status.
pub fn check_token(status: TokenReviewStatus) -> (identity: Result<(String, String), Error>)
    ensures
        is_identity(identity, verified_identity(status@)),
{
    if let Some(e) = status.error {
        return Err(Error::TokenError(e));
    }
    if let Some(false) = status.authenticated {
        return Err(Error::TokenError("token not authenticated".to_owned()));
    }
    match status.user {
        None => Err(Error::TokenError("user not found".to_owned())),
        Some(user) => match user.username {
            None => Err(Error::TokenError("username not found in status".to_owned())),
            Some(username) => get_namespace_sa(username),
        },
    }
}

/// A verified identity has a subject that names a service account, of
/// which it is the last two segments; and no status with an error, a denied
/// token or a missing name yields one.
pub proof fn lemma_verified_identity(status: TokenReviewStatusView)
    ensures
        verified_identity(status) matches Ok((ns, sa)) ==> {
            &&& status.error.is_none()
            &&& status.authenticated != Some(false)
            &&& status.username matches Some(Some(name))
            &&& names_service_account(name)
            &&& ns == segments(name)[2]
            &&& sa == segments(name)[3]
        },
{
}

} // verus!
