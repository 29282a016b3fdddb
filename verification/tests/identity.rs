use homelab_aws_creds::error::Error;
use homelab_aws_creds::identity::{
    allowed_token, check_token, get_namespace_sa, token_review, TokenReviewStatus, UserInfo,
};

#[test]
fn state_username_parse() {
    assert_eq!(
        get_namespace_sa("system:serviceaccount:default:test".into()).unwrap(),
        ("default".into(), "test".into())
    );
}

#[test]
fn app_username_parse() {
    assert_eq!(
        get_namespace_sa("system:serviceaccount:default:test".into()).unwrap(),
        ("default".into(), "test".into())
    );
}

fn malformed() -> Error {
    Error::TokenError(
        "username does not conform to expected 'system:serviceaccount:namespace:serviceaccount' format"
            .to_string(),
    )
}

#[test]
fn subject_with_three_segments_is_rejected() {
    assert_eq!(get_namespace_sa("system:serviceaccount:test".into()), Err(malformed()));
}

#[test]
fn subject_with_other_segment_counts_is_rejected() {
    for subject in ["", "a", "a:b", "a:b:c:d:e", ":::::", "system:serviceaccount:ns:sa:"] {
        assert_eq!(get_namespace_sa(subject.into()), Err(malformed()), "{:?}", subject);
    }
}

#[test]
fn empty_segments_count_as_segments() {
    assert_eq!(
        get_namespace_sa("system:serviceaccount::".into()),
        Ok((String::new(), String::new()))
    );
    assert_eq!(
        get_namespace_sa("system:serviceaccount::d".into()),
        Ok((String::new(), "d".to_string()))
    );
}

#[test]
fn subject_of_another_kind_is_rejected() {
    for subject in [
        ":::",
        "a:b:c:d",
        "system:node:ns:sa",
        "user:serviceaccount:ns:sa",
        "System:serviceaccount:ns:sa",
        "system:serviceaccounts:ns:sa",
        " system:serviceaccount:ns:sa",
    ] {
        assert_eq!(get_namespace_sa(subject.into()), Err(malformed()), "{:?}", subject);
    }
}

#[test]
fn subject_segments_may_hold_any_other_character() {
    assert_eq!(
        get_namespace_sa("system:serviceaccount:kube-system:büro/ärger".into()),
        Ok(("kube-system".to_string(), "büro/ärger".to_string()))
    );
}

fn status(authenticated: Option<bool>, error: Option<&str>, username: Option<Option<&str>>) -> TokenReviewStatus {
    TokenReviewStatus {
        authenticated,
        error: error.map(|e| e.to_string()),
        user: username.map(|u| UserInfo { username: u.map(|n| n.to_string()) }),
    }
}

#[test]
fn verified_token_yields_identity() {
    let s = status(Some(true), None, Some(Some("system:serviceaccount:prod:worker")));
    assert_eq!(check_token(s), Ok(("prod".to_string(), "worker".to_string())));
}

#[test]
fn missing_authenticated_flag_is_not_a_denial() {
    let s = status(None, None, Some(Some("system:serviceaccount:prod:worker")));
    assert_eq!(check_token(s), Ok(("prod".to_string(), "worker".to_string())));
}

#[test]
fn reported_error_wins_over_everything() {
    let s = status(Some(true), Some("token expired"), Some(Some("system:serviceaccount:a:b")));
    assert_eq!(check_token(s), Err(Error::TokenError("token expired".to_string())));
    let s = status(Some(false), Some("boom"), None);
    assert_eq!(check_token(s), Err(Error::TokenError("boom".to_string())));
}

#[test]
fn unauthenticated_token_is_rejected() {
    let s = status(Some(false), None, Some(Some("system:serviceaccount:a:b")));
    assert_eq!(check_token(s), Err(Error::TokenError("token not authenticated".to_string())));
}

#[test]
fn missing_user_and_username_are_rejected() {
    assert_eq!(
        check_token(status(Some(true), None, None)),
        Err(Error::TokenError("user not found".to_string()))
    );
    assert_eq!(
        check_token(status(Some(true), None, Some(None))),
        Err(Error::TokenError("username not found in status".to_string()))
    );
}

#[test]
fn malformed_username_is_rejected() {
    let s = status(Some(true), None, Some(Some("system:serviceaccount:test")));
    assert_eq!(check_token(s), Err(malformed()));
}

#[test]
fn review_request_holds_the_token() {
    let review = token_review("abc.def".to_string());
    assert_eq!(review.generate_name, "aws-credentials-token-review-");
    assert_eq!(review.token, "abc.def");
}

#[test]
fn answer_without_status_is_a_failure() {
    assert_eq!(
        allowed_token(Ok(None)),
        Err(Error::OtherError("TokenReview request did not return TokenReviewStatus".to_string()))
    );
    assert_eq!(
        allowed_token(Err("connection refused".to_string())),
        Err(Error::KubeError("connection refused".to_string()))
    );
    let s = status(Some(true), None, None);
    assert_eq!(allowed_token(Ok(Some(s.clone()))), Ok(s));
}
