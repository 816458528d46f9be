use dot_pr_review::auth::AuthProvider;
use dot_pr_review::error::FetchError;

#[test]
fn missing_credential_is_fatal() {
    let r = AuthProvider::resolve_token(None, None);
    assert_eq!(r.unwrap_err(), FetchError::MissingToken);
}

#[test]
fn primary_variable_wins() {
    let r = AuthProvider::resolve_token(
        Some(String::from("token-from-primary")),
        Some(String::from("token-from-fallback")),
    );
    assert_eq!(r.unwrap(), "token-from-primary");
}

#[test]
fn fallback_is_used_when_primary_is_unset() {
    let r = AuthProvider::resolve_token(None, Some(String::from("fallback-token")));
    assert_eq!(r.unwrap(), "fallback-token");
}
