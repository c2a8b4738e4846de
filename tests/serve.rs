use prometheus_exporter_base::serve::{basic_credentials, credentials_match, decide, is_authorized, Decision};
use prometheus_exporter_base::Authorization;

#[test]
fn open_endpoint_lets_everyone_in() {
    assert!(is_authorized(&Authorization::Disabled, None));
    assert!(is_authorized(&Authorization::Disabled, Some("garbage")));
}

#[test]
fn basic_password_is_checked() {
    let auth = Authorization::Basic("secret".to_string());
    assert!(is_authorized(&auth, Some("Basic OnNlY3JldA==")));
    assert!(!is_authorized(&auth, Some("Basic Om90aGVy")));
    assert!(!is_authorized(&auth, Some("Basic dXNlcjpzZWNyZXQ=")));
    assert!(!is_authorized(&auth, Some("Bearer OnNlY3JldA==")));
    assert!(!is_authorized(&auth, Some("Basic  OnNlY3JldA==")));
    assert!(!is_authorized(&auth, Some("Basic not-base64!")));
    assert!(!is_authorized(&auth, Some("Basic")));
    assert!(!is_authorized(&auth, None));
}

#[test]
fn basic_credentials_split() {
    assert_eq!(basic_credentials("Basic abc"), Some("abc"));
    assert_eq!(basic_credentials("Basic "), Some(""));
    assert_eq!(basic_credentials("Basic a b"), None);
    assert_eq!(basic_credentials("basic abc"), None);
    assert_eq!(basic_credentials("Basi"), None);
}

#[test]
fn credentials_compare_bytes() {
    assert!(credentials_match(b":secret", "secret"));
    assert!(!credentials_match(b"secret", "secret"));
    assert!(!credentials_match(b":secre", "secret"));
    assert!(!credentials_match(b"", "secret"));
    assert!(credentials_match(b":", ""));
}

#[test]
fn decisions_and_status_codes() {
    assert_eq!(decide(false, "/metrics", "GET"), Decision::Unauthorized);
    assert_eq!(decide(true, "/other", "GET"), Decision::NotFound);
    assert_eq!(decide(true, "/metrics", "PUT"), Decision::MethodNotAllowed);
    assert_eq!(decide(true, "/metrics", "GET"), Decision::Render);
    assert_eq!(decide(true, "/metrics", "POST"), Decision::Render);
    assert_eq!(Decision::Unauthorized.status(), 401);
    assert_eq!(Decision::NotFound.status(), 404);
    assert_eq!(Decision::MethodNotAllowed.status(), 405);
    assert_eq!(Decision::Render.status(), 200);
}
