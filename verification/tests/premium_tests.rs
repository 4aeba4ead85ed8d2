use download_queue::models::VerifyPremiumRequest;
use download_queue::premium::{extract_credentials, verdict_response, CredentialVerdict};

fn request(username: Option<&str>, password: Option<&str>) -> VerifyPremiumRequest {
    VerifyPremiumRequest {
        username: username.map(|s| s.to_string()),
        password: password.map(|s| s.to_string()),
    }
}

#[test]
fn missing_or_empty_credentials_are_a_client_error() {
    for req in [
        request(None, Some("pw")),
        request(Some("user"), None),
        request(Some(""), Some("pw")),
        request(Some("user"), Some("")),
        request(None, None),
    ] {
        match extract_credentials(req) {
            Ok(_) => panic!("credentials should be refused"),
            Err((resp, status)) => {
                assert!(!resp.success);
                assert!(resp.error.is_some());
                assert!(resp.is_premium.is_none());
                assert_eq!(status, 400);
            },
        }
    }
}

#[test]
fn present_credentials_pass_through_unchanged() {
    match extract_credentials(request(Some("user"), Some("pw"))) {
        Ok((u, p)) => {
            assert_eq!(u.as_str(), "user");
            assert_eq!(p.as_str(), "pw");
        },
        Err(_) => panic!("credentials should be accepted"),
    }
}

#[test]
fn accepted_credentials_answer_ok() {
    let (resp, status) = verdict_response(CredentialVerdict::Accepted);
    assert!(resp.success);
    assert!(resp.message.is_some());
    assert!(resp.error.is_none());
    assert_eq!(status, 200);
}

#[test]
fn rejected_credentials_still_answer_ok() {
    let (resp, status) = verdict_response(CredentialVerdict::Rejected);
    assert!(!resp.success);
    assert!(resp.error.is_some());
    assert_eq!(status, 200);
}

#[test]
fn an_unrunnable_check_is_a_server_error() {
    let (resp, status) = verdict_response(CredentialVerdict::ToolFailure {
        detail: "spawn failed".to_string(),
    });
    assert!(!resp.success);
    assert_eq!(resp.error.as_deref(), Some("spawn failed"));
    assert_eq!(status, 500);
}
