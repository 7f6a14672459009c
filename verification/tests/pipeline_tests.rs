use authscrape::errors::ScrapeError;
use authscrape::extract::assemble_scraped;
use authscrape::machine::build_auth_plan;
use authscrape::machine::run_auth;
use authscrape::machine::AuthEvent;
use authscrape::machine::outcome_of;
use authscrape::model::CookieData;
use authscrape::model::LoginCredentials;
use authscrape::model::ScrapeRequest;
use authscrape::model::build_error_response;
use authscrape::model::build_success_response;
use authscrape::outcome::DomSignals;
use authscrape::outcome::FatalReason;
use authscrape::outcome::LoginOutcome;
use authscrape::outcome::classify_outcome;
use authscrape::outcome::extraction_allowed;
use authscrape::outcome::meta_after_login;
use authscrape::outcome::meta_no_login;
use authscrape::outcome::outcome_error;

fn signals(
    captcha: bool,
    two_factor: bool,
    credential_error: bool,
    success_indicator: bool,
    heuristic_success: bool,
) -> DomSignals {
    DomSignals { captcha, two_factor, credential_error, success_indicator, heuristic_success }
}

#[test]
fn classification_priority_captcha_over_two_factor() {
    // both captcha and two-factor markers present: captcha wins
    let r = classify_outcome(&signals(true, true, false, false, false));
    assert_eq!(r, LoginOutcome::CaptchaRequired);
    assert_ne!(r, LoginOutcome::TwoFactorRequired);
}

#[test]
fn classification_priority_full_order() {
    assert_eq!(
        classify_outcome(&signals(true, true, true, true, true)),
        LoginOutcome::CaptchaRequired
    );
    assert_eq!(
        classify_outcome(&signals(false, true, true, true, true)),
        LoginOutcome::TwoFactorRequired
    );
    assert_eq!(
        classify_outcome(&signals(false, false, true, true, true)),
        LoginOutcome::CredentialRejected
    );
    assert_eq!(
        classify_outcome(&signals(false, false, false, true, false)),
        LoginOutcome::Authenticated
    );
    assert_eq!(
        classify_outcome(&signals(false, false, false, false, true)),
        LoginOutcome::Authenticated
    );
    assert_eq!(
        classify_outcome(&signals(false, false, false, false, false)),
        LoginOutcome::Inconclusive
    );
}

#[test]
fn blocked_outcomes_carry_typed_errors() {
    for outcome in [
        LoginOutcome::Authenticated,
        LoginOutcome::CredentialRejected,
        LoginOutcome::TwoFactorRequired,
        LoginOutcome::CaptchaRequired,
        LoginOutcome::Inconclusive,
        LoginOutcome::Fatal { reason: FatalReason::EmailFieldNotFound },
        LoginOutcome::Fatal { reason: FatalReason::SubmitNotPossible },
    ] {
        let allowed = extraction_allowed(&outcome);
        let err = outcome_error(&outcome);
        assert_eq!(allowed, err.is_none());
    }
}

#[test]
fn structural_login_failure_terminates_with_typed_error() {
    // a required field that never appears aborts the request instead of
    // falling through to extraction
    for (reason, detail) in [
        (FatalReason::EmailFieldNotFound, "Email field not found"),
        (FatalReason::EmailTypeFailed, "Failed to enter email"),
        (FatalReason::PasswordFieldNotFound, "Password field not found"),
        (FatalReason::PasswordTypeFailed, "Failed to enter password"),
        (FatalReason::SubmitNotPossible, "Could not submit form"),
        (FatalReason::LoginNavigationFailed, "Login navigation failed"),
    ] {
        let outcome = LoginOutcome::Fatal { reason };
        assert!(!extraction_allowed(&outcome));
        let err = outcome_error(&outcome).expect("a fatal outcome owes an error");
        assert_eq!(err.message(), format!("Automatic login failed: {}", detail));
        let meta = meta_after_login(&outcome, "generic".to_string());
        let response = build_error_response(
            "https://example.com/profile".to_string(),
            err.message(),
            meta.login_attempted,
            meta.login_success,
            meta.platform_detected,
            meta.requires_2fa,
        );
        assert!(!response.success);
        assert!(response.login_attempted);
        assert_eq!(response.login_success, Some(false));
        assert_eq!(response.requires_2fa, Some(false));
    }
}

#[test]
fn request_without_login_skips_authentication() {
    // a request with no credentials: no login attempted, no login fields
    // reported, extraction proceeds directly
    let request = ScrapeRequest { url: "https://example.com/profile".to_string(), login: None };
    assert!(request.login.is_none());
    let meta = meta_no_login();
    assert!(!meta.login_attempted);
    assert!(meta.login_success.is_none());
    assert!(meta.platform_detected.is_none());
    assert!(meta.requires_2fa.is_none());
    let d = assemble_scraped(
        Some("Profile".to_string()),
        None,
        Some("body text".to_string()),
        vec![],
        vec![],
        meta,
    );
    let response = build_success_response(request.url.clone(), d);
    assert!(response.success);
    assert!(!response.login_attempted);
    assert!(response.login_success.is_none());
    assert!(response.error.is_none());
    assert_eq!(response.url, "https://example.com/profile");
    assert_eq!(response.title.as_deref(), Some("Profile"));
}

#[test]
fn cookie_login_success_reports_metadata_and_skips_form() {
    let creds = LoginCredentials {
        email: "user@example.com".to_string(),
        password: "secret".to_string(),
        platform: Some("linkedin".to_string()),
        login_url: None,
        email_selector: None,
        password_selector: None,
        submit_selector: None,
        wait_after_login_secs: None,
        cookies: Some(vec![CookieData {
            name: "li_at".to_string(),
            value: "token".to_string(),
            domain: ".linkedin.com".to_string(),
            path: Some("/".to_string()),
        }]),
    };
    let plan = build_auth_plan(&creds, "https://www.linkedin.com/feed");
    let events = vec![
        AuthEvent::Begin,
        AuthEvent::CookiesSet,
        AuthEvent::Navigated { ok: true },
        AuthEvent::Verified { ok: true },
    ];
    let run = run_auth(&plan, &events);
    let outcome = outcome_of(&run.state).expect("run should finish");
    assert_eq!(outcome, LoginOutcome::Authenticated);
    // no form-login steps were executed
    assert!(!run.actions.iter().any(|a| matches!(
        a,
        authscrape::machine::AuthAction::ProbeEmail
            | authscrape::machine::AuthAction::TypeEmail { .. }
            | authscrape::machine::AuthAction::NavigateLogin
    )));
    let meta = meta_after_login(&outcome, plan.platform.clone());
    assert!(meta.login_attempted);
    assert_eq!(meta.login_success, Some(true));
    assert_eq!(meta.platform_detected.as_deref(), Some("linkedin"));
    assert_eq!(meta.requires_2fa, Some(false));
}

#[test]
fn credential_rejection_still_extracts() {
    let outcome = LoginOutcome::CredentialRejected;
    assert!(extraction_allowed(&outcome));
    let meta = meta_after_login(&outcome, "linkedin".to_string());
    assert!(meta.login_attempted);
    assert_eq!(meta.login_success, Some(false));
    assert_eq!(meta.requires_2fa, Some(false));
    let d = assemble_scraped(
        Some("Sign in".to_string()),
        None,
        Some("incorrect password".to_string()),
        vec![],
        vec![],
        meta,
    );
    let response = build_success_response("https://www.linkedin.com/feed".to_string(), d);
    assert!(response.success);
    assert!(response.login_attempted);
    assert_eq!(response.login_success, Some(false));
    assert_eq!(response.requires_2fa, Some(false));
}

#[test]
fn two_factor_detection_fails_fast_with_specific_error() {
    let outcome = LoginOutcome::TwoFactorRequired;
    assert!(!extraction_allowed(&outcome));
    let err = outcome_error(&outcome).expect("two-factor blocks extraction");
    assert_eq!(err.message(), "2FA is required, cannot proceed automatically");
    let meta = meta_after_login(&outcome, "github".to_string());
    assert_eq!(meta.requires_2fa, Some(true));
    assert_eq!(meta.login_success, Some(false));
    let response = build_error_response(
        "https://github.com/settings".to_string(),
        err.message(),
        meta.login_attempted,
        meta.login_success,
        meta.platform_detected,
        meta.requires_2fa,
    );
    assert!(!response.success);
    assert_eq!(response.requires_2fa, Some(true));
    assert_eq!(
        response.error.as_deref(),
        Some("2FA is required, cannot proceed automatically")
    );
    assert!(response.images.is_empty());
    assert!(response.text.is_none());
}

#[test]
fn captcha_detection_fails_fast_with_specific_error() {
    let outcome = LoginOutcome::CaptchaRequired;
    assert!(!extraction_allowed(&outcome));
    let err = outcome_error(&outcome).expect("captcha blocks extraction");
    assert_eq!(err.message(), "Captcha challenge detected, cannot proceed automatically");
}

#[test]
fn error_messages_render_with_details() {
    assert_eq!(
        ScrapeError::BrowserLaunch("boom".to_string()).message(),
        "Failed to launch browser: boom"
    );
    assert_eq!(
        ScrapeError::Navigation("dns".to_string()).message(),
        "Navigation failed: dns"
    );
    assert_eq!(
        ScrapeError::PageCreation("no tab".to_string()).message(),
        "Failed to create new page: no tab"
    );
    assert_eq!(
        ScrapeError::EvaluationFailed("syntax".to_string()).message(),
        "JavaScript evaluation failed: syntax"
    );
    assert_eq!(
        ScrapeError::LoginFailed("Email field not found".to_string()).message(),
        "Automatic login failed: Email field not found"
    );
    assert_eq!(
        ScrapeError::ContentExtraction("empty".to_string()).message(),
        "Failed to extract content: empty"
    );
}
