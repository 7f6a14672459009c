use authscrape::machine::build_auth_plan;
use authscrape::machine::run_auth;
use authscrape::machine::AuthAction;
use authscrape::machine::AuthEvent;
use authscrape::machine::AuthState;
use authscrape::machine::outcome_of;
use authscrape::model::CookieData;
use authscrape::model::LoginCredentials;
use authscrape::outcome::FatalReason;
use authscrape::outcome::LoginOutcome;

fn credentials(platform: Option<&str>, cookies: bool) -> LoginCredentials {
    LoginCredentials {
        email: "user@example.com".to_string(),
        password: "secret".to_string(),
        platform: platform.map(|p| p.to_string()),
        login_url: None,
        email_selector: None,
        password_selector: None,
        submit_selector: None,
        wait_after_login_secs: None,
        cookies: if cookies {
            Some(vec![CookieData {
                name: "session".to_string(),
                value: "abc".to_string(),
                domain: ".example.com".to_string(),
                path: None,
            }])
        } else {
            None
        },
    }
}

#[test]
fn plan_resolves_linkedin_profile() {
    let creds = credentials(None, false);
    let plan = build_auth_plan(&creds, "https://www.linkedin.com/feed");
    assert_eq!(plan.platform, "linkedin");
    assert_eq!(plan.login_url, "https://www.linkedin.com/login");
    assert_eq!(plan.email_selectors, vec![
        "#username".to_string(),
        "input[name='session_key']".to_string(),
        "input[id='username']".to_string(),
    ]);
    assert_eq!(plan.success_checks, vec![
        ".global-nav__me".to_string(),
        ".feed-identity-module".to_string(),
    ]);
    assert_eq!(plan.wait_secs, 8);
    assert!(plan.multi_step);
    assert!(!plan.has_cookies);
}

#[test]
fn plan_overrides_win() {
    let mut creds = credentials(Some("linkedin"), false);
    creds.login_url = Some("https://example.com/custom-login".to_string());
    creds.email_selector = Some("#my-email".to_string());
    creds.wait_after_login_secs = Some(12);
    let plan = build_auth_plan(&creds, "https://example.com/profile");
    assert_eq!(plan.login_url, "https://example.com/custom-login");
    assert_eq!(plan.email_selectors, vec!["#my-email".to_string()]);
    assert_eq!(plan.wait_secs, 12);
}

#[test]
fn plan_wait_is_lower_bounded() {
    let mut creds = credentials(Some("github"), false);
    creds.wait_after_login_secs = Some(3);
    let plan = build_auth_plan(&creds, "https://github.com/octocat");
    assert_eq!(plan.wait_secs, 8);
}

#[test]
fn cookie_auth_success_never_navigates_to_login() {
    let creds = credentials(Some("linkedin"), true);
    let plan = build_auth_plan(&creds, "https://www.linkedin.com/feed");
    let events = vec![
        AuthEvent::Begin,
        AuthEvent::CookiesSet,
        AuthEvent::Navigated { ok: true },
        AuthEvent::Verified { ok: true },
    ];
    let run = run_auth(&plan, &events);
    assert_eq!(outcome_of(&run.state), Some(LoginOutcome::Authenticated));
    assert!(!run.actions.contains(&AuthAction::NavigateLogin));
    assert!(!run.actions.contains(&AuthAction::ProbeEmail));
    assert_eq!(run.actions, vec![
        AuthAction::SetCookies,
        AuthAction::NavigateTarget,
        AuthAction::EvalCookieVerify,
        AuthAction::Finish,
    ]);
}

#[test]
fn cookie_auth_failure_falls_through_to_form() {
    let creds = credentials(Some("linkedin"), true);
    let plan = build_auth_plan(&creds, "https://www.linkedin.com/feed");
    let events = vec![
        AuthEvent::Begin,
        AuthEvent::CookiesSet,
        AuthEvent::Navigated { ok: true },
        AuthEvent::Verified { ok: false },
    ];
    let run = run_auth(&plan, &events);
    assert_eq!(run.state, AuthState::FormNavigate);
    assert_eq!(run.actions.last(), Some(&AuthAction::NavigateLogin));
    assert_eq!(outcome_of(&run.state), None);
}

fn form_flow_prefix() -> Vec<AuthEvent> {
    vec![
        AuthEvent::Begin,
        AuthEvent::Navigated { ok: true },
        AuthEvent::BannerResult { clicked: false },
        AuthEvent::ProbeResult { found: Some(0) },
        AuthEvent::TypeResult { ok: true },
        AuthEvent::ProbeResult { found: Some(0) },
        AuthEvent::TypeResult { ok: true },
        AuthEvent::ProbeResult { found: Some(1) },
        AuthEvent::ClickResult { ok: true },
        AuthEvent::Waited,
        AuthEvent::PromptResult { dismissed: false },
    ]
}

#[test]
fn credential_error_classifies_rejected() {
    // generic platform: single-step flow
    let creds = credentials(Some("generic"), false);
    let plan = build_auth_plan(&creds, "https://example.com/profile");
    assert!(!plan.multi_step);
    let mut events = form_flow_prefix();
    events.push(AuthEvent::PredicateResult { present: false }); // captcha
    events.push(AuthEvent::PredicateResult { present: false }); // two-factor
    events.push(AuthEvent::PredicateResult { present: true }); // credential error
    let run = run_auth(&plan, &events);
    assert_eq!(outcome_of(&run.state), Some(LoginOutcome::CredentialRejected));
}

#[test]
fn two_factor_detected_after_captcha_ruled_out() {
    let creds = credentials(Some("generic"), false);
    let plan = build_auth_plan(&creds, "https://example.com/profile");
    let mut events = form_flow_prefix();
    events.push(AuthEvent::PredicateResult { present: false }); // captcha
    events.push(AuthEvent::PredicateResult { present: true }); // two-factor
    let run = run_auth(&plan, &events);
    assert_eq!(outcome_of(&run.state), Some(LoginOutcome::TwoFactorRequired));
}

#[test]
fn captcha_takes_priority_over_two_factor() {
    // the captcha predicate is evaluated first; a page showing both
    // markers terminates as captcha required without ever asking for the
    // two-factor predicate
    let creds = credentials(Some("generic"), false);
    let plan = build_auth_plan(&creds, "https://example.com/profile");
    let mut events = form_flow_prefix();
    events.push(AuthEvent::PredicateResult { present: true }); // captcha present
    let run = run_auth(&plan, &events);
    assert_eq!(outcome_of(&run.state), Some(LoginOutcome::CaptchaRequired));
    assert!(!run.actions.contains(&AuthAction::EvalTwoFactor));
}

#[test]
fn success_indicator_leads_to_authentication() {
    let creds = credentials(Some("linkedin"), false);
    let plan = build_auth_plan(&creds, "https://www.linkedin.com/feed");
    let mut events = vec![
        AuthEvent::Begin,
        AuthEvent::Navigated { ok: true },
        AuthEvent::BannerResult { clicked: false },
        AuthEvent::ProbeResult { found: Some(0) },
        AuthEvent::TypeResult { ok: true },
        // multi-step: password not visible yet, advance, then visible
        AuthEvent::ProbeResult { found: None },
        AuthEvent::AdvanceResult { ok: true },
        AuthEvent::ProbeResult { found: Some(0) },
        AuthEvent::TypeResult { ok: true },
        AuthEvent::ProbeResult { found: Some(0) },
        AuthEvent::ClickResult { ok: true },
        AuthEvent::Waited,
        AuthEvent::PromptResult { dismissed: false },
    ];
    events.push(AuthEvent::PredicateResult { present: false }); // captcha
    events.push(AuthEvent::PredicateResult { present: false }); // two-factor
    events.push(AuthEvent::PredicateResult { present: false }); // credential error
    // first configured success indicator not visible, second is
    events.push(AuthEvent::ProbeResult { found: None });
    events.push(AuthEvent::ProbeResult { found: Some(0) });
    // already on the target page
    events.push(AuthEvent::UrlMatches { matches: true });
    let run = run_auth(&plan, &events);
    assert_eq!(outcome_of(&run.state), Some(LoginOutcome::Authenticated));
}

#[test]
fn inconclusive_when_no_indicator_and_no_heuristic() {
    let creds = credentials(Some("generic"), false);
    let plan = build_auth_plan(&creds, "https://example.com/profile");
    assert!(plan.success_checks.is_empty());
    let mut events = form_flow_prefix();
    events.push(AuthEvent::PredicateResult { present: false }); // captcha
    events.push(AuthEvent::PredicateResult { present: false }); // two-factor
    events.push(AuthEvent::PredicateResult { present: false }); // credential error
    events.push(AuthEvent::PredicateResult { present: false }); // heuristic success
    let run = run_auth(&plan, &events);
    assert_eq!(outcome_of(&run.state), Some(LoginOutcome::Inconclusive));
}

#[test]
fn heuristic_success_navigates_back_to_target() {
    let creds = credentials(Some("generic"), false);
    let plan = build_auth_plan(&creds, "https://example.com/profile");
    let mut events = form_flow_prefix();
    events.push(AuthEvent::PredicateResult { present: false }); // captcha
    events.push(AuthEvent::PredicateResult { present: false }); // two-factor
    events.push(AuthEvent::PredicateResult { present: false }); // credential error
    events.push(AuthEvent::PredicateResult { present: true }); // heuristic success
    events.push(AuthEvent::UrlMatches { matches: false });
    events.push(AuthEvent::Navigated { ok: true });
    let run = run_auth(&plan, &events);
    assert_eq!(outcome_of(&run.state), Some(LoginOutcome::Authenticated));
    assert_eq!(run.actions[run.actions.len() - 2], AuthAction::NavigateTarget);
}

#[test]
fn missing_email_field_is_fatal() {
    let creds = credentials(Some("generic"), false);
    let plan = build_auth_plan(&creds, "https://example.com/profile");
    let events = vec![
        AuthEvent::Begin,
        AuthEvent::Navigated { ok: true },
        AuthEvent::BannerResult { clicked: false },
        AuthEvent::ProbeResult { found: None },
    ];
    let run = run_auth(&plan, &events);
    assert_eq!(
        outcome_of(&run.state),
        Some(LoginOutcome::Fatal { reason: FatalReason::EmailFieldNotFound })
    );
}

#[test]
fn submit_fallback_failure_is_fatal() {
    let creds = credentials(Some("generic"), false);
    let plan = build_auth_plan(&creds, "https://example.com/profile");
    let events = vec![
        AuthEvent::Begin,
        AuthEvent::Navigated { ok: true },
        AuthEvent::BannerResult { clicked: false },
        AuthEvent::ProbeResult { found: Some(0) },
        AuthEvent::TypeResult { ok: true },
        AuthEvent::ProbeResult { found: Some(0) },
        AuthEvent::TypeResult { ok: true },
        AuthEvent::ProbeResult { found: None }, // no submit button
        AuthEvent::SubmitFallbackResult { ok: false },
    ];
    let run = run_auth(&plan, &events);
    assert_eq!(
        outcome_of(&run.state),
        Some(LoginOutcome::Fatal { reason: FatalReason::SubmitNotPossible })
    );
}

#[test]
fn banner_dismissal_is_bounded_to_three_attempts() {
    let creds = credentials(Some("generic"), false);
    let plan = build_auth_plan(&creds, "https://example.com/profile");
    let events = vec![
        AuthEvent::Begin,
        AuthEvent::Navigated { ok: true },
        AuthEvent::BannerResult { clicked: true },
        AuthEvent::BannerResult { clicked: true },
        AuthEvent::BannerResult { clicked: true },
    ];
    let run = run_auth(&plan, &events);
    // after the third dismissal attempt the engine moves on regardless
    assert_eq!(run.state, AuthState::EmailProbe);
    let dismissals = run
        .actions
        .iter()
        .filter(|a| **a == AuthAction::EvalBannerDismiss)
        .count();
    assert_eq!(dismissals, 3);
}

#[test]
fn cookie_navigation_failure_falls_through_to_form() {
    let creds = credentials(Some("linkedin"), true);
    let plan = build_auth_plan(&creds, "https://www.linkedin.com/feed");
    let events = vec![
        AuthEvent::Begin,
        AuthEvent::CookiesSet,
        AuthEvent::Navigated { ok: false },
    ];
    let run = run_auth(&plan, &events);
    // cookie failure is non-fatal: the engine moves to the login form
    assert_eq!(run.state, AuthState::FormNavigate);
    assert_eq!(outcome_of(&run.state), None);
}

#[test]
fn unexpected_events_leave_the_state_unchanged() {
    let creds = credentials(Some("generic"), false);
    let plan = build_auth_plan(&creds, "https://example.com/profile");
    // a Waited event means nothing to the email probe
    let events = vec![
        AuthEvent::Begin,
        AuthEvent::Navigated { ok: true },
        AuthEvent::BannerResult { clicked: false },
        AuthEvent::Waited,
        AuthEvent::Waited,
    ];
    let run = run_auth(&plan, &events);
    assert_eq!(run.state, AuthState::EmailProbe);
}

#[test]
fn outcome_is_stable_once_decided() {
    let creds = credentials(Some("generic"), false);
    let plan = build_auth_plan(&creds, "https://example.com/profile");
    let events = vec![
        AuthEvent::Begin,
        AuthEvent::Navigated { ok: false },
        AuthEvent::Navigated { ok: true },
        AuthEvent::PredicateResult { present: true },
    ];
    let run = run_auth(&plan, &events);
    assert_eq!(
        outcome_of(&run.state),
        Some(LoginOutcome::Fatal { reason: FatalReason::LoginNavigationFailed })
    );
}

#[test]
fn login_navigation_failure_is_fatal() {
    let creds = credentials(Some("generic"), false);
    let plan = build_auth_plan(&creds, "https://example.com/profile");
    let events = vec![AuthEvent::Begin, AuthEvent::Navigated { ok: false }];
    let run = run_auth(&plan, &events);
    assert_eq!(
        outcome_of(&run.state),
        Some(LoginOutcome::Fatal { reason: FatalReason::LoginNavigationFailed })
    );
}
