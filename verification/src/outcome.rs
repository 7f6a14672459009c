//! The tagged result of a login attempt, how the page contents observed
//! after submitting classify into one, and which results allow content
//! extraction to go ahead.

use vstd::prelude::*;
use vstd::string::StringExecFns;
use crate::errors::ScrapeError;

verus! {

/// Why a login attempt aborted before it could be classified.
#[derive(Clone, Copy, PartialEq, Eq, Structural, Debug)]
pub enum FatalReason {
    LoginNavigationFailed,
    EmailFieldNotFound,
    EmailTypeFailed,
    PasswordFieldNotFound,
    PasswordTypeFailed,
    SubmitNotPossible,
}

/// The authoritative result of a login attempt, handed from the
/// authentication engine to the extraction pipeline.
#[derive(Clone, Copy, PartialEq, Eq, Structural, Debug)]
pub enum LoginOutcome {
    Authenticated,
    CredentialRejected,
    TwoFactorRequired,
    CaptchaRequired,
    Inconclusive,
    Fatal { reason: FatalReason },
}

/// What the post-submission DOM shows: each flag is the result of one
/// page-side predicate.
#[derive(Clone, Copy, PartialEq, Eq, Structural, Debug)]
pub struct DomSignals {
    /// Captcha markers are present.
    pub captcha: bool,
    /// Two-factor markers or a one-time-code input are present.
    pub two_factor: bool,
    /// Credential-error markers or visible alert elements are present.
    pub credential_error: bool,
    /// A configured success-indicator selector is visible.
    pub success_indicator: bool,
    /// No login fields remain and a user-identity indicator is visible or
    /// the URL no longer looks like a login path.
    pub heuristic_success: bool,
}

/// The classification priority: captcha, then two-factor, then credential
/// error, then either form of success, and otherwise inconclusive.
pub open spec fn spec_classify(s: DomSignals) -> LoginOutcome {
    if s.captcha {
        LoginOutcome::CaptchaRequired
    } else if s.two_factor {
        LoginOutcome::TwoFactorRequired
    } else if s.credential_error {
        LoginOutcome::CredentialRejected
    } else if s.success_indicator || s.heuristic_success {
        LoginOutcome::Authenticated
    } else {
        LoginOutcome::Inconclusive
    }
}

/// Map a post-submission DOM state to the login outcome.
pub fn classify_outcome(s: &DomSignals) -> (r: LoginOutcome)
    ensures
        r == spec_classify(*s),
{
    if s.captcha {
        LoginOutcome::CaptchaRequired
    } else if s.two_factor {
        LoginOutcome::TwoFactorRequired
    } else if s.credential_error {
        LoginOutcome::CredentialRejected
    } else if s.success_indicator || s.heuristic_success {
        LoginOutcome::Authenticated
    } else {
        LoginOutcome::Inconclusive
    }
}

/// Captcha markers outrank two-factor markers: a DOM state showing both
/// classifies as captcha required, never as two-factor required.
pub proof fn lemma_captcha_priority(s: DomSignals)
    requires
        s.captcha,
        s.two_factor,
    ensures
        spec_classify(s) == LoginOutcome::CaptchaRequired,
        spec_classify(s) != LoginOutcome::TwoFactorRequired,
{
}

/// Whether extraction may proceed after this outcome: two-factor and
/// captcha detections short-circuit it, and a structural failure of the
/// login flow (a required field never found, submission impossible, the
/// login page unreachable) terminates the request. A rejected credential
/// or an inconclusive result falls through to extraction against the
/// current, unauthenticated page.
pub open spec fn spec_extraction_allowed(o: LoginOutcome) -> bool {
    !(o is TwoFactorRequired || o is CaptchaRequired || o is Fatal)
}

/// Decide whether extraction may proceed.
pub fn extraction_allowed(o: &LoginOutcome) -> (r: bool)
    ensures
        r == spec_extraction_allowed(*o),
{
    match o {
        LoginOutcome::TwoFactorRequired => false,
        LoginOutcome::CaptchaRequired => false,
        LoginOutcome::Fatal { .. } => false,
        _ => true,
    }
}

/// What a structural login failure reports as its detail.
pub open spec fn spec_fatal_detail(reason: FatalReason) -> Seq<char> {
    match reason {
        FatalReason::LoginNavigationFailed => "Login navigation failed"@,
        FatalReason::EmailFieldNotFound => "Email field not found"@,
        FatalReason::EmailTypeFailed => "Failed to enter email"@,
        FatalReason::PasswordFieldNotFound => "Password field not found"@,
        FatalReason::PasswordTypeFailed => "Failed to enter password"@,
        FatalReason::SubmitNotPossible => "Could not submit form"@,
    }
}

/// Render the detail of a structural login failure.
pub fn fatal_detail(reason: FatalReason) -> (r: String)
    ensures
        r@ == spec_fatal_detail(reason),
{
    match reason {
        FatalReason::LoginNavigationFailed => String::from_str("Login navigation failed"),
        FatalReason::EmailFieldNotFound => String::from_str("Email field not found"),
        FatalReason::EmailTypeFailed => String::from_str("Failed to enter email"),
        FatalReason::PasswordFieldNotFound => String::from_str("Password field not found"),
        FatalReason::PasswordTypeFailed => String::from_str("Failed to enter password"),
        FatalReason::SubmitNotPossible => String::from_str("Could not submit form"),
    }
}

/// Map an outcome to the typed error it owes the caller. A scrape never
/// passes over an ambiguous or failed authentication silently: an error
/// comes back exactly when the outcome blocks extraction, and a fatal
/// outcome names its reason in the login-failure error.
pub fn outcome_error(o: &LoginOutcome) -> (r: Option<ScrapeError>)
    ensures
        r is Some <==> !spec_extraction_allowed(*o),
        match *o {
            LoginOutcome::TwoFactorRequired => r == Some(ScrapeError::TwoFactorAuthRequired),
            LoginOutcome::CaptchaRequired => r == Some(ScrapeError::CaptchaRequired),
            LoginOutcome::Fatal { reason } => match r {
                Some(ScrapeError::LoginFailed(m)) => m@ == spec_fatal_detail(reason),
                _ => false,
            },
            _ => r is None,
        },
{
    match o {
        LoginOutcome::TwoFactorRequired => Some(ScrapeError::TwoFactorAuthRequired),
        LoginOutcome::CaptchaRequired => Some(ScrapeError::CaptchaRequired),
        LoginOutcome::Fatal { reason } => Some(ScrapeError::LoginFailed(fatal_detail(*reason))),
        _ => None,
    }
}

/// The login metadata reported to the caller.
pub struct LoginMeta {
    pub login_attempted: bool,
    pub login_success: Option<bool>,
    pub platform_detected: Option<String>,
    pub requires_2fa: Option<bool>,
}

/// Metadata of a request that carried no credentials: no login was
/// attempted and no login fields are reported.
pub fn meta_no_login() -> (m: LoginMeta)
    ensures
        m.login_attempted == false,
        m.login_success is None,
        m.platform_detected is None,
        m.requires_2fa is None,
{
    LoginMeta { login_attempted: false, login_success: None, platform_detected: None, requires_2fa: None }
}

/// Metadata of a request whose login attempt ended in the given outcome:
/// success exactly on authentication, the two-factor flag exactly on a
/// two-factor detection.
pub fn meta_after_login(o: &LoginOutcome, platform: String) -> (m: LoginMeta)
    ensures
        m.login_attempted == true,
        m.login_success == Some(*o is Authenticated),
        m.platform_detected == Some(platform),
        m.requires_2fa == Some(*o is TwoFactorRequired),
{
    let success = match o {
        LoginOutcome::Authenticated => true,
        _ => false,
    };
    let twofa = match o {
        LoginOutcome::TwoFactorRequired => true,
        _ => false,
    };
    LoginMeta {
        login_attempted: true,
        login_success: Some(success),
        platform_detected: Some(platform),
        requires_2fa: Some(twofa),
    }
}

} // verus!
