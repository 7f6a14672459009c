//! The error taxonomy of a scrape, and the human-readable message of each
//! error.

use vstd::prelude::*;
use vstd::string::StringExecFns;

verus! {

/// A structural failure of a scrape. Transient per-step failures are
/// absorbed by the callers; only these terminate a request.
pub enum ScrapeError {
    BrowserLaunch(String),
    Navigation(String),
    PageCreation(String),
    EvaluationFailed(String),
    LoginFailed(String),
    TwoFactorAuthRequired,
    CaptchaRequired,
    ContentExtraction(String),
}

/// The message a given error renders to.
pub open spec fn spec_error_message(e: ScrapeError) -> Seq<char> {
    match e {
        ScrapeError::BrowserLaunch(d) => "Failed to launch browser: "@ + d@,
        ScrapeError::Navigation(d) => "Navigation failed: "@ + d@,
        ScrapeError::PageCreation(d) => "Failed to create new page: "@ + d@,
        ScrapeError::EvaluationFailed(d) => "JavaScript evaluation failed: "@ + d@,
        ScrapeError::LoginFailed(d) => "Automatic login failed: "@ + d@,
        ScrapeError::TwoFactorAuthRequired => "2FA is required, cannot proceed automatically"@,
        ScrapeError::CaptchaRequired => "Captcha challenge detected, cannot proceed automatically"@,
        ScrapeError::ContentExtraction(d) => "Failed to extract content: "@ + d@,
    }
}

impl ScrapeError {
    /// Render the error as a human-readable message.
    pub fn message(&self) -> (r: String)
        ensures
            r@ == spec_error_message(*self),
    {
        match self {
            ScrapeError::BrowserLaunch(d) => {
                let mut s = String::from_str("Failed to launch browser: ");
                s.append(d.as_str());
                s
            },
            ScrapeError::Navigation(d) => {
                let mut s = String::from_str("Navigation failed: ");
                s.append(d.as_str());
                s
            },
            ScrapeError::PageCreation(d) => {
                let mut s = String::from_str("Failed to create new page: ");
                s.append(d.as_str());
                s
            },
            ScrapeError::EvaluationFailed(d) => {
                let mut s = String::from_str("JavaScript evaluation failed: ");
                s.append(d.as_str());
                s
            },
            ScrapeError::LoginFailed(d) => {
                let mut s = String::from_str("Automatic login failed: ");
                s.append(d.as_str());
                s
            },
            ScrapeError::TwoFactorAuthRequired => {
                String::from_str("2FA is required, cannot proceed automatically")
            },
            ScrapeError::CaptchaRequired => {
                String::from_str("Captcha challenge detected, cannot proceed automatically")
            },
            ScrapeError::ContentExtraction(d) => {
                let mut s = String::from_str("Failed to extract content: ");
                s.append(d.as_str());
                s
            },
        }
    }
}

} // verus!
