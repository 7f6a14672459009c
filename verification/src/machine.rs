//! The authentication engine as a state machine. Each step consumes one
//! event reported by the browser driver and yields the next state; each
//! state names the single driver action it is waiting on. The driver
//! performs awaits and page evaluations; every decision is taken here.

use vstd::prelude::*;
use vstd::string::StringExecFns;
use crate::catalog::get_platform_config;
use crate::catalog::resolve_platform;
use crate::catalog::is_multi_step_platform;
use crate::catalog::spec_is_multi_step;
use crate::catalog::spec_platform_config;
use crate::catalog::spec_resolved_platform;
use crate::model::LoginCredentials;
use crate::outcome::FatalReason;
use crate::outcome::LoginOutcome;
use crate::selectors::resolve_email_selectors;
use crate::selectors::resolve_login_url;
use crate::selectors::resolve_password_selectors;
use crate::selectors::resolve_submit_selectors;
use crate::selectors::post_submit_wait_secs;
use crate::selectors::spec_email_selectors;
use crate::selectors::spec_password_selectors;
use crate::selectors::spec_post_submit_wait;
use crate::selectors::spec_resolved_login_url;
use crate::selectors::spec_submit_selectors;
use crate::selectors::strs_to_strings;

verus! {

/// Everything the engine resolves up front for one login attempt.
pub struct AuthPlan {
    pub platform: String,
    pub target_url: String,
    pub login_url: String,
    pub email: String,
    pub password: String,
    pub email_selectors: Vec<String>,
    pub password_selectors: Vec<String>,
    pub submit_selectors: Vec<String>,
    pub success_checks: Vec<String>,
    pub wait_secs: u64,
    pub multi_step: bool,
    pub has_cookies: bool,
}

/// Build the plan for one login attempt from the credentials and the
/// target URL: platform, profile, selector chains, login URL and waits,
/// each by its resolution rule.
pub fn build_auth_plan(credentials: &LoginCredentials, target_url: &str) -> (p: AuthPlan)
    ensures
        ({
            let platform = spec_resolved_platform(credentials.platform.deep_view(), target_url@);
            let cfg = spec_platform_config(platform);
            &&& p.platform@ == platform
            &&& p.target_url@ == target_url@
            &&& p.login_url@ == spec_resolved_login_url(
                credentials.login_url.deep_view(),
                cfg.login_url,
                platform,
                target_url@,
            )
            &&& p.email == credentials.email
            &&& p.password == credentials.password
            &&& p.email_selectors.deep_view() == spec_email_selectors(
                credentials.email_selector.deep_view(),
                cfg.email_selectors,
                platform,
            )
            &&& p.password_selectors.deep_view() == spec_password_selectors(
                credentials.password_selector.deep_view(),
                cfg.password_selectors,
                platform,
            )
            &&& p.submit_selectors.deep_view() == spec_submit_selectors(
                credentials.submit_selector.deep_view(),
                cfg.submit_selectors,
            )
            &&& p.success_checks.deep_view() == match cfg.additional_checks {
                Some(checks) => checks,
                None => Seq::<Seq<char>>::empty(),
            }
            &&& p.wait_secs == spec_post_submit_wait(
                credentials.wait_after_login_secs,
                cfg.wait_after_login,
            )
            &&& p.multi_step == spec_is_multi_step(platform)
            &&& p.has_cookies == (credentials.cookies is Some)
        }),
{
    let platform = resolve_platform(&credentials.platform, target_url);
    let cfg = get_platform_config(platform.as_str());
    let login_url = resolve_login_url(
        &credentials.login_url,
        cfg.login_url,
        platform.as_str(),
        target_url,
    );
    let email_selectors = resolve_email_selectors(
        &credentials.email_selector,
        &cfg.email_selectors,
        platform.as_str(),
    );
    let password_selectors = resolve_password_selectors(
        &credentials.password_selector,
        &cfg.password_selectors,
        platform.as_str(),
    );
    let submit_selectors = resolve_submit_selectors(
        &credentials.submit_selector,
        &cfg.submit_selectors,
    );
    let success_checks = match &cfg.additional_checks {
        Some(checks) => strs_to_strings(checks),
        None => Vec::new(),
    };
    proof {
        if cfg.additional_checks is None {
            assert(success_checks.deep_view() =~= Seq::<Seq<char>>::empty());
        }
    }
    let wait_secs = post_submit_wait_secs(&credentials.wait_after_login_secs, cfg.wait_after_login);
    let multi_step = is_multi_step_platform(platform.as_str());
    let has_cookies = match &credentials.cookies {
        Some(_) => true,
        None => false,
    };
    let target = String::from_str(target_url);
    AuthPlan {
        platform,
        target_url: target,
        login_url,
        email: credentials.email.clone(),
        password: credentials.password.clone(),
        email_selectors,
        password_selectors,
        submit_selectors,
        success_checks,
        wait_secs,
        multi_step,
        has_cookies,
    }
}

/// A state of the authentication engine. Selector payloads are indexes
/// into the plan's selector chains.
#[derive(Clone, Copy, PartialEq, Eq, Structural, Debug)]
pub enum AuthState {
    Start,
    CookieInject,
    CookieNav,
    CookieVerify,
    FormNavigate,
    BannerDismiss { attempt: u8 },
    EmailProbe,
    EmailType { selector: usize },
    MultiStepProbe,
    AdvanceClick,
    PasswordProbe,
    PasswordType { selector: usize },
    SubmitProbe,
    SubmitClick { selector: usize },
    SubmitFallback,
    PostSubmitWait,
    PromptDismiss { attempt: u8 },
    CaptchaCheck,
    TwoFactorCheck,
    ErrorCheck,
    SuccessIndicatorProbe { index: usize },
    HeuristicSuccessCheck,
    UrlCheck,
    TargetNav,
    Done { outcome: LoginOutcome },
}

/// An event the driver reports back after performing an action.
#[derive(Clone, Copy, PartialEq, Eq, Structural, Debug)]
pub enum AuthEvent {
    Begin,
    CookiesSet,
    Navigated { ok: bool },
    Verified { ok: bool },
    BannerResult { clicked: bool },
    ProbeResult { found: Option<usize> },
    TypeResult { ok: bool },
    AdvanceResult { ok: bool },
    ClickResult { ok: bool },
    SubmitFallbackResult { ok: bool },
    Waited,
    PromptResult { dismissed: bool },
    PredicateResult { present: bool },
    UrlMatches { matches: bool },
}

/// The driver action a state waits on. Selector payloads are indexes into
/// the plan's selector chains.
#[derive(Clone, Copy, PartialEq, Eq, Structural, Debug)]
pub enum AuthAction {
    SetCookies,
    NavigateTarget,
    NavigateLogin,
    EvalCookieVerify,
    EvalBannerDismiss,
    ProbeEmail,
    TypeEmail { selector: usize },
    ProbePasswordShort,
    EvalAdvance,
    ProbePassword,
    TypePassword { selector: usize },
    ProbeSubmit,
    ClickSubmit { selector: usize },
    EvalSubmitFallback,
    WaitPostSubmit,
    EvalPromptDismiss,
    EvalCaptcha,
    EvalTwoFactor,
    EvalCredError,
    ProbeSuccessIndicator { index: usize },
    EvalHeuristicSuccess,
    QueryUrl,
    Finish,
}

/// The transition relation of the engine. `ms` is the multi-step flag,
/// `hc` whether the credentials carry cookies, `nchecks` how many success
/// indicators the profile configures. An event a state is not waiting on
/// leaves the state unchanged.
pub open spec fn spec_auth_step(
    ms: bool,
    hc: bool,
    nchecks: int,
    s: AuthState,
    e: AuthEvent,
) -> AuthState {
    match (s, e) {
        (AuthState::Start, AuthEvent::Begin) => if hc {
            AuthState::CookieInject
        } else {
            AuthState::FormNavigate
        },
        (AuthState::CookieInject, AuthEvent::CookiesSet) => AuthState::CookieNav,
        (AuthState::CookieNav, AuthEvent::Navigated { ok }) => if ok {
            AuthState::CookieVerify
        } else {
            AuthState::FormNavigate
        },
        (AuthState::CookieVerify, AuthEvent::Verified { ok }) => if ok {
            AuthState::Done { outcome: LoginOutcome::Authenticated }
        } else {
            AuthState::FormNavigate
        },
        (AuthState::FormNavigate, AuthEvent::Navigated { ok }) => if ok {
            AuthState::BannerDismiss { attempt: 0 }
        } else {
            AuthState::Done {
                outcome: LoginOutcome::Fatal { reason: FatalReason::LoginNavigationFailed },
            }
        },
        (AuthState::BannerDismiss { attempt }, AuthEvent::BannerResult { clicked }) => if clicked
            && attempt < 2 {
            AuthState::BannerDismiss { attempt: (attempt + 1) as u8 }
        } else {
            AuthState::EmailProbe
        },
        (AuthState::EmailProbe, AuthEvent::ProbeResult { found }) => match found {
            Some(i) => AuthState::EmailType { selector: i },
            None => AuthState::Done {
                outcome: LoginOutcome::Fatal { reason: FatalReason::EmailFieldNotFound },
            },
        },
        (AuthState::EmailType { selector: _ }, AuthEvent::TypeResult { ok }) => if ok {
            if ms {
                AuthState::MultiStepProbe
            } else {
                AuthState::PasswordProbe
            }
        } else {
            AuthState::Done {
                outcome: LoginOutcome::Fatal { reason: FatalReason::EmailTypeFailed },
            }
        },
        (AuthState::MultiStepProbe, AuthEvent::ProbeResult { found }) => match found {
            Some(_) => AuthState::PasswordProbe,
            None => AuthState::AdvanceClick,
        },
        (AuthState::AdvanceClick, AuthEvent::AdvanceResult { ok: _ }) => AuthState::PasswordProbe,
        (AuthState::PasswordProbe, AuthEvent::ProbeResult { found }) => match found {
            Some(i) => AuthState::PasswordType { selector: i },
            None => AuthState::Done {
                outcome: LoginOutcome::Fatal { reason: FatalReason::PasswordFieldNotFound },
            },
        },
        (AuthState::PasswordType { selector: _ }, AuthEvent::TypeResult { ok }) => if ok {
            AuthState::SubmitProbe
        } else {
            AuthState::Done {
                outcome: LoginOutcome::Fatal { reason: FatalReason::PasswordTypeFailed },
            }
        },
        (AuthState::SubmitProbe, AuthEvent::ProbeResult { found }) => match found {
            Some(i) => AuthState::SubmitClick { selector: i },
            None => AuthState::SubmitFallback,
        },
        (AuthState::SubmitClick { selector: _ }, AuthEvent::ClickResult { ok }) => if ok {
            AuthState::PostSubmitWait
        } else {
            AuthState::SubmitFallback
        },
        (AuthState::SubmitFallback, AuthEvent::SubmitFallbackResult { ok }) => if ok {
            AuthState::PostSubmitWait
        } else {
            AuthState::Done {
                outcome: LoginOutcome::Fatal { reason: FatalReason::SubmitNotPossible },
            }
        },
        (AuthState::PostSubmitWait, AuthEvent::Waited) => AuthState::PromptDismiss { attempt: 0 },
        (AuthState::PromptDismiss { attempt }, AuthEvent::PromptResult { dismissed }) => if dismissed
            && attempt < 1 {
            AuthState::PromptDismiss { attempt: (attempt + 1) as u8 }
        } else {
            AuthState::CaptchaCheck
        },
        (AuthState::CaptchaCheck, AuthEvent::PredicateResult { present }) => if present {
            AuthState::Done { outcome: LoginOutcome::CaptchaRequired }
        } else {
            AuthState::TwoFactorCheck
        },
        (AuthState::TwoFactorCheck, AuthEvent::PredicateResult { present }) => if present {
            AuthState::Done { outcome: LoginOutcome::TwoFactorRequired }
        } else {
            AuthState::ErrorCheck
        },
        (AuthState::ErrorCheck, AuthEvent::PredicateResult { present }) => if present {
            AuthState::Done { outcome: LoginOutcome::CredentialRejected }
        } else if nchecks > 0 {
            AuthState::SuccessIndicatorProbe { index: 0 }
        } else {
            AuthState::HeuristicSuccessCheck
        },
        (AuthState::SuccessIndicatorProbe { index }, AuthEvent::ProbeResult { found }) => match found {
            Some(_) => AuthState::UrlCheck,
            None => if index < nchecks && index + 1 < nchecks {
                AuthState::SuccessIndicatorProbe { index: (index + 1) as usize }
            } else {
                AuthState::HeuristicSuccessCheck
            },
        },
        (AuthState::HeuristicSuccessCheck, AuthEvent::PredicateResult { present }) => if present {
            AuthState::UrlCheck
        } else {
            AuthState::Done { outcome: LoginOutcome::Inconclusive }
        },
        (AuthState::UrlCheck, AuthEvent::UrlMatches { matches }) => if matches {
            AuthState::Done { outcome: LoginOutcome::Authenticated }
        } else {
            AuthState::TargetNav
        },
        (AuthState::TargetNav, AuthEvent::Navigated { ok: _ }) => AuthState::Done {
            outcome: LoginOutcome::Authenticated,
        },
        (AuthState::Done { outcome }, _) => AuthState::Done { outcome },
        (other, _) => other,
    }
}

/// The driver action each state waits on.
pub open spec fn spec_auth_action(s: AuthState) -> AuthAction {
    match s {
        AuthState::Start => AuthAction::Finish,
        AuthState::CookieInject => AuthAction::SetCookies,
        AuthState::CookieNav => AuthAction::NavigateTarget,
        AuthState::CookieVerify => AuthAction::EvalCookieVerify,
        AuthState::FormNavigate => AuthAction::NavigateLogin,
        AuthState::BannerDismiss { attempt: _ } => AuthAction::EvalBannerDismiss,
        AuthState::EmailProbe => AuthAction::ProbeEmail,
        AuthState::EmailType { selector } => AuthAction::TypeEmail { selector },
        AuthState::MultiStepProbe => AuthAction::ProbePasswordShort,
        AuthState::AdvanceClick => AuthAction::EvalAdvance,
        AuthState::PasswordProbe => AuthAction::ProbePassword,
        AuthState::PasswordType { selector } => AuthAction::TypePassword { selector },
        AuthState::SubmitProbe => AuthAction::ProbeSubmit,
        AuthState::SubmitClick { selector } => AuthAction::ClickSubmit { selector },
        AuthState::SubmitFallback => AuthAction::EvalSubmitFallback,
        AuthState::PostSubmitWait => AuthAction::WaitPostSubmit,
        AuthState::PromptDismiss { attempt: _ } => AuthAction::EvalPromptDismiss,
        AuthState::CaptchaCheck => AuthAction::EvalCaptcha,
        AuthState::TwoFactorCheck => AuthAction::EvalTwoFactor,
        AuthState::ErrorCheck => AuthAction::EvalCredError,
        AuthState::SuccessIndicatorProbe { index } => AuthAction::ProbeSuccessIndicator { index },
        AuthState::HeuristicSuccessCheck => AuthAction::EvalHeuristicSuccess,
        AuthState::UrlCheck => AuthAction::QueryUrl,
        AuthState::TargetNav => AuthAction::NavigateTarget,
        AuthState::Done { outcome: _ } => AuthAction::Finish,
    }
}

/// Advance the engine by one event.
pub fn auth_step(plan: &AuthPlan, s: AuthState, e: &AuthEvent) -> (r: AuthState)
    ensures
        r == spec_auth_step(
            plan.multi_step,
            plan.has_cookies,
            plan.success_checks@.len() as int,
            s,
            *e,
        ),
{
    let nchecks = plan.success_checks.len();
    match (s, *e) {
        (AuthState::Start, AuthEvent::Begin) => if plan.has_cookies {
            AuthState::CookieInject
        } else {
            AuthState::FormNavigate
        },
        (AuthState::CookieInject, AuthEvent::CookiesSet) => AuthState::CookieNav,
        (AuthState::CookieNav, AuthEvent::Navigated { ok }) => if ok {
            AuthState::CookieVerify
        } else {
            AuthState::FormNavigate
        },
        (AuthState::CookieVerify, AuthEvent::Verified { ok }) => if ok {
            AuthState::Done { outcome: LoginOutcome::Authenticated }
        } else {
            AuthState::FormNavigate
        },
        (AuthState::FormNavigate, AuthEvent::Navigated { ok }) => if ok {
            AuthState::BannerDismiss { attempt: 0 }
        } else {
            AuthState::Done {
                outcome: LoginOutcome::Fatal { reason: FatalReason::LoginNavigationFailed },
            }
        },
        (AuthState::BannerDismiss { attempt }, AuthEvent::BannerResult { clicked }) => if clicked
            && attempt < 2 {
            AuthState::BannerDismiss { attempt: attempt + 1 }
        } else {
            AuthState::EmailProbe
        },
        (AuthState::EmailProbe, AuthEvent::ProbeResult { found }) => match found {
            Some(i) => AuthState::EmailType { selector: i },
            None => AuthState::Done {
                outcome: LoginOutcome::Fatal { reason: FatalReason::EmailFieldNotFound },
            },
        },
        (AuthState::EmailType { selector: _ }, AuthEvent::TypeResult { ok }) => if ok {
            if plan.multi_step {
                AuthState::MultiStepProbe
            } else {
                AuthState::PasswordProbe
            }
        } else {
            AuthState::Done {
                outcome: LoginOutcome::Fatal { reason: FatalReason::EmailTypeFailed },
            }
        },
        (AuthState::MultiStepProbe, AuthEvent::ProbeResult { found }) => match found {
            Some(_) => AuthState::PasswordProbe,
            None => AuthState::AdvanceClick,
        },
        (AuthState::AdvanceClick, AuthEvent::AdvanceResult { ok: _ }) => AuthState::PasswordProbe,
        (AuthState::PasswordProbe, AuthEvent::ProbeResult { found }) => match found {
            Some(i) => AuthState::PasswordType { selector: i },
            None => AuthState::Done {
                outcome: LoginOutcome::Fatal { reason: FatalReason::PasswordFieldNotFound },
            },
        },
        (AuthState::PasswordType { selector: _ }, AuthEvent::TypeResult { ok }) => if ok {
            AuthState::SubmitProbe
        } else {
            AuthState::Done {
                outcome: LoginOutcome::Fatal { reason: FatalReason::PasswordTypeFailed },
            }
        },
        (AuthState::SubmitProbe, AuthEvent::ProbeResult { found }) => match found {
            Some(i) => AuthState::SubmitClick { selector: i },
            None => AuthState::SubmitFallback,
        },
        (AuthState::SubmitClick { selector: _ }, AuthEvent::ClickResult { ok }) => if ok {
            AuthState::PostSubmitWait
        } else {
            AuthState::SubmitFallback
        },
        (AuthState::SubmitFallback, AuthEvent::SubmitFallbackResult { ok }) => if ok {
            AuthState::PostSubmitWait
        } else {
            AuthState::Done {
                outcome: LoginOutcome::Fatal { reason: FatalReason::SubmitNotPossible },
            }
        },
        (AuthState::PostSubmitWait, AuthEvent::Waited) => AuthState::PromptDismiss { attempt: 0 },
        (AuthState::PromptDismiss { attempt }, AuthEvent::PromptResult { dismissed }) => if dismissed
            && attempt < 1 {
            AuthState::PromptDismiss { attempt: attempt + 1 }
        } else {
            AuthState::CaptchaCheck
        },
        (AuthState::CaptchaCheck, AuthEvent::PredicateResult { present }) => if present {
            AuthState::Done { outcome: LoginOutcome::CaptchaRequired }
        } else {
            AuthState::TwoFactorCheck
        },
        (AuthState::TwoFactorCheck, AuthEvent::PredicateResult { present }) => if present {
            AuthState::Done { outcome: LoginOutcome::TwoFactorRequired }
        } else {
            AuthState::ErrorCheck
        },
        (AuthState::ErrorCheck, AuthEvent::PredicateResult { present }) => if present {
            AuthState::Done { outcome: LoginOutcome::CredentialRejected }
        } else if nchecks > 0 {
            AuthState::SuccessIndicatorProbe { index: 0 }
        } else {
            AuthState::HeuristicSuccessCheck
        },
        (AuthState::SuccessIndicatorProbe { index }, AuthEvent::ProbeResult { found }) => match found {
            Some(_) => AuthState::UrlCheck,
            None => if index < nchecks && index + 1 < nchecks {
                AuthState::SuccessIndicatorProbe { index: index + 1 }
            } else {
                AuthState::HeuristicSuccessCheck
            },
        },
        (AuthState::HeuristicSuccessCheck, AuthEvent::PredicateResult { present }) => if present {
            AuthState::UrlCheck
        } else {
            AuthState::Done { outcome: LoginOutcome::Inconclusive }
        },
        (AuthState::UrlCheck, AuthEvent::UrlMatches { matches }) => if matches {
            AuthState::Done { outcome: LoginOutcome::Authenticated }
        } else {
            AuthState::TargetNav
        },
        (AuthState::TargetNav, AuthEvent::Navigated { ok: _ }) => AuthState::Done {
            outcome: LoginOutcome::Authenticated,
        },
        (AuthState::Done { outcome }, _) => AuthState::Done { outcome },
        (other, _) => other,
    }
}

/// The driver action the current state waits on.
pub fn auth_action(s: AuthState) -> (r: AuthAction)
    ensures
        r == spec_auth_action(s),
{
    match s {
        AuthState::Start => AuthAction::Finish,
        AuthState::CookieInject => AuthAction::SetCookies,
        AuthState::CookieNav => AuthAction::NavigateTarget,
        AuthState::CookieVerify => AuthAction::EvalCookieVerify,
        AuthState::FormNavigate => AuthAction::NavigateLogin,
        AuthState::BannerDismiss { attempt: _ } => AuthAction::EvalBannerDismiss,
        AuthState::EmailProbe => AuthAction::ProbeEmail,
        AuthState::EmailType { selector } => AuthAction::TypeEmail { selector },
        AuthState::MultiStepProbe => AuthAction::ProbePasswordShort,
        AuthState::AdvanceClick => AuthAction::EvalAdvance,
        AuthState::PasswordProbe => AuthAction::ProbePassword,
        AuthState::PasswordType { selector } => AuthAction::TypePassword { selector },
        AuthState::SubmitProbe => AuthAction::ProbeSubmit,
        AuthState::SubmitClick { selector } => AuthAction::ClickSubmit { selector },
        AuthState::SubmitFallback => AuthAction::EvalSubmitFallback,
        AuthState::PostSubmitWait => AuthAction::WaitPostSubmit,
        AuthState::PromptDismiss { attempt: _ } => AuthAction::EvalPromptDismiss,
        AuthState::CaptchaCheck => AuthAction::EvalCaptcha,
        AuthState::TwoFactorCheck => AuthAction::EvalTwoFactor,
        AuthState::ErrorCheck => AuthAction::EvalCredError,
        AuthState::SuccessIndicatorProbe { index } => AuthAction::ProbeSuccessIndicator { index },
        AuthState::HeuristicSuccessCheck => AuthAction::EvalHeuristicSuccess,
        AuthState::UrlCheck => AuthAction::QueryUrl,
        AuthState::TargetNav => AuthAction::NavigateTarget,
        AuthState::Done { outcome: _ } => AuthAction::Finish,
    }
}

/// The outcome carried by a terminal state.
pub fn outcome_of(s: &AuthState) -> (r: Option<LoginOutcome>)
    ensures
        match *s {
            AuthState::Done { outcome } => r == Some(outcome),
            _ => r is None,
        },
{
    match s {
        AuthState::Done { outcome } => Some(*outcome),
        _ => None,
    }
}

/// The states the engine passes through on a script of events: the state
/// before the first event, then the state after each event in turn.
pub open spec fn spec_run_states(ms: bool, hc: bool, nchecks: int, events: Seq<AuthEvent>) -> Seq<
    AuthState,
>
    decreases events.len(),
{
    if events.len() == 0 {
        seq![AuthState::Start]
    } else {
        let prev = spec_run_states(ms, hc, nchecks, events.drop_last());
        prev.push(spec_auth_step(ms, hc, nchecks, prev.last(), events.last()))
    }
}

proof fn lemma_run_states_len(ms: bool, hc: bool, nchecks: int, events: Seq<AuthEvent>)
    ensures
        spec_run_states(ms, hc, nchecks, events).len() == events.len() + 1,
    decreases events.len(),
{
    if events.len() > 0 {
        lemma_run_states_len(ms, hc, nchecks, events.drop_last());
    }
}

/// A full run of the engine over a script of events: the final state and
/// the action issued after each event.
pub struct AuthRun {
    pub state: AuthState,
    pub actions: Vec<AuthAction>,
}

/// Drive the engine over a script of events, recording the action issued
/// after each event; the run ends in the state the trace ends in.
pub fn run_auth(plan: &AuthPlan, events: &Vec<AuthEvent>) -> (r: AuthRun)
    ensures
        ({
            let trace = spec_run_states(
                plan.multi_step,
                plan.has_cookies,
                plan.success_checks@.len() as int,
                events@,
            );
            &&& r.state == trace.last()
            &&& r.actions@.len() == events@.len()
            &&& (forall|i: int|
                0 <= i < events@.len() ==> r.actions@[i] == spec_auth_action(#[trigger] trace[i + 1]))
        }),
{
    let ghost ms = plan.multi_step;
    let ghost hc = plan.has_cookies;
    let ghost nchecks = plan.success_checks@.len() as int;
    let mut state = AuthState::Start;
    let mut actions: Vec<AuthAction> = Vec::new();
    let mut i: usize = 0;
    proof {
        lemma_run_states_len(ms, hc, nchecks, events@);
        assert(events@.take(0) =~= Seq::<AuthEvent>::empty());
        assert(spec_run_states(ms, hc, nchecks, events@.take(0)) =~= seq![AuthState::Start]);
    }
    while i < events.len()
        invariant
            i <= events@.len(),
            actions@.len() == i,
            spec_run_states(ms, hc, nchecks, events@.take(i as int)).last() == state,
            ms == plan.multi_step,
            hc == plan.has_cookies,
            nchecks == plan.success_checks@.len() as int,
            forall|j: int|
                0 <= j < i ==> actions@[j] == spec_auth_action(
                    #[trigger] spec_run_states(ms, hc, nchecks, events@)[j + 1],
                ),
        decreases events@.len() - i,
    {
        let e = events[i];
        let next = auth_step(plan, state, &e);
        let act = auth_action(next);
        proof {
            let taken = events@.take(i + 1);
            assert(taken.drop_last() =~= events@.take(i as int));
            assert(taken.last() == events@[i as int]);
            lemma_run_states_len(ms, hc, nchecks, taken.drop_last());
            lemma_run_prefix(ms, hc, nchecks, events@, i + 1);
        }
        state = next;
        actions.push(act);
        i += 1;
    }
    proof {
        assert(events@.take(events@.len() as int) =~= events@);
    }
    AuthRun { state, actions }
}

/// The state after `k` events equals the last state of the run over the
/// first `k` events.
proof fn lemma_run_prefix(ms: bool, hc: bool, nchecks: int, events: Seq<AuthEvent>, k: int)
    requires
        0 <= k <= events.len(),
    ensures
        spec_run_states(ms, hc, nchecks, events.take(k)).last() == spec_run_states(
            ms,
            hc,
            nchecks,
            events,
        )[k],
    decreases events.len(),
{
    lemma_run_states_len(ms, hc, nchecks, events);
    if events.len() == 0 {
        assert(events.take(0) =~= events);
    } else if k == events.len() {
        assert(events.take(k) =~= events);
        lemma_run_states_len(ms, hc, nchecks, events.drop_last());
    } else {
        lemma_run_prefix(ms, hc, nchecks, events.drop_last(), k);
        assert(events.drop_last().take(k) =~= events.take(k));
        lemma_run_states_len(ms, hc, nchecks, events.drop_last());
    }
}

/// The states reachable while cookie authentication is still succeeding.
pub open spec fn cookie_path_state(s: AuthState) -> bool {
    ||| s == AuthState::Start
    ||| s == AuthState::CookieInject
    ||| s == AuthState::CookieNav
    ||| s == AuthState::CookieVerify
    ||| s == (AuthState::Done { outcome: LoginOutcome::Authenticated })
}

/// One step preserves the cookie path when navigation succeeds and the
/// cookie verification reports success.
proof fn lemma_cookie_step(ms: bool, nchecks: int, s: AuthState, e: AuthEvent)
    requires
        cookie_path_state(s),
        e != (AuthEvent::Verified { ok: false }),
        e != (AuthEvent::Navigated { ok: false }),
    ensures
        cookie_path_state(spec_auth_step(ms, true, nchecks, s, e)),
{
}

/// Cookie authentication success never visits the login URL: with cookies
/// present, when every navigation succeeds and every cookie verification
/// reports success, no state the engine passes through issues a
/// navigation to the login URL, and the engine only ever terminates
/// authenticated.
pub proof fn lemma_cookie_auth_skips_login(ms: bool, nchecks: int, events: Seq<AuthEvent>)
    requires
        forall|i: int| 0 <= i < events.len() ==> events[i] != (AuthEvent::Verified { ok: false }),
        forall|i: int| 0 <= i < events.len() ==> events[i] != (AuthEvent::Navigated { ok: false }),
    ensures
        forall|k: int|
            0 <= k < spec_run_states(ms, true, nchecks, events).len() ==> cookie_path_state(
                #[trigger] spec_run_states(ms, true, nchecks, events)[k],
            ),
        forall|k: int|
            0 <= k < spec_run_states(ms, true, nchecks, events).len() ==> spec_auth_action(
                #[trigger] spec_run_states(ms, true, nchecks, events)[k],
            ) != AuthAction::NavigateLogin,
    decreases events.len(),
{
    lemma_run_states_len(ms, true, nchecks, events);
    if events.len() == 0 {
    } else {
        lemma_cookie_auth_skips_login(ms, nchecks, events.drop_last());
        lemma_run_states_len(ms, true, nchecks, events.drop_last());
        let prev = spec_run_states(ms, true, nchecks, events.drop_last());
        lemma_cookie_step(ms, nchecks, prev.last(), events.last());
        assert forall|k: int|
            0 <= k < spec_run_states(ms, true, nchecks, events).len() implies cookie_path_state(
            spec_run_states(ms, true, nchecks, events)[k],
        ) by {
            if k < prev.len() {
                assert(spec_run_states(ms, true, nchecks, events)[k] == prev[k]);
            }
        }
    }
}

/// A terminal state is absorbing: once the engine has decided an outcome,
/// no further event changes it.
pub proof fn lemma_done_absorbing(
    ms: bool,
    hc: bool,
    nchecks: int,
    outcome: LoginOutcome,
    e: AuthEvent,
)
    ensures
        spec_auth_step(ms, hc, nchecks, AuthState::Done { outcome }, e) == (AuthState::Done {
            outcome,
        }),
{
}

/// The two-factor check runs only after the captcha check has come back
/// negative: the only transitions into the two-factor check are from the
/// captcha check on an absent captcha marker, or its own stutter.
pub proof fn lemma_two_factor_after_captcha(
    ms: bool,
    hc: bool,
    nchecks: int,
    s: AuthState,
    e: AuthEvent,
)
    requires
        spec_auth_step(ms, hc, nchecks, s, e) == AuthState::TwoFactorCheck,
    ensures
        s == AuthState::TwoFactorCheck || (s == AuthState::CaptchaCheck && e == (
        AuthEvent::PredicateResult { present: false })),
{
}

/// A captcha marker terminates the engine as captcha required even when a
/// two-factor marker is present on the same page: the captcha check takes
/// priority.
pub proof fn lemma_machine_captcha_priority(ms: bool, hc: bool, nchecks: int)
    ensures
        spec_auth_step(ms, hc, nchecks, AuthState::CaptchaCheck, AuthEvent::PredicateResult {
            present: true,
        }) == (AuthState::Done { outcome: LoginOutcome::CaptchaRequired }),
{
}

/// Where the walk through the post-submit checks ends, on a profile with
/// no configured success indicators, when the page shows the given
/// signals. Once a check terminates the engine, the remaining events only
/// meet the absorbing terminal state.
pub open spec fn spec_check_walk(ms: bool, hc: bool, s: crate::outcome::DomSignals) -> AuthState {
    let s1 = spec_auth_step(ms, hc, 0, AuthState::CaptchaCheck, AuthEvent::PredicateResult {
        present: s.captcha,
    });
    let s2 = spec_auth_step(ms, hc, 0, s1, AuthEvent::PredicateResult { present: s.two_factor });
    let s3 = spec_auth_step(ms, hc, 0, s2, AuthEvent::PredicateResult {
        present: s.credential_error,
    });
    spec_auth_step(ms, hc, 0, s3, AuthEvent::PredicateResult { present: s.heuristic_success })
}

/// The engine's sequential post-submit checks implement the
/// classification priority: on a profile with no configured success
/// indicators, the walk terminates in exactly the outcome the priority
/// rule assigns to the page's signals, with authentication pending only
/// the final return to the target URL.
pub proof fn lemma_checks_follow_classification(
    ms: bool,
    hc: bool,
    s: crate::outcome::DomSignals,
)
    requires
        !s.success_indicator,
    ensures
        crate::outcome::spec_classify(s) == LoginOutcome::Authenticated ==> spec_check_walk(
            ms,
            hc,
            s,
        ) == AuthState::UrlCheck,
        crate::outcome::spec_classify(s) != LoginOutcome::Authenticated ==> spec_check_walk(
            ms,
            hc,
            s,
        ) == (AuthState::Done { outcome: crate::outcome::spec_classify(s) }),
{
}

} // verus!
