//! Platform catalog: per-platform login profiles, the login-URL heuristic,
//! platform detection from a target URL, and the multi-step allow-list.

use vstd::prelude::*;
use vstd::string::StringExecFns;
use crate::text::contains_sub;
use crate::text::eq_ignore_case;
use crate::text::str_contains;
use crate::text::str_eq;
use crate::text::str_eq_ci;

verus! {

/// Mathematical model of a platform profile.
#[verifier::ext_equal]
pub struct ConfigModel {
    pub login_url: Seq<char>,
    pub email_selectors: Seq<Seq<char>>,
    pub password_selectors: Seq<Seq<char>>,
    pub submit_selectors: Seq<Seq<char>>,
    pub wait_after_login: u64,
    pub additional_checks: Option<Seq<Seq<char>>>,
}

/// A platform profile: where to log in, which selector chains locate the
/// form fields, how long to wait after submitting, and which selectors
/// indicate a logged-in page.
pub struct PlatformConfig {
    pub login_url: &'static str,
    pub email_selectors: Vec<&'static str>,
    pub password_selectors: Vec<&'static str>,
    pub submit_selectors: Vec<&'static str>,
    pub wait_after_login: u64,
    pub additional_checks: Option<Vec<&'static str>>,
}

impl View for PlatformConfig {
    type V = ConfigModel;

    open spec fn view(&self) -> ConfigModel {
        ConfigModel {
            login_url: self.login_url@,
            email_selectors: self.email_selectors.deep_view(),
            password_selectors: self.password_selectors.deep_view(),
            submit_selectors: self.submit_selectors.deep_view(),
            wait_after_login: self.wait_after_login,
            additional_checks: self.additional_checks.deep_view(),
        }
    }
}

pub open spec fn linkedin_model() -> ConfigModel {
    ConfigModel {
        login_url: "https://www.linkedin.com/login"@,
        email_selectors: seq![
            "#username"@,
            "input[name='session_key']"@,
            "input[id='username']"@,
        ],
        password_selectors: seq![
            "#password"@,
            "input[name='session_password']"@,
            "input[id='password']"@,
        ],
        submit_selectors: seq![
            "button[type='submit']"@,
            "button[data-litms-control-urn*='login-submit']"@,
            ".login__form_action_container button"@,
        ],
        wait_after_login: 8,
        additional_checks: Some(seq![".global-nav__me"@, ".feed-identity-module"@]),
    }
}

pub open spec fn facebook_model() -> ConfigModel {
    ConfigModel {
        login_url: "https://www.facebook.com/login"@,
        email_selectors: seq![
            "#email"@,
            "input[name='email']"@,
            "input[type='text'][name='email']"@,
        ],
        password_selectors: seq![
            "#pass"@,
            "input[name='pass']"@,
            "input[type='password'][name='pass']"@,
        ],
        submit_selectors: seq![
            "button[name='login']"@,
            "button[type='submit']"@,
            "#loginbutton"@,
        ],
        wait_after_login: 6,
        additional_checks: Some(seq![
            "[aria-label='Your profile']"@,
            "[data-pagelet='LeftRail']"@,
        ]),
    }
}

pub open spec fn twitter_model() -> ConfigModel {
    ConfigModel {
        login_url: "https://twitter.com/i/flow/login"@,
        email_selectors: seq![
            "input[name='text']"@,
            "input[autocomplete='username']"@,
            "input[name='session[username_or_email]']"@,
        ],
        password_selectors: seq![
            "input[name='password']"@,
            "input[type='password']"@,
            "input[autocomplete='current-password']"@,
        ],
        submit_selectors: seq![
            "[role='button'][data-testid*='LoginForm_Login_Button']"@,
            "button[type='submit']"@,
            "[data-testid='LoginForm_Login_Button']"@,
        ],
        wait_after_login: 7,
        additional_checks: Some(seq![
            "[data-testid='SideNav_AccountSwitcher_Button']"@,
            "[aria-label='Home timeline']"@,
        ]),
    }
}

pub open spec fn github_model() -> ConfigModel {
    ConfigModel {
        login_url: "https://github.com/login"@,
        email_selectors: seq!["#login_field"@, "input[name='login']"@],
        password_selectors: seq!["#password"@, "input[name='password']"@],
        submit_selectors: seq![
            "input[type='submit'][value='Sign in']"@,
            "input[name='commit']"@,
        ],
        wait_after_login: 5,
        additional_checks: Some(seq![
            "[aria-label='Global navigation']"@,
            ".Header-link--user"@,
        ]),
    }
}

pub open spec fn instagram_model() -> ConfigModel {
    ConfigModel {
        login_url: "https://www.instagram.com/accounts/login/"@,
        email_selectors: seq![
            "input[name='username']"@,
            "input[aria-label='Phone number, username, or email']"@,
        ],
        password_selectors: seq![
            "input[name='password']"@,
            "input[type='password']"@,
        ],
        submit_selectors: seq!["button[type='submit']"@],
        wait_after_login: 6,
        additional_checks: Some(seq!["[aria-label='Home']"@, "svg[aria-label='Home']"@]),
    }
}

pub open spec fn reddit_model() -> ConfigModel {
    ConfigModel {
        login_url: "https://www.reddit.com/login/"@,
        email_selectors: seq!["#loginUsername"@, "input[name='username']"@],
        password_selectors: seq!["#loginPassword"@, "input[name='password']"@],
        submit_selectors: seq![
            "button[type='submit']"@,
            ".AnimatedForm__submitButton"@,
        ],
        wait_after_login: 5,
        additional_checks: Some(seq![
            "[id*='USER_DROPDOWN']"@,
            "button[aria-label*='User']"@,
        ]),
    }
}

/// The fallback profile for every platform outside the catalog: broad
/// low-specificity selectors, no login URL, no success indicators.
pub open spec fn generic_model() -> ConfigModel {
    ConfigModel {
        login_url: ""@,
        email_selectors: seq![
            "input[type='email']"@,
            "input[name='email']"@,
            "input[id='email']"@,
            "input[name='username']"@,
            "input[id='username']"@,
            "input[placeholder*='email' i]"@,
            "input[placeholder*='username' i]"@,
        ],
        password_selectors: seq![
            "input[type='password']"@,
            "input[name='password']"@,
            "input[id='password']"@,
        ],
        submit_selectors: seq!["button[type='submit']"@, "input[type='submit']"@],
        wait_after_login: 5,
        additional_checks: None,
    }
}

fn linkedin_config() -> (c: PlatformConfig)
    ensures
        c@ == linkedin_model(),
{
    let c = PlatformConfig {
        login_url: "https://www.linkedin.com/login",
        email_selectors: vec![
            "#username",
            "input[name='session_key']",
            "input[id='username']",
        ],
        password_selectors: vec![
            "#password",
            "input[name='session_password']",
            "input[id='password']",
        ],
        submit_selectors: vec![
            "button[type='submit']",
            "button[data-litms-control-urn*='login-submit']",
            ".login__form_action_container button",
        ],
        wait_after_login: 8,
        additional_checks: Some(vec![".global-nav__me", ".feed-identity-module"]),
    };
    proof {
        assert(c@ =~~= linkedin_model());
    }
    c
}

fn facebook_config() -> (c: PlatformConfig)
    ensures
        c@ == facebook_model(),
{
    let c = PlatformConfig {
        login_url: "https://www.facebook.com/login",
        email_selectors: vec![
            "#email",
            "input[name='email']",
            "input[type='text'][name='email']",
        ],
        password_selectors: vec![
            "#pass",
            "input[name='pass']",
            "input[type='password'][name='pass']",
        ],
        submit_selectors: vec![
            "button[name='login']",
            "button[type='submit']",
            "#loginbutton",
        ],
        wait_after_login: 6,
        additional_checks: Some(vec![
            "[aria-label='Your profile']",
            "[data-pagelet='LeftRail']",
        ]),
    };
    proof {
        assert(c@ =~~= facebook_model());
    }
    c
}

fn twitter_config() -> (c: PlatformConfig)
    ensures
        c@ == twitter_model(),
{
    let c = PlatformConfig {
        login_url: "https://twitter.com/i/flow/login",
        email_selectors: vec![
            "input[name='text']",
            "input[autocomplete='username']",
            "input[name='session[username_or_email]']",
        ],
        password_selectors: vec![
            "input[name='password']",
            "input[type='password']",
            "input[autocomplete='current-password']",
        ],
        submit_selectors: vec![
            "[role='button'][data-testid*='LoginForm_Login_Button']",
            "button[type='submit']",
            "[data-testid='LoginForm_Login_Button']",
        ],
        wait_after_login: 7,
        additional_checks: Some(vec![
            "[data-testid='SideNav_AccountSwitcher_Button']",
            "[aria-label='Home timeline']",
        ]),
    };
    proof {
        assert(c@ =~~= twitter_model());
    }
    c
}

fn github_config() -> (c: PlatformConfig)
    ensures
        c@ == github_model(),
{
    let c = PlatformConfig {
        login_url: "https://github.com/login",
        email_selectors: vec!["#login_field", "input[name='login']"],
        password_selectors: vec!["#password", "input[name='password']"],
        submit_selectors: vec![
            "input[type='submit'][value='Sign in']",
            "input[name='commit']",
        ],
        wait_after_login: 5,
        additional_checks: Some(vec![
            "[aria-label='Global navigation']",
            ".Header-link--user",
        ]),
    };
    proof {
        assert(c@ =~~= github_model());
    }
    c
}

fn instagram_config() -> (c: PlatformConfig)
    ensures
        c@ == instagram_model(),
{
    let c = PlatformConfig {
        login_url: "https://www.instagram.com/accounts/login/",
        email_selectors: vec![
            "input[name='username']",
            "input[aria-label='Phone number, username, or email']",
        ],
        password_selectors: vec![
            "input[name='password']",
            "input[type='password']",
        ],
        submit_selectors: vec!["button[type='submit']"],
        wait_after_login: 6,
        additional_checks: Some(vec!["[aria-label='Home']", "svg[aria-label='Home']"]),
    };
    proof {
        assert(c@ =~~= instagram_model());
    }
    c
}

fn reddit_config() -> (c: PlatformConfig)
    ensures
        c@ == reddit_model(),
{
    let c = PlatformConfig {
        login_url: "https://www.reddit.com/login/",
        email_selectors: vec!["#loginUsername", "input[name='username']"],
        password_selectors: vec!["#loginPassword", "input[name='password']"],
        submit_selectors: vec![
            "button[type='submit']",
            ".AnimatedForm__submitButton",
        ],
        wait_after_login: 5,
        additional_checks: Some(vec![
            "[id*='USER_DROPDOWN']",
            "button[aria-label*='User']",
        ]),
    };
    proof {
        assert(c@ =~~= reddit_model());
    }
    c
}

fn generic_config() -> (c: PlatformConfig)
    ensures
        c@ == generic_model(),
{
    let c = PlatformConfig {
        login_url: "",
        email_selectors: vec![
            "input[type='email']",
            "input[name='email']",
            "input[id='email']",
            "input[name='username']",
            "input[id='username']",
            "input[placeholder*='email' i]",
            "input[placeholder*='username' i]",
        ],
        password_selectors: vec![
            "input[type='password']",
            "input[name='password']",
            "input[id='password']",
        ],
        submit_selectors: vec!["button[type='submit']", "input[type='submit']"],
        wait_after_login: 5,
        additional_checks: None,
    };
    proof {
        assert(c@ =~~= generic_model());
    }
    c
}

/// Which profile a platform id resolves to. Lookup is ASCII
/// case-insensitive; ids outside the catalog fall back to the generic
/// profile, and the two aliases of the same platform share one profile.
pub open spec fn spec_platform_config(p: Seq<char>) -> ConfigModel {
    if str_eq_ci(p, "linkedin"@) {
        linkedin_model()
    } else if str_eq_ci(p, "facebook"@) {
        facebook_model()
    } else if str_eq_ci(p, "twitter"@) || str_eq_ci(p, "x"@) {
        twitter_model()
    } else if str_eq_ci(p, "github"@) {
        github_model()
    } else if str_eq_ci(p, "instagram"@) {
        instagram_model()
    } else if str_eq_ci(p, "reddit"@) {
        reddit_model()
    } else {
        generic_model()
    }
}

/// Resolve a platform id to its profile.
pub fn get_platform_config(platform: &str) -> (c: PlatformConfig)
    ensures
        c@ == spec_platform_config(platform@),
{
    if eq_ignore_case(platform, "linkedin") {
        linkedin_config()
    } else if eq_ignore_case(platform, "facebook") {
        facebook_config()
    } else if eq_ignore_case(platform, "twitter") || eq_ignore_case(platform, "x") {
        twitter_config()
    } else if eq_ignore_case(platform, "github") {
        github_config()
    } else if eq_ignore_case(platform, "instagram") {
        instagram_config()
    } else if eq_ignore_case(platform, "reddit") {
        reddit_config()
    } else {
        generic_config()
    }
}

/// Every platform id outside the catalog resolves to the generic profile:
/// non-empty selector chains and an empty login URL.
pub proof fn lemma_unknown_platform_resolves_generic(p: Seq<char>)
    requires
        !str_eq_ci(p, "linkedin"@),
        !str_eq_ci(p, "facebook"@),
        !str_eq_ci(p, "twitter"@),
        !str_eq_ci(p, "x"@),
        !str_eq_ci(p, "github"@),
        !str_eq_ci(p, "instagram"@),
        !str_eq_ci(p, "reddit"@),
    ensures
        spec_platform_config(p) == generic_model(),
        spec_platform_config(p).email_selectors.len() > 0,
        spec_platform_config(p).password_selectors.len() > 0,
        spec_platform_config(p).submit_selectors.len() > 0,
        spec_platform_config(p).login_url.len() == 0,
        spec_platform_config(p).additional_checks is None,
{
    reveal_strlit("");
}

/// The login URL the heuristic picks for a platform id when neither the
/// caller nor the catalog supplies one; the target URL is the last resort.
pub open spec fn spec_heuristic_login_url(p: Seq<char>, target: Seq<char>) -> Seq<char> {
    if p == "google"@ {
        "https://accounts.google.com/signin"@
    } else if p == "linkedin"@ {
        "https://www.linkedin.com/login"@
    } else if p == "reddit"@ {
        "https://www.reddit.com/login/"@
    } else if p == "github"@ {
        "https://github.com/login"@
    } else if p == "facebook"@ {
        "https://www.facebook.com/login/"@
    } else if p == "twitter"@ || p == "x"@ {
        "https://twitter.com/i/flow/login"@
    } else if p == "instagram"@ {
        "https://www.instagram.com/accounts/login/"@
    } else if p == "microsoft"@ {
        "https://login.live.com/"@
    } else {
        target
    }
}

/// Platform-specific login URL resolver.
pub fn get_login_url(platform: &str, target_url: &str) -> (r: String)
    ensures
        r@ == spec_heuristic_login_url(platform@, target_url@),
{
    if str_eq(platform, "google") {
        String::from_str("https://accounts.google.com/signin")
    } else if str_eq(platform, "linkedin") {
        String::from_str("https://www.linkedin.com/login")
    } else if str_eq(platform, "reddit") {
        String::from_str("https://www.reddit.com/login/")
    } else if str_eq(platform, "github") {
        String::from_str("https://github.com/login")
    } else if str_eq(platform, "facebook") {
        String::from_str("https://www.facebook.com/login/")
    } else if str_eq(platform, "twitter") || str_eq(platform, "x") {
        String::from_str("https://twitter.com/i/flow/login")
    } else if str_eq(platform, "instagram") {
        String::from_str("https://www.instagram.com/accounts/login/")
    } else if str_eq(platform, "microsoft") {
        String::from_str("https://login.live.com/")
    } else {
        String::from_str(target_url)
    }
}

/// The platform id derived from the target URL by substring matches against
/// known domain fragments, in a fixed priority order.
pub open spec fn spec_detect_platform(url: Seq<char>) -> Seq<char> {
    if contains_sub(url, "google.com"@) || contains_sub(url, "gmail.com"@) || contains_sub(
        url,
        "accounts.google.com"@,
    ) {
        "google"@
    } else if contains_sub(url, "linkedin.com"@) {
        "linkedin"@
    } else if contains_sub(url, "reddit.com"@) {
        "reddit"@
    } else if contains_sub(url, "facebook.com"@) {
        "facebook"@
    } else if contains_sub(url, "twitter.com"@) || contains_sub(url, "x.com"@) {
        "twitter"@
    } else if contains_sub(url, "github.com"@) {
        "github"@
    } else if contains_sub(url, "instagram.com"@) {
        "instagram"@
    } else if contains_sub(url, "microsoft.com"@) || contains_sub(url, "login.live.com"@) {
        "microsoft"@
    } else {
        "generic"@
    }
}

/// Derive a platform id from the target URL.
pub fn detect_platform(target_url: &str) -> (p: String)
    ensures
        p@ == spec_detect_platform(target_url@),
{
    if str_contains(target_url, "google.com") || str_contains(target_url, "gmail.com")
        || str_contains(target_url, "accounts.google.com") {
        String::from_str("google")
    } else if str_contains(target_url, "linkedin.com") {
        String::from_str("linkedin")
    } else if str_contains(target_url, "reddit.com") {
        String::from_str("reddit")
    } else if str_contains(target_url, "facebook.com") {
        String::from_str("facebook")
    } else if str_contains(target_url, "twitter.com") || str_contains(target_url, "x.com") {
        String::from_str("twitter")
    } else if str_contains(target_url, "github.com") {
        String::from_str("github")
    } else if str_contains(target_url, "instagram.com") {
        String::from_str("instagram")
    } else if str_contains(target_url, "microsoft.com") || str_contains(
        target_url,
        "login.live.com",
    ) {
        String::from_str("microsoft")
    } else {
        String::from_str("generic")
    }
}

/// The platform id in force: the explicit override when given, else the one
/// detected from the target URL.
pub open spec fn spec_resolved_platform(explicit: Option<Seq<char>>, url: Seq<char>) -> Seq<char> {
    match explicit {
        Option::Some(p) => p,
        Option::None => spec_detect_platform(url),
    }
}

/// Pick the platform id for a request.
pub fn resolve_platform(explicit: &Option<String>, target_url: &str) -> (p: String)
    ensures
        p@ == spec_resolved_platform(explicit.deep_view(), target_url@),
{
    match explicit {
        Option::Some(p) => p.clone(),
        Option::None => detect_platform(target_url),
    }
}

/// Platforms known to split credential entry into separate steps.
pub open spec fn spec_is_multi_step(p: Seq<char>) -> bool {
    ||| p == "google"@
    ||| p == "linkedin"@
    ||| p == "twitter"@
    ||| p == "x"@
    ||| p == "facebook"@
    ||| p == "microsoft"@
}

/// Whether the platform belongs to the multi-step allow-list.
pub fn is_multi_step_platform(platform: &str) -> (r: bool)
    ensures
        r == spec_is_multi_step(platform@),
{
    str_eq(platform, "google") || str_eq(platform, "linkedin") || str_eq(platform, "twitter")
        || str_eq(platform, "x") || str_eq(platform, "facebook") || str_eq(platform, "microsoft")
}

} // verus!
