use authscrape::catalog::detect_platform;
use authscrape::catalog::get_login_url;
use authscrape::catalog::get_platform_config;
use authscrape::catalog::is_multi_step_platform;
use authscrape::catalog::resolve_platform;

#[test]
fn known_platform_profiles() {
    let c = get_platform_config("linkedin");
    assert_eq!(c.login_url, "https://www.linkedin.com/login");
    assert_eq!(c.email_selectors, vec![
        "#username",
        "input[name='session_key']",
        "input[id='username']",
    ]);
    assert_eq!(c.wait_after_login, 8);
    assert_eq!(c.additional_checks, Some(vec![
        ".global-nav__me",
        ".feed-identity-module",
    ]));

    let g = get_platform_config("github");
    assert_eq!(g.login_url, "https://github.com/login");
    assert_eq!(g.password_selectors, vec!["#password", "input[name='password']"]);
    assert_eq!(g.wait_after_login, 5);
}

#[test]
fn platform_lookup_is_case_insensitive() {
    let a = get_platform_config("LinkedIn");
    let b = get_platform_config("LINKEDIN");
    assert_eq!(a.login_url, "https://www.linkedin.com/login");
    assert_eq!(b.login_url, "https://www.linkedin.com/login");
    let f = get_platform_config("FaceBook");
    assert_eq!(f.login_url, "https://www.facebook.com/login");
}

#[test]
fn twitter_aliases_share_one_profile() {
    let t = get_platform_config("twitter");
    let x = get_platform_config("x");
    let upper = get_platform_config("X");
    assert_eq!(t.login_url, x.login_url);
    assert_eq!(t.email_selectors, x.email_selectors);
    assert_eq!(t.submit_selectors, upper.submit_selectors);
    assert_eq!(t.wait_after_login, 7);
}

#[test]
fn unknown_platform_resolves_generic() {
    for id in ["myspace", "example", "", "Unknown-Site", "generic", "google", "microsoft"] {
        let c = get_platform_config(id);
        assert_eq!(c.login_url, "");
        assert_eq!(c.email_selectors.len(), 7);
        assert_eq!(c.password_selectors.len(), 3);
        assert_eq!(c.submit_selectors.len(), 2);
        assert_eq!(c.wait_after_login, 5);
        assert!(c.additional_checks.is_none());
        assert!(!c.email_selectors.is_empty());
        assert!(!c.password_selectors.is_empty());
        assert!(!c.submit_selectors.is_empty());
    }
}

#[test]
fn login_url_heuristic_known_platforms() {
    let target = "https://example.com/profile";
    assert_eq!(get_login_url("google", target), "https://accounts.google.com/signin");
    assert_eq!(get_login_url("microsoft", target), "https://login.live.com/");
    assert_eq!(get_login_url("x", target), "https://twitter.com/i/flow/login");
    assert_eq!(get_login_url("reddit", target), "https://www.reddit.com/login/");
}

#[test]
fn login_url_heuristic_falls_back_to_target() {
    let target = "https://example.com/profile";
    assert_eq!(get_login_url("example", target), target);
    // the heuristic is case-sensitive, unlike the profile lookup
    assert_eq!(get_login_url("Google", target), target);
}

#[test]
fn platform_detection_from_url() {
    assert_eq!(detect_platform("https://www.linkedin.com/in/someone"), "linkedin");
    assert_eq!(detect_platform("https://mail.google.com/mail"), "google");
    assert_eq!(detect_platform("https://gmail.com/inbox"), "google");
    assert_eq!(detect_platform("https://x.com/home"), "twitter");
    assert_eq!(detect_platform("https://twitter.com/home"), "twitter");
    assert_eq!(detect_platform("https://github.com/octocat"), "github");
    assert_eq!(detect_platform("https://login.live.com/"), "microsoft");
    assert_eq!(detect_platform("https://example.com/page"), "generic");
}

#[test]
fn platform_detection_priority_order() {
    // a URL naming both google and linkedin fragments detects google first
    assert_eq!(detect_platform("https://google.com/?next=linkedin.com"), "google");
}

#[test]
fn explicit_platform_overrides_detection() {
    assert_eq!(
        resolve_platform(&Some("github".to_string()), "https://www.linkedin.com/feed"),
        "github"
    );
    assert_eq!(resolve_platform(&None, "https://www.linkedin.com/feed"), "linkedin");
}

#[test]
fn multi_step_allow_list() {
    assert!(is_multi_step_platform("google"));
    assert!(is_multi_step_platform("linkedin"));
    assert!(is_multi_step_platform("twitter"));
    assert!(is_multi_step_platform("x"));
    assert!(is_multi_step_platform("facebook"));
    assert!(is_multi_step_platform("microsoft"));
    assert!(!is_multi_step_platform("github"));
    assert!(!is_multi_step_platform("reddit"));
    assert!(!is_multi_step_platform("generic"));
    // exact matching here, unlike the profile lookup
    assert!(!is_multi_step_platform("Google"));
}
