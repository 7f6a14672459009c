//! Resolution of the concrete login plan for a request: which selector
//! chains to probe, which URL to log in at, and how long to wait after
//! submitting. Precedence is always explicit override, then catalog
//! profile, then generic fallback.

use vstd::prelude::*;
use vstd::string::StrSliceExecFns;
use vstd::string::StringExecFns;
use crate::catalog::spec_heuristic_login_url;
use crate::catalog::get_login_url;
use crate::text::str_eq;

verus! {

/// Fallback email-field selectors for platforms whose catalog profile
/// carries none.
pub open spec fn spec_email_fallback(p: Seq<char>) -> Seq<Seq<char>> {
    if p == "google"@ {
        seq!["#identifierId"@, "input[type=\"email\"]"@, "input[name=\"identifier\"]"@]
    } else if p == "linkedin"@ {
        seq![
            "#username"@,
            "input[name=\"session_key\"]"@,
            "input[autocomplete=\"username\"]"@,
        ]
    } else if p == "reddit"@ {
        seq![
            "#loginUsername"@,
            "input[name=\"username\"]"@,
            "input[placeholder*=\"Username\" i]"@,
        ]
    } else if p == "github"@ {
        seq!["#login_field"@, "input[name=\"login\"]"@]
    } else {
        seq!["input[type=\"email\"]"@, "input[name=\"email\"]"@, "input[autocomplete=\"email\"]"@]
    }
}

/// Fallback password-field selectors.
pub open spec fn spec_password_fallback(p: Seq<char>) -> Seq<Seq<char>> {
    if p == "google"@ {
        seq!["input[type=\"password\"]"@, "input[name=\"Passwd\"]"@]
    } else if p == "linkedin"@ {
        seq!["#password"@, "input[name=\"session_password\"]"@]
    } else if p == "reddit"@ {
        seq![
            "#loginPassword"@,
            "input[name=\"password\"]"@,
            "input[placeholder*=\"Password\" i]"@,
        ]
    } else {
        seq!["input[type=\"password\"]"@, "input[name=\"password\"]"@]
    }
}

/// Fallback submit-button selectors.
pub open spec fn spec_submit_fallback() -> Seq<Seq<char>> {
    seq![
        "button[type=\"submit\"]"@,
        "input[type=\"submit\"]"@,
        "button[id*=\"submit\" i]"@,
    ]
}

/// The email selector chain in force: explicit override, else the catalog
/// profile's chain, else the per-platform fallback.
pub open spec fn spec_email_selectors(
    ov: Option<Seq<char>>,
    cfg: Seq<Seq<char>>,
    platform: Seq<char>,
) -> Seq<Seq<char>> {
    match ov {
        Option::Some(s) => seq![s],
        Option::None => if cfg.len() > 0 {
            cfg
        } else {
            spec_email_fallback(platform)
        },
    }
}

/// The password selector chain in force.
pub open spec fn spec_password_selectors(
    ov: Option<Seq<char>>,
    cfg: Seq<Seq<char>>,
    platform: Seq<char>,
) -> Seq<Seq<char>> {
    match ov {
        Option::Some(s) => seq![s],
        Option::None => if cfg.len() > 0 {
            cfg
        } else {
            spec_password_fallback(platform)
        },
    }
}

/// The submit selector chain in force.
pub open spec fn spec_submit_selectors(ov: Option<Seq<char>>, cfg: Seq<Seq<char>>) -> Seq<
    Seq<char>,
> {
    match ov {
        Option::Some(s) => seq![s],
        Option::None => if cfg.len() > 0 {
            cfg
        } else {
            spec_submit_fallback()
        },
    }
}

/// Copy a chain of static selectors into owned strings, preserving it.
pub fn strs_to_strings(v: &Vec<&'static str>) -> (r: Vec<String>)
    ensures
        r.deep_view() == v.deep_view(),
{
    let mut r: Vec<String> = Vec::new();
    let mut i: usize = 0;
    while i < v.len()
        invariant
            i <= v@.len(),
            r@.len() == i,
            forall|j: int| 0 <= j < i ==> #[trigger] r@[j]@ == v@[j]@,
        decreases v@.len() - i,
    {
        r.push(String::from_str(v[i]));
        i += 1;
    }
    proof {
        assert(r.deep_view() =~= v.deep_view());
    }
    r
}

fn push3(a: &'static str, b: &'static str, c: &'static str) -> (r: Vec<String>)
    ensures
        r.deep_view() == seq![a@, b@, c@],
{
    let mut r: Vec<String> = Vec::new();
    r.push(String::from_str(a));
    r.push(String::from_str(b));
    r.push(String::from_str(c));
    proof {
        assert(r.deep_view() =~= seq![a@, b@, c@]);
    }
    r
}

fn push2(a: &'static str, b: &'static str) -> (r: Vec<String>)
    ensures
        r.deep_view() == seq![a@, b@],
{
    let mut r: Vec<String> = Vec::new();
    r.push(String::from_str(a));
    r.push(String::from_str(b));
    proof {
        assert(r.deep_view() =~= seq![a@, b@]);
    }
    r
}

fn push1(a: String) -> (r: Vec<String>)
    ensures
        r.deep_view() == seq![a@],
{
    let mut r: Vec<String> = Vec::new();
    r.push(a);
    proof {
        assert(r.deep_view() =~= seq![r@[0]@]);
    }
    r
}

/// Resolve the email selector chain for this request.
pub fn resolve_email_selectors(
    ov: &Option<String>,
    cfg: &Vec<&'static str>,
    platform: &str,
) -> (r: Vec<String>)
    ensures
        r.deep_view() == spec_email_selectors(ov.deep_view(), cfg.deep_view(), platform@),
{
    match ov {
        Option::Some(s) => push1(s.clone()),
        Option::None => {
            if cfg.len() > 0 {
                strs_to_strings(cfg)
            } else if str_eq(platform, "google") {
                push3("#identifierId", "input[type=\"email\"]", "input[name=\"identifier\"]")
            } else if str_eq(platform, "linkedin") {
                push3(
                    "#username",
                    "input[name=\"session_key\"]",
                    "input[autocomplete=\"username\"]",
                )
            } else if str_eq(platform, "reddit") {
                push3(
                    "#loginUsername",
                    "input[name=\"username\"]",
                    "input[placeholder*=\"Username\" i]",
                )
            } else if str_eq(platform, "github") {
                push2("#login_field", "input[name=\"login\"]")
            } else {
                push3("input[type=\"email\"]", "input[name=\"email\"]", "input[autocomplete=\"email\"]")
            }
        },
    }
}

/// Resolve the password selector chain for this request.
pub fn resolve_password_selectors(
    ov: &Option<String>,
    cfg: &Vec<&'static str>,
    platform: &str,
) -> (r: Vec<String>)
    ensures
        r.deep_view() == spec_password_selectors(ov.deep_view(), cfg.deep_view(), platform@),
{
    match ov {
        Option::Some(s) => push1(s.clone()),
        Option::None => {
            if cfg.len() > 0 {
                strs_to_strings(cfg)
            } else if str_eq(platform, "google") {
                push2("input[type=\"password\"]", "input[name=\"Passwd\"]")
            } else if str_eq(platform, "linkedin") {
                push2("#password", "input[name=\"session_password\"]")
            } else if str_eq(platform, "reddit") {
                push3(
                    "#loginPassword",
                    "input[name=\"password\"]",
                    "input[placeholder*=\"Password\" i]",
                )
            } else {
                push2("input[type=\"password\"]", "input[name=\"password\"]")
            }
        },
    }
}

/// Resolve the submit selector chain for this request.
pub fn resolve_submit_selectors(ov: &Option<String>, cfg: &Vec<&'static str>) -> (r: Vec<String>)
    ensures
        r.deep_view() == spec_submit_selectors(ov.deep_view(), cfg.deep_view()),
{
    match ov {
        Option::Some(s) => push1(s.clone()),
        Option::None => {
            if cfg.len() > 0 {
                strs_to_strings(cfg)
            } else {
                push3("button[type=\"submit\"]", "input[type=\"submit\"]", "button[id*=\"submit\" i]")
            }
        },
    }
}

/// The login URL in force: explicit override, else the catalog profile's
/// URL when it has one, else the per-platform heuristic with the target
/// URL as last resort.
pub open spec fn spec_resolved_login_url(
    explicit: Option<Seq<char>>,
    cfg_url: Seq<char>,
    platform: Seq<char>,
    target: Seq<char>,
) -> Seq<char> {
    match explicit {
        Option::Some(u) => u,
        Option::None => if cfg_url.len() > 0 {
            cfg_url
        } else {
            spec_heuristic_login_url(platform, target)
        },
    }
}

/// Resolve the login URL for this request.
pub fn resolve_login_url(
    explicit: &Option<String>,
    cfg_url: &'static str,
    platform: &str,
    target: &str,
) -> (r: String)
    ensures
        r@ == spec_resolved_login_url(explicit.deep_view(), cfg_url@, platform@, target@),
{
    match explicit {
        Option::Some(u) => u.clone(),
        Option::None => {
            if !cfg_url.is_empty() {
                String::from_str(cfg_url)
            } else {
                get_login_url(platform, target)
            }
        },
    }
}

/// The post-submit wait, in seconds: the caller's override when given,
/// else the profile's, lower-bounded at 8.
pub open spec fn spec_post_submit_wait(ov: Option<u64>, cfg: u64) -> u64 {
    let w = match ov {
        Option::Some(v) => v,
        Option::None => cfg,
    };
    if w < 8 {
        8
    } else {
        w
    }
}

/// Resolve the post-submit wait for this request.
pub fn post_submit_wait_secs(ov: &Option<u64>, cfg: u64) -> (r: u64)
    ensures
        r == spec_post_submit_wait(*ov, cfg),
{
    let w = match ov {
        Option::Some(v) => *v,
        Option::None => cfg,
    };
    if w < 8 {
        8
    } else {
        w
    }
}

/// Whether the browser already shows the requested target. Decided here
/// once for the whole library: the current URL matches the target exactly
/// when the target is a prefix of the current URL, so that an appended
/// query string or fragment still counts as the same page but a different
/// path never does.
pub fn url_matches_target(current: &str, target: &str) -> (r: bool)
    ensures
        r == target@.is_prefix_of(current@),
{
    crate::text::str_starts_with(current, target)
}

} // verus!
