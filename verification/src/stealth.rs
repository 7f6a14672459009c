//! The stealth layer's fixed fingerprint: a realistic desktop user agent
//! and viewport. The page-side property overrides (webdriver flag,
//! plugins, languages, permission and renderer probes) are driver-side
//! artifacts configured from these values; applying them only has side
//! effects and is idempotent, and a session that cannot be fully
//! disguised still proceeds with its best-effort disguise.

use vstd::prelude::*;

verus! {

/// The fingerprint overrides applied to a session before any page
/// interaction.
pub struct EvasionSettings {
    pub user_agent: &'static str,
    pub viewport_width: u32,
    pub viewport_height: u32,
}

/// A realistic desktop Chrome fingerprint: non-empty user agent and a
/// full-HD viewport.
pub fn evasion_settings() -> (s: EvasionSettings)
    ensures
        s.user_agent@ =~= (
        "Mozilla/5.0 (Windows NT 10.0; Win64; x64) AppleWebKit/537.36 (KHTML, like Gecko) Chrome/129.0.0.0 Safari/537.36"
        )@,
        s.user_agent@.len() > 0,
        s.viewport_width == 1920,
        s.viewport_height == 1080,
{
    proof {
        reveal_strlit(
            "Mozilla/5.0 (Windows NT 10.0; Win64; x64) AppleWebKit/537.36 (KHTML, like Gecko) Chrome/129.0.0.0 Safari/537.36",
        );
    }
    EvasionSettings {
        user_agent:
            "Mozilla/5.0 (Windows NT 10.0; Win64; x64) AppleWebKit/537.36 (KHTML, like Gecko) Chrome/129.0.0.0 Safari/537.36",
        viewport_width: 1920,
        viewport_height: 1080,
    }
}

} // verus!
