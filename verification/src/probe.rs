//! The polling primitive: probe an ordered selector chain at a fixed
//! interval until one matches a visible element or the budget elapses.
//! Selector-visibility waits and DOM-ready waits share this shape.

use vstd::prelude::*;

verus! {

/// Interval between visibility polls.
pub const PROBE_INTERVAL_MS: u64 = 200;

/// Budget for the email-field wait.
pub const EMAIL_PROBE_TIMEOUT_MS: u64 = 20000;

/// Budget for the password-field wait.
pub const PASSWORD_PROBE_TIMEOUT_MS: u64 = 20000;

/// Short probe that decides whether a login flow is multi-step.
pub const MULTI_STEP_PROBE_TIMEOUT_MS: u64 = 2000;

/// Budget for the submit-button wait.
pub const SUBMIT_PROBE_TIMEOUT_MS: u64 = 5000;

/// Budget for one success-indicator probe.
pub const SUCCESS_PROBE_TIMEOUT_MS: u64 = 3000;

/// Budget for the DOM-ready wait before extraction.
pub const DOM_READY_TIMEOUT_MS: u64 = 10000;

/// Interval between DOM-ready polls.
pub const DOM_READY_INTERVAL_MS: u64 = 500;

/// No selector in the row matched a visible element.
pub open spec fn no_visible(row: Seq<bool>) -> bool {
    forall|j: int| 0 <= j < row.len() ==> !row[j]
}

/// The first selector of the chain, in list order, that matches a visible
/// element right now.
pub fn first_visible(vis: &Vec<bool>) -> (r: Option<usize>)
    ensures
        match r {
            Option::Some(i) => i < vis@.len() && vis@[i as int] && (forall|j: int|
                0 <= j < i ==> !vis@[j]),
            Option::None => no_visible(vis@),
        },
{
    let mut i: usize = 0;
    while i < vis.len()
        invariant
            i <= vis@.len(),
            forall|j: int| 0 <= j < i ==> !vis@[j],
        decreases vis@.len() - i,
    {
        if vis[i] {
            return Some(i);
        }
        i += 1;
    }
    None
}

/// Where a probe ended: the polling tick and the selector that matched.
pub struct ProbeHit {
    pub tick: usize,
    pub selector: usize,
}

/// The outcome of a full probe: the hit, if any, and the total time spent
/// sleeping between polls.
pub struct ProbeResult {
    pub found: Option<ProbeHit>,
    pub waited_ms: u64,
}

/// Run a visibility probe over a script of observations, one row per
/// polling tick: row `t` records, for each selector of the chain, whether
/// it matched a visible element at tick `t`.
///
/// The probe polls every `interval_ms` until a row has a visible match or
/// `timeout_ms` elapses. On a hit it reports the first matching selector
/// in list order and stops without sleeping further; with no hit it gives
/// up only once the timeout has elapsed, overshooting it by less than one
/// interval.
pub fn run_probe(obs: &Vec<Vec<bool>>, timeout_ms: u64, interval_ms: u64) -> (r: ProbeResult)
    requires
        interval_ms > 0,
        timeout_ms <= u64::MAX - interval_ms,
        (obs@.len() as int) * (interval_ms as int) >= timeout_ms as int,
    ensures
        match r.found {
            Option::Some(hit) => {
                &&& hit.tick < obs@.len()
                &&& (hit.tick as int) * (interval_ms as int) < timeout_ms as int
                &&& hit.selector < obs@[hit.tick as int]@.len()
                &&& obs@[hit.tick as int]@[hit.selector as int]
                &&& (forall|j: int| 0 <= j < hit.selector ==> !obs@[hit.tick as int]@[j])
                &&& (forall|t: int| 0 <= t < hit.tick ==> no_visible(#[trigger] obs@[t]@))
                &&& r.waited_ms as int == (hit.tick as int) * (interval_ms as int)
            },
            Option::None => {
                &&& (forall|t: int|
                    0 <= t < obs@.len() && t * (interval_ms as int) < timeout_ms as int
                        ==> no_visible(#[trigger] obs@[t]@))
                &&& timeout_ms <= r.waited_ms < timeout_ms + interval_ms
            },
        },
{
    let n = obs.len();
    let mut elapsed: u64 = 0;
    let mut tick: usize = 0;
    while elapsed < timeout_ms
        invariant
            interval_ms > 0,
            timeout_ms <= u64::MAX - interval_ms,
            n == obs@.len(),
            (obs@.len() as int) * (interval_ms as int) >= timeout_ms as int,
            elapsed as int == (tick as int) * (interval_ms as int),
            elapsed < timeout_ms + interval_ms,
            forall|t: int| 0 <= t < tick ==> no_visible(#[trigger] obs@[t]@),
        decreases timeout_ms + interval_ms - elapsed,
    {
        proof {
            assert(tick < obs@.len()) by (nonlinear_arith)
                requires
                    (tick as int) * (interval_ms as int) < timeout_ms as int,
                    (obs@.len() as int) * (interval_ms as int) >= timeout_ms as int,
                    interval_ms > 0,
            ;
        }
        let row: &Vec<bool> = &obs[tick];
        match first_visible(row) {
            Option::Some(i) => {
                return ProbeResult { found: Some(ProbeHit { tick, selector: i }), waited_ms: elapsed };
            },
            Option::None => {},
        }
        proof {
            assert(((tick + 1) as int) * (interval_ms as int) == (tick as int) * (
            interval_ms as int) + interval_ms as int) by (nonlinear_arith);
        }
        elapsed += interval_ms;
        tick += 1;
    }
    proof {
        assert forall|t: int|
            0 <= t < obs@.len() && t * (interval_ms as int) < timeout_ms as int implies no_visible(
            obs@[t]@) by {
            if t >= tick {
                assert(t * (interval_ms as int) >= (tick as int) * (interval_ms as int))
                    by (nonlinear_arith)
                    requires
                        t >= tick as int,
                        interval_ms > 0,
                ;
            }
        }
    }
    ProbeResult { found: None, waited_ms: elapsed }
}

} // verus!
