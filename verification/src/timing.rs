//! Randomized delays that make navigation and typing look human: a settle
//! delay after navigation, and a per-keystroke cadence of base delay,
//! jitter, and an occasional longer thinking pause.

use vstd::prelude::*;

verus! {

/// Relies on rand::random: a machine integer drawn from the thread-local
/// generator. Nothing is promised of the value.
#[verifier::external_body]
fn random_u64() -> u64 {
    rand::random::<u64>()
}

/// The settle delay after a navigation: between 1.5 and 2.5 seconds.
pub fn nav_settle_delay_ms() -> (d: u64)
    ensures
        1500 <= d < 2500,
{
    let r = random_u64();
    1500 + r % 1000
}

/// One keystroke delay: a base of 80ms, up to 60ms of jitter, and in
/// roughly one case in ten a thinking pause of 200 to 500ms.
pub fn keystroke_delay_ms() -> (d: u64)
    ensures
        80 <= d < 640,
{
    let jitter = random_u64() % 60;
    let thinking: u64 = if random_u64() % 10 == 0 {
        200 + random_u64() % 300
    } else {
        0
    };
    80 + jitter + thinking
}

/// The delay schedule for typing `n` characters: one delay per keystroke,
/// each within the human cadence bounds.
pub fn typing_delays_ms(n: usize) -> (ds: Vec<u64>)
    ensures
        ds@.len() == n,
        forall|i: int| 0 <= i < ds@.len() ==> 80 <= #[trigger] ds@[i] < 640,
{
    let mut ds: Vec<u64> = Vec::new();
    let mut k: usize = 0;
    while k < n
        invariant
            k <= n,
            ds@.len() == k,
            forall|i: int| 0 <= i < ds@.len() ==> 80 <= #[trigger] ds@[i] < 640,
        decreases n - k,
    {
        let d = keystroke_delay_ms();
        ds.push(d);
        k += 1;
    }
    ds
}

} // verus!
