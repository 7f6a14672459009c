//! Verified core of an authenticated web-content scraper.
//!
//! The library holds the pure decision logic of the scraper: the platform
//! catalog, selector resolution, the login state machine with its outcome
//! classification, the polling budgets, and the extraction caps. The
//! browser driver and the HTTP surface live outside the library and consume
//! these decisions.

pub mod catalog;
pub mod errors;
pub mod extract;
pub mod machine;
pub mod model;
pub mod outcome;
pub mod probe;
pub mod selectors;
pub mod stealth;
pub mod text;
pub mod timing;

use vstd::prelude::*;

verus! {

} // verus!
