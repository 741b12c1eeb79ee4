//! The one-shot gate that decides when the session cookie is captured.
//!
//! The login window reports each page load. Capture runs when the home
//! page of a signed-in session loads while the processed flag is still
//! clear; the flag then stays set for the life of the process.

use vstd::prelude::*;
use crate::text::has_prefix;

verus! {

/// The URL prefix that marks a completed login.
pub open spec fn home_url() -> Seq<char> {
    "https://www.humblebundle.com/home"@
}

/// The one-shot capture gate.
pub struct SessionGate {
    pub processed: bool,
}

impl SessionGate {
    /// A fresh gate that has not captured yet.
    pub fn new() -> (g: Self)
        ensures
            !g.processed,
    {
        SessionGate { processed: false }
    }

    /// Reports one page load. Returns true exactly when the home page
    /// loads while the processed flag is clear; any home load sets it.
    pub fn on_page_load(&mut self, url: &str) -> (capture: bool)
        ensures
            capture == (home_url().is_prefix_of(url@) && !old(self).processed),
            final(self).processed == (old(self).processed || home_url().is_prefix_of(url@)),
    {
        if has_prefix(url, "https://www.humblebundle.com/home") {
            let first = !self.processed;
            self.processed = true;
            first
        } else {
            false
        }
    }
}

} // verus!
