//! Single-flight coordination for bulk scans.
//!
//! One `CheckAllGuard` exists per process (constructed at startup and
//! injected wherever bulk scans start). At most one `CheckAllToken` is live
//! at a time: `try_acquire` hands one out only while the guard is free, and
//! a second caller is rejected immediately — never queued — until the token
//! is given back through `release`.

use vstd::prelude::*;

verus! {

/// The coordinator holding the single-flight flag.
#[derive(Debug)]
pub struct CheckAllGuard {
    held: bool,
}

/// The token whose possession means "a bulk scan is in progress".
#[derive(Debug)]
pub struct CheckAllToken {}

impl CheckAllGuard {
    /// Whether a bulk scan currently holds the guard.
    pub closed spec fn is_held(&self) -> bool {
        self.held
    }

    /// A fresh, free guard.
    pub fn new() -> (g: Self)
        ensures
            !g.is_held(),
    {
        CheckAllGuard { held: false }
    }

    /// Test-and-set: a token comes back exactly when the guard was free,
    /// and the guard is held afterwards either way. While a token is live a
    /// further `try_acquire` therefore returns nothing.
    pub fn try_acquire(&mut self) -> (token: Option<CheckAllToken>)
        ensures
            final(self).is_held(),
            token is Some <==> !old(self).is_held(),
    {
        if self.held {
            None
        } else {
            self.held = true;
            Some(CheckAllToken {  })
        }
    }

    /// Gives the token back; the guard is free afterwards, so the next
    /// `try_acquire` succeeds.
    pub fn release(&mut self, token: CheckAllToken)
        ensures
            !final(self).is_held(),
    {
        let CheckAllToken {  } = token;
        self.held = false;
    }
}

} // verus!
