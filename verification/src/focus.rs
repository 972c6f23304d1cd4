//! Bringing the target window to the foreground, with bounded retries.
//!
//! Focusing is best-effort: each attempt restores, raises, activates and
//! focuses the target, then checks the platform-reported foreground window.
//! After `FOCUS_ATTEMPTS` failed attempts the session proceeds anyway —
//! foreground activation can be denied by platform policy and that is not
//! fatal.  A settle delay follows focusing before any input is sent.

use vstd::prelude::*;

verus! {

/// Maximum number of focus attempts.
pub const FOCUS_ATTEMPTS: u8 = 3;

/// Delay between two failed focus attempts, in milliseconds.
pub const FOCUS_RETRY_DELAY_MS: u64 = 20;

/// Settle delay after focusing, successful or not, before any input is sent,
/// in milliseconds.
pub const FOCUS_SETTLE_MS: u64 = 100;

/// One window call of a focus attempt, in the order they are issued.
#[derive(Clone, Copy, PartialEq, Eq, Structural, Debug)]
pub enum FocusAction {
    /// Restore the window if minimized.
    Restore,
    /// Raise it to the top of the Z-order.
    Raise,
    /// Request foreground activation.
    Activate,
    /// Request keyboard focus.
    Focus,
}

/// The calls of one focus attempt: restore, raise, activate, focus.
pub open spec fn focus_attempt_actions() -> Seq<FocusAction> {
    seq![FocusAction::Restore, FocusAction::Raise, FocusAction::Activate, FocusAction::Focus]
}

/// Build one focus attempt's calls for the front end to perform in order.
pub fn focus_attempt() -> (r: Vec<FocusAction>)
    ensures
        r@ == focus_attempt_actions(),
{
    let mut r: Vec<FocusAction> = Vec::new();
    r.push(FocusAction::Restore);
    r.push(FocusAction::Raise);
    r.push(FocusAction::Activate);
    r.push(FocusAction::Focus);
    proof {
        assert(r@ =~= focus_attempt_actions());
    }
    r
}

/// Retry bookkeeping for one focus pass.
pub struct Focuser {
    /// Failed attempts still allowed, counted down from `FOCUS_ATTEMPTS`.
    pub attempts_left: u8,
}

impl Focuser {
    pub fn new() -> (f: Focuser)
        ensures
            f.attempts_left == FOCUS_ATTEMPTS,
    {
        Focuser { attempts_left: FOCUS_ATTEMPTS }
    }

    /// Record the verification outcome of one attempt: whether the platform
    /// now reports the target as the foreground window.  Returns whether to
    /// retry (after `FOCUS_RETRY_DELAY_MS`); on success or once the attempts
    /// are exhausted the pass ends and the front end waits `FOCUS_SETTLE_MS`.
    pub fn observe(&mut self, foreground_matches: bool) -> (retry: bool)
        requires
            old(self).attempts_left > 0,
        ensures
            foreground_matches ==> !retry && *final(self) == *old(self),
            !foreground_matches ==> final(self).attempts_left == old(self).attempts_left - 1
                && (retry <==> old(self).attempts_left > 1),
    {
        if foreground_matches {
            false
        } else {
            self.attempts_left = self.attempts_left - 1;
            self.attempts_left > 0
        }
    }
}

} // verus!
