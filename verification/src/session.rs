//! Session state and the send coordinator's control surface.
//!
//! One `SessionState` lives beside each top-level window.  It records the
//! bound target window, the input-queue attachment, and the two shared flags
//! that coordinate the UI with a background dispatch unit: `abort`, observed
//! cooperatively by the unit, and `running`, the single-flight lock that
//! admits at most one dispatch session at a time.
//!
//! The coordinator's decisions are all here; the front end performs what they
//! call for (spawning the unit, attaching or detaching input queues) and
//! feeds the outcomes back.

use vstd::prelude::*;

use crate::notify::MessageLog;
use crate::notify::Severity;
use crate::notify::show_error_message;

verus! {

/// How a dispatch session walks the buffer.
#[derive(Clone, Copy, PartialEq, Eq, Structural, Debug)]
pub enum Mode {
    /// Send exactly one line, then exit.
    Single,
    /// Send line after line until the buffer ends, a line fails, or an abort
    /// is observed.
    Continuous,
}

/// Why a start request was rejected.
#[derive(Clone, Copy, PartialEq, Eq, Structural, Debug)]
pub enum StartError {
    /// No target window is bound.
    NoTarget,
    /// A dispatch session is already running (single-flight).
    SessionRunning,
}

/// What a background dispatch unit captures at start: the target window and
/// the walking mode.
#[derive(Clone, Copy, PartialEq, Eq, Structural, Debug)]
pub struct DispatchUnit {
    pub target: u64,
    pub mode: Mode,
}

/// The input-queue work a focus pass asks the front end to perform: first the
/// detach, if any, then the attach attempt, if any.
#[derive(Clone, Copy, PartialEq, Eq, Structural, Debug)]
pub struct AttachPlan {
    /// Thread whose input-queue attachment must be reversed first.
    pub detach: Option<u32>,
    /// Thread to attempt an attachment to.
    pub attach: Option<u32>,
}

/// Shared per-window engine state.
pub struct SessionState {
    /// Currently bound foreign top-level window, if any.
    pub target: Option<u64>,
    /// Thread our input queue is currently attached to, if any; at most one
    /// attachment is ever active.
    pub attached: Option<u32>,
    /// True while a dispatch session's background unit is alive.
    pub running: bool,
    /// Cooperative early-stop request, observed by the unit between lines.
    pub abort: bool,
}

/// The message reported when a start request is rejected.
pub open spec fn start_error_text(e: StartError) -> Seq<char> {
    match e {
        StartError::NoTarget => "no target window bound"@,
        StartError::SessionRunning => "a send session is already running"@,
    }
}

/// Accepting a start clears the abort flag, takes the single-flight lock and
/// hands out the bound target; a rejected start changes nothing.
pub open spec fn spec_start(s: SessionState) -> (SessionState, Result<u64, StartError>) {
    if s.target is None {
        (s, Result::Err(StartError::NoTarget))
    } else if s.running {
        (s, Result::Err(StartError::SessionRunning))
    } else {
        (SessionState { running: true, abort: false, ..s }, Result::Ok(s.target->Some_0))
    }
}

/// Cancelling only raises the abort flag.
pub open spec fn spec_cancel(s: SessionState) -> SessionState {
    SessionState { abort: true, ..s }
}

/// Tearing down signals abort and clears the attachment record, handing back
/// the thread whose attachment must still be reversed.
pub open spec fn spec_teardown(s: SessionState) -> (SessionState, Option<u32>) {
    (SessionState { abort: true, attached: None, ..s }, s.attached)
}

/// An attachment to a different thread is reversed first; an attach is then
/// requested unless the target thread is the calling thread or the existing
/// attachment already covers it.
pub open spec fn spec_begin_attach(s: SessionState, current_thread: u32, target_thread: u32) -> (
    SessionState,
    AttachPlan,
) {
    let (s1, det) = match s.attached {
        Option::Some(t) => if t != target_thread {
            ((SessionState { attached: None, ..s }), Some(t))
        } else {
            (s, None)
        },
        Option::None => (s, None),
    };
    let req = if target_thread != current_thread && s1.attached is None {
        Some(target_thread)
    } else {
        None
    };
    (s1, AttachPlan { detach: det, attach: req })
}

impl SessionState {
    /// A fresh session: nothing bound, nothing attached, nothing running.
    pub fn new() -> (s: SessionState)
        ensures
            s == (SessionState { target: None, attached: None, running: false, abort: false }),
    {
        SessionState { target: None, attached: None, running: false, abort: false }
    }

    fn start(&mut self, mode: Mode, log: &mut MessageLog) -> (r: Result<DispatchUnit, StartError>)
        ensures
            *final(self) == spec_start(*old(self)).0,
            ({
                let sr = spec_start(*old(self)).1;
                match sr {
                    Result::Ok(h) => r matches Ok(u) && u == (DispatchUnit { target: h, mode })
                        && final(log)@ == old(log)@,
                    Result::Err(e) => r matches Err(e2) && e2 == e && final(log)@ == old(
                        log,
                    )@.push((Severity::Error, start_error_text(e))),
                }
            }),
    {
        let target = match self.target {
            Option::Some(h) => h,
            Option::None => {
                show_error_message(log, "no target window bound");
                return Result::Err(StartError::NoTarget);
            },
        };
        if self.running {
            show_error_message(log, "a send session is already running");
            return Result::Err(StartError::SessionRunning);
        }
        self.abort = false;
        self.running = true;
        Result::Ok(DispatchUnit { target, mode })
    }

    /// Request a one-line dispatch session.  Rejected, with a user-visible
    /// error and no state change, when no target is bound or a session is
    /// already running; on acceptance the returned unit captures the target.
    pub fn start_single(&mut self, log: &mut MessageLog) -> (r: Result<DispatchUnit, StartError>)
        ensures
            *final(self) == spec_start(*old(self)).0,
            ({
                let sr = spec_start(*old(self)).1;
                match sr {
                    Result::Ok(h) => r matches Ok(u) && u == (DispatchUnit {
                        target: h,
                        mode: Mode::Single,
                    }) && final(log)@ == old(log)@,
                    Result::Err(e) => r matches Err(e2) && e2 == e && final(log)@ == old(
                        log,
                    )@.push((Severity::Error, start_error_text(e))),
                }
            }),
    {
        self.start(Mode::Single, log)
    }

    /// Request a continuous dispatch session over all remaining lines.
    /// Rejection and acceptance behave as for `start_single`.
    pub fn start_multi(&mut self, log: &mut MessageLog) -> (r: Result<DispatchUnit, StartError>)
        ensures
            *final(self) == spec_start(*old(self)).0,
            ({
                let sr = spec_start(*old(self)).1;
                match sr {
                    Result::Ok(h) => r matches Ok(u) && u == (DispatchUnit {
                        target: h,
                        mode: Mode::Continuous,
                    }) && final(log)@ == old(log)@,
                    Result::Err(e) => r matches Err(e2) && e2 == e && final(log)@ == old(
                        log,
                    )@.push((Severity::Error, start_error_text(e))),
                }
            }),
    {
        self.start(Mode::Continuous, log)
    }

    /// Request an early stop.  Never blocks and never waits for the unit: it
    /// only raises the abort flag, which the unit observes between lines.
    pub fn cancel(&mut self)
        ensures
            *final(self) == spec_cancel(*old(self)),
    {
        self.abort = true;
    }

    /// Begin tearing the session state down: signal abort and clear the
    /// attachment record.  The front end must then join the background unit
    /// and reverse the returned attachment, in that order.
    pub fn teardown(&mut self) -> (detach: Option<u32>)
        ensures
            *final(self) == spec_teardown(*old(self)).0,
            detach == spec_teardown(*old(self)).1,
    {
        let detach = self.attached;
        self.attached = None;
        self.abort = true;
        detach
    }

    /// Decide the input-queue work for focusing `target_thread` from
    /// `current_thread` and clear a stale attachment record.  The front end
    /// performs the plan's detach, then its attach attempt, and reports the
    /// attempt's outcome through `complete_attach`.
    pub fn begin_attach(&mut self, current_thread: u32, target_thread: u32) -> (plan: AttachPlan)
        ensures
            *final(self) == spec_begin_attach(*old(self), current_thread, target_thread).0,
            plan == spec_begin_attach(*old(self), current_thread, target_thread).1,
    {
        let mut det: Option<u32> = None;
        match self.attached {
            Option::Some(t) => {
                if t != target_thread {
                    det = Option::Some(t);
                    self.attached = None;
                }
            },
            Option::None => {},
        }
        let req: Option<u32> = if target_thread != current_thread && self.attached.is_none() {
            Option::Some(target_thread)
        } else {
            Option::None
        };
        AttachPlan { detach: det, attach: req }
    }

    /// Record the outcome of an attach attempt the front end performed.
    /// Attachment failure is non-fatal: focusing proceeds best-effort.
    pub fn complete_attach(&mut self, thread: u32, success: bool)
        requires
            old(self).attached is None,
        ensures
            *final(self) == (SessionState {
                attached: if success {
                    Some(thread)
                } else {
                    None
                },
                ..*old(self)
            }),
    {
        if success {
            self.attached = Option::Some(thread);
        }
    }

    /// Reverse the current attachment record, handing back the thread to
    /// detach from; a no-op when nothing is attached (detaching is
    /// idempotent).
    pub fn detach(&mut self) -> (r: Option<u32>)
        ensures
            r == old(self).attached,
            *final(self) == (SessionState { attached: None, ..*old(self) }),
    {
        let r = self.attached;
        self.attached = None;
        r
    }
}

/// Law: the single-flight guarantee.  A start that was accepted leaves the
/// session running, and any further start request before the unit finishes is
/// rejected with the session-running error and changes nothing — the first
/// session is unaffected.
pub proof fn lemma_start_single_flight(s: SessionState)
    requires
        spec_start(s).1 is Ok,
    ensures
        ({
            let s1 = spec_start(s).0;
            &&& s1.running
            &&& spec_start(s1).1 == Result::<u64, StartError>::Err(StartError::SessionRunning)
            &&& spec_start(s1).0 == s1
        }),
{
}

/// Law: cancelling is idempotent — a second (or any further) cancel leaves
/// exactly the state one cancel leaves.
pub proof fn lemma_cancel_idempotent(s: SessionState)
    ensures
        spec_cancel(spec_cancel(s)) == spec_cancel(s),
{
}

} // verus!
