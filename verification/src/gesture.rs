//! The drag-to-bind gesture controller.
//!
//! A press on the bind affordance starts a drag: pointer input is captured so
//! moves outside the affordance still reach it, and moves produce no UI
//! effect.  The release ends the drag; the front end resolves the release
//! point to the top-level window under it (walking any child window up to its
//! root and checking liveness) and hands the result in.  A resolved window
//! replaces the bound target — tearing down any active input-queue attachment
//! first — and a failed resolution leaves the target unchanged.  All other
//! gestures pass through to the affordance's default handling.

use vstd::prelude::*;

use crate::notify::MessageLog;
use crate::notify::Severity;
use crate::notify::show_error_message;
use crate::notify::show_message;
use crate::session::SessionState;

verus! {

/// A pointer gesture on the bind affordance, as the front end reports it.
#[derive(Clone, Copy, PartialEq, Eq, Structural, Debug)]
pub enum GestureEvent {
    /// Primary button pressed on the affordance.
    PrimaryDown,
    /// Pointer moved.
    PointerMove,
    /// Primary button released; `resolved` is the top-level window under the
    /// release point, if the locator found a live one.
    PrimaryUp { resolved: Option<u64> },
    /// Any other gesture.
    Other,
}

/// What the front end must do after handling a gesture.
#[derive(Clone, Copy, PartialEq, Eq, Structural, Debug)]
pub struct GestureResponse {
    /// Capture all pointer input to the affordance.
    pub capture: bool,
    /// Release the pointer capture.
    pub release_capture: bool,
    /// Reverse the input-queue attachment to this thread.
    pub detach: Option<u32>,
    /// Hand the event on to the affordance's default handling.
    pub pass_through: bool,
}

/// The bind affordance's gesture state.
pub struct DragController {
    /// True while a bind gesture is in progress; gates pointer-move handling
    /// and nothing else.
    pub dragging: bool,
}

/// The message reported when a new target is bound.
pub open spec fn target_bound_text() -> Seq<char> {
    "target window bound"@
}

/// The message reported when the release point resolves to no live window.
pub open spec fn no_window_text() -> Seq<char> {
    "no window under the release point"@
}

/// The gesture state machine: press starts a drag and captures the pointer;
/// moves during a drag are consumed; the release ends the drag and installs
/// the resolved target, detaching any active attachment first; everything
/// else passes through.
pub open spec fn spec_gesture(c: DragController, s: SessionState, ev: GestureEvent) -> (
    DragController,
    SessionState,
    GestureResponse,
) {
    let pass = GestureResponse { capture: false, release_capture: false, detach: None, pass_through: true };
    match ev {
        GestureEvent::PrimaryDown => (
            DragController { dragging: true },
            s,
            GestureResponse { capture: true, release_capture: false, detach: None, pass_through: true },
        ),
        GestureEvent::PointerMove => if c.dragging {
            (c, s, GestureResponse { capture: false, release_capture: false, detach: None, pass_through: false })
        } else {
            (c, s, pass)
        },
        GestureEvent::PrimaryUp { resolved } => if c.dragging {
            match resolved {
                Option::Some(h) => (
                    DragController { dragging: false },
                    SessionState { target: Some(h), attached: None, ..s },
                    GestureResponse {
                        capture: false,
                        release_capture: true,
                        detach: s.attached,
                        pass_through: true,
                    },
                ),
                Option::None => (
                    DragController { dragging: false },
                    s,
                    GestureResponse {
                        capture: false,
                        release_capture: true,
                        detach: None,
                        pass_through: true,
                    },
                ),
            }
        } else {
            (c, s, pass)
        },
        GestureEvent::Other => (c, s, pass),
    }
}

impl DragController {
    pub fn new() -> (c: DragController)
        ensures
            !c.dragging,
    {
        DragController { dragging: false }
    }

    /// Handle one gesture on the bind affordance.  A successful bind is
    /// reported as an informational message, a failed resolution as an
    /// error; no other gesture touches the log.
    pub fn handle_gesture(
        &mut self,
        session: &mut SessionState,
        ev: GestureEvent,
        log: &mut MessageLog,
    ) -> (r: GestureResponse)
        ensures
            *final(self) == spec_gesture(*old(self), *old(session), ev).0,
            *final(session) == spec_gesture(*old(self), *old(session), ev).1,
            r == spec_gesture(*old(self), *old(session), ev).2,
            ({
                let binding = old(self).dragging && ev matches GestureEvent::PrimaryUp { .. };
                &&& ((binding && ev matches GestureEvent::PrimaryUp { resolved: Some(_) })
                    ==> final(log)@ == old(log)@.push((Severity::Info, target_bound_text())))
                &&& ((binding && ev matches GestureEvent::PrimaryUp { resolved: None })
                    ==> final(log)@ == old(log)@.push((Severity::Error, no_window_text())))
                &&& (!binding ==> final(log)@ == old(log)@)
            }),
    {
        let pass = GestureResponse {
            capture: false,
            release_capture: false,
            detach: None,
            pass_through: true,
        };
        match ev {
            GestureEvent::PrimaryDown => {
                self.dragging = true;
                GestureResponse {
                    capture: true,
                    release_capture: false,
                    detach: None,
                    pass_through: true,
                }
            },
            GestureEvent::PointerMove => {
                if self.dragging {
                    GestureResponse {
                        capture: false,
                        release_capture: false,
                        detach: None,
                        pass_through: false,
                    }
                } else {
                    pass
                }
            },
            GestureEvent::PrimaryUp { resolved } => {
                if self.dragging {
                    self.dragging = false;
                    match resolved {
                        Option::Some(h) => {
                            let detach = session.attached;
                            session.attached = None;
                            session.target = Option::Some(h);
                            show_message(log, "target window bound");
                            GestureResponse {
                                capture: false,
                                release_capture: true,
                                detach,
                                pass_through: true,
                            }
                        },
                        Option::None => {
                            show_error_message(log, "no window under the release point");
                            GestureResponse {
                                capture: false,
                                release_capture: true,
                                detach: None,
                                pass_through: true,
                            }
                        },
                    }
                } else {
                    pass
                }
            },
            GestureEvent::Other => pass,
        }
    }
}

/// Law: binding a new target while an attachment is active tears the old
/// attachment down exactly once, and the following focus pass requests at
/// most one attach — of the new target's thread — while the state never
/// records two attachments at once (it holds at most one, and none between
/// the detach and a successful attach).
pub proof fn lemma_rebind_single_detach(
    c: DragController,
    s: SessionState,
    h: u64,
    current_thread: u32,
    target_thread: u32,
)
    requires
        c.dragging,
        s.attached is Some,
    ensures
        ({
            let (c1, s1, r1) = spec_gesture(c, s, GestureEvent::PrimaryUp { resolved: Some(h) });
            let (s2, plan) = crate::session::spec_begin_attach(s1, current_thread, target_thread);
            &&& r1.detach == s.attached
            &&& s1.attached is None
            &&& plan.detach is None
            &&& (plan.attach is Some ==> plan.attach == Some(target_thread))
            &&& s2.attached is None
        }),
{
}

} // verus!
