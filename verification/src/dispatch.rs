//! The background dispatch unit's line cycle.
//!
//! A dispatch session's background unit revalidates the target, focuses it
//! once, and then cycles: extract the caret's line, synthesize its key
//! events, hand them to the front end for injection, and advance.  In
//! continuous mode the abort flag is observed before each cycle and a fixed
//! inter-line delay follows each delivered line; single-line mode performs
//! exactly one cycle.  On every exit path the unit releases the single-flight
//! lock and restores the attachment it may have established while focusing.

use vstd::prelude::*;

use crate::buffer::Extraction;
use crate::buffer::TextBuffer;
use crate::buffer::cur_line_len;
use crate::buffer::cur_line_text;
use crate::buffer::cur_next_start;
use crate::buffer::extract_no_more;
use crate::buffer::extract_too_long;
use crate::keys::KeyEvent;
use crate::keys::line_events;
use crate::keys::line_key_events;
use crate::notify::MessageLog;
use crate::notify::Severity;
use crate::notify::show_error_message;
use crate::session::DispatchUnit;
use crate::session::Mode;
use crate::session::SessionState;

verus! {

/// Delay between two line cycles in continuous mode, in milliseconds: lets
/// the target settle before the next line.
pub const LINE_DELAY_MS: u64 = 200;

/// The message reported when the target fails its liveness check.
pub open spec fn target_invalid_text() -> Seq<char> {
    "target window no longer valid"@
}

/// The message reported when a line exceeds the length cap.
pub open spec fn line_too_long_text() -> Seq<char> {
    "line too long"@
}

/// The outcome of one line-send cycle.
pub enum LineSend {
    /// The line's events are ready for injection; `more` says whether a
    /// following line exists.
    Sent { events: Vec<KeyEvent>, more: bool },
    /// No further content at the caret.
    NoMore,
    /// The caret's line spans `length` characters, over the cap; reported,
    /// nothing delivered.
    TooLong { length: usize },
}

/// What one unit step asks the front end to do.
pub enum UnitStep {
    /// Inject these events, wait `LINE_DELAY_MS`, then step again.
    Deliver { events: Vec<KeyEvent> },
    /// Inject these events; the session is over (the single-flight lock is
    /// released) and the given attachment must be reversed.
    Last { events: Vec<KeyEvent>, detach: Option<u32> },
    /// Nothing to inject; the session is over for the given reason and the
    /// given attachment must be reversed.
    Stop { reason: StopReason, detach: Option<u32> },
}

/// Why a session stopped without delivering in its final cycle.
#[derive(Clone, Copy, PartialEq, Eq, Structural, Debug)]
pub enum StopReason {
    /// The abort flag was observed before the cycle began.
    Aborted,
    /// The extractor found no further content.
    EndOfContent,
    /// The caret's line exceeded the length cap (already reported).
    LineTooLong,
}

/// Extract the caret's line and turn it into key events: each character in
/// order, then one Enter.  A line over the cap is reported and delivers
/// nothing; the caret advances only with a successfully extracted line.
pub fn send_one_line(buf: &mut TextBuffer, log: &mut MessageLog) -> (r: LineSend)
    requires
        old(buf).wf(),
    ensures
        final(buf).wf(),
        final(buf).text() == old(buf).text(),
        ({
            let text = old(buf).text();
            let caret = old(buf).cursor();
            &&& (r is NoMore <==> extract_no_more(text, caret))
            &&& (r is TooLong <==> extract_too_long(text, caret))
            &&& (r matches LineSend::TooLong { length } ==> length == cur_line_len(text, caret)
                && final(log)@ == old(log)@.push((Severity::Error, line_too_long_text())))
            &&& (!(r is TooLong) ==> final(log)@ == old(log)@)
            &&& (r matches LineSend::Sent { events, more } ==> {
                &&& events@ == line_key_events(cur_line_text(text, caret))
                &&& (more <==> cur_next_start(text, caret) is Some)
                &&& (more ==> final(buf).cursor() == cur_next_start(text, caret)->Some_0)
                &&& (!more ==> final(buf).cursor() == caret)
            })
            &&& (!(r is Sent) ==> final(buf).cursor() == caret)
        }),
{
    match buf.extract_line() {
        Extraction::NoMore => LineSend::NoMore,
        Extraction::TooLong { length } => {
            show_error_message(log, "line too long");
            LineSend::TooLong { length }
        },
        Extraction::Line { text, next_caret } => {
            let events = line_events(&text);
            LineSend::Sent { events, more: next_caret.is_some() }
        },
    }
}

impl DispatchUnit {
    /// Revalidate the target's liveness before any focusing or sending.  The
    /// front end passes the result of the platform's window-validity query;
    /// an invalid target is reported with exactly one error and releases the
    /// single-flight lock — nothing has been delivered.
    pub fn check_target(
        &self,
        session: &mut SessionState,
        alive: bool,
        log: &mut MessageLog,
    ) -> (ok: bool)
        requires
            old(session).running,
        ensures
            ok == alive,
            alive ==> *final(session) == *old(session) && final(log)@ == old(log)@,
            !alive ==> *final(session) == (SessionState { running: false, ..*old(session) })
                && final(log)@ == old(log)@.push((Severity::Error, target_invalid_text())),
    {
        if alive {
            true
        } else {
            show_error_message(log, "target window no longer valid");
            session.running = false;
            false
        }
    }

    /// One cycle of the unit's loop.  In continuous mode the abort flag is
    /// observed first: a raised flag stops the session before any part of the
    /// next line is sent.  Otherwise the caret's line is extracted and turned
    /// into events; the session continues only in continuous mode with a
    /// following line.  Whenever the session ends, the single-flight lock is
    /// released and the attachment to reverse is handed back.
    pub fn step(
        &self,
        session: &mut SessionState,
        buf: &mut TextBuffer,
        log: &mut MessageLog,
    ) -> (r: UnitStep)
        requires
            old(session).running,
            old(buf).wf(),
        ensures
            final(buf).wf(),
            final(buf).text() == old(buf).text(),
            ({
                let text = old(buf).text();
                let caret = old(buf).cursor();
                let aborted = self.mode == Mode::Continuous && old(session).abort;
                let ended = (SessionState {
                    running: false,
                    attached: None,
                    ..*old(session)
                });
                &&& (aborted ==> {
                    &&& r matches UnitStep::Stop { reason, detach }
                    &&& reason == StopReason::Aborted
                    &&& detach == old(session).attached
                    &&& *final(session) == ended
                    &&& final(buf).cursor() == caret
                    &&& final(log)@ == old(log)@
                })
                &&& (!aborted && extract_no_more(text, caret) ==> {
                    &&& r matches UnitStep::Stop { reason, detach }
                    &&& reason == StopReason::EndOfContent
                    &&& detach == old(session).attached
                    &&& *final(session) == ended
                    &&& final(buf).cursor() == caret
                    &&& final(log)@ == old(log)@
                })
                &&& (!aborted && extract_too_long(text, caret) ==> {
                    &&& r matches UnitStep::Stop { reason, detach }
                    &&& reason == StopReason::LineTooLong
                    &&& detach == old(session).attached
                    &&& *final(session) == ended
                    &&& final(buf).cursor() == caret
                    &&& final(log)@ == old(log)@.push((Severity::Error, line_too_long_text()))
                })
                &&& (!aborted && !extract_no_more(text, caret) && !extract_too_long(text, caret)
                    ==> {
                    let events = line_key_events(cur_line_text(text, caret));
                    let more = cur_next_start(text, caret) is Some;
                    &&& (more ==> final(buf).cursor() == cur_next_start(text, caret)->Some_0)
                    &&& (!more ==> final(buf).cursor() == caret)
                    &&& final(log)@ == old(log)@
                    &&& (self.mode == Mode::Continuous && more ==> {
                        &&& r matches UnitStep::Deliver { events: evs }
                        &&& evs@ == events
                        &&& *final(session) == *old(session)
                    })
                    &&& (!(self.mode == Mode::Continuous && more) ==> {
                        &&& r matches UnitStep::Last { events: evs, detach }
                        &&& evs@ == events
                        &&& detach == old(session).attached
                        &&& *final(session) == ended
                    })
                })
            }),
    {
        let continuous = match self.mode {
            Mode::Continuous => true,
            Mode::Single => false,
        };
        if continuous && session.abort {
            let detach = session.attached;
            session.attached = None;
            session.running = false;
            return UnitStep::Stop { reason: StopReason::Aborted, detach };
        }
        match send_one_line(buf, log) {
            LineSend::NoMore => {
                let detach = session.attached;
                session.attached = None;
                session.running = false;
                UnitStep::Stop { reason: StopReason::EndOfContent, detach }
            },
            LineSend::TooLong { length: _ } => {
                let detach = session.attached;
                session.attached = None;
                session.running = false;
                UnitStep::Stop { reason: StopReason::LineTooLong, detach }
            },
            LineSend::Sent { events, more } => {
                if continuous && more {
                    UnitStep::Deliver { events }
                } else {
                    let detach = session.attached;
                    session.attached = None;
                    session.running = false;
                    UnitStep::Last { events, detach }
                }
            },
        }
    }
}

} // verus!
