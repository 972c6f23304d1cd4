//! User-visible status reporting.
//!
//! The engine reports every success and failure through a message log: an
//! append-only sequence of notifications, each an informational or error
//! message.  The front end renders the log in its status box; the engine only
//! ever appends.

use vstd::prelude::*;

verus! {

/// How a notification should be presented.
#[derive(Clone, Copy, PartialEq, Eq, Structural, Debug)]
pub enum Severity {
    Info,
    Error,
}

/// One user-visible message.
pub struct Notification {
    pub severity: Severity,
    pub text: String,
}

impl Notification {
    pub open spec fn view(&self) -> (Severity, Seq<char>) {
        (self.severity, self.text@)
    }
}

/// An append-only log of notifications, the engine's only feedback channel.
pub struct MessageLog {
    entries: Vec<Notification>,
}

impl MessageLog {
    /// The log as a sequence of (severity, message) pairs.
    pub closed spec fn view(&self) -> Seq<(Severity, Seq<char>)> {
        self.entries@.map_values(|n: Notification| n.view())
    }

    pub fn new() -> (log: MessageLog)
        ensures
            log@ == Seq::<(Severity, Seq<char>)>::empty(),
    {
        let log = MessageLog { entries: Vec::new() };
        proof {
            assert(log@ =~= Seq::<(Severity, Seq<char>)>::empty());
        }
        log
    }

    pub fn len(&self) -> (n: usize)
        ensures
            n == self@.len(),
    {
        self.entries.len()
    }

    pub fn entry(&self, i: usize) -> (n: &Notification)
        requires
            i < self@.len(),
        ensures
            n.view() == self@[i as int],
    {
        &self.entries[i]
    }

    /// Append one notification.
    pub fn append(&mut self, severity: Severity, msg: &str)
        ensures
            final(self)@ == old(self)@.push((severity, msg@)),
    {
        let text = msg.to_owned();
        self.entries.push(Notification { severity, text });
        proof {
            assert(self@ =~= old(self)@.push((severity, msg@)));
        }
    }
}

/// Report an informational message to the operator.
pub fn show_message(log: &mut MessageLog, msg: &str)
    ensures
        final(log)@ == old(log)@.push((Severity::Info, msg@)),
{
    log.append(Severity::Info, msg);
}

/// Report an error message to the operator.
pub fn show_error_message(log: &mut MessageLog, msg: &str)
    ensures
        final(log)@ == old(log)@.push((Severity::Error, msg@)),
{
    log.append(Severity::Error, msg);
}

} // verus!
