//! Target-binding and keystroke-injection engine.
//!
//! An operator composes multi-line text in an editable buffer and replays it,
//! line by line, as synthetic keyboard input directed at a foreign top-level
//! window bound through a drag gesture.  This crate holds the verified core of
//! that engine: the line-addressable buffer model and line extractor, the
//! key-event synthesis for one line of text, the input-queue attachment and
//! focus state machines, the single-flight send coordinator, and the
//! drag-to-bind gesture controller.  The operating-system calls themselves
//! (window lookup, queue attachment, event injection, pacing sleeps) are left
//! to the embedding front end, which performs each action this library decides
//! on and feeds the observed outcome back in.

pub mod buffer;
pub mod dispatch;
pub mod focus;
pub mod gesture;
pub mod keys;
pub mod notify;
pub mod session;
pub mod wide;
