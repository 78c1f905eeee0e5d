//! The safe core of a binding to GLib's error reporting and quark interning.
//!
//! GLib reports an error as a heap record holding a domain (a quark), a code
//! and a message, and interns strings into quarks through a process-wide
//! registry. This crate holds the rules that sit between those native calls:
//! when a cached quark is asked for again, how a message of unknown encoding
//! becomes text, how a record is classified against a typed error domain.
//!
//! Nothing here calls into GLib. Every operation that needs the native
//! library takes that one call as a function argument, and its contract is
//! stated in terms of whatever that function may return. The embedding
//! supplies the foreign calls; a test supplies a stand-in.

pub mod error;
pub mod quark;
pub mod text;
