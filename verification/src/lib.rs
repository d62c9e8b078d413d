//! A windowing-application runtime core: it maps a single-threaded platform
//! event loop onto a dynamic set of independently scheduled window workers.
//!
//! The crate models the coordination layer of such a runtime — the registry of
//! open windows, the bounded per-window mailbox protocol, the redraw-scheduling
//! state machine, the per-window cached attribute state, and the
//! shutdown/panic-isolation protocol — as verified state machines over plain
//! values. The platform backend (window creation, raw input delivery, thread
//! and channel plumbing) is an external collaborator driven by a thin
//! unverified adapter; every decision that adapter takes is computed here.

use vstd::prelude::*;

pub mod attributes;
pub mod dispatcher;
pub mod event;
pub mod mailbox;
pub mod redraw;
pub mod registry;
pub mod window;

verus! {

/// A message with an associated response type.
///
/// An application defines one implementation of this trait; the dispatcher
/// routes values of the implementing type from any thread to the main event
/// loop and pairs each with the response the application callback computes.
pub trait Message: Send + 'static {
    /// The message type that is able to be sent to individual windows.
    type Window: Send;
    /// The type returned when responding to this message.
    type Response: Send;
    /// The type that is communicated when an error occurs that the event
    /// loop/app should handle.
    type Error: Send;
}

impl Message for () {
    type Window = ();
    type Response = ();
    type Error = core::convert::Infallible;
}

} // verus!
